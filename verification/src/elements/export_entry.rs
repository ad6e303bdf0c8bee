//! Exports.

use super::primitives::{VarUint32, VarUint7};
use super::{Decoded, Deserialize, Error};
use crate::io::BufReader;
use vstd::prelude::*;

verus! {

/// Internal reference of the exported entry.
#[derive(Debug, Clone, Copy, PartialEq)]
pub enum Internal {
    /// Function reference.
    Function(u32),
    /// Table reference.
    Table(u32),
    /// Memory reference.
    Memory(u32),
    /// Global reference.
    Global(u32),
}

impl View for Internal {
    type V = Internal;

    open spec fn view(&self) -> Internal {
        *self
    }
}

impl Deserialize for Internal {
    /// A `VarUint7` kind from 0 to 3, then the index of what is exported.
    open spec fn spec_deserialize(input: Seq<u8>, pos: int) -> Decoded<Internal> {
        match VarUint7::spec_deserialize(input, pos) {
            Ok((kind, pa)) => if kind > 3 {
                Err((Error::UnknownInternalKind(kind), pa))
            } else {
                match VarUint32::spec_deserialize(input, pa) {
                    Ok((index, end)) => Ok(
                        (
                            if kind == 0 {
                                Internal::Function(index)
                            } else if kind == 1 {
                                Internal::Table(index)
                            } else if kind == 2 {
                                Internal::Memory(index)
                            } else {
                                Internal::Global(index)
                            },
                            end,
                        ),
                    ),
                    Err(e) => Err(e),
                }
            },
            Err(e) => Err(e),
        }
    }

    proof fn lemma_deserialize_bounds(input: Seq<u8>, pos: int) {
        if let Ok((kind, pa)) = VarUint7::spec_deserialize(input, pos) {
            VarUint32::lemma_deserialize_bounds(input, pa);
        }
    }

    fn deserialize(reader: &mut BufReader) -> (r: Result<Internal, Error>) {
        let kind = VarUint7::deserialize(reader)?.0;
        match kind {
            0x00 => Ok(Internal::Function(VarUint32::deserialize(reader)?.0)),
            0x01 => Ok(Internal::Table(VarUint32::deserialize(reader)?.0)),
            0x02 => Ok(Internal::Memory(VarUint32::deserialize(reader)?.0)),
            0x03 => Ok(Internal::Global(VarUint32::deserialize(reader)?.0)),
            _ => Err(Error::UnknownInternalKind(kind)),
        }
    }
}

/// Export entry.
#[derive(Debug, Clone, PartialEq)]
pub struct ExportEntry {
    pub field_str: String,
    pub internal: Internal,
}

/// An export as a mathematical value.
pub struct ExportEntryView {
    pub field_str: Seq<char>,
    pub internal: Internal,
}

impl View for ExportEntry {
    type V = ExportEntryView;

    open spec fn view(&self) -> ExportEntryView {
        ExportEntryView { field_str: self.field_str@, internal: self.internal }
    }
}

impl Deserialize for ExportEntry {
    /// The name, then what is exported under it.
    open spec fn spec_deserialize(input: Seq<u8>, pos: int) -> Decoded<ExportEntryView> {
        match String::spec_deserialize(input, pos) {
            Ok((field_str, pa)) => match Internal::spec_deserialize(input, pa) {
                Ok((internal, end)) => Ok((ExportEntryView { field_str, internal }, end)),
                Err(e) => Err(e),
            },
            Err(e) => Err(e),
        }
    }

    proof fn lemma_deserialize_bounds(input: Seq<u8>, pos: int) {
        String::lemma_deserialize_bounds(input, pos);
        if let Ok((field_str, pa)) = String::spec_deserialize(input, pos) {
            Internal::lemma_deserialize_bounds(input, pa);
        }
    }

    fn deserialize(reader: &mut BufReader) -> (r: Result<ExportEntry, Error>) {
        let field_str = String::deserialize(reader)?;
        let internal = Internal::deserialize(reader)?;
        Ok(ExportEntry { field_str, internal })
    }
}

} // verus!
