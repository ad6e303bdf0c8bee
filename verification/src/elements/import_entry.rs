//! Imports and the types that describe what is imported.

use super::primitives::{Uint8, VarUint1, VarUint32};
use super::types::{TableElementType, ValueType};
use super::{Decoded, Deserialize, Error};
use crate::io::BufReader;
use vstd::prelude::*;

verus! {

/// Limits of a table or a memory: the initial size and, where the flag byte
/// says so, a maximum.
#[derive(Debug, Copy, Clone, PartialEq)]
pub struct ResizableLimits {
    pub initial: u32,
    pub maximum: Option<u32>,
}

impl View for ResizableLimits {
    type V = ResizableLimits;

    open spec fn view(&self) -> ResizableLimits {
        *self
    }
}

impl Deserialize for ResizableLimits {
    /// A flag byte that is 0 or 1, the initial size, and the maximum exactly
    /// where the flag byte is 1.
    open spec fn spec_deserialize(input: Seq<u8>, pos: int) -> Decoded<ResizableLimits> {
        match Uint8::spec_deserialize(input, pos) {
            Ok((flags, pa)) => if flags > 1 {
                Err((Error::InvalidLimitsFlags(flags), pa))
            } else {
                match VarUint32::spec_deserialize(input, pa) {
                    Ok((initial, pb)) => if flags == 1 {
                        match VarUint32::spec_deserialize(input, pb) {
                            Ok((maximum, end)) => Ok(
                                (ResizableLimits { initial, maximum: Some(maximum) }, end),
                            ),
                            Err(e) => Err(e),
                        }
                    } else {
                        Ok((ResizableLimits { initial, maximum: None }, pb))
                    },
                    Err(e) => Err(e),
                }
            },
            Err(e) => Err(e),
        }
    }

    proof fn lemma_deserialize_bounds(input: Seq<u8>, pos: int) {
        if let Ok((flags, pa)) = Uint8::spec_deserialize(input, pos) {
            VarUint32::lemma_deserialize_bounds(input, pa);
            if let Ok((initial, pb)) = VarUint32::spec_deserialize(input, pa) {
                VarUint32::lemma_deserialize_bounds(input, pb);
            }
        }
    }

    fn deserialize(reader: &mut BufReader) -> (r: Result<ResizableLimits, Error>) {
        let flags = Uint8::deserialize(reader)?.0;
        match flags {
            0x00 | 0x01 => {},
            _ => return Err(Error::InvalidLimitsFlags(flags)),
        }
        let initial = VarUint32::deserialize(reader)?.0;
        let maximum = if flags == 0x01 {
            Some(VarUint32::deserialize(reader)?.0)
        } else {
            None
        };
        Ok(ResizableLimits { initial, maximum })
    }
}

/// Type of a table: the kind of its elements and its limits.
#[derive(Debug, Copy, Clone, PartialEq)]
pub struct TableType {
    pub elem_type: TableElementType,
    pub limits: ResizableLimits,
}

impl View for TableType {
    type V = TableType;

    open spec fn view(&self) -> TableType {
        *self
    }
}

impl Deserialize for TableType {
    /// The element kind, then the limits.
    open spec fn spec_deserialize(input: Seq<u8>, pos: int) -> Decoded<TableType> {
        match TableElementType::spec_deserialize(input, pos) {
            Ok((elem_type, pa)) => match ResizableLimits::spec_deserialize(input, pa) {
                Ok((limits, end)) => Ok((TableType { elem_type, limits }, end)),
                Err(e) => Err(e),
            },
            Err(e) => Err(e),
        }
    }

    proof fn lemma_deserialize_bounds(input: Seq<u8>, pos: int) {
        if let Ok((elem_type, pa)) = TableElementType::spec_deserialize(input, pos) {
            ResizableLimits::lemma_deserialize_bounds(input, pa);
        }
    }

    fn deserialize(reader: &mut BufReader) -> (r: Result<TableType, Error>) {
        let elem_type = TableElementType::deserialize(reader)?;
        let limits = ResizableLimits::deserialize(reader)?;
        Ok(TableType { elem_type, limits })
    }
}

/// Type of a global: the type of its content and whether it can change.
#[derive(Debug, Copy, Clone, PartialEq)]
pub struct GlobalType {
    pub content_type: ValueType,
    pub is_mutable: bool,
}

impl View for GlobalType {
    type V = GlobalType;

    open spec fn view(&self) -> GlobalType {
        *self
    }
}

impl Deserialize for GlobalType {
    /// The content type, then the mutability, a `VarUint1`.
    open spec fn spec_deserialize(input: Seq<u8>, pos: int) -> Decoded<GlobalType> {
        match ValueType::spec_deserialize(input, pos) {
            Ok((content_type, pa)) => match VarUint1::spec_deserialize(input, pa) {
                Ok((is_mutable, end)) => Ok((GlobalType { content_type, is_mutable }, end)),
                Err(e) => Err(e),
            },
            Err(e) => Err(e),
        }
    }

    proof fn lemma_deserialize_bounds(input: Seq<u8>, pos: int) {
    }

    fn deserialize(reader: &mut BufReader) -> (r: Result<GlobalType, Error>) {
        let content_type = ValueType::deserialize(reader)?;
        let is_mutable = VarUint1::deserialize(reader)?.0;
        Ok(GlobalType { content_type, is_mutable })
    }
}

/// What an import stands for.
#[derive(Debug, Clone, PartialEq)]
pub enum External {
    /// A function, by the index of its type.
    Function(u32),
    /// A table.
    Table(TableType),
    /// A memory.
    Memory(ResizableLimits),
    /// A global.
    Global(GlobalType),
}

impl View for External {
    type V = External;

    open spec fn view(&self) -> External {
        *self
    }
}

impl Deserialize for External {
    /// A kind byte from 0 to 3, then what the kind asks for: a type index, a
    /// table type, the limits of a memory, or a global type.
    open spec fn spec_deserialize(input: Seq<u8>, pos: int) -> Decoded<External> {
        match Uint8::spec_deserialize(input, pos) {
            Ok((kind, pa)) => if kind == 0 {
                match VarUint32::spec_deserialize(input, pa) {
                    Ok((index, end)) => Ok((External::Function(index), end)),
                    Err(e) => Err(e),
                }
            } else if kind == 1 {
                match TableType::spec_deserialize(input, pa) {
                    Ok((table, end)) => Ok((External::Table(table), end)),
                    Err(e) => Err(e),
                }
            } else if kind == 2 {
                match ResizableLimits::spec_deserialize(input, pa) {
                    Ok((limits, end)) => Ok((External::Memory(limits), end)),
                    Err(e) => Err(e),
                }
            } else if kind == 3 {
                match GlobalType::spec_deserialize(input, pa) {
                    Ok((global, end)) => Ok((External::Global(global), end)),
                    Err(e) => Err(e),
                }
            } else {
                Err((Error::UnknownExternalKind(kind), pa))
            },
            Err(e) => Err(e),
        }
    }

    proof fn lemma_deserialize_bounds(input: Seq<u8>, pos: int) {
        if let Ok((kind, pa)) = Uint8::spec_deserialize(input, pos) {
            VarUint32::lemma_deserialize_bounds(input, pa);
            TableType::lemma_deserialize_bounds(input, pa);
            ResizableLimits::lemma_deserialize_bounds(input, pa);
            GlobalType::lemma_deserialize_bounds(input, pa);
        }
    }

    fn deserialize(reader: &mut BufReader) -> (r: Result<External, Error>) {
        let kind = Uint8::deserialize(reader)?.0;
        match kind {
            0x00 => Ok(External::Function(VarUint32::deserialize(reader)?.0)),
            0x01 => Ok(External::Table(TableType::deserialize(reader)?)),
            0x02 => Ok(External::Memory(ResizableLimits::deserialize(reader)?)),
            0x03 => Ok(External::Global(GlobalType::deserialize(reader)?)),
            _ => Err(Error::UnknownExternalKind(kind)),
        }
    }
}

/// An import: the names of the module and of the field, and what is imported.
#[derive(Debug, Clone, PartialEq)]
pub struct ImportEntry {
    pub module_str: String,
    pub field_str: String,
    pub external: External,
}

/// An import as a mathematical value.
pub struct ImportEntryView {
    pub module_str: Seq<char>,
    pub field_str: Seq<char>,
    pub external: External,
}

impl View for ImportEntry {
    type V = ImportEntryView;

    open spec fn view(&self) -> ImportEntryView {
        ImportEntryView {
            module_str: self.module_str@,
            field_str: self.field_str@,
            external: self.external,
        }
    }
}

impl Deserialize for ImportEntry {
    /// The module name, the field name, and what is imported.
    open spec fn spec_deserialize(input: Seq<u8>, pos: int) -> Decoded<ImportEntryView> {
        match String::spec_deserialize(input, pos) {
            Ok((module_str, pa)) => match String::spec_deserialize(input, pa) {
                Ok((field_str, pb)) => match External::spec_deserialize(input, pb) {
                    Ok((external, end)) => Ok(
                        (ImportEntryView { module_str, field_str, external }, end),
                    ),
                    Err(e) => Err(e),
                },
                Err(e) => Err(e),
            },
            Err(e) => Err(e),
        }
    }

    proof fn lemma_deserialize_bounds(input: Seq<u8>, pos: int) {
        String::lemma_deserialize_bounds(input, pos);
        if let Ok((module_str, pa)) = String::spec_deserialize(input, pos) {
            String::lemma_deserialize_bounds(input, pa);
            if let Ok((field_str, pb)) = String::spec_deserialize(input, pa) {
                External::lemma_deserialize_bounds(input, pb);
            }
        }
    }

    fn deserialize(reader: &mut BufReader) -> (r: Result<ImportEntry, Error>) {
        let module_str = String::deserialize(reader)?;
        let field_str = String::deserialize(reader)?;
        let external = External::deserialize(reader)?;
        Ok(ImportEntry { module_str, field_str, external })
    }
}

} // verus!
