//! Element and data segments.

use super::ops::{InitExpr, InstructionView};
use super::primitives::{unwrap_var_uint32s, CountedList, VarUint32};
use super::{Decoded, Deserialize, Error};
use crate::io::BufReader;
use vstd::prelude::*;

verus! {

/// Entry in the element section.
#[derive(Debug, Clone, PartialEq)]
pub struct ElementSegment {
    pub index: u32,
    pub offset: Option<InitExpr>,
    pub members: Vec<u32>,
}

/// An element segment as a mathematical value.
pub struct ElementSegmentView {
    pub index: u32,
    pub offset: Option<Seq<InstructionView>>,
    pub members: Seq<u32>,
}

impl View for ElementSegment {
    type V = ElementSegmentView;

    open spec fn view(&self) -> ElementSegmentView {
        ElementSegmentView {
            index: self.index,
            offset: match self.offset {
                Some(e) => Some(e@),
                None => None,
            },
            members: self.members@,
        }
    }
}

impl Deserialize for ElementSegment {
    /// The index of a table, the expression that gives the offset, and the
    /// counted indices of the functions that fill the table from there.
    open spec fn spec_deserialize(input: Seq<u8>, pos: int) -> Decoded<ElementSegmentView> {
        match VarUint32::spec_deserialize(input, pos) {
            Ok((index, pa)) => match InitExpr::spec_deserialize(input, pa) {
                Ok((offset, pb)) => match CountedList::<VarUint32>::spec_deserialize(input, pb) {
                    Ok((members, end)) => Ok(
                        (ElementSegmentView { index, offset: Some(offset), members }, end),
                    ),
                    Err(e) => Err(e),
                },
                Err(e) => Err(e),
            },
            Err(e) => Err(e),
        }
    }

    proof fn lemma_deserialize_bounds(input: Seq<u8>, pos: int) {
        VarUint32::lemma_deserialize_bounds(input, pos);
        if let Ok((index, pa)) = VarUint32::spec_deserialize(input, pos) {
            InitExpr::lemma_deserialize_bounds(input, pa);
            if let Ok((offset, pb)) = InitExpr::spec_deserialize(input, pa) {
                CountedList::<VarUint32>::lemma_deserialize_bounds(input, pb);
            }
        }
    }

    fn deserialize(reader: &mut BufReader) -> (r: Result<ElementSegment, Error>) {
        let index = VarUint32::deserialize(reader)?.0;
        let offset = InitExpr::deserialize(reader)?;
        let members = unwrap_var_uint32s(CountedList::<VarUint32>::deserialize(reader)?);
        Ok(ElementSegment { index, offset: Some(offset), members })
    }
}

/// Data segment definition.
#[derive(Clone, Debug, PartialEq)]
pub struct DataSegment {
    pub index: u32,
    pub offset: Option<InitExpr>,
    pub value: Vec<u8>,
}

/// A data segment as a mathematical value.
pub struct DataSegmentView {
    pub index: u32,
    pub offset: Option<Seq<InstructionView>>,
    pub value: Seq<u8>,
}

impl View for DataSegment {
    type V = DataSegmentView;

    open spec fn view(&self) -> DataSegmentView {
        DataSegmentView {
            index: self.index,
            offset: match self.offset {
                Some(e) => Some(e@),
                None => None,
            },
            value: self.value@,
        }
    }
}

impl Deserialize for DataSegment {
    /// The index of a memory, the expression that gives the offset, a
    /// `VarUint32` length, and that many bytes.
    open spec fn spec_deserialize(input: Seq<u8>, pos: int) -> Decoded<DataSegmentView> {
        match VarUint32::spec_deserialize(input, pos) {
            Ok((index, pa)) => match InitExpr::spec_deserialize(input, pa) {
                Ok((offset, pb)) => match VarUint32::spec_deserialize(input, pb) {
                    Ok((len, start)) => if start + len <= input.len() {
                        Ok(
                            (
                                DataSegmentView {
                                    index,
                                    offset: Some(offset),
                                    value: input.subrange(start, start + len),
                                },
                                start + len,
                            ),
                        )
                    } else {
                        Err((Error::UnexpectedEof, start))
                    },
                    Err(e) => Err(e),
                },
                Err(e) => Err(e),
            },
            Err(e) => Err(e),
        }
    }

    proof fn lemma_deserialize_bounds(input: Seq<u8>, pos: int) {
        VarUint32::lemma_deserialize_bounds(input, pos);
        if let Ok((index, pa)) = VarUint32::spec_deserialize(input, pos) {
            InitExpr::lemma_deserialize_bounds(input, pa);
            if let Ok((offset, pb)) = InitExpr::spec_deserialize(input, pa) {
                VarUint32::lemma_deserialize_bounds(input, pb);
            }
        }
    }

    fn deserialize(reader: &mut BufReader) -> (r: Result<DataSegment, Error>) {
        let index = VarUint32::deserialize(reader)?.0;
        let offset = InitExpr::deserialize(reader)?;
        let value_len = VarUint32::deserialize(reader)?.0 as usize;
        let value = reader.read_exact(value_len)?;
        Ok(DataSegment { index, offset: Some(offset), value })
    }
}

} // verus!
