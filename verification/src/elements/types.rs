//! Value types, block types, table element types and function signatures.

use super::primitives::{CountedList, VarInt7, VarUint7};
use super::{views, Decoded, Deserialize, Error};
use crate::io::BufReader;
use vstd::prelude::*;

verus! {

/// Type of a value.
#[derive(Clone, Copy, Debug, PartialEq, Eq, Hash)]
pub enum ValueType {
    /// 32-bit signed integer
    I32,
    /// 64-bit signed integer
    I64,
    /// 32-bit float
    F32,
    /// 64-bit float
    F64,
}

impl ValueType {
    /// The value type that the code `code` stands for, if it stands for one.
    pub open spec fn from_code(code: i8) -> Option<ValueType> {
        if code == -1 {
            Some(ValueType::I32)
        } else if code == -2 {
            Some(ValueType::I64)
        } else if code == -3 {
            Some(ValueType::F32)
        } else if code == -4 {
            Some(ValueType::F64)
        } else {
            None
        }
    }
}

impl View for ValueType {
    type V = ValueType;

    open spec fn view(&self) -> ValueType {
        *self
    }
}

impl Deserialize for ValueType {
    /// A `VarInt7` that is one of the codes -1 to -4.
    open spec fn spec_deserialize(input: Seq<u8>, pos: int) -> Decoded<ValueType> {
        match VarInt7::spec_deserialize(input, pos) {
            Ok((code, end)) => match ValueType::from_code(code) {
                Some(t) => Ok((t, end)),
                None => Err((Error::UnknownValueType(code), end)),
            },
            Err(e) => Err(e),
        }
    }

    proof fn lemma_deserialize_bounds(input: Seq<u8>, pos: int) {
    }

    fn deserialize(reader: &mut BufReader) -> (r: Result<ValueType, Error>) {
        let val = VarInt7::deserialize(reader)?.0;
        match val {
            -1 => Ok(ValueType::I32),
            -2 => Ok(ValueType::I64),
            -3 => Ok(ValueType::F32),
            -4 => Ok(ValueType::F64),
            _ => Err(Error::UnknownValueType(val)),
        }
    }
}

/// Type of the value that a block leaves behind.
#[derive(Clone, Copy, Debug, PartialEq, Eq, Hash)]
pub enum BlockType {
    /// The block leaves a value of this type.
    Value(ValueType),
    /// The block leaves nothing.
    NoResult,
}

impl View for BlockType {
    type V = BlockType;

    open spec fn view(&self) -> BlockType {
        *self
    }
}

impl Deserialize for BlockType {
    /// A `VarInt7` that is -0x40, for no result, or the code of a value type.
    open spec fn spec_deserialize(input: Seq<u8>, pos: int) -> Decoded<BlockType> {
        match VarInt7::spec_deserialize(input, pos) {
            Ok((code, end)) => if code == -0x40 {
                Ok((BlockType::NoResult, end))
            } else {
                match ValueType::from_code(code) {
                    Some(t) => Ok((BlockType::Value(t), end)),
                    None => Err((Error::UnknownValueType(code), end)),
                }
            },
            Err(e) => Err(e),
        }
    }

    proof fn lemma_deserialize_bounds(input: Seq<u8>, pos: int) {
    }

    fn deserialize(reader: &mut BufReader) -> (r: Result<BlockType, Error>) {
        let val = VarInt7::deserialize(reader)?.0;
        match val {
            -0x40 => Ok(BlockType::NoResult),
            -1 => Ok(BlockType::Value(ValueType::I32)),
            -2 => Ok(BlockType::Value(ValueType::I64)),
            -3 => Ok(BlockType::Value(ValueType::F32)),
            -4 => Ok(BlockType::Value(ValueType::F64)),
            _ => Err(Error::UnknownValueType(val)),
        }
    }
}

/// Function signature type.
#[derive(Debug, Clone, PartialEq, Hash, Eq)]
pub struct FunctionType {
    pub form: u8,
    pub params: Vec<ValueType>,
    pub results: Vec<ValueType>,
}

/// A function signature as a mathematical value.
pub struct FunctionTypeView {
    pub form: u8,
    pub params: Seq<ValueType>,
    pub results: Seq<ValueType>,
}

impl View for FunctionType {
    type V = FunctionTypeView;

    open spec fn view(&self) -> FunctionTypeView {
        FunctionTypeView {
            form: self.form,
            params: views(self.params@),
            results: views(self.results@),
        }
    }
}

impl Default for FunctionType {
    fn default() -> (r: FunctionType)
        ensures
            r.form == 0,
            r.params@.len() == 0,
            r.results@.len() == 0,
    {
        FunctionType { form: 0, params: Vec::new(), results: Vec::new() }
    }
}

impl Deserialize for FunctionType {
    /// The form byte 0x60, the counted parameter types, and the counted
    /// result types, of which there is at most one.
    open spec fn spec_deserialize(input: Seq<u8>, pos: int) -> Decoded<FunctionTypeView> {
        match VarUint7::spec_deserialize(input, pos) {
            Ok((form, pa)) => if form != 0x60 {
                Err((Error::UnknownFunctionForm(form), pa))
            } else {
                match CountedList::<ValueType>::spec_deserialize(input, pa) {
                    Ok((params, pb)) => match CountedList::<ValueType>::spec_deserialize(
                        input,
                        pb,
                    ) {
                        Ok((results, end)) => if results.len() > 1 {
                            Err(
                                (
                                    Error::Other(
                                        "Enable the multi_value feature to deserialize more than one function result",
                                    ),
                                    end,
                                ),
                            )
                        } else {
                            Ok((FunctionTypeView { form, params, results }, end))
                        },
                        Err(e) => Err(e),
                    },
                    Err(e) => Err(e),
                }
            },
            Err(e) => Err(e),
        }
    }

    proof fn lemma_deserialize_bounds(input: Seq<u8>, pos: int) {
        if let Ok((form, pa)) = VarUint7::spec_deserialize(input, pos) {
            CountedList::<ValueType>::lemma_deserialize_bounds(input, pa);
            if let Ok((params, pb)) = CountedList::<ValueType>::spec_deserialize(input, pa) {
                CountedList::<ValueType>::lemma_deserialize_bounds(input, pb);
            }
        }
    }

    fn deserialize(reader: &mut BufReader) -> (r: Result<FunctionType, Error>) {
        let form = VarUint7::deserialize(reader)?.0;
        if form != 0x60 {
            return Err(Error::UnknownFunctionForm(form));
        }
        let params = CountedList::<ValueType>::deserialize(reader)?.into_inner();
        let results = CountedList::<ValueType>::deserialize(reader)?.into_inner();
        if results.len() > 1 {
            return Err(
                Error::Other(
                    "Enable the multi_value feature to deserialize more than one function result",
                ),
            );
        }
        Ok(FunctionType { form, params, results })
    }
}

/// Type of the elements of a table.
#[derive(Clone, Copy, Debug, PartialEq)]
pub enum TableElementType {
    /// A reference to a function with any signature.
    AnyFunc,
}

impl View for TableElementType {
    type V = TableElementType;

    open spec fn view(&self) -> TableElementType {
        *self
    }
}

impl Deserialize for TableElementType {
    /// The `VarInt7` -0x10.
    open spec fn spec_deserialize(input: Seq<u8>, pos: int) -> Decoded<TableElementType> {
        match VarInt7::spec_deserialize(input, pos) {
            Ok((code, end)) => if code == -0x10 {
                Ok((TableElementType::AnyFunc, end))
            } else {
                Err((Error::UnknownTableElementType(code), end))
            },
            Err(e) => Err(e),
        }
    }

    proof fn lemma_deserialize_bounds(input: Seq<u8>, pos: int) {
    }

    fn deserialize(reader: &mut BufReader) -> (r: Result<TableElementType, Error>) {
        let val = VarInt7::deserialize(reader)?.0;
        match val {
            -0x10 => Ok(TableElementType::AnyFunc),
            _ => Err(Error::UnknownTableElementType(val)),
        }
    }
}

} // verus!
