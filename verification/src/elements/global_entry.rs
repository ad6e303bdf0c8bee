//! Globals.

use super::import_entry::GlobalType;
use super::ops::{InitExpr, InstructionView};
use super::{Decoded, Deserialize, Error};
use crate::io::BufReader;
use vstd::prelude::*;

verus! {

/// A global of the module: its type and the expression that gives its
/// initial value.
#[derive(Debug, Clone, PartialEq)]
pub struct GlobalEntry {
    pub global_type: GlobalType,
    pub init_expr: InitExpr,
}

/// A global as a mathematical value.
pub struct GlobalEntryView {
    pub global_type: GlobalType,
    pub init_expr: Seq<InstructionView>,
}

impl View for GlobalEntry {
    type V = GlobalEntryView;

    open spec fn view(&self) -> GlobalEntryView {
        GlobalEntryView { global_type: self.global_type, init_expr: self.init_expr@ }
    }
}

impl Deserialize for GlobalEntry {
    /// The type, then the initializer expression.
    open spec fn spec_deserialize(input: Seq<u8>, pos: int) -> Decoded<GlobalEntryView> {
        match GlobalType::spec_deserialize(input, pos) {
            Ok((global_type, pa)) => match InitExpr::spec_deserialize(input, pa) {
                Ok((init_expr, end)) => Ok((GlobalEntryView { global_type, init_expr }, end)),
                Err(e) => Err(e),
            },
            Err(e) => Err(e),
        }
    }

    proof fn lemma_deserialize_bounds(input: Seq<u8>, pos: int) {
        GlobalType::lemma_deserialize_bounds(input, pos);
        if let Ok((global_type, pa)) = GlobalType::spec_deserialize(input, pos) {
            InitExpr::lemma_deserialize_bounds(input, pa);
        }
    }

    fn deserialize(reader: &mut BufReader) -> (r: Result<GlobalEntry, Error>) {
        let global_type = GlobalType::deserialize(reader)?;
        let init_expr = InitExpr::deserialize(reader)?;
        Ok(GlobalEntry { global_type, init_expr })
    }
}

} // verus!
