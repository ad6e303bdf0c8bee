//! Functions: their type indices, their locals and their bodies.

use super::ops::{InstructionView, Instructions};
use super::primitives::{CountedList, VarUint32};
use super::sections::{lemma_payload_range_bounds, spec_payload_range, SectionReader};
use super::types::ValueType;
use super::{views, Decoded, Deserialize, Error};
use crate::io::BufReader;
use vstd::prelude::*;

verus! {

/// A function of the module, by the index of its signature.
#[derive(Debug, Copy, Clone, PartialEq)]
pub struct Func(pub u32);

impl View for Func {
    type V = Func;

    open spec fn view(&self) -> Func {
        *self
    }
}

impl Deserialize for Func {
    /// A `VarUint32` type index.
    open spec fn spec_deserialize(input: Seq<u8>, pos: int) -> Decoded<Func> {
        match VarUint32::spec_deserialize(input, pos) {
            Ok((index, end)) => Ok((Func(index), end)),
            Err(e) => Err(e),
        }
    }

    proof fn lemma_deserialize_bounds(input: Seq<u8>, pos: int) {
        VarUint32::lemma_deserialize_bounds(input, pos);
    }

    fn deserialize(reader: &mut BufReader) -> (r: Result<Func, Error>) {
        let u = VarUint32::deserialize(reader)?.0;
        Ok(Func(u))
    }
}

/// A run of locals of one type.
#[derive(Debug, Copy, Clone, PartialEq)]
pub struct Local {
    pub count: u32,
    pub value_type: ValueType,
}

impl View for Local {
    type V = Local;

    open spec fn view(&self) -> Local {
        *self
    }
}

impl Deserialize for Local {
    /// A `VarUint32` count, then the type.
    open spec fn spec_deserialize(input: Seq<u8>, pos: int) -> Decoded<Local> {
        match VarUint32::spec_deserialize(input, pos) {
            Ok((count, pa)) => match ValueType::spec_deserialize(input, pa) {
                Ok((value_type, end)) => Ok((Local { count, value_type }, end)),
                Err(e) => Err(e),
            },
            Err(e) => Err(e),
        }
    }

    proof fn lemma_deserialize_bounds(input: Seq<u8>, pos: int) {
        VarUint32::lemma_deserialize_bounds(input, pos);
    }

    fn deserialize(reader: &mut BufReader) -> (r: Result<Local, Error>) {
        let count = VarUint32::deserialize(reader)?.0;
        let value_type = ValueType::deserialize(reader)?;
        Ok(Local { count, value_type })
    }
}

/// The number of locals that the first `n` runs of `locals` declare together.
pub open spec fn local_count(locals: Seq<Local>, n: int) -> int
    decreases n,
{
    if n <= 0 {
        0
    } else {
        local_count(locals, n - 1) + locals[n - 1].count
    }
}

/// More runs never declare fewer locals.
pub proof fn lemma_local_count_monotonic(locals: Seq<Local>, m: int, n: int)
    requires
        m <= n,
    ensures
        0 <= local_count(locals, m) <= local_count(locals, n),
    decreases n,
{
    if n <= 0 {
    } else if m == n {
        lemma_local_count_monotonic(locals, m - 1, n - 1);
    } else {
        lemma_local_count_monotonic(locals, m, n - 1);
    }
}

/// Whether the runs of `locals` declare at most `u32::MAX` locals together.
fn locals_fit(locals: &Vec<Local>) -> (r: bool)
    ensures
        r <==> local_count(locals@, locals@.len() as int) <= u32::MAX,
{
    let mut total: u32 = 0;
    let mut i: usize = 0;
    while i < locals.len()
        invariant
            i <= locals@.len(),
            total == local_count(locals@, i as int),
        decreases locals@.len() - i,
    {
        match total.checked_add(locals[i].count) {
            Some(sum) => {
                total = sum;
            },
            None => {
                proof {
                    lemma_local_count_monotonic(locals@, i + 1, locals@.len() as int);
                }
                return false;
            },
        }
        i = i + 1;
    }
    true
}

/// Function body definition.
#[derive(Debug, Clone, PartialEq)]
pub struct FuncBody {
    pub locals: Vec<Local>,
    pub instructions: Instructions,
}

/// The body of a function as a mathematical value.
pub struct FuncBodyView {
    pub locals: Seq<Local>,
    pub instructions: Seq<InstructionView>,
}

impl View for FuncBody {
    type V = FuncBodyView;

    open spec fn view(&self) -> FuncBodyView {
        FuncBodyView { locals: views(self.locals@), instructions: self.instructions@ }
    }
}

impl Deserialize for FuncBody {
    /// A payload that holds the counted runs of locals, which together
    /// declare at most `u32::MAX` locals, then the instructions of the
    /// body, and nothing else.  A failure within the payload shows behind
    /// the payload, which is read as a whole before it is decoded.
    open spec fn spec_deserialize(input: Seq<u8>, pos: int) -> Decoded<FuncBodyView> {
        match spec_payload_range(input, pos) {
            Ok((start, end)) => {
                let payload = input.subrange(start, end);
                match CountedList::<Local>::spec_deserialize(payload, 0) {
                    Ok((locals, pa)) => if local_count(locals, locals.len() as int) > u32::MAX {
                        Err((Error::TooManyLocals, end))
                    } else {
                        match Instructions::spec_deserialize(payload, pa) {
                            Ok((instructions, used)) => if used == end - start {
                                Ok((FuncBodyView { locals, instructions }, end))
                            } else {
                                Err(
                                    (
                                        Error::InconsistentLength {
                                            expected: (end - start) as usize,
                                            actual: used as usize,
                                        },
                                        end,
                                    ),
                                )
                            },
                            Err((e, _)) => Err((e, end)),
                        }
                    },
                    Err((e, _)) => Err((e, end)),
                }
            },
            Err(e) => Err(e),
        }
    }

    proof fn lemma_deserialize_bounds(input: Seq<u8>, pos: int) {
        lemma_payload_range_bounds(input, pos);
    }

    fn deserialize(reader: &mut BufReader) -> (r: Result<FuncBody, Error>) {
        let mut body_reader = SectionReader::new(reader)?;
        let locals = body_reader.read::<CountedList<Local>>()?.into_inner();
        // The total number of locals must be representable.
        proof {
            assert(views(locals@) =~= locals@);
        }
        if !locals_fit(&locals) {
            return Err(Error::TooManyLocals);
        }
        let instructions = body_reader.read::<Instructions>()?;
        body_reader.close()?;
        Ok(FuncBody { locals, instructions })
    }
}

/// The runs of locals of every function body that the decoder accepts
/// declare at most `u32::MAX` locals together, and a body whose runs
/// declare more is refused with `TooManyLocals`.
pub proof fn lemma_locals_bound(input: Seq<u8>, pos: int)
    ensures
        FuncBody::spec_deserialize(input, pos) matches Ok((body, _)) ==> local_count(
            body.locals,
            body.locals.len() as int,
        ) <= u32::MAX,
        spec_payload_range(input, pos) matches Ok((start, end)) ==> (CountedList::<
            Local,
        >::spec_deserialize(input.subrange(start, end), 0) matches Ok((locals, _)) ==> (local_count(
            locals,
            locals.len() as int,
        ) > u32::MAX ==> FuncBody::spec_deserialize(input, pos) == Err::<
            (FuncBodyView, int),
            (Error, int),
        >((Error::TooManyLocals, end)))),
{
}

} // verus!
