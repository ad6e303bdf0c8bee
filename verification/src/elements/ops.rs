//! Instructions and the two kinds of instruction sequence: the body of a
//! function and the initializer expression.

use super::opcodes;
use super::primitives::{
    lemma_sequence_failure, unwrap_var_uint32s, CountedList, Uint32, Uint64, Uint8, VarInt32, VarInt64, VarUint32,
};
use super::types::BlockType;
use super::{lemma_views_push, views, Decoded, Deserialize, Error};
use crate::io::BufReader;
use vstd::prelude::*;

verus! {

/// The immediates of a branch table: the targets and the default target.
#[derive(Clone, Debug, PartialEq, Eq, Hash)]
pub struct BrTableData {
    pub table: Vec<u32>,
    pub default: u32,
}

/// A branch table as a mathematical value.
pub struct BrTableDataView {
    pub table: Seq<u32>,
    pub default: u32,
}

impl View for BrTableData {
    type V = BrTableDataView;

    open spec fn view(&self) -> BrTableDataView {
        BrTableDataView { table: self.table@, default: self.default }
    }
}

/// Instruction.
#[derive(Clone, Debug, PartialEq, Eq, Hash)]
pub enum Instruction {
    Unreachable,
    Nop,
    Block(BlockType),
    Loop(BlockType),
    If(BlockType),
    Else,
    End,
    Br(u32),
    BrIf(u32),
    BrTable(Box<BrTableData>),
    Return,
    Call(u32),
    CallIndirect(u32, u8),
    Drop,
    Select,
    GetLocal(u32),
    SetLocal(u32),
    TeeLocal(u32),
    GetGlobal(u32),
    SetGlobal(u32),
    I32Load(u32, u32),
    I64Load(u32, u32),
    F32Load(u32, u32),
    F64Load(u32, u32),
    I32Load8S(u32, u32),
    I32Load8U(u32, u32),
    I32Load16S(u32, u32),
    I32Load16U(u32, u32),
    I64Load8S(u32, u32),
    I64Load8U(u32, u32),
    I64Load16S(u32, u32),
    I64Load16U(u32, u32),
    I64Load32S(u32, u32),
    I64Load32U(u32, u32),
    I32Store(u32, u32),
    I64Store(u32, u32),
    F32Store(u32, u32),
    F64Store(u32, u32),
    I32Store8(u32, u32),
    I32Store16(u32, u32),
    I64Store8(u32, u32),
    I64Store16(u32, u32),
    I64Store32(u32, u32),
    CurrentMemory(u8),
    GrowMemory(u8),
    I32Const(i32),
    I64Const(i64),
    F32Const(u32),
    F64Const(u64),
    I32Eqz,
    I32Eq,
    I32Ne,
    I32LtS,
    I32LtU,
    I32GtS,
    I32GtU,
    I32LeS,
    I32LeU,
    I32GeS,
    I32GeU,
    I64Eqz,
    I64Eq,
    I64Ne,
    I64LtS,
    I64LtU,
    I64GtS,
    I64GtU,
    I64LeS,
    I64LeU,
    I64GeS,
    I64GeU,
    F32Eq,
    F32Ne,
    F32Lt,
    F32Gt,
    F32Le,
    F32Ge,
    F64Eq,
    F64Ne,
    F64Lt,
    F64Gt,
    F64Le,
    F64Ge,
    I32Clz,
    I32Ctz,
    I32Popcnt,
    I32Add,
    I32Sub,
    I32Mul,
    I32DivS,
    I32DivU,
    I32RemS,
    I32RemU,
    I32And,
    I32Or,
    I32Xor,
    I32Shl,
    I32ShrS,
    I32ShrU,
    I32Rotl,
    I32Rotr,
    I64Clz,
    I64Ctz,
    I64Popcnt,
    I64Add,
    I64Sub,
    I64Mul,
    I64DivS,
    I64DivU,
    I64RemS,
    I64RemU,
    I64And,
    I64Or,
    I64Xor,
    I64Shl,
    I64ShrS,
    I64ShrU,
    I64Rotl,
    I64Rotr,
    F32Abs,
    F32Neg,
    F32Ceil,
    F32Floor,
    F32Trunc,
    F32Nearest,
    F32Sqrt,
    F32Add,
    F32Sub,
    F32Mul,
    F32Div,
    F32Min,
    F32Max,
    F32Copysign,
    F64Abs,
    F64Neg,
    F64Ceil,
    F64Floor,
    F64Trunc,
    F64Nearest,
    F64Sqrt,
    F64Add,
    F64Sub,
    F64Mul,
    F64Div,
    F64Min,
    F64Max,
    F64Copysign,
    I32WrapI64,
    I32TruncSF32,
    I32TruncUF32,
    I32TruncSF64,
    I32TruncUF64,
    I64ExtendSI32,
    I64ExtendUI32,
    I64TruncSF32,
    I64TruncUF32,
    I64TruncSF64,
    I64TruncUF64,
    F32ConvertSI32,
    F32ConvertUI32,
    F32ConvertSI64,
    F32ConvertUI64,
    F32DemoteF64,
    F64ConvertSI32,
    F64ConvertUI32,
    F64ConvertSI64,
    F64ConvertUI64,
    F64PromoteF32,
    I32ReinterpretF32,
    I64ReinterpretF64,
    F32ReinterpretI32,
    F64ReinterpretI64,
}

/// An instruction as a mathematical value.  An instruction whose immediates
/// are plain numbers stands for itself; a branch table stands by the sequence
/// of its targets and its default target.
pub enum InstructionView {
    /// A branch table.
    BrTable(BrTableDataView),
    /// Any other instruction.
    Other(Instruction),
}

impl InstructionView {
    /// Whether the instruction opens a block, which a later `End` closes.
    pub open spec fn is_block(self) -> bool {
        self matches InstructionView::Other(i) && (i is Block || i is Loop || i is If)
    }

    /// Whether the instruction is `End`.
    pub open spec fn is_terminal(self) -> bool {
        self == InstructionView::Other(Instruction::End)
    }
}

impl View for Instruction {
    type V = InstructionView;

    open spec fn view(&self) -> InstructionView {
        match self {
            Instruction::BrTable(data) => InstructionView::BrTable(data@),
            _ => InstructionView::Other(*self),
        }
    }
}

impl Instruction {
    /// Is this instruction starts the new block (which should end with terminal instruction).
    pub fn is_block(&self) -> (r: bool)
        ensures
            r == self@.is_block(),
    {
        match self {
            Instruction::Block(_) | Instruction::Loop(_) | Instruction::If(_) => true,
            _ => false,
        }
    }

    /// Is this instruction determines the termination of instruction sequence?
    ///
    /// `true` for `Instruction::End`
    pub fn is_terminal(&self) -> (r: bool)
        ensures
            r == self@.is_terminal(),
    {
        match self {
            Instruction::End => true,
            _ => false,
        }
    }
}

/// An instruction without a branch table that ends at `end`.
pub open spec fn done(i: Instruction, end: int) -> Decoded<InstructionView> {
    Ok((InstructionView::Other(i), end))
}

/// An instruction whose immediate is a block type.
pub open spec fn with_block_type(
    input: Seq<u8>,
    pos: int,
    make: spec_fn(BlockType) -> Instruction,
) -> Decoded<InstructionView> {
    match BlockType::spec_deserialize(input, pos) {
        Ok((t, end)) => done(make(t), end),
        Err(e) => Err(e),
    }
}

/// An instruction whose immediate is one `VarUint32`: a label or an index.
pub open spec fn with_index(input: Seq<u8>, pos: int, make: spec_fn(u32) -> Instruction) -> Decoded<InstructionView> {
    match VarUint32::spec_deserialize(input, pos) {
        Ok((i, end)) => done(make(i), end),
        Err(e) => Err(e),
    }
}

/// A load or a store: its immediates are two `VarUint32`, the alignment
/// flags and the offset.
pub open spec fn with_memory_immediate(
    input: Seq<u8>,
    pos: int,
    make: spec_fn(u32, u32) -> Instruction,
) -> Decoded<InstructionView> {
    match VarUint32::spec_deserialize(input, pos) {
        Ok((flags, pa)) => match VarUint32::spec_deserialize(input, pa) {
            Ok((offset, end)) => done(make(flags, offset), end),
            Err(e) => Err(e),
        },
        Err(e) => Err(e),
    }
}

/// An instruction whose immediate is one byte that names a memory and must
/// be zero.
pub open spec fn with_memory_reference(
    input: Seq<u8>,
    pos: int,
    make: spec_fn(u8) -> Instruction,
) -> Decoded<InstructionView> {
    match Uint8::spec_deserialize(input, pos) {
        Ok((r, end)) => if r != 0 {
            Err((Error::InvalidMemoryReference(r), end))
        } else {
            done(make(r), end)
        },
        Err(e) => Err(e),
    }
}

/// An indirect call: the index of a signature, then one byte that names a
/// table and must be zero.
pub open spec fn spec_call_indirect(input: Seq<u8>, pos: int) -> Decoded<InstructionView> {
    match VarUint32::spec_deserialize(input, pos) {
        Ok((signature, pa)) => match Uint8::spec_deserialize(input, pa) {
            Ok((table_ref, end)) => if table_ref != 0 {
                Err((Error::InvalidTableReference(table_ref), end))
            } else {
                done(Instruction::CallIndirect(signature, table_ref), end)
            },
            Err(e) => Err(e),
        },
        Err(e) => Err(e),
    }
}

/// A branch table: the counted targets, then the default target.
pub open spec fn spec_br_table(input: Seq<u8>, pos: int) -> Decoded<InstructionView> {
    match CountedList::<VarUint32>::spec_deserialize(input, pos) {
        Ok((table, pa)) => match VarUint32::spec_deserialize(input, pa) {
            Ok((default, end)) => Ok(
                (InstructionView::BrTable(BrTableDataView { table, default }), end),
            ),
            Err(e) => Err(e),
        },
        Err(e) => Err(e),
    }
}

/// What the format makes of the immediates at `pos` of the instruction with
/// the opcode `opcode`.
#[verifier::opaque]
pub open spec fn spec_immediates(opcode: u8, input: Seq<u8>, pos: int) -> Decoded<InstructionView> {
    match opcode {
        opcodes::UNREACHABLE => done(Instruction::Unreachable, pos),
        opcodes::NOP => done(Instruction::Nop, pos),
        opcodes::BLOCK => with_block_type(input, pos, |t: BlockType| Instruction::Block(t)),
        opcodes::LOOP => with_block_type(input, pos, |t: BlockType| Instruction::Loop(t)),
        opcodes::IF => with_block_type(input, pos, |t: BlockType| Instruction::If(t)),
        opcodes::ELSE => done(Instruction::Else, pos),
        opcodes::END => done(Instruction::End, pos),
        opcodes::BR => with_index(input, pos, |i: u32| Instruction::Br(i)),
        opcodes::BRIF => with_index(input, pos, |i: u32| Instruction::BrIf(i)),
        opcodes::BRTABLE => spec_br_table(input, pos),
        opcodes::RETURN => done(Instruction::Return, pos),
        opcodes::CALL => with_index(input, pos, |i: u32| Instruction::Call(i)),
        opcodes::CALLINDIRECT => spec_call_indirect(input, pos),
        opcodes::DROP => done(Instruction::Drop, pos),
        opcodes::SELECT => done(Instruction::Select, pos),
        opcodes::GETLOCAL => with_index(input, pos, |i: u32| Instruction::GetLocal(i)),
        opcodes::SETLOCAL => with_index(input, pos, |i: u32| Instruction::SetLocal(i)),
        opcodes::TEELOCAL => with_index(input, pos, |i: u32| Instruction::TeeLocal(i)),
        opcodes::GETGLOBAL => with_index(input, pos, |i: u32| Instruction::GetGlobal(i)),
        opcodes::SETGLOBAL => with_index(input, pos, |i: u32| Instruction::SetGlobal(i)),
        opcodes::I32LOAD => with_memory_immediate(
            input,
            pos,
            |flags: u32, offset: u32| Instruction::I32Load(flags, offset),
        ),
        opcodes::I64LOAD => with_memory_immediate(
            input,
            pos,
            |flags: u32, offset: u32| Instruction::I64Load(flags, offset),
        ),
        opcodes::F32LOAD => with_memory_immediate(
            input,
            pos,
            |flags: u32, offset: u32| Instruction::F32Load(flags, offset),
        ),
        opcodes::F64LOAD => with_memory_immediate(
            input,
            pos,
            |flags: u32, offset: u32| Instruction::F64Load(flags, offset),
        ),
        opcodes::I32LOAD8S => with_memory_immediate(
            input,
            pos,
            |flags: u32, offset: u32| Instruction::I32Load8S(flags, offset),
        ),
        opcodes::I32LOAD8U => with_memory_immediate(
            input,
            pos,
            |flags: u32, offset: u32| Instruction::I32Load8U(flags, offset),
        ),
        opcodes::I32LOAD16S => with_memory_immediate(
            input,
            pos,
            |flags: u32, offset: u32| Instruction::I32Load16S(flags, offset),
        ),
        opcodes::I32LOAD16U => with_memory_immediate(
            input,
            pos,
            |flags: u32, offset: u32| Instruction::I32Load16U(flags, offset),
        ),
        opcodes::I64LOAD8S => with_memory_immediate(
            input,
            pos,
            |flags: u32, offset: u32| Instruction::I64Load8S(flags, offset),
        ),
        opcodes::I64LOAD8U => with_memory_immediate(
            input,
            pos,
            |flags: u32, offset: u32| Instruction::I64Load8U(flags, offset),
        ),
        opcodes::I64LOAD16S => with_memory_immediate(
            input,
            pos,
            |flags: u32, offset: u32| Instruction::I64Load16S(flags, offset),
        ),
        opcodes::I64LOAD16U => with_memory_immediate(
            input,
            pos,
            |flags: u32, offset: u32| Instruction::I64Load16U(flags, offset),
        ),
        opcodes::I64LOAD32S => with_memory_immediate(
            input,
            pos,
            |flags: u32, offset: u32| Instruction::I64Load32S(flags, offset),
        ),
        opcodes::I64LOAD32U => with_memory_immediate(
            input,
            pos,
            |flags: u32, offset: u32| Instruction::I64Load32U(flags, offset),
        ),
        opcodes::I32STORE => with_memory_immediate(
            input,
            pos,
            |flags: u32, offset: u32| Instruction::I32Store(flags, offset),
        ),
        opcodes::I64STORE => with_memory_immediate(
            input,
            pos,
            |flags: u32, offset: u32| Instruction::I64Store(flags, offset),
        ),
        opcodes::F32STORE => with_memory_immediate(
            input,
            pos,
            |flags: u32, offset: u32| Instruction::F32Store(flags, offset),
        ),
        opcodes::F64STORE => with_memory_immediate(
            input,
            pos,
            |flags: u32, offset: u32| Instruction::F64Store(flags, offset),
        ),
        opcodes::I32STORE8 => with_memory_immediate(
            input,
            pos,
            |flags: u32, offset: u32| Instruction::I32Store8(flags, offset),
        ),
        opcodes::I32STORE16 => with_memory_immediate(
            input,
            pos,
            |flags: u32, offset: u32| Instruction::I32Store16(flags, offset),
        ),
        opcodes::I64STORE8 => with_memory_immediate(
            input,
            pos,
            |flags: u32, offset: u32| Instruction::I64Store8(flags, offset),
        ),
        opcodes::I64STORE16 => with_memory_immediate(
            input,
            pos,
            |flags: u32, offset: u32| Instruction::I64Store16(flags, offset),
        ),
        opcodes::I64STORE32 => with_memory_immediate(
            input,
            pos,
            |flags: u32, offset: u32| Instruction::I64Store32(flags, offset),
        ),
        opcodes::CURRENTMEMORY => with_memory_reference(input, pos, |r: u8| Instruction::CurrentMemory(r)),
        opcodes::GROWMEMORY => with_memory_reference(input, pos, |r: u8| Instruction::GrowMemory(r)),
        opcodes::I32CONST => match VarInt32::spec_deserialize(input, pos) {
            Ok((v, end)) => done(Instruction::I32Const(v), end),
            Err(e) => Err(e),
        },
        opcodes::I64CONST => match VarInt64::spec_deserialize(input, pos) {
            Ok((v, end)) => done(Instruction::I64Const(v), end),
            Err(e) => Err(e),
        },
        opcodes::F32CONST => match Uint32::spec_deserialize(input, pos) {
            Ok((v, end)) => done(Instruction::F32Const(v), end),
            Err(e) => Err(e),
        },
        opcodes::F64CONST => match Uint64::spec_deserialize(input, pos) {
            Ok((v, end)) => done(Instruction::F64Const(v), end),
            Err(e) => Err(e),
        },
        opcodes::I32EQZ => done(Instruction::I32Eqz, pos),
        opcodes::I32EQ => done(Instruction::I32Eq, pos),
        opcodes::I32NE => done(Instruction::I32Ne, pos),
        opcodes::I32LTS => done(Instruction::I32LtS, pos),
        opcodes::I32LTU => done(Instruction::I32LtU, pos),
        opcodes::I32GTS => done(Instruction::I32GtS, pos),
        opcodes::I32GTU => done(Instruction::I32GtU, pos),
        opcodes::I32LES => done(Instruction::I32LeS, pos),
        opcodes::I32LEU => done(Instruction::I32LeU, pos),
        opcodes::I32GES => done(Instruction::I32GeS, pos),
        opcodes::I32GEU => done(Instruction::I32GeU, pos),
        opcodes::I64EQZ => done(Instruction::I64Eqz, pos),
        opcodes::I64EQ => done(Instruction::I64Eq, pos),
        opcodes::I64NE => done(Instruction::I64Ne, pos),
        opcodes::I64LTS => done(Instruction::I64LtS, pos),
        opcodes::I64LTU => done(Instruction::I64LtU, pos),
        opcodes::I64GTS => done(Instruction::I64GtS, pos),
        opcodes::I64GTU => done(Instruction::I64GtU, pos),
        opcodes::I64LES => done(Instruction::I64LeS, pos),
        opcodes::I64LEU => done(Instruction::I64LeU, pos),
        opcodes::I64GES => done(Instruction::I64GeS, pos),
        opcodes::I64GEU => done(Instruction::I64GeU, pos),
        opcodes::F32EQ => done(Instruction::F32Eq, pos),
        opcodes::F32NE => done(Instruction::F32Ne, pos),
        opcodes::F32LT => done(Instruction::F32Lt, pos),
        opcodes::F32GT => done(Instruction::F32Gt, pos),
        opcodes::F32LE => done(Instruction::F32Le, pos),
        opcodes::F32GE => done(Instruction::F32Ge, pos),
        opcodes::F64EQ => done(Instruction::F64Eq, pos),
        opcodes::F64NE => done(Instruction::F64Ne, pos),
        opcodes::F64LT => done(Instruction::F64Lt, pos),
        opcodes::F64GT => done(Instruction::F64Gt, pos),
        opcodes::F64LE => done(Instruction::F64Le, pos),
        opcodes::F64GE => done(Instruction::F64Ge, pos),
        opcodes::I32CLZ => done(Instruction::I32Clz, pos),
        opcodes::I32CTZ => done(Instruction::I32Ctz, pos),
        opcodes::I32POPCNT => done(Instruction::I32Popcnt, pos),
        opcodes::I32ADD => done(Instruction::I32Add, pos),
        opcodes::I32SUB => done(Instruction::I32Sub, pos),
        opcodes::I32MUL => done(Instruction::I32Mul, pos),
        opcodes::I32DIVS => done(Instruction::I32DivS, pos),
        opcodes::I32DIVU => done(Instruction::I32DivU, pos),
        opcodes::I32REMS => done(Instruction::I32RemS, pos),
        opcodes::I32REMU => done(Instruction::I32RemU, pos),
        opcodes::I32AND => done(Instruction::I32And, pos),
        opcodes::I32OR => done(Instruction::I32Or, pos),
        opcodes::I32XOR => done(Instruction::I32Xor, pos),
        opcodes::I32SHL => done(Instruction::I32Shl, pos),
        opcodes::I32SHRS => done(Instruction::I32ShrS, pos),
        opcodes::I32SHRU => done(Instruction::I32ShrU, pos),
        opcodes::I32ROTL => done(Instruction::I32Rotl, pos),
        opcodes::I32ROTR => done(Instruction::I32Rotr, pos),
        opcodes::I64CLZ => done(Instruction::I64Clz, pos),
        opcodes::I64CTZ => done(Instruction::I64Ctz, pos),
        opcodes::I64POPCNT => done(Instruction::I64Popcnt, pos),
        opcodes::I64ADD => done(Instruction::I64Add, pos),
        opcodes::I64SUB => done(Instruction::I64Sub, pos),
        opcodes::I64MUL => done(Instruction::I64Mul, pos),
        opcodes::I64DIVS => done(Instruction::I64DivS, pos),
        opcodes::I64DIVU => done(Instruction::I64DivU, pos),
        opcodes::I64REMS => done(Instruction::I64RemS, pos),
        opcodes::I64REMU => done(Instruction::I64RemU, pos),
        opcodes::I64AND => done(Instruction::I64And, pos),
        opcodes::I64OR => done(Instruction::I64Or, pos),
        opcodes::I64XOR => done(Instruction::I64Xor, pos),
        opcodes::I64SHL => done(Instruction::I64Shl, pos),
        opcodes::I64SHRS => done(Instruction::I64ShrS, pos),
        opcodes::I64SHRU => done(Instruction::I64ShrU, pos),
        opcodes::I64ROTL => done(Instruction::I64Rotl, pos),
        opcodes::I64ROTR => done(Instruction::I64Rotr, pos),
        opcodes::F32ABS => done(Instruction::F32Abs, pos),
        opcodes::F32NEG => done(Instruction::F32Neg, pos),
        opcodes::F32CEIL => done(Instruction::F32Ceil, pos),
        opcodes::F32FLOOR => done(Instruction::F32Floor, pos),
        opcodes::F32TRUNC => done(Instruction::F32Trunc, pos),
        opcodes::F32NEAREST => done(Instruction::F32Nearest, pos),
        opcodes::F32SQRT => done(Instruction::F32Sqrt, pos),
        opcodes::F32ADD => done(Instruction::F32Add, pos),
        opcodes::F32SUB => done(Instruction::F32Sub, pos),
        opcodes::F32MUL => done(Instruction::F32Mul, pos),
        opcodes::F32DIV => done(Instruction::F32Div, pos),
        opcodes::F32MIN => done(Instruction::F32Min, pos),
        opcodes::F32MAX => done(Instruction::F32Max, pos),
        opcodes::F32COPYSIGN => done(Instruction::F32Copysign, pos),
        opcodes::F64ABS => done(Instruction::F64Abs, pos),
        opcodes::F64NEG => done(Instruction::F64Neg, pos),
        opcodes::F64CEIL => done(Instruction::F64Ceil, pos),
        opcodes::F64FLOOR => done(Instruction::F64Floor, pos),
        opcodes::F64TRUNC => done(Instruction::F64Trunc, pos),
        opcodes::F64NEAREST => done(Instruction::F64Nearest, pos),
        opcodes::F64SQRT => done(Instruction::F64Sqrt, pos),
        opcodes::F64ADD => done(Instruction::F64Add, pos),
        opcodes::F64SUB => done(Instruction::F64Sub, pos),
        opcodes::F64MUL => done(Instruction::F64Mul, pos),
        opcodes::F64DIV => done(Instruction::F64Div, pos),
        opcodes::F64MIN => done(Instruction::F64Min, pos),
        opcodes::F64MAX => done(Instruction::F64Max, pos),
        opcodes::F64COPYSIGN => done(Instruction::F64Copysign, pos),
        opcodes::I32WRAPI64 => done(Instruction::I32WrapI64, pos),
        opcodes::I32TRUNCSF32 => done(Instruction::I32TruncSF32, pos),
        opcodes::I32TRUNCUF32 => done(Instruction::I32TruncUF32, pos),
        opcodes::I32TRUNCSF64 => done(Instruction::I32TruncSF64, pos),
        opcodes::I32TRUNCUF64 => done(Instruction::I32TruncUF64, pos),
        opcodes::I64EXTENDSI32 => done(Instruction::I64ExtendSI32, pos),
        opcodes::I64EXTENDUI32 => done(Instruction::I64ExtendUI32, pos),
        opcodes::I64TRUNCSF32 => done(Instruction::I64TruncSF32, pos),
        opcodes::I64TRUNCUF32 => done(Instruction::I64TruncUF32, pos),
        opcodes::I64TRUNCSF64 => done(Instruction::I64TruncSF64, pos),
        opcodes::I64TRUNCUF64 => done(Instruction::I64TruncUF64, pos),
        opcodes::F32CONVERTSI32 => done(Instruction::F32ConvertSI32, pos),
        opcodes::F32CONVERTUI32 => done(Instruction::F32ConvertUI32, pos),
        opcodes::F32CONVERTSI64 => done(Instruction::F32ConvertSI64, pos),
        opcodes::F32CONVERTUI64 => done(Instruction::F32ConvertUI64, pos),
        opcodes::F32DEMOTEF64 => done(Instruction::F32DemoteF64, pos),
        opcodes::F64CONVERTSI32 => done(Instruction::F64ConvertSI32, pos),
        opcodes::F64CONVERTUI32 => done(Instruction::F64ConvertUI32, pos),
        opcodes::F64CONVERTSI64 => done(Instruction::F64ConvertSI64, pos),
        opcodes::F64CONVERTUI64 => done(Instruction::F64ConvertUI64, pos),
        opcodes::F64PROMOTEF32 => done(Instruction::F64PromoteF32, pos),
        opcodes::I32REINTERPRETF32 => done(Instruction::I32ReinterpretF32, pos),
        opcodes::I64REINTERPRETF64 => done(Instruction::I64ReinterpretF64, pos),
        opcodes::F32REINTERPRETI32 => done(Instruction::F32ReinterpretI32, pos),
        opcodes::F64REINTERPRETI64 => done(Instruction::F64ReinterpretI64, pos),
        _ => Err((Error::UnknownOpcode(opcode), pos)),
    }
}

impl Deserialize for Instruction {
    /// The opcode, one byte, then the immediates that the opcode asks for.
    open spec fn spec_deserialize(input: Seq<u8>, pos: int) -> Decoded<InstructionView> {
        match Uint8::spec_deserialize(input, pos) {
            Ok((opcode, pa)) => spec_immediates(opcode, input, pa),
            Err(e) => Err(e),
        }
    }

    proof fn lemma_deserialize_bounds(input: Seq<u8>, pos: int) {
        lemma_instruction_bounds(input, pos);
    }

    fn deserialize(reader: &mut BufReader) -> (r: Result<Instruction, Error>) {
        proof {
            reveal(spec_immediates);
        }
        let val = Uint8::deserialize(reader)?.0;
        Ok(
            match val {
            opcodes::UNREACHABLE => Instruction::Unreachable,
            opcodes::NOP => Instruction::Nop,
            opcodes::BLOCK => Instruction::Block(BlockType::deserialize(reader)?),
            opcodes::LOOP => Instruction::Loop(BlockType::deserialize(reader)?),
            opcodes::IF => Instruction::If(BlockType::deserialize(reader)?),
            opcodes::ELSE => Instruction::Else,
            opcodes::END => Instruction::End,
            opcodes::BR => Instruction::Br(VarUint32::deserialize(reader)?.0),
            opcodes::BRIF => Instruction::BrIf(VarUint32::deserialize(reader)?.0),
            opcodes::BRTABLE => {
                let table = CountedList::<VarUint32>::deserialize(reader)?;
                let default = VarUint32::deserialize(reader)?.0;
                Instruction::BrTable(
                    Box::new(BrTableData { table: unwrap_var_uint32s(table), default }),
                )
            },
            opcodes::RETURN => Instruction::Return,
            opcodes::CALL => Instruction::Call(VarUint32::deserialize(reader)?.0),
            opcodes::CALLINDIRECT => {
                let signature = VarUint32::deserialize(reader)?.0;
                let table_ref = Uint8::deserialize(reader)?.0;
                if table_ref != 0 {
                    return Err(Error::InvalidTableReference(table_ref));
                }
                Instruction::CallIndirect(signature, table_ref)
            },
            opcodes::DROP => Instruction::Drop,
            opcodes::SELECT => Instruction::Select,
            opcodes::GETLOCAL => Instruction::GetLocal(VarUint32::deserialize(reader)?.0),
            opcodes::SETLOCAL => Instruction::SetLocal(VarUint32::deserialize(reader)?.0),
            opcodes::TEELOCAL => Instruction::TeeLocal(VarUint32::deserialize(reader)?.0),
            opcodes::GETGLOBAL => Instruction::GetGlobal(VarUint32::deserialize(reader)?.0),
            opcodes::SETGLOBAL => Instruction::SetGlobal(VarUint32::deserialize(reader)?.0),
            opcodes::I32LOAD => {
                let flags = VarUint32::deserialize(reader)?.0;
                let offset = VarUint32::deserialize(reader)?.0;
                Instruction::I32Load(flags, offset)
            },
            opcodes::I64LOAD => {
                let flags = VarUint32::deserialize(reader)?.0;
                let offset = VarUint32::deserialize(reader)?.0;
                Instruction::I64Load(flags, offset)
            },
            opcodes::F32LOAD => {
                let flags = VarUint32::deserialize(reader)?.0;
                let offset = VarUint32::deserialize(reader)?.0;
                Instruction::F32Load(flags, offset)
            },
            opcodes::F64LOAD => {
                let flags = VarUint32::deserialize(reader)?.0;
                let offset = VarUint32::deserialize(reader)?.0;
                Instruction::F64Load(flags, offset)
            },
            opcodes::I32LOAD8S => {
                let flags = VarUint32::deserialize(reader)?.0;
                let offset = VarUint32::deserialize(reader)?.0;
                Instruction::I32Load8S(flags, offset)
            },
            opcodes::I32LOAD8U => {
                let flags = VarUint32::deserialize(reader)?.0;
                let offset = VarUint32::deserialize(reader)?.0;
                Instruction::I32Load8U(flags, offset)
            },
            opcodes::I32LOAD16S => {
                let flags = VarUint32::deserialize(reader)?.0;
                let offset = VarUint32::deserialize(reader)?.0;
                Instruction::I32Load16S(flags, offset)
            },
            opcodes::I32LOAD16U => {
                let flags = VarUint32::deserialize(reader)?.0;
                let offset = VarUint32::deserialize(reader)?.0;
                Instruction::I32Load16U(flags, offset)
            },
            opcodes::I64LOAD8S => {
                let flags = VarUint32::deserialize(reader)?.0;
                let offset = VarUint32::deserialize(reader)?.0;
                Instruction::I64Load8S(flags, offset)
            },
            opcodes::I64LOAD8U => {
                let flags = VarUint32::deserialize(reader)?.0;
                let offset = VarUint32::deserialize(reader)?.0;
                Instruction::I64Load8U(flags, offset)
            },
            opcodes::I64LOAD16S => {
                let flags = VarUint32::deserialize(reader)?.0;
                let offset = VarUint32::deserialize(reader)?.0;
                Instruction::I64Load16S(flags, offset)
            },
            opcodes::I64LOAD16U => {
                let flags = VarUint32::deserialize(reader)?.0;
                let offset = VarUint32::deserialize(reader)?.0;
                Instruction::I64Load16U(flags, offset)
            },
            opcodes::I64LOAD32S => {
                let flags = VarUint32::deserialize(reader)?.0;
                let offset = VarUint32::deserialize(reader)?.0;
                Instruction::I64Load32S(flags, offset)
            },
            opcodes::I64LOAD32U => {
                let flags = VarUint32::deserialize(reader)?.0;
                let offset = VarUint32::deserialize(reader)?.0;
                Instruction::I64Load32U(flags, offset)
            },
            opcodes::I32STORE => {
                let flags = VarUint32::deserialize(reader)?.0;
                let offset = VarUint32::deserialize(reader)?.0;
                Instruction::I32Store(flags, offset)
            },
            opcodes::I64STORE => {
                let flags = VarUint32::deserialize(reader)?.0;
                let offset = VarUint32::deserialize(reader)?.0;
                Instruction::I64Store(flags, offset)
            },
            opcodes::F32STORE => {
                let flags = VarUint32::deserialize(reader)?.0;
                let offset = VarUint32::deserialize(reader)?.0;
                Instruction::F32Store(flags, offset)
            },
            opcodes::F64STORE => {
                let flags = VarUint32::deserialize(reader)?.0;
                let offset = VarUint32::deserialize(reader)?.0;
                Instruction::F64Store(flags, offset)
            },
            opcodes::I32STORE8 => {
                let flags = VarUint32::deserialize(reader)?.0;
                let offset = VarUint32::deserialize(reader)?.0;
                Instruction::I32Store8(flags, offset)
            },
            opcodes::I32STORE16 => {
                let flags = VarUint32::deserialize(reader)?.0;
                let offset = VarUint32::deserialize(reader)?.0;
                Instruction::I32Store16(flags, offset)
            },
            opcodes::I64STORE8 => {
                let flags = VarUint32::deserialize(reader)?.0;
                let offset = VarUint32::deserialize(reader)?.0;
                Instruction::I64Store8(flags, offset)
            },
            opcodes::I64STORE16 => {
                let flags = VarUint32::deserialize(reader)?.0;
                let offset = VarUint32::deserialize(reader)?.0;
                Instruction::I64Store16(flags, offset)
            },
            opcodes::I64STORE32 => {
                let flags = VarUint32::deserialize(reader)?.0;
                let offset = VarUint32::deserialize(reader)?.0;
                Instruction::I64Store32(flags, offset)
            },
            opcodes::CURRENTMEMORY => {
                let mem_ref = Uint8::deserialize(reader)?.0;
                if mem_ref != 0 {
                    return Err(Error::InvalidMemoryReference(mem_ref));
                }
                Instruction::CurrentMemory(mem_ref)
            },
            opcodes::GROWMEMORY => {
                let mem_ref = Uint8::deserialize(reader)?.0;
                if mem_ref != 0 {
                    return Err(Error::InvalidMemoryReference(mem_ref));
                }
                Instruction::GrowMemory(mem_ref)
            },
            opcodes::I32CONST => Instruction::I32Const(VarInt32::deserialize(reader)?.0),
            opcodes::I64CONST => Instruction::I64Const(VarInt64::deserialize(reader)?.0),
            opcodes::F32CONST => Instruction::F32Const(Uint32::deserialize(reader)?.0),
            opcodes::F64CONST => Instruction::F64Const(Uint64::deserialize(reader)?.0),
            opcodes::I32EQZ => Instruction::I32Eqz,
            opcodes::I32EQ => Instruction::I32Eq,
            opcodes::I32NE => Instruction::I32Ne,
            opcodes::I32LTS => Instruction::I32LtS,
            opcodes::I32LTU => Instruction::I32LtU,
            opcodes::I32GTS => Instruction::I32GtS,
            opcodes::I32GTU => Instruction::I32GtU,
            opcodes::I32LES => Instruction::I32LeS,
            opcodes::I32LEU => Instruction::I32LeU,
            opcodes::I32GES => Instruction::I32GeS,
            opcodes::I32GEU => Instruction::I32GeU,
            opcodes::I64EQZ => Instruction::I64Eqz,
            opcodes::I64EQ => Instruction::I64Eq,
            opcodes::I64NE => Instruction::I64Ne,
            opcodes::I64LTS => Instruction::I64LtS,
            opcodes::I64LTU => Instruction::I64LtU,
            opcodes::I64GTS => Instruction::I64GtS,
            opcodes::I64GTU => Instruction::I64GtU,
            opcodes::I64LES => Instruction::I64LeS,
            opcodes::I64LEU => Instruction::I64LeU,
            opcodes::I64GES => Instruction::I64GeS,
            opcodes::I64GEU => Instruction::I64GeU,
            opcodes::F32EQ => Instruction::F32Eq,
            opcodes::F32NE => Instruction::F32Ne,
            opcodes::F32LT => Instruction::F32Lt,
            opcodes::F32GT => Instruction::F32Gt,
            opcodes::F32LE => Instruction::F32Le,
            opcodes::F32GE => Instruction::F32Ge,
            opcodes::F64EQ => Instruction::F64Eq,
            opcodes::F64NE => Instruction::F64Ne,
            opcodes::F64LT => Instruction::F64Lt,
            opcodes::F64GT => Instruction::F64Gt,
            opcodes::F64LE => Instruction::F64Le,
            opcodes::F64GE => Instruction::F64Ge,
            opcodes::I32CLZ => Instruction::I32Clz,
            opcodes::I32CTZ => Instruction::I32Ctz,
            opcodes::I32POPCNT => Instruction::I32Popcnt,
            opcodes::I32ADD => Instruction::I32Add,
            opcodes::I32SUB => Instruction::I32Sub,
            opcodes::I32MUL => Instruction::I32Mul,
            opcodes::I32DIVS => Instruction::I32DivS,
            opcodes::I32DIVU => Instruction::I32DivU,
            opcodes::I32REMS => Instruction::I32RemS,
            opcodes::I32REMU => Instruction::I32RemU,
            opcodes::I32AND => Instruction::I32And,
            opcodes::I32OR => Instruction::I32Or,
            opcodes::I32XOR => Instruction::I32Xor,
            opcodes::I32SHL => Instruction::I32Shl,
            opcodes::I32SHRS => Instruction::I32ShrS,
            opcodes::I32SHRU => Instruction::I32ShrU,
            opcodes::I32ROTL => Instruction::I32Rotl,
            opcodes::I32ROTR => Instruction::I32Rotr,
            opcodes::I64CLZ => Instruction::I64Clz,
            opcodes::I64CTZ => Instruction::I64Ctz,
            opcodes::I64POPCNT => Instruction::I64Popcnt,
            opcodes::I64ADD => Instruction::I64Add,
            opcodes::I64SUB => Instruction::I64Sub,
            opcodes::I64MUL => Instruction::I64Mul,
            opcodes::I64DIVS => Instruction::I64DivS,
            opcodes::I64DIVU => Instruction::I64DivU,
            opcodes::I64REMS => Instruction::I64RemS,
            opcodes::I64REMU => Instruction::I64RemU,
            opcodes::I64AND => Instruction::I64And,
            opcodes::I64OR => Instruction::I64Or,
            opcodes::I64XOR => Instruction::I64Xor,
            opcodes::I64SHL => Instruction::I64Shl,
            opcodes::I64SHRS => Instruction::I64ShrS,
            opcodes::I64SHRU => Instruction::I64ShrU,
            opcodes::I64ROTL => Instruction::I64Rotl,
            opcodes::I64ROTR => Instruction::I64Rotr,
            opcodes::F32ABS => Instruction::F32Abs,
            opcodes::F32NEG => Instruction::F32Neg,
            opcodes::F32CEIL => Instruction::F32Ceil,
            opcodes::F32FLOOR => Instruction::F32Floor,
            opcodes::F32TRUNC => Instruction::F32Trunc,
            opcodes::F32NEAREST => Instruction::F32Nearest,
            opcodes::F32SQRT => Instruction::F32Sqrt,
            opcodes::F32ADD => Instruction::F32Add,
            opcodes::F32SUB => Instruction::F32Sub,
            opcodes::F32MUL => Instruction::F32Mul,
            opcodes::F32DIV => Instruction::F32Div,
            opcodes::F32MIN => Instruction::F32Min,
            opcodes::F32MAX => Instruction::F32Max,
            opcodes::F32COPYSIGN => Instruction::F32Copysign,
            opcodes::F64ABS => Instruction::F64Abs,
            opcodes::F64NEG => Instruction::F64Neg,
            opcodes::F64CEIL => Instruction::F64Ceil,
            opcodes::F64FLOOR => Instruction::F64Floor,
            opcodes::F64TRUNC => Instruction::F64Trunc,
            opcodes::F64NEAREST => Instruction::F64Nearest,
            opcodes::F64SQRT => Instruction::F64Sqrt,
            opcodes::F64ADD => Instruction::F64Add,
            opcodes::F64SUB => Instruction::F64Sub,
            opcodes::F64MUL => Instruction::F64Mul,
            opcodes::F64DIV => Instruction::F64Div,
            opcodes::F64MIN => Instruction::F64Min,
            opcodes::F64MAX => Instruction::F64Max,
            opcodes::F64COPYSIGN => Instruction::F64Copysign,
            opcodes::I32WRAPI64 => Instruction::I32WrapI64,
            opcodes::I32TRUNCSF32 => Instruction::I32TruncSF32,
            opcodes::I32TRUNCUF32 => Instruction::I32TruncUF32,
            opcodes::I32TRUNCSF64 => Instruction::I32TruncSF64,
            opcodes::I32TRUNCUF64 => Instruction::I32TruncUF64,
            opcodes::I64EXTENDSI32 => Instruction::I64ExtendSI32,
            opcodes::I64EXTENDUI32 => Instruction::I64ExtendUI32,
            opcodes::I64TRUNCSF32 => Instruction::I64TruncSF32,
            opcodes::I64TRUNCUF32 => Instruction::I64TruncUF32,
            opcodes::I64TRUNCSF64 => Instruction::I64TruncSF64,
            opcodes::I64TRUNCUF64 => Instruction::I64TruncUF64,
            opcodes::F32CONVERTSI32 => Instruction::F32ConvertSI32,
            opcodes::F32CONVERTUI32 => Instruction::F32ConvertUI32,
            opcodes::F32CONVERTSI64 => Instruction::F32ConvertSI64,
            opcodes::F32CONVERTUI64 => Instruction::F32ConvertUI64,
            opcodes::F32DEMOTEF64 => Instruction::F32DemoteF64,
            opcodes::F64CONVERTSI32 => Instruction::F64ConvertSI32,
            opcodes::F64CONVERTUI32 => Instruction::F64ConvertUI32,
            opcodes::F64CONVERTSI64 => Instruction::F64ConvertSI64,
            opcodes::F64CONVERTUI64 => Instruction::F64ConvertUI64,
            opcodes::F64PROMOTEF32 => Instruction::F64PromoteF32,
            opcodes::I32REINTERPRETF32 => Instruction::I32ReinterpretF32,
            opcodes::I64REINTERPRETF64 => Instruction::I64ReinterpretF64,
            opcodes::F32REINTERPRETI32 => Instruction::F32ReinterpretI32,
            opcodes::F64REINTERPRETI64 => Instruction::F64ReinterpretI64,
                _ => {
                    return Err(Error::UnknownOpcode(val));
                },
            },
        )
    }
}

/// An instruction takes at least its opcode and ends within the input.
pub proof fn lemma_instruction_bounds(input: Seq<u8>, pos: int)
    ensures
        Instruction::spec_deserialize(input, pos) matches Ok((_, end)) ==> 0 <= pos < end
            <= input.len(),
{
    reveal(spec_immediates);
    let p = pos + 1;
    BlockType::lemma_deserialize_bounds(input, p);
    VarUint32::lemma_deserialize_bounds(input, p);
    if let Ok((_, pa)) = VarUint32::spec_deserialize(input, p) {
        VarUint32::lemma_deserialize_bounds(input, pa);
    }
    CountedList::<VarUint32>::lemma_deserialize_bounds(input, p);
    if let Ok((_, pa)) = CountedList::<VarUint32>::spec_deserialize(input, p) {
        VarUint32::lemma_deserialize_bounds(input, pa);
    }
    VarInt32::lemma_deserialize_bounds(input, p);
    VarInt64::lemma_deserialize_bounds(input, p);
}

/// What the format makes of the instructions from `pos` on when `depth`
/// blocks are open: the instructions up to and including the `End` that
/// closes the outermost of them, and the position behind that `End`.  Each
/// `Block`, `Loop` and `If` opens a block.  The number of open blocks must
/// stay within `usize`.
pub open spec fn spec_expression(input: Seq<u8>, pos: int, depth: int) -> Decoded<Seq<InstructionView>>
    decreases input.len() - pos,
{
    match Instruction::spec_deserialize(input, pos) {
        Ok((i, next)) => {
            if i.is_terminal() && depth <= 1 {
                Ok((seq![i], next))
            } else if i.is_block() && depth >= usize::MAX {
                Err((Error::Other("too many instructions"), next))
            } else {
                proof {
                    lemma_instruction_bounds(input, pos);
                }
                let inner = if i.is_terminal() {
                    depth - 1
                } else if i.is_block() {
                    depth + 1
                } else {
                    depth
                };
                match spec_expression(input, next, inner) {
                    Ok((rest, end)) => Ok((seq![i] + rest, end)),
                    Err(e) => Err(e),
                }
            }
        },
        Err(e) => Err(e),
    }
}

/// List of instructions (usually inside a block section).
#[derive(Debug, Clone, PartialEq)]
pub struct Instructions(Vec<Instruction>);

impl Instructions {
    /// New list of instructions from vector of instructions.
    pub fn new(elements: Vec<Instruction>) -> (r: Instructions)
        ensures
            r@ == views(elements@),
    {
        Instructions(elements)
    }

    /// The instructions of the list.
    pub fn elements(&self) -> (r: &[Instruction])
        ensures
            views(r@) == self@,
    {
        self.0.as_slice()
    }
}

impl View for Instructions {
    type V = Seq<InstructionView>;

    closed spec fn view(&self) -> Seq<InstructionView> {
        views(self.0@)
    }
}

impl Deserialize for Instructions {
    /// The body of a function: instructions up to and including the `End`
    /// that matches the start of the body.
    open spec fn spec_deserialize(input: Seq<u8>, pos: int) -> Decoded<Seq<InstructionView>> {
        spec_expression(input, pos, 1)
    }

    proof fn lemma_deserialize_bounds(input: Seq<u8>, pos: int) {
        lemma_expression_bounds(input, pos, 1);
    }

    fn deserialize(reader: &mut BufReader) -> (r: Result<Instructions, Error>) {
        let ghost input = reader.input();
        let ghost start = reader.position() as int;
        let mut instructions: Vec<Instruction> = Vec::new();
        let mut block_count: usize = 1;
        loop
            invariant
                input == old(reader).input(),
                start == old(reader).position(),
                reader.input() == input,
                block_count >= 1,
                match spec_expression(input, reader.position() as int, block_count as int) {
                    Ok((rest, end)) => spec_expression(input, start, 1) == Ok::<(Seq<InstructionView>, int), (Error, int)>((views(instructions@) + rest, end)),
                    Err(e) => spec_expression(input, start, 1) == Err::<(Seq<InstructionView>, int), (Error, int)>(e),
                },
            decreases reader.input().len() - reader.position(),
        {
            let ghost before = instructions@;
            let ghost pos = reader.position() as int;
            let ghost depth = block_count as int;
            proof {
                lemma_instruction_bounds(input, pos);
            }
            let instruction = Instruction::deserialize(reader)?;
            if instruction.is_terminal() {
                block_count = block_count - 1;
            } else if instruction.is_block() {
                block_count = match block_count.checked_add(1) {
                    Some(n) => n,
                    None => {
                        return Err(Error::Other("too many instructions"));
                    },
                };
            }
            proof {
                lemma_views_push(before, instruction);
                if let Ok((rest, end)) = spec_expression(
                    input,
                    reader.position() as int,
                    block_count as int,
                ) {
                    assert(views(before) + (seq![instruction@] + rest) =~= views(
                        before.push(instruction),
                    ) + rest);
                }
                assert(views(before) + seq![instruction@] =~= views(before.push(instruction)));
            }
            instructions.push(instruction);
            if block_count == 0 {
                return Ok(Instructions(instructions));
            }
        }
    }
}

/// The body of a function ends behind the position where it starts, and
/// within the input.
pub proof fn lemma_expression_bounds(input: Seq<u8>, pos: int, depth: int)
    ensures
        spec_expression(input, pos, depth) matches Ok((is, end)) ==> 0 <= pos < end <= input.len()
            && is.len() >= 1,
    decreases input.len() - pos,
{
    lemma_instruction_bounds(input, pos);
    if let Ok((i, next)) = Instruction::spec_deserialize(input, pos) {
        if i.is_terminal() && depth <= 1 {
        } else if i.is_block() && depth >= usize::MAX {
        } else {
            let inner = if i.is_terminal() {
                depth - 1
            } else if i.is_block() {
                depth + 1
            } else {
                depth
            };
            lemma_expression_bounds(input, next, inner);
        }
    }
}

/// What the format makes of an initializer expression at `pos`: the
/// instructions up to and including the first `End`, and the position behind
/// it.
pub open spec fn spec_init_expr(input: Seq<u8>, pos: int) -> Decoded<Seq<InstructionView>>
    decreases input.len() - pos,
{
    match Instruction::spec_deserialize(input, pos) {
        Ok((i, next)) => {
            if i.is_terminal() {
                Ok((seq![i], next))
            } else {
                proof {
                    lemma_instruction_bounds(input, pos);
                }
                match spec_init_expr(input, next) {
                    Ok((rest, end)) => Ok((seq![i] + rest, end)),
                    Err(e) => Err(e),
                }
            }
        },
        Err(e) => Err(e),
    }
}

/// Initialization expression.
#[derive(Debug, Clone, PartialEq)]
pub struct InitExpr(pub Vec<Instruction>);

impl View for InitExpr {
    type V = Seq<InstructionView>;

    open spec fn view(&self) -> Seq<InstructionView> {
        views(self.0@)
    }
}

impl Deserialize for InitExpr {
    /// Instructions up to and including the first `End`.
    open spec fn spec_deserialize(input: Seq<u8>, pos: int) -> Decoded<Seq<InstructionView>> {
        spec_init_expr(input, pos)
    }

    proof fn lemma_deserialize_bounds(input: Seq<u8>, pos: int) {
        lemma_init_expr_bounds(input, pos);
    }

    fn deserialize(reader: &mut BufReader) -> (r: Result<InitExpr, Error>) {
        let ghost input = reader.input();
        let ghost start = reader.position() as int;
        let mut instructions: Vec<Instruction> = Vec::new();
        loop
            invariant
                input == old(reader).input(),
                start == old(reader).position(),
                reader.input() == input,
                match spec_init_expr(input, reader.position() as int) {
                    Ok((rest, end)) => spec_init_expr(input, start) == Ok::<(Seq<InstructionView>, int), (Error, int)>((views(instructions@) + rest, end)),
                    Err(e) => spec_init_expr(input, start) == Err::<(Seq<InstructionView>, int), (Error, int)>(e),
                },
            decreases reader.input().len() - reader.position(),
        {
            let ghost before = instructions@;
            proof {
                lemma_instruction_bounds(input, reader.position() as int);
            }
            let instruction = Instruction::deserialize(reader)?;
            let is_terminal = instruction.is_terminal();
            proof {
                lemma_views_push(before, instruction);
                if let Ok((rest, end)) = spec_init_expr(input, reader.position() as int) {
                    assert(views(before) + (seq![instruction@] + rest) =~= views(
                        before.push(instruction),
                    ) + rest);
                }
                assert(views(before) + seq![instruction@] =~= views(before.push(instruction)));
            }
            instructions.push(instruction);
            if is_terminal {
                return Ok(InitExpr(instructions));
            }
        }
    }
}

/// An initializer expression ends behind the position where it starts, and
/// within the input.
pub proof fn lemma_init_expr_bounds(input: Seq<u8>, pos: int)
    ensures
        spec_init_expr(input, pos) matches Ok((is, end)) ==> 0 <= pos < end <= input.len()
            && is.len() >= 1,
    decreases input.len() - pos,
{
    lemma_instruction_bounds(input, pos);
    if let Ok((i, next)) = Instruction::spec_deserialize(input, pos) {
        if !i.is_terminal() {
            lemma_init_expr_bounds(input, next);
        }
    }
}

/// The number of blocks that are open behind the first `n` instructions of
/// `is`, where `depth` blocks were open before them: each `Block`, `Loop`
/// and `If` opens one, each `End` closes one.
pub open spec fn depth_after(is: Seq<InstructionView>, n: int, depth: int) -> int
    decreases n,
{
    if n <= 0 {
        depth
    } else {
        let before = depth_after(is, n - 1, depth);
        if is[n - 1].is_terminal() {
            before - 1
        } else if is[n - 1].is_block() {
            before + 1
        } else {
            before
        }
    }
}

/// The depth behind instructions that follow a first one is the depth
/// behind the followers alone, started from the depth behind the first.
proof fn lemma_depth_after_first(first: InstructionView, rest: Seq<InstructionView>, n: int, depth: int)
    requires
        1 <= n <= rest.len() + 1,
    ensures
        depth_after(seq![first] + rest, n, depth) == depth_after(
            rest,
            n - 1,
            depth_after(seq![first], 1, depth),
        ),
    decreases n,
{
    let all = seq![first] + rest;
    reveal_with_fuel(depth_after, 2);
    assert(all[0] == first);
    if n > 1 {
        lemma_depth_after_first(first, rest, n - 1, depth);
        assert(all[n - 1] == rest[n - 2]);
    }
}

/// In every function body that the decoder accepts the blocks are balanced:
/// counted from the depth at which the body starts, the depth is zero
/// behind the last instruction and at least one before it.
pub proof fn lemma_expression_balanced(input: Seq<u8>, pos: int, depth: int)
    requires
        depth >= 1,
    ensures
        spec_expression(input, pos, depth) matches Ok((is, end)) ==> {
            &&& is.len() >= 1
            &&& is[is.len() - 1].is_terminal()
            &&& depth_after(is, is.len() as int, depth) == 0
            &&& forall|n: int| 0 <= n < is.len() ==> #[trigger] depth_after(is, n, depth) >= 1
        },
    decreases input.len() - pos,
{
    lemma_instruction_bounds(input, pos);
    if let Ok((i, next)) = Instruction::spec_deserialize(input, pos) {
        reveal_with_fuel(depth_after, 2);
        if i.is_terminal() && depth <= 1 {
            assert(seq![i][0] == i);
        } else if i.is_block() && depth >= usize::MAX {
        } else {
            let inner = depth_after(seq![i], 1, depth);
            assert(seq![i][0] == i);
            lemma_expression_balanced(input, next, inner);
            if let Ok((rest, end)) = spec_expression(input, next, inner) {
                let is = seq![i] + rest;
                assert(is[is.len() - 1] == rest[rest.len() - 1]);
                lemma_depth_after_first(i, rest, is.len() as int, depth);
                assert forall|n: int| 0 <= n < is.len() implies #[trigger] depth_after(
                    is,
                    n,
                    depth,
                ) >= 1 by {
                    if n >= 1 {
                        lemma_depth_after_first(i, rest, n, depth);
                    }
                }
            }
        }
    }
}

/// A memory instruction whose reference byte is not zero is refused behind
/// that byte, so that the reference byte of every `CurrentMemory` and
/// `GrowMemory` that the decoder yields is zero.
pub proof fn lemma_memory_reference_is_zero(input: Seq<u8>, pos: int)
    requires
        0 <= pos && pos + 2 <= input.len(),
        input[pos] == opcodes::CURRENTMEMORY || input[pos] == opcodes::GROWMEMORY,
    ensures
        input[pos + 1] != 0 ==> Instruction::spec_deserialize(input, pos) == Err::<
            (InstructionView, int),
            (Error, int),
        >((Error::InvalidMemoryReference(input[pos + 1]), pos + 2)),
        input[pos + 1] == 0 && input[pos] == opcodes::CURRENTMEMORY
            ==> Instruction::spec_deserialize(input, pos) == done(
            Instruction::CurrentMemory(0),
            pos + 2,
        ),
        input[pos + 1] == 0 && input[pos] == opcodes::GROWMEMORY ==> Instruction::spec_deserialize(
            input,
            pos,
        ) == done(Instruction::GrowMemory(0), pos + 2),
{
    reveal(spec_immediates);
}

/// An indirect call whose table byte is not zero is refused behind that
/// byte, so that the table byte of every `CallIndirect` that the decoder
/// yields is zero.
pub proof fn lemma_table_reference_is_zero(input: Seq<u8>, pos: int)
    requires
        0 <= pos < input.len(),
        input[pos] == opcodes::CALLINDIRECT,
    ensures
        match VarUint32::spec_deserialize(input, pos + 1) {
            Ok((signature, at)) => if at >= input.len() {
                Instruction::spec_deserialize(input, pos) == Err::<
                    (InstructionView, int),
                    (Error, int),
                >((Error::UnexpectedEof, at))
            } else if input[at] != 0 {
                Instruction::spec_deserialize(input, pos) == Err::<
                    (InstructionView, int),
                    (Error, int),
                >((Error::InvalidTableReference(input[at]), at + 1))
            } else {
                Instruction::spec_deserialize(input, pos) == done(
                    Instruction::CallIndirect(signature, 0),
                    at + 1,
                )
            },
            Err(e) => Instruction::spec_deserialize(input, pos) == Err::<
                (InstructionView, int),
                (Error, int),
            >(e),
        },
{
    reveal(spec_immediates);
    VarUint32::lemma_deserialize_bounds(input, pos + 1);
}

/// Whether `opcode` is the opcode of an instruction.
pub open spec fn is_opcode(opcode: u8) -> bool {
    ||| opcode <= opcodes::ELSE
    ||| opcodes::END <= opcode <= opcodes::CALLINDIRECT
    ||| opcodes::DROP <= opcode <= opcodes::SELECT
    ||| opcodes::GETLOCAL <= opcode <= opcodes::SETGLOBAL
    ||| opcodes::I32LOAD <= opcode <= opcodes::F64REINTERPRETI64
}

/// A byte that is the opcode of no instruction is refused with
/// `UnknownOpcode` and that byte, and nothing behind it is read.  No other
/// byte is refused so.
pub proof fn lemma_unknown_opcode(input: Seq<u8>, pos: int)
    requires
        0 <= pos < input.len(),
    ensures
        !is_opcode(input[pos]) ==> Instruction::spec_deserialize(input, pos) == Err::<
            (InstructionView, int),
            (Error, int),
        >((Error::UnknownOpcode(input[pos]), pos + 1)),
        is_opcode(input[pos]) ==> !(Instruction::spec_deserialize(input, pos) matches Err(
            (Error::UnknownOpcode(_), _),
        )),
{
    reveal(spec_immediates);
    let p = pos + 1;
    if input[pos] == opcodes::BRTABLE {
        if let Ok((count, start)) = VarUint32::spec_deserialize(input, p) {
            lemma_sequence_failure::<VarUint32>(input, start, count as nat);
        }
    }
}

} // verus!
