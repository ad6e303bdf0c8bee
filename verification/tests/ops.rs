use wasm_decoder::elements::ops::{BrTableData, InitExpr, Instruction, Instructions};
use wasm_decoder::elements::types::{BlockType, ValueType};
use wasm_decoder::elements::{Deserialize, Error};
use wasm_decoder::io::BufReader;

fn decode<T: Deserialize>(bytes: &[u8]) -> (Result<T, Error>, usize) {
    let mut reader = BufReader::new(bytes.to_vec());
    let r = T::deserialize(&mut reader);
    (r, reader.position())
}

fn instruction(bytes: &[u8]) -> Instruction {
    let (r, pos) = decode::<Instruction>(bytes);
    assert_eq!(pos, bytes.len());
    r.unwrap()
}

#[test]
fn control_instructions() {
    assert_eq!(instruction(&[0x00]), Instruction::Unreachable);
    assert_eq!(instruction(&[0x01]), Instruction::Nop);
    assert_eq!(instruction(&[0x02, 0x40]), Instruction::Block(BlockType::NoResult));
    assert_eq!(instruction(&[0x03, 0x7f]), Instruction::Loop(BlockType::Value(ValueType::I32)));
    assert_eq!(instruction(&[0x04, 0x7c]), Instruction::If(BlockType::Value(ValueType::F64)));
    assert_eq!(instruction(&[0x05]), Instruction::Else);
    assert_eq!(instruction(&[0x0b]), Instruction::End);
    assert_eq!(instruction(&[0x0c, 0x05]), Instruction::Br(5));
    assert_eq!(instruction(&[0x0d, 0x80, 0x01]), Instruction::BrIf(128));
    assert_eq!(instruction(&[0x0f]), Instruction::Return);
    assert_eq!(instruction(&[0x10, 0x07]), Instruction::Call(7));
}

#[test]
fn branch_table() {
    assert_eq!(
        instruction(&[0x0e, 0x02, 0x01, 0x02, 0x00]),
        Instruction::BrTable(Box::new(BrTableData { table: vec![1, 2], default: 0 }))
    );
    assert_eq!(
        instruction(&[0x0e, 0x00, 0x09]),
        Instruction::BrTable(Box::new(BrTableData { table: vec![], default: 9 }))
    );
    assert!(matches!(decode::<Instruction>(&[0x0e, 0x02, 0x01]).0, Err(Error::UnexpectedEof)));
    assert!(matches!(
        decode::<Instruction>(&[0x0e, 0x01, 0x01]).0,
        Err(Error::UnexpectedEof)
    ));
}

#[test]
fn call_indirect_needs_the_table_zero() {
    assert_eq!(instruction(&[0x11, 0x03, 0x00]), Instruction::CallIndirect(3, 0));
    assert!(matches!(
        decode::<Instruction>(&[0x11, 0x00, 0x01]).0,
        Err(Error::InvalidTableReference(1))
    ));
    assert!(matches!(
        decode::<Instruction>(&[0x11, 0x00, 0xff]).0,
        Err(Error::InvalidTableReference(0xff))
    ));
    assert!(matches!(decode::<Instruction>(&[0x11, 0x00]).0, Err(Error::UnexpectedEof)));
}

#[test]
fn memory_size_instructions_need_the_memory_zero() {
    assert_eq!(instruction(&[0x3f, 0x00]), Instruction::CurrentMemory(0));
    assert_eq!(instruction(&[0x40, 0x00]), Instruction::GrowMemory(0));
    assert!(matches!(
        decode::<Instruction>(&[0x3f, 0x01]).0,
        Err(Error::InvalidMemoryReference(1))
    ));
    assert!(matches!(
        decode::<Instruction>(&[0x40, 0x02]).0,
        Err(Error::InvalidMemoryReference(2))
    ));
    assert!(matches!(decode::<Instruction>(&[0x40]).0, Err(Error::UnexpectedEof)));
}

#[test]
fn parametric_and_variable_instructions() {
    assert_eq!(instruction(&[0x1a]), Instruction::Drop);
    assert_eq!(instruction(&[0x1b]), Instruction::Select);
    assert_eq!(instruction(&[0x20, 0x00]), Instruction::GetLocal(0));
    assert_eq!(instruction(&[0x21, 0x01]), Instruction::SetLocal(1));
    assert_eq!(instruction(&[0x22, 0x02]), Instruction::TeeLocal(2));
    assert_eq!(instruction(&[0x23, 0x03]), Instruction::GetGlobal(3));
    assert_eq!(instruction(&[0x24, 0xff, 0xff, 0xff, 0xff, 0x0f]), Instruction::SetGlobal(u32::MAX));
}

#[test]
fn loads_and_stores_take_flags_then_offset() {
    assert_eq!(instruction(&[0x28, 0x02, 0x04]), Instruction::I32Load(2, 4));
    assert_eq!(instruction(&[0x29, 0x03, 0x00]), Instruction::I64Load(3, 0));
    assert_eq!(instruction(&[0x2a, 0x02, 0x80, 0x01]), Instruction::F32Load(2, 128));
    assert_eq!(instruction(&[0x2b, 0x03, 0x08]), Instruction::F64Load(3, 8));
    assert_eq!(instruction(&[0x2c, 0x00, 0x01]), Instruction::I32Load8S(0, 1));
    assert_eq!(instruction(&[0x2d, 0x00, 0x01]), Instruction::I32Load8U(0, 1));
    assert_eq!(instruction(&[0x2e, 0x01, 0x02]), Instruction::I32Load16S(1, 2));
    assert_eq!(instruction(&[0x2f, 0x01, 0x02]), Instruction::I32Load16U(1, 2));
    assert_eq!(instruction(&[0x30, 0x00, 0x01]), Instruction::I64Load8S(0, 1));
    assert_eq!(instruction(&[0x31, 0x00, 0x01]), Instruction::I64Load8U(0, 1));
    assert_eq!(instruction(&[0x32, 0x01, 0x02]), Instruction::I64Load16S(1, 2));
    assert_eq!(instruction(&[0x33, 0x01, 0x02]), Instruction::I64Load16U(1, 2));
    assert_eq!(instruction(&[0x34, 0x02, 0x04]), Instruction::I64Load32S(2, 4));
    assert_eq!(instruction(&[0x35, 0x02, 0x04]), Instruction::I64Load32U(2, 4));
    assert_eq!(instruction(&[0x36, 0x02, 0x04]), Instruction::I32Store(2, 4));
    assert_eq!(instruction(&[0x37, 0x03, 0x04]), Instruction::I64Store(3, 4));
    assert_eq!(instruction(&[0x38, 0x02, 0x04]), Instruction::F32Store(2, 4));
    assert_eq!(instruction(&[0x39, 0x03, 0x04]), Instruction::F64Store(3, 4));
    assert_eq!(instruction(&[0x3a, 0x00, 0x04]), Instruction::I32Store8(0, 4));
    assert_eq!(instruction(&[0x3b, 0x01, 0x04]), Instruction::I32Store16(1, 4));
    assert_eq!(instruction(&[0x3c, 0x00, 0x04]), Instruction::I64Store8(0, 4));
    assert_eq!(instruction(&[0x3d, 0x01, 0x04]), Instruction::I64Store16(1, 4));
    assert_eq!(instruction(&[0x3e, 0x02, 0x04]), Instruction::I64Store32(2, 4));
    assert!(matches!(decode::<Instruction>(&[0x28, 0x02]).0, Err(Error::UnexpectedEof)));
}

#[test]
fn constants() {
    assert_eq!(instruction(&[0x41, 0x7f]), Instruction::I32Const(-1));
    assert_eq!(instruction(&[0x41, 0x2a]), Instruction::I32Const(42));
    assert_eq!(instruction(&[0x42, 0x7f]), Instruction::I64Const(-1));
    assert_eq!(
        instruction(&[0x42, 0x80, 0x80, 0x80, 0x80, 0x80, 0x80, 0x80, 0x80, 0x80, 0x7f]),
        Instruction::I64Const(i64::MIN)
    );
    assert_eq!(instruction(&[0x43, 0x00, 0x00, 0x80, 0x3f]), Instruction::F32Const(0x3f80_0000));
    assert_eq!(
        instruction(&[0x44, 0x00, 0x00, 0x00, 0x00, 0x00, 0x00, 0xf0, 0x3f]),
        Instruction::F64Const(0x3ff0_0000_0000_0000)
    );
    assert!(matches!(
        decode::<Instruction>(&[0x41, 0x80, 0x80, 0x80, 0x80, 0x08]).0,
        Err(Error::InvalidVarInt32)
    ));
    assert!(matches!(decode::<Instruction>(&[0x43, 0x00, 0x00]).0, Err(Error::UnexpectedEof)));
}

#[test]
fn numeric_instructions_at_the_ends_of_their_ranges() {
    assert_eq!(instruction(&[0x45]), Instruction::I32Eqz);
    assert_eq!(instruction(&[0x4f]), Instruction::I32GeU);
    assert_eq!(instruction(&[0x50]), Instruction::I64Eqz);
    assert_eq!(instruction(&[0x5a]), Instruction::I64GeU);
    assert_eq!(instruction(&[0x5b]), Instruction::F32Eq);
    assert_eq!(instruction(&[0x60]), Instruction::F32Ge);
    assert_eq!(instruction(&[0x61]), Instruction::F64Eq);
    assert_eq!(instruction(&[0x66]), Instruction::F64Ge);
    assert_eq!(instruction(&[0x67]), Instruction::I32Clz);
    assert_eq!(instruction(&[0x6a]), Instruction::I32Add);
    assert_eq!(instruction(&[0x78]), Instruction::I32Rotr);
    assert_eq!(instruction(&[0x79]), Instruction::I64Clz);
    assert_eq!(instruction(&[0x8a]), Instruction::I64Rotr);
    assert_eq!(instruction(&[0x8b]), Instruction::F32Abs);
    assert_eq!(instruction(&[0x98]), Instruction::F32Copysign);
    assert_eq!(instruction(&[0x99]), Instruction::F64Abs);
    assert_eq!(instruction(&[0xa6]), Instruction::F64Copysign);
    assert_eq!(instruction(&[0xa7]), Instruction::I32WrapI64);
    assert_eq!(instruction(&[0xbb]), Instruction::F64PromoteF32);
    assert_eq!(instruction(&[0xbc]), Instruction::I32ReinterpretF32);
    assert_eq!(instruction(&[0xbf]), Instruction::F64ReinterpretI64);
}

#[test]
fn unknown_opcodes() {
    for op in [0x06u8, 0x0a, 0x12, 0x19, 0x1c, 0x1f, 0x25, 0x27, 0xc0, 0xfc, 0xff] {
        match decode::<Instruction>(&[op, 0x00, 0x00]).0 {
            Err(Error::UnknownOpcode(v)) => assert_eq!(v, op),
            other => panic!("unexpected {:?}", other),
        }
    }
    assert!(matches!(decode::<Instruction>(&[]).0, Err(Error::UnexpectedEof)));
}

#[test]
fn every_opcode_is_known_or_refused_by_its_number() {
    let mut known = 0;
    for op in 0u8..=255 {
        let bytes = [op, 0x00, 0x00, 0x00, 0x00, 0x00, 0x00, 0x00, 0x00];
        match decode::<Instruction>(&bytes).0 {
            Ok(_) => known += 1,
            Err(Error::UnknownOpcode(v)) => assert_eq!(v, op),
            Err(Error::UnknownValueType(0)) => {
                assert!(op == 0x02 || op == 0x03 || op == 0x04);
                known += 1;
            }
            other => panic!("unexpected {:?}", other),
        }
    }
    assert_eq!(known, 172);
}

#[test]
fn blocks_and_terminals() {
    assert!(Instruction::Block(BlockType::NoResult).is_block());
    assert!(Instruction::Loop(BlockType::NoResult).is_block());
    assert!(Instruction::If(BlockType::Value(ValueType::I32)).is_block());
    assert!(!Instruction::Else.is_block());
    assert!(!Instruction::End.is_block());
    assert!(Instruction::End.is_terminal());
    assert!(!Instruction::Return.is_terminal());
    assert!(!Instruction::Block(BlockType::NoResult).is_terminal());
    assert!(!Instruction::BrTable(Box::new(BrTableData { table: vec![], default: 0 })).is_block());
}

#[test]
fn body_ends_with_the_end_that_matches_its_start() {
    let (r, pos) = decode::<Instructions>(&[0x0b, 0x01]);
    assert_eq!(r.unwrap().elements(), &[Instruction::End]);
    assert_eq!(pos, 1);
}

#[test]
fn body_holds_nested_blocks() {
    let bytes = [0x02, 0x40, 0x03, 0x40, 0x01, 0x0b, 0x04, 0x7f, 0x41, 0x01, 0x05, 0x0b, 0x0b, 0x0b, 0x00];
    let (r, pos) = decode::<Instructions>(&bytes);
    let body = r.unwrap();
    assert_eq!(
        body.elements(),
        &[
            Instruction::Block(BlockType::NoResult),
            Instruction::Loop(BlockType::NoResult),
            Instruction::Nop,
            Instruction::End,
            Instruction::If(BlockType::Value(ValueType::I32)),
            Instruction::I32Const(1),
            Instruction::Else,
            Instruction::End,
            Instruction::End,
            Instruction::End,
        ]
    );
    assert_eq!(pos, 14);
    assert_eq!(body, Instructions::new(body.elements().to_vec()));
}

#[test]
fn body_depth_reaches_zero_only_at_the_last_instruction() {
    let bytes = [0x02, 0x40, 0x02, 0x40, 0x0b, 0x01, 0x0b, 0x0b];
    let body = decode::<Instructions>(&bytes).0.unwrap();
    let mut depth = 1i64;
    let n = body.elements().len();
    for (k, i) in body.elements().iter().enumerate() {
        assert!(depth >= 1);
        if i.is_terminal() {
            depth -= 1;
        } else if i.is_block() {
            depth += 1;
        }
        assert_eq!(depth == 0, k + 1 == n);
    }
    assert_eq!(depth, 0);
}

#[test]
fn body_without_its_end_is_cut_short() {
    assert!(matches!(decode::<Instructions>(&[0x02, 0x40, 0x0b]).0, Err(Error::UnexpectedEof)));
    assert!(matches!(decode::<Instructions>(&[0x01, 0x01]).0, Err(Error::UnexpectedEof)));
    assert!(matches!(decode::<Instructions>(&[]).0, Err(Error::UnexpectedEof)));
    assert!(matches!(decode::<Instructions>(&[0x01, 0xc5]).0, Err(Error::UnknownOpcode(0xc5))));
}

#[test]
fn init_expr_keeps_its_instructions() {
    let (r, pos) = decode::<InitExpr>(&[0x41, 0x2a, 0x0b, 0x0b]);
    assert_eq!(r.unwrap(), InitExpr(vec![Instruction::I32Const(42), Instruction::End]));
    assert_eq!(pos, 3);
    assert_eq!(decode::<InitExpr>(&[0x0b]).0.unwrap(), InitExpr(vec![Instruction::End]));
}

#[test]
fn init_expr_ends_at_the_first_end() {
    let (r, pos) = decode::<InitExpr>(&[0x02, 0x40, 0x23, 0x00, 0x0b, 0x0b]);
    assert_eq!(
        r.unwrap(),
        InitExpr(vec![
            Instruction::Block(BlockType::NoResult),
            Instruction::GetGlobal(0),
            Instruction::End,
        ])
    );
    assert_eq!(pos, 5);
    assert!(matches!(decode::<InitExpr>(&[0x41, 0x00]).0, Err(Error::UnexpectedEof)));
}
