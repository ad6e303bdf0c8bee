use wasm_decoder::elements::types::{BlockType, FunctionType, TableElementType, ValueType};
use wasm_decoder::elements::{Deserialize, Error};
use wasm_decoder::io::BufReader;

fn decode<T: Deserialize>(bytes: &[u8]) -> (Result<T, Error>, usize) {
    let mut reader = BufReader::new(bytes.to_vec());
    let r = T::deserialize(&mut reader);
    (r, reader.position())
}

#[test]
fn value_type_codes() {
    assert_eq!(decode::<ValueType>(&[0x7f]).0.unwrap(), ValueType::I32);
    assert_eq!(decode::<ValueType>(&[0x7e]).0.unwrap(), ValueType::I64);
    assert_eq!(decode::<ValueType>(&[0x7d]).0.unwrap(), ValueType::F32);
    assert_eq!(decode::<ValueType>(&[0x7c]).0.unwrap(), ValueType::F64);
}

#[test]
fn value_type_refuses_other_codes() {
    assert!(matches!(decode::<ValueType>(&[0x7b]).0, Err(Error::UnknownValueType(-5))));
    assert!(matches!(decode::<ValueType>(&[0x00]).0, Err(Error::UnknownValueType(0))));
    assert!(matches!(decode::<ValueType>(&[0x40]).0, Err(Error::UnknownValueType(-64))));
    assert!(matches!(decode::<ValueType>(&[0xff]).0, Err(Error::InvalidVarInt7(0xff))));
    assert!(matches!(decode::<ValueType>(&[]).0, Err(Error::UnexpectedEof)));
}

#[test]
fn block_type_codes() {
    assert_eq!(decode::<BlockType>(&[0x40]).0.unwrap(), BlockType::NoResult);
    assert_eq!(decode::<BlockType>(&[0x7f]).0.unwrap(), BlockType::Value(ValueType::I32));
    assert_eq!(decode::<BlockType>(&[0x7e]).0.unwrap(), BlockType::Value(ValueType::I64));
    assert_eq!(decode::<BlockType>(&[0x7d]).0.unwrap(), BlockType::Value(ValueType::F32));
    assert_eq!(decode::<BlockType>(&[0x7c]).0.unwrap(), BlockType::Value(ValueType::F64));
    assert!(matches!(decode::<BlockType>(&[0x41]).0, Err(Error::UnknownValueType(-63))));
    assert!(matches!(decode::<BlockType>(&[0x80]).0, Err(Error::InvalidVarInt7(0x80))));
}

#[test]
fn table_element_type_code() {
    assert_eq!(decode::<TableElementType>(&[0x70]).0.unwrap(), TableElementType::AnyFunc);
    assert!(matches!(
        decode::<TableElementType>(&[0x7f]).0,
        Err(Error::UnknownTableElementType(-1))
    ));
    assert!(matches!(
        decode::<TableElementType>(&[0x10]).0,
        Err(Error::UnknownTableElementType(16))
    ));
}

#[test]
fn function_type_with_parameters_and_result() {
    let (r, pos) = decode::<FunctionType>(&[0x60, 0x02, 0x7f, 0x7e, 0x01, 0x7d, 0xaa]);
    assert_eq!(
        r.unwrap(),
        FunctionType {
            form: 0x60,
            params: vec![ValueType::I32, ValueType::I64],
            results: vec![ValueType::F32],
        }
    );
    assert_eq!(pos, 6);
}

#[test]
fn function_type_without_parameters_and_result() {
    let (r, pos) = decode::<FunctionType>(&[0x60, 0x00, 0x00]);
    assert_eq!(r.unwrap(), FunctionType { form: 0x60, params: vec![], results: vec![] });
    assert_eq!(pos, 3);
}

#[test]
fn function_type_needs_the_form_0x60() {
    assert!(matches!(
        decode::<FunctionType>(&[0x61, 0x00, 0x00]).0,
        Err(Error::UnknownFunctionForm(0x61))
    ));
    assert!(matches!(
        decode::<FunctionType>(&[0xe0, 0x00, 0x00]).0,
        Err(Error::UnknownFunctionForm(0xe0))
    ));
    assert!(matches!(decode::<FunctionType>(&[]).0, Err(Error::UnexpectedEof)));
}

#[test]
fn function_type_has_at_most_one_result() {
    let r = decode::<FunctionType>(&[0x60, 0x00, 0x02, 0x7f, 0x7f]).0;
    match r {
        Err(Error::Other(msg)) => assert_eq!(
            msg,
            "Enable the multi_value feature to deserialize more than one function result"
        ),
        other => panic!("unexpected {:?}", other),
    }
}

#[test]
fn function_type_default_is_empty() {
    let t = FunctionType::default();
    assert_eq!(t.form, 0);
    assert!(t.params.is_empty());
    assert!(t.results.is_empty());
}
