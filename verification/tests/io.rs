use wasm_decoder::elements::Error;
use wasm_decoder::io::BufReader;

#[test]
fn new_reader_starts_at_the_front() {
    let r = BufReader::new(vec![1, 2, 3]);
    assert_eq!(r.position(), 0);
    assert_eq!(r.len(), 3);
    assert!(!r.is_at_end());
    assert!(BufReader::new(vec![]).is_at_end());
}

#[test]
fn read_u8_goes_byte_by_byte() {
    let mut r = BufReader::new(vec![7, 8]);
    assert_eq!(r.read_u8().unwrap(), 7);
    assert_eq!(r.read_u8().unwrap(), 8);
    assert!(r.is_at_end());
    assert!(matches!(r.read_u8(), Err(Error::UnexpectedEof)));
    assert_eq!(r.position(), 2);
}

#[test]
fn read_exact_is_all_or_nothing() {
    let mut r = BufReader::new(vec![1, 2, 3, 4, 5]);
    assert_eq!(r.read_exact(2).unwrap(), vec![1, 2]);
    assert_eq!(r.position(), 2);
    assert!(matches!(r.read_exact(4), Err(Error::UnexpectedEof)));
    assert_eq!(r.position(), 2);
    assert_eq!(r.read_exact(3).unwrap(), vec![3, 4, 5]);
    assert_eq!(r.read_exact(0).unwrap(), Vec::<u8>::new());
    assert!(matches!(r.read_exact(1), Err(Error::UnexpectedEof)));
}

#[test]
fn read_exact_of_a_huge_length_fails_without_reading() {
    let mut r = BufReader::new(vec![1, 2, 3]);
    assert!(matches!(r.read_exact(usize::MAX), Err(Error::UnexpectedEof)));
    assert_eq!(r.position(), 0);
}

#[test]
fn read_fills_the_front_of_the_buffer() {
    let mut r = BufReader::new(vec![1, 2, 3, 4, 5]);
    let mut buf = [0u8; 3];
    assert_eq!(r.read(&mut buf).unwrap(), 3);
    assert_eq!(buf, [1, 2, 3]);
    let mut buf = [9u8; 4];
    assert_eq!(r.read(&mut buf).unwrap(), 2);
    assert_eq!(buf, [4, 5, 9, 9]);
    assert_eq!(r.position(), 5);
}

#[test]
fn read_of_nothing_is_end_of_input() {
    let mut r = BufReader::new(vec![1]);
    let mut empty = [0u8; 0];
    assert!(matches!(r.read(&mut empty), Err(Error::UnexpectedEof)));
    assert_eq!(r.position(), 0);
    let mut buf = [0u8; 2];
    assert_eq!(r.read(&mut buf).unwrap(), 1);
    assert!(matches!(r.read(&mut buf), Err(Error::UnexpectedEof)));
    assert_eq!(buf, [1, 0]);
}

#[test]
fn into_inner_gives_the_input_back() {
    let mut r = BufReader::new(vec![1, 2, 3]);
    r.read_u8().unwrap();
    assert_eq!(r.into_inner(), vec![1, 2, 3]);
}
