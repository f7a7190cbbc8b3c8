use gf_font::ByteReader;
use gf_font::GfError;

#[test]
fn can_read_single_byte() {
    let mut input_buffer = ByteReader::new(vec![47u8, 56u8]);
    assert_eq!(47, input_buffer.read1().unwrap());
    assert_eq!(56, input_buffer.read1().unwrap());
}

#[test]
fn can_read_double_byte() {
    let mut input_buffer = ByteReader::new(vec![47u8, 56u8]);
    assert_eq!(12_088, input_buffer.read2().unwrap());
}

#[test]
fn can_read_triple_byte() {
    let mut input_buffer = ByteReader::new(vec![47u8, 56u8, 0u8]);
    assert_eq!(12_088 * 256, input_buffer.read3().unwrap());
}

#[test]
fn can_read_quadruple_byte() {
    let mut input_buffer = ByteReader::new(vec![0xffu8, 0xffu8, 0u8, 0u8]);
    assert_eq!(-65_536, input_buffer.read4().unwrap());
}

#[test]
fn can_read_string() {
    let mut input_buffer = ByteReader::new("ABCDEFGHIJKLMNOPQRSTUVWXYZ".as_bytes().to_vec());
    assert_eq!("ABCDEFGHIJK", input_buffer.read_string(11).unwrap());
}

#[test]
fn can_read_string1() {
    let mut input_buffer = ByteReader::new("\x04ABCDEFGHIJKLMNOPQRSTUVWXYZ".as_bytes().to_vec());
    assert_eq!("ABCD", input_buffer.read_string1().unwrap());
}

#[test]
fn can_read_string2() {
    let mut input_buffer = ByteReader::new(
        "\x00\x05ABCDEFGHIJKLMNOPQRSTUVWXYZ".as_bytes().to_vec(),
    );
    assert_eq!("ABCDE", input_buffer.read_string2().unwrap());
}

#[test]
fn can_read_fix_word() {
    let mut input_buffer = ByteReader::new(vec![0x00, 0xa0, 0x00, 0x00]);
    let raw = input_buffer.read_fix_word().unwrap();
    assert_eq!(10.0, raw as f64 / 1_048_576.0);
}

#[test]
fn can_read_scaled_int() {
    let mut input_buffer = ByteReader::new(vec![0x00, 0x24, 0x00, 0x00]);
    let raw = input_buffer.read_scaled_int().unwrap();
    assert_eq!(36.0, raw as f64 / 65_536.0);
}

#[test]
fn read_string3_and_string4_take_wide_lengths() {
    let mut input_buffer = ByteReader::new(vec![0, 0, 3, b'a', b'b', b'c']);
    assert_eq!("abc", input_buffer.read_string3().unwrap());
    let mut input_buffer = ByteReader::new(vec![0, 0, 0, 2, b'h', b'i']);
    assert_eq!("hi", input_buffer.read_string4().unwrap());
}

#[test]
fn reads_past_the_end_fail() {
    let mut input_buffer = ByteReader::new(vec![1u8]);
    assert!(matches!(input_buffer.read2(), Err(GfError::UnexpectedEof)));
    assert_eq!(1, input_buffer.read1().unwrap());
    assert!(matches!(input_buffer.read1(), Err(GfError::UnexpectedEof)));
}

#[test]
fn negative_string_length_fails() {
    let mut input_buffer = ByteReader::new(vec![0x80, 0, 0, 0, b'x']);
    assert!(matches!(input_buffer.read_string4(), Err(GfError::UnexpectedEof)));
}
