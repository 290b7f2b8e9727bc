use live2d_lpk::reader::{
    decode_bytes, decode_cstr, decode_padded, decode_str, decode_u32_list, MocReader,
};
use live2d_lpk::L2Error;

#[test]
fn reads_fixed_width_values_little_endian() {
    let bytes = [0x2A, 0x78, 0x56, 0x34, 0x12, 0xFE, 0xFF, 0xFF, 0xFF, 0x00, 0x00, 0x80, 0x3F];
    let mut reader = MocReader::new(&bytes);
    assert_eq!(reader.read_u8(), Ok(0x2A));
    assert_eq!(reader.read_u32(), Ok(0x12345678));
    assert_eq!(reader.read_i32(), Ok(-2));
    assert_eq!(reader.read_f32().map(f32::from_bits), Ok(1.0f32));
    assert_eq!(reader.offset(), 13);
    assert_eq!(reader.rest(), &[] as &[u8]);
}

#[test]
fn reads_the_ends_of_the_i32_range() {
    let bytes = [0x00, 0x00, 0x00, 0x80, 0xFF, 0xFF, 0xFF, 0x7F, 0xFF, 0xFF, 0xFF, 0xFF];
    let mut reader = MocReader::new(&bytes);
    assert_eq!(reader.read_i32(), Ok(i32::MIN));
    assert_eq!(reader.read_i32(), Ok(i32::MAX));
    assert_eq!(reader.read_i32(), Ok(-1));
}

#[test]
fn short_reads_fail_and_leave_the_cursor() {
    let bytes = [1, 2, 3];
    let mut reader = MocReader::new(&bytes);
    assert_eq!(reader.read_i32(), Err(L2Error::OutOfBounds { have: 3, need: 4 }));
    assert_eq!(reader.read_f32(), Err(L2Error::OutOfBounds { have: 3, need: 4 }));
    assert_eq!(reader.read_array::<4>(), Err(L2Error::OutOfBounds { have: 3, need: 4 }));
    assert_eq!(reader.offset(), 0);
    assert_eq!(reader.read_array::<3>(), Ok([1, 2, 3]));
    assert_eq!(reader.read_u8(), Err(L2Error::OutOfBounds { have: 0, need: 1 }));
    assert_eq!(reader.offset(), 3);
}

#[test]
fn read_array_of_nothing() {
    let mut reader = MocReader::new(&[]);
    assert_eq!(reader.read_array::<0>(), Ok([]));
    assert_eq!(reader.offset(), 0);
}

#[test]
fn advance_rest_and_view() {
    let bytes = [10, 20, 30, 40, 50];
    let mut reader = MocReader::new(&bytes);
    reader.advance(2);
    assert_eq!(reader.offset(), 2);
    assert_eq!(reader.rest(), &[30, 40, 50]);
    assert_eq!(reader.view(2), Ok(&[30u8, 40][..]));
    assert_eq!(reader.view(0), Ok(&[][..]));
    assert_eq!(reader.view(4), Err(L2Error::OutOfBounds { have: 3, need: 4 }));
    assert_eq!(reader.offset(), 2);
    reader.advance(3);
    assert_eq!(reader.rest(), &[] as &[u8]);
    assert_eq!(reader.input(), &bytes);
}

#[test]
fn reader_keeps_its_version() {
    let bytes = [0u8; 1];
    assert_eq!(MocReader::new(&bytes).version(), 0);
    let mut reader = MocReader::with_version(&bytes, 11);
    assert_eq!(reader.read_u8(), Ok(0));
    assert_eq!(reader.version(), 11);
}

#[test]
fn reads_strings_with_their_length_before() {
    let mut reader = MocReader::new(b"\x05hello\x00\x02hi");
    assert_eq!(reader.read_str(), Ok("hello".to_string()));
    assert_eq!(reader.read_str(), Ok(String::new()));
    assert_eq!(reader.read_str(), Ok("hi".to_string()));
    assert_eq!(reader.offset(), 10);
}

#[test]
fn malformed_text_is_replaced_not_refused() {
    let mut reader = MocReader::new(&[0x04, b'a', 0xFF, 0xC3, b'b']);
    assert_eq!(reader.read_str(), Ok("a\u{FFFD}\u{FFFD}b".to_string()));
    let mut reader = MocReader::new(&[0x03, 0xE6, 0xBC, 0xA2]);
    assert_eq!(reader.read_str(), Ok("漢".to_string()));
}

#[test]
fn string_failures() {
    assert_eq!(decode_str(&[], 0), Err(L2Error::InvalidVarint));
    assert_eq!(decode_str(&[0x03, b'a', b'b'], 0), Err(L2Error::OutOfBounds { have: 2, need: 3 }));
    let mut huge = vec![0xFF; 9];
    huge.push(0x01);
    assert_eq!(
        decode_str(&huge, 0),
        Err(L2Error::OutOfBounds { have: 0, need: u64::MAX })
    );
    let mut reader = MocReader::new(&[0x03, b'a', b'b']);
    assert!(reader.read_str().is_err());
    assert_eq!(reader.offset(), 0);
}

#[test]
fn borrows_bytes() {
    let bytes = [1u8, 2, 3, 4];
    assert_eq!(decode_bytes(&bytes, 1, 2), Ok((&[2u8, 3][..], 3)));
    assert_eq!(decode_bytes(&bytes, 4, 0), Ok((&[][..], 4)));
    assert_eq!(decode_bytes(&bytes, 3, 2), Err(L2Error::OutOfBounds { have: 1, need: 2 }));
}

#[test]
fn reads_lists_of_floats() {
    let bytes = [0x02, 0x00, 0x00, 0x80, 0x3F, 0x00, 0x00, 0x00, 0x40, 0x99];
    let (values, end) = decode_u32_list(&bytes, 0).unwrap();
    assert_eq!(values.iter().map(|v| f32::from_bits(*v)).collect::<Vec<f32>>(), vec![1.0, 2.0]);
    assert_eq!(end, 9);
    assert_eq!(decode_u32_list(&[0x00], 0), Ok((vec![], 1)));
}

#[test]
fn list_of_floats_fails_at_the_first_that_does_not_fit() {
    let bytes = [0x02, 0x00, 0x00, 0x80, 0x3F, 0x00, 0x00];
    assert_eq!(decode_u32_list(&bytes, 0), Err(L2Error::OutOfBounds { have: 2, need: 4 }));
    assert_eq!(decode_u32_list(&[0x05], 0), Err(L2Error::OutOfBounds { have: 0, need: 4 }));
    let mut huge = vec![0xFF; 9];
    huge.push(0x01);
    huge.extend_from_slice(&[0; 7]);
    assert_eq!(decode_u32_list(&huge, 0), Err(L2Error::OutOfBounds { have: 3, need: 4 }));
}

#[test]
fn error_messages() {
    assert_eq!(
        L2Error::OutOfBounds { have: 3, need: 40 }.message(),
        "Out of bounds: have=3, need=40"
    );
    assert_eq!(L2Error::UnknownTypeTag { tag: 112 }.message(), "Unknown type: type_id=112");
    assert_eq!(L2Error::UnsupportedVersion { byte: 6 }.message(), "Unsupported version: 6");
    assert_eq!(L2Error::InvalidVarint.message(), "Invalid variable-length integer");
    assert_eq!(L2Error::MalformedUtf8.message(), "Malformed UTF-8");
    assert_eq!(L2Error::InvalidMagic.message(), "Invalid magic");
}

#[test]
fn reads_padded_strings() {
    let bytes = *b"ab\0cdefgh\0\0xy";
    let mut reader = MocReader::new(&bytes);
    assert_eq!(reader.read_cstr(4), Ok("ab"));
    assert_eq!(reader.offset(), 4);
    assert_eq!(reader.read_cstr(4), Ok("defg"));
    assert_eq!(reader.read_cstr(0), Ok(""));
    assert_eq!(reader.read_cstr(3), Ok("h"));
    assert_eq!(reader.offset(), 11);
    assert_eq!(reader.read_cstr(3), Err(L2Error::OutOfBounds { have: 2, need: 3 }));
    assert_eq!(reader.offset(), 11);
    assert_eq!(reader.read_cstr(2), Ok("xy"));
    assert_eq!(reader.read_cstr(0), Ok(""));
}

#[test]
fn padded_strings_must_be_utf8() {
    let bytes = [b'a', 0xFF, 0, 0, 0xE6, 0xBC, 0xA2, 0];
    let mut reader = MocReader::new(&bytes);
    assert_eq!(reader.read_cstr(4), Err(L2Error::MalformedUtf8));
    assert_eq!(reader.offset(), 0);
    reader.advance(4);
    assert_eq!(reader.read_cstr(2), Err(L2Error::MalformedUtf8));
    assert_eq!(reader.read_cstr(4), Ok("漢"));
    assert_eq!(decode_padded(&[0, 0xFF]), Ok(""));
    assert_eq!(decode_padded(&[]), Ok(""));
    assert_eq!(decode_cstr(&bytes, 4, 3), Ok(("漢", 7)));
}
