use integer_encoding::VarInt;
use live2d_lpk::reader::{decode_varint, MocReader};
use live2d_lpk::L2Error;

fn round_trip(n: u64) {
    let mut bytes = n.encode_var_vec();
    let len = bytes.len();
    bytes.extend_from_slice(&[0xFF, 0x01]);
    let mut reader = MocReader::new(&bytes);
    assert_eq!(reader.read_var(), Ok(n));
    assert_eq!(reader.offset(), len);
}

#[test]
fn varint_round_trip() {
    for n in [0u64, 127, 128, 16384, 4294967295] {
        round_trip(n);
    }
}

#[test]
fn varint_round_trip_at_the_limits() {
    for n in [1u64, 129, 16383, 1 << 32, (1 << 56) - 1, 1 << 63, u64::MAX - 1, u64::MAX] {
        round_trip(n);
    }
}

#[test]
fn varint_lengths() {
    assert_eq!(decode_varint(&[0x00], 0), Ok((0, 1)));
    assert_eq!(decode_varint(&[0x7F], 0), Ok((127, 1)));
    assert_eq!(decode_varint(&[0x80, 0x01], 0), Ok((128, 2)));
    assert_eq!(decode_varint(&[0x80, 0x80, 0x01], 0), Ok((16384, 3)));
    assert_eq!(decode_varint(&[0xFF, 0xFF, 0xFF, 0xFF, 0x0F], 0), Ok((4294967295, 5)));
}

#[test]
fn varint_at_an_offset() {
    assert_eq!(decode_varint(&[0xFF, 0xAC, 0x02, 0x80], 1), Ok((300, 3)));
}

#[test]
fn varint_that_ends_early_is_invalid() {
    assert_eq!(decode_varint(&[], 0), Err(L2Error::InvalidVarint));
    assert_eq!(decode_varint(&[0x80], 0), Err(L2Error::InvalidVarint));
    assert_eq!(decode_varint(&[0xFF, 0xFF, 0xFF], 0), Err(L2Error::InvalidVarint));
    assert_eq!(decode_varint(&[0x01], 1), Err(L2Error::InvalidVarint));
}

#[test]
fn varint_of_more_than_64_bits_is_invalid() {
    let mut bytes = vec![0xFF; 9];
    bytes.push(0x02);
    assert_eq!(decode_varint(&bytes, 0), Err(L2Error::InvalidVarint));
    let mut bytes = vec![0x80; 10];
    bytes.push(0x00);
    assert_eq!(decode_varint(&bytes, 0), Err(L2Error::InvalidVarint));
}

#[test]
fn varint_takes_a_tenth_byte_of_one() {
    let mut bytes = vec![0xFF; 9];
    bytes.push(0x01);
    assert_eq!(decode_varint(&bytes, 0), Ok((u64::MAX, 10)));
    let mut bytes = vec![0x80; 9];
    bytes.push(0x00);
    assert_eq!(decode_varint(&bytes, 0), Ok((0, 10)));
}

#[test]
fn failed_read_var_leaves_the_cursor() {
    let bytes = [0x05, 0x80];
    let mut reader = MocReader::new(&bytes);
    assert_eq!(reader.read_var(), Ok(5));
    assert_eq!(reader.read_var(), Err(L2Error::InvalidVarint));
    assert_eq!(reader.offset(), 1);
}
