use slcan::error::SlcanError;
use slcan::hex::{bytes_to_u32, hex_to_u32, num_to_string, string_to_num, u32_to_bytes};

#[test]
fn it_works() {}

#[test]
fn encodes_two_upper_case_digits_per_byte() {
    assert_eq!(num_to_string(&[0xAA, 0xBB]), b"AABB".to_vec());
    assert_eq!(num_to_string(&[0x00]), b"00".to_vec());
    assert_eq!(num_to_string(&[0x0F, 0xF0, 0x9A]), b"0FF09A".to_vec());
    assert_eq!(num_to_string(&[0x01, 0x23, 0x45, 0x67, 0x89, 0xAB, 0xCD, 0xEF]), b"0123456789ABCDEF".to_vec());
}

#[test]
fn encodes_nothing_as_nothing() {
    assert_eq!(num_to_string(&[]), Vec::<u8>::new());
}

#[test]
fn encoded_text_is_twice_as_long() {
    for len in 0..40usize {
        let bytes = vec![0x5Au8; len];
        assert_eq!(num_to_string(&bytes).len(), 2 * len);
    }
}

#[test]
fn encodes_high_nibble_first() {
    assert_eq!(num_to_string(&[0x1F]), b"1F".to_vec());
    assert_eq!(num_to_string(&[0xF1]), b"F1".to_vec());
}

#[test]
fn decodes_hex_text() {
    assert_eq!(string_to_num(b"AABB"), Ok(vec![0xAA, 0xBB]));
    assert_eq!(string_to_num(b"00"), Ok(vec![0x00]));
    assert_eq!(string_to_num(b"0123456789ABCDEF"), Ok(vec![0x01, 0x23, 0x45, 0x67, 0x89, 0xAB, 0xCD, 0xEF]));
}

#[test]
fn decodes_empty_text_as_no_bytes() {
    assert_eq!(string_to_num(b""), Ok(vec![]));
}

#[test]
fn decode_rejects_odd_length() {
    assert_eq!(string_to_num(b"A"), Err(SlcanError::InvalidInput));
    assert_eq!(string_to_num(b"ABC"), Err(SlcanError::InvalidInput));
}

#[test]
fn decode_rejects_characters_outside_the_digit_set() {
    assert_eq!(string_to_num(b"0G"), Err(SlcanError::InvalidInput));
    assert_eq!(string_to_num(b"G0"), Err(SlcanError::InvalidInput));
    assert_eq!(string_to_num(b"aabb"), Err(SlcanError::InvalidInput));
    assert_eq!(string_to_num(b" 1"), Err(SlcanError::InvalidInput));
    assert_eq!(string_to_num(b"1\r"), Err(SlcanError::InvalidInput));
    assert_eq!(string_to_num(&[0x30, 0xFF]), Err(SlcanError::InvalidInput));
}

#[test]
fn decode_checks_each_nibble_by_itself() {
    // Every character is judged alone: the neighbours of the digit ranges
    // are rejected in either position.
    for c in [b'/', b':', b';', b'@', b'G', b'`', b'a', b'f', b'g'] {
        assert_eq!(string_to_num(&[c, b'0']), Err(SlcanError::InvalidInput));
        assert_eq!(string_to_num(&[b'0', c]), Err(SlcanError::InvalidInput));
    }
    for (i, c) in b"0123456789ABCDEF".iter().enumerate() {
        assert_eq!(string_to_num(&[*c, b'0']), Ok(vec![(i as u8) << 4]));
        assert_eq!(string_to_num(&[b'0', *c]), Ok(vec![i as u8]));
    }
}

#[test]
fn decoding_encoded_bytes_gives_them_back() {
    let all: Vec<u8> = (0..=255u8).collect();
    assert_eq!(string_to_num(&num_to_string(&all)), Ok(all));
    for byte in 0..=255u8 {
        assert_eq!(string_to_num(&num_to_string(&[byte])), Ok(vec![byte]));
    }
    assert_eq!(string_to_num(&num_to_string(&[])), Ok(vec![]));
}

#[test]
fn splits_a_number_into_big_endian_bytes() {
    assert_eq!(u32_to_bytes(0x1234_5678), vec![0x12, 0x34, 0x56, 0x78]);
    assert_eq!(u32_to_bytes(0), vec![0, 0, 0, 0]);
    assert_eq!(u32_to_bytes(1), vec![0, 0, 0, 1]);
    assert_eq!(u32_to_bytes(0x0100_0000), vec![1, 0, 0, 0]);
    assert_eq!(u32_to_bytes(u32::MAX), vec![0xFF, 0xFF, 0xFF, 0xFF]);
}

#[test]
fn reads_a_number_from_big_endian_bytes() {
    assert_eq!(bytes_to_u32(&[0x12, 0x34, 0x56, 0x78]), Ok(0x1234_5678));
    assert_eq!(bytes_to_u32(&[0, 0, 0, 0]), Ok(0));
    assert_eq!(bytes_to_u32(&[0xFF, 0xFF, 0xFF, 0xFF]), Ok(u32::MAX));
    assert_eq!(bytes_to_u32(&[0x80, 0, 0, 0]), Ok(0x8000_0000));
}

#[test]
fn reads_a_number_from_the_first_four_bytes() {
    assert_eq!(bytes_to_u32(&[0x12, 0x34, 0x56, 0x78, 0x9A]), Ok(0x1234_5678));
}

#[test]
fn fewer_than_four_bytes_are_no_number() {
    assert_eq!(bytes_to_u32(&[]), Err(SlcanError::InvalidInput));
    assert_eq!(bytes_to_u32(&[1]), Err(SlcanError::InvalidInput));
    assert_eq!(bytes_to_u32(&[1, 2, 3]), Err(SlcanError::InvalidInput));
}

#[test]
fn reading_the_bytes_of_a_number_gives_it_back() {
    let mut n: u32 = 1;
    for _ in 0..200 {
        assert_eq!(bytes_to_u32(&u32_to_bytes(n)), Ok(n));
        n = n.wrapping_mul(1_664_525).wrapping_add(1_013_904_223);
    }
    for n in [0, 1, 0x7FF, 0x800, 0x1FFF_FFFF, 0x2000_0000, u32::MAX] {
        assert_eq!(bytes_to_u32(&u32_to_bytes(n)), Ok(n));
    }
}

#[test]
fn reads_hex_numbers_of_one_to_eight_digits() {
    assert_eq!(hex_to_u32(b"0"), Ok(0));
    assert_eq!(hex_to_u32(b"F"), Ok(15));
    assert_eq!(hex_to_u32(b"123"), Ok(0x123));
    assert_eq!(hex_to_u32(b"7FF"), Ok(0x7FF));
    assert_eq!(hex_to_u32(b"001ABCDE"), Ok(0x001A_BCDE));
    assert_eq!(hex_to_u32(b"FFFFFFFF"), Ok(u32::MAX));
    assert_eq!(hex_to_u32(b"0000001"), Ok(1));
}

#[test]
fn hex_numbers_need_one_to_eight_hex_digits() {
    assert_eq!(hex_to_u32(b""), Err(SlcanError::InvalidInput));
    assert_eq!(hex_to_u32(b"123456789"), Err(SlcanError::InvalidInput));
    assert_eq!(hex_to_u32(b"12G"), Err(SlcanError::InvalidInput));
    assert_eq!(hex_to_u32(b"abc"), Err(SlcanError::InvalidInput));
    assert_eq!(hex_to_u32(b"-1"), Err(SlcanError::InvalidInput));
}
