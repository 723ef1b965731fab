use dexrs::error::{DexError, VarIntError};
use dexrs::leb128::{
    decode_leb128, decode_leb128_adv, decode_leb128_off, decode_leb128p1, decode_leb128p1_off,
    decode_sleb128, encode_leb128, encode_sleb128,
};

#[test]
fn uleb128_single_byte() {
    assert_eq!(decode_leb128(&[0x00]), Ok((0, 1)));
    assert_eq!(decode_leb128(&[0x7f]), Ok((127, 1)));
    assert_eq!(decode_leb128(&[0x02, 0x48, 0x69, 0x00]), Ok((2, 1)));
}

#[test]
fn uleb128_multi_byte() {
    assert_eq!(decode_leb128(&[0x80, 0x01]), Ok((128, 2)));
    assert_eq!(decode_leb128(&[0xb9, 0x0a]), Ok((1337, 2)));
    assert_eq!(decode_leb128(&[0xe5, 0x8e, 0x26]), Ok((624485, 3)));
    assert_eq!(decode_leb128(&[0xff, 0xff, 0xff, 0xff, 0x0f]), Ok((u32::MAX, 5)));
}

#[test]
fn uleb128_long_input_reads_one_group() {
    let mut data = vec![0xac, 0x02];
    data.extend_from_slice(&[0xff; 30]);
    assert_eq!(decode_leb128(&data), Ok((300, 2)));
}

#[test]
fn uleb128_empty_is_truncated() {
    assert_eq!(decode_leb128(&[]), Err(DexError::VarIntError(VarIntError::NotEnoughBytes)));
}

#[test]
fn uleb128_truncated_group() {
    assert_eq!(
        decode_leb128(&[0x80]),
        Err(DexError::VarIntError(VarIntError::NotEnoughBytes))
    );
    assert_eq!(
        decode_leb128(&[0xff, 0xff, 0xff, 0xff]),
        Err(DexError::VarIntError(VarIntError::NotEnoughBytes))
    );
}

#[test]
fn uleb128_overlong_is_overflow() {
    assert_eq!(
        decode_leb128(&[0x80, 0x80, 0x80, 0x80, 0x80, 0x01]),
        Err(DexError::VarIntError(VarIntError::Overflow))
    );
    assert_eq!(
        decode_leb128(&[0xff, 0xff, 0xff, 0xff, 0xff]),
        Err(DexError::VarIntError(VarIntError::Overflow))
    );
    assert_eq!(
        decode_leb128(&[0xff; 20]),
        Err(DexError::VarIntError(VarIntError::Overflow))
    );
}

#[test]
fn uleb128_fifth_byte_too_large_is_overflow() {
    assert_eq!(
        decode_leb128(&[0xff, 0xff, 0xff, 0xff, 0x10]),
        Err(DexError::VarIntError(VarIntError::Overflow))
    );
    assert_eq!(
        decode_leb128(&[0x80, 0x80, 0x80, 0x80, 0x7f]),
        Err(DexError::VarIntError(VarIntError::Overflow))
    );
}

#[test]
fn uleb128p1_zero_is_minus_one() {
    assert_eq!(decode_leb128p1(&[0x00]), Ok((-1, 1)));
    assert_eq!(decode_leb128p1(&[0x01]), Ok((0, 1)));
    assert_eq!(decode_leb128p1(&[0x80, 0x01]), Ok((127, 2)));
}

#[test]
fn uleb128p1_wraps_above_i32() {
    assert_eq!(decode_leb128p1(&[0xff, 0xff, 0xff, 0xff, 0x0f]), Ok((-2, 5)));
    assert_eq!(decode_leb128p1(&[0x80, 0x80, 0x80, 0x80, 0x08]), Ok((i32::MAX, 5)));
    assert_eq!(decode_leb128p1(&[0x81, 0x80, 0x80, 0x80, 0x08]), Ok((i32::MIN, 5)));
}

#[test]
fn uleb128p1_error_passes_through() {
    assert_eq!(decode_leb128p1(&[]), Err(DexError::VarIntError(VarIntError::NotEnoughBytes)));
}

#[test]
fn leb128_adv_moves_cursor_by_size() {
    let mut pos = 10usize;
    assert_eq!(decode_leb128_adv(&[0xb9, 0x0a, 0x00], &mut pos), Ok(1337));
    assert_eq!(pos, 12);
    assert!(decode_leb128_adv(&[0x80], &mut pos).is_err());
    assert_eq!(pos, 12);
}

#[test]
fn leb128_off_reads_at_cursor() {
    let data = [0xff, 0xb9, 0x0a, 0x05];
    let mut pos = 1usize;
    assert_eq!(decode_leb128_off(&data, &mut pos), Ok(1337));
    assert_eq!(pos, 3);
    assert_eq!(decode_leb128_off(&data, &mut pos), Ok(5));
    assert_eq!(pos, 4);
    assert_eq!(
        decode_leb128_off(&data, &mut pos),
        Err(DexError::VarIntError(VarIntError::NotEnoughBytes))
    );
    assert_eq!(pos, 4);
}

#[test]
fn leb128_off_cursor_past_end() {
    let mut pos = 9usize;
    assert_eq!(
        decode_leb128_off(&[0x01], &mut pos),
        Err(DexError::VarIntError(VarIntError::NotEnoughBytes))
    );
    assert_eq!(pos, 9);
}

#[test]
fn leb128p1_off_reads_at_cursor() {
    let data = [0x00, 0x05];
    let mut pos = 0usize;
    assert_eq!(decode_leb128p1_off(&data, &mut pos), Ok(-1));
    assert_eq!(decode_leb128p1_off(&data, &mut pos), Ok(4));
    assert_eq!(pos, 2);
    assert!(decode_leb128p1_off(&data, &mut pos).is_err());
}

#[test]
fn sleb128_small_values() {
    let mut pos = 0usize;
    assert_eq!(decode_sleb128(&[0x7f], &mut pos), Ok(-1));
    assert_eq!(pos, 1);
    pos = 0;
    assert_eq!(decode_sleb128(&[0x00], &mut pos), Ok(0));
    pos = 0;
    assert_eq!(decode_sleb128(&[0x3f], &mut pos), Ok(63));
    pos = 0;
    assert_eq!(decode_sleb128(&[0x40], &mut pos), Ok(-64));
    pos = 0;
    assert_eq!(decode_sleb128(&[0x80, 0x7f], &mut pos), Ok(-128));
    assert_eq!(pos, 2);
    pos = 0;
    assert_eq!(decode_sleb128(&[0xff, 0x05], &mut pos), Ok(767));
}

#[test]
fn sleb128_extremes() {
    let mut pos = 0usize;
    assert_eq!(decode_sleb128(&[0xff, 0xff, 0xff, 0xff, 0x07], &mut pos), Ok(i32::MAX));
    pos = 0;
    assert_eq!(decode_sleb128(&[0x80, 0x80, 0x80, 0x80, 0x78], &mut pos), Ok(i32::MIN));
    assert_eq!(pos, 5);
}

#[test]
fn sleb128_out_of_range_is_overflow() {
    let mut pos = 0usize;
    assert_eq!(
        decode_sleb128(&[0x80, 0x80, 0x80, 0x80, 0x08], &mut pos),
        Err(DexError::VarIntError(VarIntError::Overflow))
    );
    assert_eq!(pos, 0);
    assert_eq!(
        decode_sleb128(&[0x80, 0x80, 0x80, 0x80, 0x80, 0x00], &mut pos),
        Err(DexError::VarIntError(VarIntError::Overflow))
    );
}

#[test]
fn sleb128_truncated() {
    let mut pos = 0usize;
    assert_eq!(
        decode_sleb128(&[], &mut pos),
        Err(DexError::VarIntError(VarIntError::NotEnoughBytes))
    );
    assert_eq!(
        decode_sleb128(&[0x80, 0x80], &mut pos),
        Err(DexError::VarIntError(VarIntError::NotEnoughBytes))
    );
}

#[test]
fn encode_leb128_known_values() {
    assert_eq!(encode_leb128(0), vec![0x00]);
    assert_eq!(encode_leb128(127), vec![0x7f]);
    assert_eq!(encode_leb128(128), vec![0x80, 0x01]);
    assert_eq!(encode_leb128(624485), vec![0xe5, 0x8e, 0x26]);
    assert_eq!(encode_leb128(u32::MAX), vec![0xff, 0xff, 0xff, 0xff, 0x0f]);
}

#[test]
fn encode_sleb128_known_values() {
    assert_eq!(encode_sleb128(0), vec![0x00]);
    assert_eq!(encode_sleb128(-1), vec![0x7f]);
    assert_eq!(encode_sleb128(63), vec![0x3f]);
    assert_eq!(encode_sleb128(64), vec![0xc0, 0x00]);
    assert_eq!(encode_sleb128(-64), vec![0x40]);
    assert_eq!(encode_sleb128(-65), vec![0xbf, 0x7f]);
    assert_eq!(encode_sleb128(-123456), vec![0xc0, 0xbb, 0x78]);
    assert_eq!(encode_sleb128(i32::MIN), vec![0x80, 0x80, 0x80, 0x80, 0x78]);
}

#[test]
fn uleb128_round_trip_on_samples() {
    let samples = [0u32, 1, 127, 128, 16383, 16384, 2097151, 2097152, 268435455, 268435456, u32::MAX];
    for v in samples {
        let mut bytes = encode_leb128(v);
        let n = bytes.len();
        bytes.push(0xff);
        assert_eq!(decode_leb128(&bytes), Ok((v, n)));
    }
}

#[test]
fn sleb128_round_trip_on_samples() {
    let samples = [0i32, 1, -1, 63, 64, -64, -65, 8191, 8192, -8192, -8193, 1 << 20, -(1 << 27) - 1, i32::MAX, i32::MIN];
    for v in samples {
        let mut bytes = encode_sleb128(v);
        let n = bytes.len();
        bytes.push(0x80);
        let mut pos = 0usize;
        assert_eq!(decode_sleb128(&bytes, &mut pos), Ok(v));
        assert_eq!(pos, n);
    }
}
