use vstd::prelude::*;
use vstd::slice::slice_subrange;

use crate::error::{DexError, VarIntError};

verus! {

/// Index of the first byte at or after `i` that ends a group: one without the
/// continuation bit, or the end of the input. Only the first five bytes are
/// looked at, so the result is at most five.
pub open spec fn run_from(bytes: Seq<u8>, i: nat) -> nat
    decreases 5 - i,
{
    if i >= 5 || i >= bytes.len() || bytes[i as int] < 0x80 {
        i
    } else {
        run_from(bytes, i + 1)
    }
}

/// Little-endian base-128 value of the payload bits of `bytes[i..n]`.
pub open spec fn value_from(bytes: Seq<u8>, i: nat, n: nat) -> nat
    decreases n - i,
{
    if i >= n {
        0
    } else {
        (bytes[i as int] % 128) as nat + 128 * value_from(bytes, i + 1, n)
    }
}

/// What decoding an unsigned 32-bit LEB128 value from the front of `bytes` gives:
/// the value and the number of bytes it occupies.
pub open spec fn uleb128_decode(bytes: Seq<u8>) -> Result<(u32, usize), VarIntError> {
    let k = run_from(bytes, 0);
    if bytes.len() == 0 {
        Err(VarIntError::NotEnoughBytes)
    } else if k == 5 {
        Err(VarIntError::Overflow)
    } else if k == bytes.len() {
        Err(VarIntError::NotEnoughBytes)
    } else if k == 4 && bytes[4] > 0x0f {
        Err(VarIntError::Overflow)
    } else {
        Ok((value_from(bytes, 0, k + 1) as u32, (k + 1) as usize))
    }
}

/// Calls `varint_simd::decode::<u32>`. That function reads the leading group of
/// bytes with the continuation bit set plus the byte that ends it, and joins
/// their low seven bits, least significant first. It reports `Overflow` when
/// the group runs past five bytes or the fifth byte holds more than four bits,
/// and `NotEnoughBytes` when the input is empty or ends inside the group.
/// The crate reads its input as little-endian words, and this is what it
/// returns on the little-endian machines it is written for.
#[verifier::external_body]
fn varint_decode_u32(data: &[u8]) -> (r: Result<(u32, usize), VarIntError>)
    ensures
        r == uleb128_decode(data@),
{
    match varint_simd::decode::<u32>(data) {
        Ok((value, size)) => Ok((value, size)),
        Err(varint_simd::VarIntDecodeError::Overflow) => Err(VarIntError::Overflow),
        Err(varint_simd::VarIntDecodeError::NotEnoughBytes) => Err(VarIntError::NotEnoughBytes),
    }
}

/// The library error that stands for a failed LEB128 decode.
pub open spec fn lift(r: Result<(u32, usize), VarIntError>) -> Result<(u32, usize), DexError> {
    match r {
        Ok(p) => Ok(p),
        Err(e) => Err(DexError::VarIntError(e)),
    }
}

/// Decodes an unsigned LEB128 value from the front of `data_in`.
pub fn decode_leb128(data_in: &[u8]) -> (r: Result<(u32, usize), DexError>)
    ensures
        r == lift(uleb128_decode(data_in@)),
{
    match varint_decode_u32(data_in) {
        Ok(p) => Ok(p),
        Err(e) => Err(DexError::VarIntError(e)),
    }
}

/// The signed value that the unsigned payload `v` stands for once one has been
/// taken off: zero stands for minus one, and the 32-bit pattern wraps.
pub open spec fn minus_one(v: u32) -> int {
    if v == 0 {
        -1
    } else if v - 1 <= i32::MAX {
        v - 1
    } else {
        v - 1 - 0x1_0000_0000
    }
}

/// What decoding a "plus one" biased LEB128 value from the front of `bytes` gives.
pub open spec fn uleb128p1_decode(bytes: Seq<u8>) -> Result<(i32, usize), DexError> {
    match uleb128_decode(bytes) {
        Ok((v, n)) => Ok((minus_one(v) as i32, n)),
        Err(e) => Err(DexError::VarIntError(e)),
    }
}

fn wrapping_minus_one(v: u32) -> (r: i32)
    ensures
        r == minus_one(v),
{
    if v == 0 {
        -1
    } else if v - 1 <= 0x7fff_ffff {
        (v - 1) as i32
    } else {
        let low: u32 = v - 1 - 0x8000_0000;
        (low as i32) - 0x4000_0000 - 0x4000_0000
    }
}

/// Decodes an unsigned LEB128 value biased by one: the encoded value zero
/// stands for minus one, any other for itself less one.
pub fn decode_leb128p1(data_in: &[u8]) -> (r: Result<(i32, usize), DexError>)
    ensures
        r == uleb128p1_decode(data_in@),
{
    match decode_leb128(data_in) {
        Ok((value, size)) => Ok((wrapping_minus_one(value), size)),
        Err(e) => Err(e),
    }
}

/// Decodes an unsigned LEB128 value from the front of `data_in` and moves the
/// cursor on by the bytes read. On failure the cursor stays.
pub fn decode_leb128_adv(data_in: &[u8], ptr_pos: &mut usize) -> (r: Result<u32, DexError>)
    requires
        *old(ptr_pos) + 5 <= usize::MAX,
    ensures
        match lift(uleb128_decode(data_in@)) {
            Ok((v, n)) => r == Ok::<u32, DexError>(v) && *final(ptr_pos) == *old(ptr_pos) + n,
            Err(e) => r == Err::<u32, DexError>(e) && *final(ptr_pos) == *old(ptr_pos),
        },
{
    match decode_leb128(data_in) {
        Ok((value, size)) => {
            proof {
                lemma_decode_size(data_in@);
            }
            *ptr_pos = *ptr_pos + size;
            Ok(value)
        },
        Err(e) => Err(e),
    }
}

/// The bytes of `bytes` from `pos` on; nothing where `pos` lies past the end.
pub open spec fn tail(bytes: Seq<u8>, pos: int) -> Seq<u8> {
    if 0 <= pos <= bytes.len() {
        bytes.subrange(pos, bytes.len() as int)
    } else {
        Seq::empty()
    }
}

fn tail_of<'a>(data: &'a [u8], pos: usize) -> (r: &'a [u8])
    ensures
        r@ == tail(data@, pos as int),
        data@.len() <= usize::MAX,
{
    if pos <= data.len() {
        slice_subrange(data, pos, data.len())
    } else {
        slice_subrange(data, 0, 0)
    }
}

/// Decodes an unsigned LEB128 value at `*ptr_pos` in `data_in` and moves the
/// cursor past it. A cursor at or beyond the end finds no bytes and fails with
/// `NotEnoughBytes`; on failure the cursor stays.
pub fn decode_leb128_off(data_in: &[u8], ptr_pos: &mut usize) -> (r: Result<u32, DexError>)
    ensures
        match lift(uleb128_decode(tail(data_in@, *old(ptr_pos) as int))) {
            Ok((v, n)) => r == Ok::<u32, DexError>(v) && *final(ptr_pos) == *old(ptr_pos) + n
                && *final(ptr_pos) <= data_in@.len(),
            Err(e) => r == Err::<u32, DexError>(e) && *final(ptr_pos) == *old(ptr_pos),
        },
{
    let rest = tail_of(data_in, *ptr_pos);
    match decode_leb128(rest) {
        Ok((value, size)) => {
            proof {
                lemma_decode_size(rest@);
            }
            *ptr_pos = *ptr_pos + size;
            Ok(value)
        },
        Err(e) => Err(e),
    }
}

/// Decodes a "plus one" biased LEB128 value at `*ptr_pos` in `data_in` and
/// moves the cursor past it. On failure the cursor stays.
pub fn decode_leb128p1_off(data_in: &[u8], ptr_pos: &mut usize) -> (r: Result<i32, DexError>)
    ensures
        match uleb128p1_decode(tail(data_in@, *old(ptr_pos) as int)) {
            Ok((v, n)) => r == Ok::<i32, DexError>(v) && *final(ptr_pos) == *old(ptr_pos) + n
                && *final(ptr_pos) <= data_in@.len(),
            Err(e) => r == Err::<i32, DexError>(e) && *final(ptr_pos) == *old(ptr_pos),
        },
{
    let rest = tail_of(data_in, *ptr_pos);
    match decode_leb128p1(rest) {
        Ok((value, size)) => {
            proof {
                lemma_decode_size(rest@);
            }
            *ptr_pos = *ptr_pos + size;
            Ok(value)
        },
        Err(e) => Err(e),
    }
}

/// A successful decode reads between one and five bytes, all of them present.
pub proof fn lemma_decode_size(bytes: Seq<u8>)
    ensures
        uleb128_decode(bytes) is Ok ==> 1 <= uleb128_decode(bytes)->Ok_0.1 <= 5
            && uleb128_decode(bytes)->Ok_0.1 <= bytes.len(),
{
    lemma_run_bounds(bytes, 0);
}

/// `run_from` never moves backwards, stops by five and stays within the input.
pub proof fn lemma_run_bounds(bytes: Seq<u8>, i: nat)
    requires
        i <= 5,
    ensures
        i <= run_from(bytes, i) <= 5,
        i <= bytes.len() ==> run_from(bytes, i) <= bytes.len(),
    decreases 5 - i,
{
    if i >= 5 || i >= bytes.len() || bytes[i as int] < 0x80 {
    } else {
        lemma_run_bounds(bytes, i + 1);
    }
}

/// 128 to the power `n`.
pub open spec fn pow128(n: nat) -> int
    decreases n,
{
    if n == 0 {
        1
    } else {
        128 * pow128((n - 1) as nat)
    }
}

/// The two's-complement reading of the first `n` bytes' payload: bit six of
/// the last byte is the sign.
pub open spec fn signed_value(bytes: Seq<u8>, n: nat) -> int {
    let raw = value_from(bytes, 0, n) as int;
    if n >= 1 && bytes[n - 1] % 128 >= 64 {
        raw - pow128(n)
    } else {
        raw
    }
}

/// What decoding a signed 32-bit LEB128 value from the front of `bytes` gives.
/// A group of more than five bytes, or one whose value lies outside `i32`, is
/// an overflow.
pub open spec fn sleb128_decode(bytes: Seq<u8>) -> Result<(i32, usize), VarIntError> {
    let k = run_from(bytes, 0);
    if bytes.len() == 0 {
        Err(VarIntError::NotEnoughBytes)
    } else if k == 5 {
        Err(VarIntError::Overflow)
    } else if k == bytes.len() {
        Err(VarIntError::NotEnoughBytes)
    } else if i32::MIN <= signed_value(bytes, k + 1) <= i32::MAX {
        Ok((signed_value(bytes, k + 1) as i32, (k + 1) as usize))
    } else {
        Err(VarIntError::Overflow)
    }
}

proof fn lemma_pow128_values()
    ensures
        pow128(0) == 1,
        pow128(1) == 128,
        pow128(2) == 16384,
        pow128(3) == 2097152,
        pow128(4) == 268435456,
        pow128(5) == 34359738368,
{
    reveal_with_fuel(pow128, 6);
}

proof fn lemma_value_bound(bytes: Seq<u8>, i: nat, n: nat)
    requires
        i <= n,
    ensures
        value_from(bytes, i, n) < pow128((n - i) as nat),
    decreases n - i,
{
    if i < n {
        lemma_value_bound(bytes, i + 1, n);
        assert(pow128((n - i) as nat) == 128 * pow128((n - i - 1) as nat));
    }
}

fn pow128_exec(n: usize) -> (r: i64)
    requires
        1 <= n <= 5,
    ensures
        r == pow128(n as nat),
{
    proof {
        lemma_pow128_values();
    }
    if n == 1 {
        128
    } else if n == 2 {
        16384
    } else if n == 3 {
        2097152
    } else if n == 4 {
        268435456
    } else {
        34359738368
    }
}

/// Decodes a signed LEB128 value at `*ptr_pos` in `data_in` and moves the
/// cursor past it. On failure the cursor stays.
pub fn decode_sleb128(data_in: &[u8], ptr_pos: &mut usize) -> (r: Result<i32, DexError>)
    ensures
        match sleb128_decode(tail(data_in@, *old(ptr_pos) as int)) {
            Ok((v, n)) => r == Ok::<i32, DexError>(v) && *final(ptr_pos) == *old(ptr_pos) + n
                && *final(ptr_pos) <= data_in@.len(),
            Err(e) => r == Err::<i32, DexError>(DexError::VarIntError(e)) && *final(ptr_pos)
                == *old(ptr_pos),
        },
{
    let rest = tail_of(data_in, *ptr_pos);
    let len = rest.len();
    let mut k: usize = 0;
    while k < 5 && k < len && rest[k] >= 0x80
        invariant
            k <= 5,
            k <= len,
            len == rest@.len(),
            run_from(rest@, 0) == run_from(rest@, k as nat),
        decreases 5 - k,
    {
        k = k + 1;
    }
    if len == 0 {
        return Err(DexError::VarIntError(VarIntError::NotEnoughBytes));
    }
    if k == 5 {
        return Err(DexError::VarIntError(VarIntError::Overflow));
    }
    if k == len {
        return Err(DexError::VarIntError(VarIntError::NotEnoughBytes));
    }
    let n = k + 1;
    let mut acc: i64 = 0;
    let mut i: usize = n;
    while i > 0
        invariant
            i <= n,
            n <= 5,
            n <= rest@.len(),
            acc == value_from(rest@, i as nat, n as nat),
        decreases i,
    {
        proof {
            lemma_value_bound(rest@, i as nat, n as nat);
            lemma_pow128_values();
        }
        i = i - 1;
        acc = (rest[i] % 128) as i64 + 128 * acc;
    }
    proof {
        lemma_value_bound(rest@, 0, n as nat);
        lemma_pow128_values();
    }
    let value = if rest[n - 1] % 128 >= 64 {
        acc - pow128_exec(n)
    } else {
        acc
    };
    if value < -0x8000_0000 || value > 0x7fff_ffff {
        return Err(DexError::VarIntError(VarIntError::Overflow));
    }
    *ptr_pos = *ptr_pos + n;
    Ok(value as i32)
}

/// The LEB128 encoding of an unsigned value: seven bits per byte, least
/// significant first, the continuation bit on all bytes but the last.
pub open spec fn uleb128_encode(v: nat) -> Seq<u8>
    decreases v,
{
    if v < 128 {
        seq![v as u8]
    } else {
        seq![(v % 128 + 128) as u8] + uleb128_encode(v / 128)
    }
}

/// Encodes `value` as unsigned LEB128.
pub fn encode_leb128(value: u32) -> (r: Vec<u8>)
    ensures
        r@ == uleb128_encode(value as nat),
{
    let mut out: Vec<u8> = Vec::new();
    let mut cur: u32 = value;
    while cur >= 128
        invariant
            out@ + uleb128_encode(cur as nat) == uleb128_encode(value as nat),
        decreases cur,
    {
        let byte: u8 = (cur % 128 + 128) as u8;
        proof {
            let ghost before = out@;
            assert((before.push(byte)) + uleb128_encode((cur / 128) as nat) =~= before + (seq![
                byte,
            ] + uleb128_encode((cur / 128) as nat)));
        }
        out.push(byte);
        cur = cur / 128;
    }
    proof {
        assert(out@.push(cur as u8) =~= out@ + seq![cur as u8]);
    }
    out.push(cur as u8);
    out
}

/// The LEB128 encoding of a signed value: seven bits per byte in two's
/// complement, ending with the first byte whose bit six carries the sign of
/// everything above it.
pub open spec fn sleb128_encode(v: int) -> Seq<u8>
    decreases (if v >= 0 { v } else { -v }),
{
    if -64 <= v < 64 {
        seq![(v % 128) as u8]
    } else {
        seq![(v % 128 + 128) as u8] + sleb128_encode(v / 128)
    }
}

/// Encodes `value` as signed LEB128.
pub fn encode_sleb128(value: i32) -> (r: Vec<u8>)
    ensures
        r@ == sleb128_encode(value as int),
{
    let mut out: Vec<u8> = Vec::new();
    let mut cur: i64 = value as i64;
    while cur < -64 || cur >= 64
        invariant
            i32::MIN <= cur <= i32::MAX,
            out@ + sleb128_encode(cur as int) == sleb128_encode(value as int),
        decreases (if cur >= 0 { cur as int } else { -cur }),
    {
        let quot: i64 = if cur >= 0 {
            cur / 128
        } else {
            -((-cur + 127) / 128)
        };
        let low: i64 = cur - 128 * quot;
        assert(quot == (cur as int) / 128 && low == (cur as int) % 128);
        let byte: u8 = (low + 128) as u8;
        proof {
            let ghost before = out@;
            assert((before.push(byte)) + sleb128_encode(quot as int) =~= before + (seq![byte]
                + sleb128_encode(quot as int)));
        }
        out.push(byte);
        cur = quot;
    }
    let last: i64 = if cur >= 0 {
        cur
    } else {
        cur + 128
    };
    assert(last == (cur as int) % 128);
    proof {
        assert(out@.push(last as u8) =~= out@ + seq![last as u8]);
    }
    out.push(last as u8);
    out
}

/// Round trip of the unsigned codec: decoding the encoding of any `u32`,
/// whatever bytes follow it, gives the value back and reads exactly the
/// encoding.
pub proof fn lemma_uleb128_round_trip(v: u32, rest: Seq<u8>)
    ensures
        uleb128_decode(uleb128_encode(v as nat) + rest) == Ok::<(u32, usize), VarIntError>(
            (v, uleb128_encode(v as nat).len() as usize),
        ),
{
    reveal_with_fuel(uleb128_encode, 6);
    reveal_with_fuel(run_from, 6);
    reveal_with_fuel(value_from, 7);
    let e = uleb128_encode(v as nat);
    let s = e + rest;
    let v0 = v as nat;
    let v1 = v0 / 128;
    let v2 = v1 / 128;
    let v3 = v2 / 128;
    let v4 = v3 / 128;
    assert(v4 < 16);
    if v0 < 128 {
        assert(e.len() == 1);
        assert(s[0] == v0);
    } else if v1 < 128 {
        assert(e.len() == 2);
        assert(s[0] == v0 % 128 + 128);
        assert(s[1] == v1);
    } else if v2 < 128 {
        assert(e.len() == 3);
        assert(s[0] == v0 % 128 + 128);
        assert(s[1] == v1 % 128 + 128);
        assert(s[2] == v2);
    } else if v3 < 128 {
        assert(e.len() == 4);
        assert(s[0] == v0 % 128 + 128);
        assert(s[1] == v1 % 128 + 128);
        assert(s[2] == v2 % 128 + 128);
        assert(s[3] == v3);
    } else {
        assert(e.len() == 5);
        assert(s[0] == v0 % 128 + 128);
        assert(s[1] == v1 % 128 + 128);
        assert(s[2] == v2 % 128 + 128);
        assert(s[3] == v3 % 128 + 128);
        assert(s[4] == v4);
    }
}

proof fn lemma_run_of_group(s: Seq<u8>, n: nat)
    requires
        1 <= n <= 5,
        n <= s.len(),
        forall|i: int| 0 <= i < n - 1 ==> s[i] >= 128,
        s[n - 1] < 128,
    ensures
        run_from(s, 0) == n - 1,
{
    reveal_with_fuel(run_from, 6);
}

proof fn lemma_value_of_group(s: Seq<u8>)
    ensures
        value_from(s, 0, 1) == s[0] % 128,
        value_from(s, 0, 2) == s[0] % 128 + 128 * (s[1] % 128),
        value_from(s, 0, 3) == s[0] % 128 + 128 * (s[1] % 128) + 16384 * (s[2] % 128),
        value_from(s, 0, 4) == s[0] % 128 + 128 * (s[1] % 128) + 16384 * (s[2] % 128) + 2097152
            * (s[3] % 128),
        value_from(s, 0, 5) == s[0] % 128 + 128 * (s[1] % 128) + 16384 * (s[2] % 128) + 2097152
            * (s[3] % 128) + 268435456 * (s[4] % 128),
{
    reveal_with_fuel(value_from, 7);
}

proof fn lemma_sleb128_encode_shape(v: int)
    requires
        i32::MIN <= v <= i32::MAX,
    ensures
        ({
            let e = sleb128_encode(v);
            let v1 = v / 128;
            let v2 = v1 / 128;
            let v3 = v2 / 128;
            let v4 = v3 / 128;
            if -64 <= v < 64 {
                e == seq![(v % 128) as u8]
            } else if -64 <= v1 < 64 {
                e == seq![(v % 128 + 128) as u8, (v1 % 128) as u8]
            } else if -64 <= v2 < 64 {
                e == seq![(v % 128 + 128) as u8, (v1 % 128 + 128) as u8, (v2 % 128) as u8]
            } else if -64 <= v3 < 64 {
                e == seq![
                    (v % 128 + 128) as u8,
                    (v1 % 128 + 128) as u8,
                    (v2 % 128 + 128) as u8,
                    (v3 % 128) as u8,
                ]
            } else {
                e == seq![
                    (v % 128 + 128) as u8,
                    (v1 % 128 + 128) as u8,
                    (v2 % 128 + 128) as u8,
                    (v3 % 128 + 128) as u8,
                    (v4 % 128) as u8,
                ]
            }
        }),
{
    reveal_with_fuel(sleb128_encode, 6);
    let v1 = v / 128;
    let v2 = v1 / 128;
    let v3 = v2 / 128;
    let v4 = v3 / 128;
    assert(-8 <= v4 < 8);
    let e = sleb128_encode(v);
    if -64 <= v < 64 {
    } else if -64 <= v1 < 64 {
        assert(e =~= seq![(v % 128 + 128) as u8, (v1 % 128) as u8]);
    } else if -64 <= v2 < 64 {
        assert(e =~= seq![(v % 128 + 128) as u8, (v1 % 128 + 128) as u8, (v2 % 128) as u8]);
    } else if -64 <= v3 < 64 {
        assert(e =~= seq![
            (v % 128 + 128) as u8,
            (v1 % 128 + 128) as u8,
            (v2 % 128 + 128) as u8,
            (v3 % 128) as u8,
        ]);
    } else {
        assert(e =~= seq![
            (v % 128 + 128) as u8,
            (v1 % 128 + 128) as u8,
            (v2 % 128 + 128) as u8,
            (v3 % 128 + 128) as u8,
            (v4 % 128) as u8,
        ]);
    }
}

proof fn lemma_signed_digits(v: int)
    requires
        i32::MIN <= v <= i32::MAX,
    ensures
        ({
            let v1 = v / 128;
            let v2 = v1 / 128;
            let v3 = v2 / 128;
            let v4 = v3 / 128;
            let r0 = v % 128;
            let r1 = v1 % 128;
            let r2 = v2 % 128;
            let r3 = v3 % 128;
            let r4 = v4 % 128;
            &&& -8 <= v4 < 8
            &&& (-64 <= v < 64 ==> v == r0 - (if r0 >= 64 { 128int } else { 0 }))
            &&& (-64 <= v1 < 64 ==> v == r0 + 128 * r1 - (if r1 >= 64 { 16384int } else { 0 }))
            &&& (-64 <= v2 < 64 ==> v == r0 + 128 * r1 + 16384 * r2 - (if r2 >= 64 {
                2097152int
            } else {
                0
            }))
            &&& (-64 <= v3 < 64 ==> v == r0 + 128 * r1 + 16384 * r2 + 2097152 * r3 - (if r3 >= 64 {
                268435456int
            } else {
                0
            }))
            &&& v == r0 + 128 * r1 + 16384 * r2 + 2097152 * r3 + 268435456 * r4 - (if r4 >= 64 {
                34359738368int
            } else {
                0
            })
        }),
{
    let v1 = v / 128;
    let v2 = v1 / 128;
    let v3 = v2 / 128;
    let v4 = v3 / 128;
    assert(v == 128 * v1 + v % 128);
    assert(v1 == 128 * v2 + v1 % 128);
    assert(v2 == 128 * v3 + v2 % 128);
    assert(v3 == 128 * v4 + v3 % 128);
    assert(-8 <= v4 < 8);
    assert(v4 == (v4 % 128) - (if v4 % 128 >= 64 { 128int } else { 0 }));
}

proof fn lemma_signed_group(s: Seq<u8>, n: nat, v: int)
    requires
        1 <= n <= 5,
        n <= s.len(),
        forall|i: int| 0 <= i < n - 1 ==> s[i] >= 128,
        s[n - 1] < 128,
        i32::MIN <= v <= i32::MAX,
        v == value_from(s, 0, n) - (if s[n - 1] % 128 >= 64 { pow128(n) } else { 0 }),
    ensures
        sleb128_decode(s) == Ok::<(i32, usize), VarIntError>((v as i32, n as usize)),
{
    lemma_run_of_group(s, n);
}

/// Round trip of the signed codec: decoding the encoding of any `i32`,
/// whatever bytes follow it, gives the value back and reads exactly the
/// encoding.
pub proof fn lemma_sleb128_round_trip(v: i32, rest: Seq<u8>)
    ensures
        sleb128_decode(sleb128_encode(v as int) + rest) == Ok::<(i32, usize), VarIntError>(
            (v, sleb128_encode(v as int).len() as usize),
        ),
{
    lemma_pow128_values();
    lemma_sleb128_encode_shape(v as int);
    lemma_signed_digits(v as int);
    let e = sleb128_encode(v as int);
    let s = e + rest;
    let n = e.len();
    let v0 = v as int;
    let v1 = v0 / 128;
    let v2 = v1 / 128;
    let v3 = v2 / 128;
    let v4 = v3 / 128;
    lemma_value_of_group(s);
    if -64 <= v0 < 64 {
        assert(e.len() == 1);
        assert(s[0] == e[0]);
        assert(s[0] % 128 == v0 % 128);
        lemma_signed_group(s, 1, v0);
    } else if -64 <= v1 < 64 {
        assert(e.len() == 2);
        assert(s[0] == e[0] && s[1] == e[1]);
        assert(s[0] % 128 == v0 % 128);
        assert(s[1] % 128 == v1 % 128);
        lemma_signed_group(s, 2, v0);
    } else if -64 <= v2 < 64 {
        assert(e.len() == 3);
        assert(s[0] == e[0] && s[1] == e[1] && s[2] == e[2]);
        assert(s[0] % 128 == v0 % 128);
        assert(s[1] % 128 == v1 % 128);
        assert(s[2] % 128 == v2 % 128);
        lemma_signed_group(s, 3, v0);
    } else if -64 <= v3 < 64 {
        assert(e.len() == 4);
        assert(s[0] == e[0] && s[1] == e[1] && s[2] == e[2] && s[3] == e[3]);
        assert(s[0] % 128 == v0 % 128);
        assert(s[1] % 128 == v1 % 128);
        assert(s[2] % 128 == v2 % 128);
        assert(s[3] % 128 == v3 % 128);
        lemma_signed_group(s, 4, v0);
    } else {
        assert(e.len() == 5);
        assert(s[0] == e[0] && s[1] == e[1] && s[2] == e[2] && s[3] == e[3] && s[4] == e[4]);
        assert(s[0] % 128 == v0 % 128);
        assert(s[1] % 128 == v1 % 128);
        assert(s[2] % 128 == v2 % 128);
        assert(s[3] % 128 == v3 % 128);
        assert(s[4] % 128 == v4 % 128);
        lemma_signed_group(s, 5, v0);
    }
}

} // verus!
