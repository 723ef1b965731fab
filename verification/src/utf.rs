//! Modified UTF-8: UTF-8 in which U+0000 takes the two bytes `C0 80` and
//! every UTF-16 code unit, surrogates included, is encoded on its own in at
//! most three bytes. A string ends with a NUL byte.

use vstd::prelude::*;
use vstd::string::*;

use crate::error::DexError;

verus! {

/// What the encoder does with the cases that plain Modified UTF-8 leaves no
/// choice about.
#[derive(Debug, Clone, Copy, PartialEq, Eq, Structural)]
pub struct Options {
    /// Encode U+0000 as the single byte `00` in place of `C0 80`.
    pub short_zero: bool,
    /// Put `?` in place of a surrogate that has no partner.
    pub replace_bad_surrogates: bool,
}

impl Options {
    /// Plain Modified UTF-8.
    pub fn new() -> (r: Options)
        ensures
            r == (Options { short_zero: false, replace_bad_surrogates: false }),
    {
        Options { short_zero: false, replace_bad_surrogates: false }
    }

    /// Chooses how U+0000 is encoded.
    pub fn use_short_zero(self, enable: bool) -> (r: Options)
        ensures
            r == (Options { short_zero: enable, ..self }),
    {
        Options { short_zero: enable, replace_bad_surrogates: self.replace_bad_surrogates }
    }

    /// Chooses what becomes of a surrogate without its partner.
    pub fn replace_bad_surrogates(self, enable: bool) -> (r: Options)
        ensures
            r == (Options { replace_bad_surrogates: enable, ..self }),
    {
        Options { short_zero: self.short_zero, replace_bad_surrogates: enable }
    }
}

/// Whether `ch` is the first half of a surrogate pair.
pub open spec fn is_lead(ch: u16) -> bool {
    0xD800 <= ch < 0xDC00
}

/// Whether `ch` is the second half of a surrogate pair.
pub open spec fn is_trail(ch: u16) -> bool {
    0xDC00 <= ch < 0xE000
}

/// Whether the unit at `i` is a surrogate without its partner beside it.
pub open spec fn unpaired_at(units: Seq<u16>, i: int) -> bool {
    ||| is_lead(units[i]) && !(i + 1 < units.len() && is_trail(units[i + 1]))
    ||| is_trail(units[i]) && !(i >= 1 && is_lead(units[i - 1]))
}

/// The bytes of one UTF-16 code unit.
pub open spec fn unit_bytes(ch: u16, short_zero: bool) -> Seq<u8> {
    if ch < 0x80 && (short_zero || ch != 0) {
        seq![ch as u8]
    } else if ch < 0x800 {
        seq![(0xC0 + ch / 64) as u8, (0x80 + ch % 64) as u8]
    } else {
        seq![(0xE0 + ch / 4096) as u8, (0x80 + ch / 64 % 64) as u8, (0x80 + ch % 64) as u8]
    }
}

/// The bytes of the unit at `i`, under the options.
pub open spec fn bytes_at(units: Seq<u16>, i: int, options: Options) -> Seq<u8> {
    if options.replace_bad_surrogates && unpaired_at(units, i) {
        seq![0x3Fu8]
    } else {
        unit_bytes(units[i], options.short_zero)
    }
}

/// The bytes of the first `n` units, one unit after the other.
pub open spec fn encode_prefix(units: Seq<u16>, n: nat, options: Options) -> Seq<u8>
    decreases n,
{
    if n == 0 {
        Seq::empty()
    } else {
        encode_prefix(units, (n - 1) as nat, options) + bytes_at(units, n - 1, options)
    }
}

/// The Modified UTF-8 string of `units`: their bytes and the closing NUL.
pub open spec fn encode_units(units: Seq<u16>, options: Options) -> Seq<u8> {
    encode_prefix(units, units.len(), options).push(0u8)
}

/// Whether `b` is a continuation byte.
pub open spec fn is_cont(b: u8) -> bool {
    0x80 <= b < 0xC0
}

/// The number of bytes of the well-formed sequence at `i`, zero where the
/// sequence there is malformed: a byte that can start none, a continuation
/// byte that is none, or the end of the bytes in the middle.
pub open spec fn sequence_len(bytes: Seq<u8>, i: int) -> nat {
    let b = bytes[i];
    if b < 0x80 {
        1
    } else if 0xC0 <= b < 0xE0 && i + 1 < bytes.len() && is_cont(bytes[i + 1]) {
        2
    } else if 0xE0 <= b < 0xF0 && i + 2 < bytes.len() && is_cont(bytes[i + 1]) && is_cont(
        bytes[i + 2],
    ) {
        3
    } else {
        0
    }
}

/// The code unit that the well-formed sequence at `i` encodes.
pub open spec fn sequence_unit(bytes: Seq<u8>, i: int) -> u16 {
    let b = bytes[i];
    if b < 0x80 {
        b as u16
    } else if b < 0xE0 {
        ((b - 0xC0) * 64 + (bytes[i + 1] - 0x80)) as u16
    } else {
        ((b - 0xE0) * 4096 + (bytes[i + 1] - 0x80) * 64 + (bytes[i + 2] - 0x80)) as u16
    }
}

/// Decoding of `bytes` from `i` on, behind the units `acc` decoded so far.
/// In strict mode a malformed sequence ends the decoding with the number of
/// units decoded before it. In lossy mode it gives U+FFFD, and decoding goes
/// on behind its first byte.
pub open spec fn decode_from(bytes: Seq<u8>, i: int, acc: Seq<u16>, lossy: bool) -> Result<
    Seq<u16>,
    nat,
>
    decreases bytes.len() - i,
{
    if i < 0 || i >= bytes.len() {
        Ok(acc)
    } else if sequence_len(bytes, i) > 0 {
        decode_from(bytes, i + sequence_len(bytes, i), acc.push(sequence_unit(bytes, i)), lossy)
    } else if lossy {
        decode_from(bytes, i + 1, acc.push(0xFFFDu16), lossy)
    } else {
        Err(acc.len())
    }
}

/// The bytes of a string without the byte that closes it.
pub open spec fn content(data: Seq<u8>) -> Seq<u8> {
    if data.len() == 0 {
        data
    } else {
        data.drop_last()
    }
}

/// The UTF-16 code units of a Modified UTF-8 string, or the number of units
/// in front of the first malformed sequence.
pub open spec fn decode_units(data: Seq<u8>) -> Result<Seq<u16>, nat> {
    decode_from(content(data), 0, Seq::empty(), false)
}

/// The UTF-16 code units of a Modified UTF-8 string, with U+FFFD for what is
/// malformed.
pub open spec fn decode_units_lossy(data: Seq<u8>) -> Seq<u16> {
    decode_from(content(data), 0, Seq::empty(), true)->Ok_0
}

/// The number of UTF-16 code units that the sequences starting within the
/// first `end` bytes stand for, going by their first bytes alone: one for a
/// sequence of up to three bytes, two for one of four.
pub open spec fn units_in(bytes: Seq<u8>, i: int, end: int) -> nat
    decreases (if i < end {
        end - i
    } else {
        0
    }),
{
    if i < 0 || i >= end {
        0
    } else if bytes[i] < 0x80 {
        1 + units_in(bytes, i + 1, end)
    } else if bytes[i] < 0xE0 {
        1 + units_in(bytes, i + 2, end)
    } else if bytes[i] < 0xF0 {
        1 + units_in(bytes, i + 3, end)
    } else {
        2 + units_in(bytes, i + 4, end)
    }
}

/// Counts the UTF-16 code units that the first `utf8_in_len` bytes of
/// `utf8_data_in` stand for, going by the first byte of each sequence.
pub fn mutf8_len(utf8_data_in: &[u8], utf8_in_len: usize) -> (r: usize)
    requires
        utf8_in_len <= utf8_data_in@.len(),
        utf8_in_len < usize::MAX,
    ensures
        r == units_in(utf8_data_in@, 0, utf8_in_len as int),
{
    let mut len: usize = 0;
    let mut in_idx: usize = 0;
    while in_idx < utf8_in_len
        invariant
            utf8_in_len <= utf8_data_in@.len(),
            utf8_in_len < usize::MAX,
            in_idx <= utf8_in_len,
            len <= in_idx,
            len + units_in(utf8_data_in@, in_idx as int, utf8_in_len as int) == units_in(
                utf8_data_in@,
                0,
                utf8_in_len as int,
            ),
        decreases utf8_in_len - in_idx,
    {
        let ic = utf8_data_in[in_idx];
        let step: usize = if ic < 0x80 {
            1
        } else if ic < 0xE0 {
            2
        } else if ic < 0xF0 {
            3
        } else {
            4
        };
        // A sequence of four bytes stands for a surrogate pair.
        let units: usize = if step == 4 {
            2
        } else {
            1
        };
        if step >= utf8_in_len - in_idx {
            assert(units_in(utf8_data_in@, in_idx + step, utf8_in_len as int) == 0);
            return len + units;
        }
        len = len + units;
        in_idx = in_idx + step;
    }
    len
}

fn decode_bytes(bytes: &[u8], lossy: bool) -> (r: Result<Vec<u16>, usize>)
    ensures
        match decode_from(bytes@, 0, Seq::empty(), lossy) {
            Ok(units) => r is Ok && r->Ok_0@ == units,
            Err(idx) => r == Err::<Vec<u16>, usize>(idx as usize) && !lossy,
        },
{
    let len = bytes.len();
    let mut out: Vec<u16> = Vec::new();
    let mut i: usize = 0;
    while i < len
        invariant
            i <= len,
            len == bytes@.len(),
            out@.len() <= i,
            decode_from(bytes@, 0, Seq::empty(), lossy) == decode_from(bytes@, i as int, out@, lossy),
        decreases len - i,
    {
        let b = bytes[i];
        if b < 0x80 {
            out.push(b as u16);
            i = i + 1;
        } else if 0xC0 <= b && b < 0xE0 && len - i > 1 && 0x80 <= bytes[i + 1] && bytes[i + 1]
            < 0xC0 {
            out.push((b - 0xC0) as u16 * 64 + (bytes[i + 1] - 0x80) as u16);
            i = i + 2;
        } else if 0xE0 <= b && b < 0xF0 && len - i > 2 && 0x80 <= bytes[i + 1] && bytes[i + 1]
            < 0xC0 && 0x80 <= bytes[i + 2] && bytes[i + 2] < 0xC0 {
            out.push(
                (b - 0xE0) as u16 * 4096 + (bytes[i + 1] - 0x80) as u16 * 64 + (bytes[i + 2]
                    - 0x80) as u16,
            );
            i = i + 3;
        } else if lossy {
            out.push(0xFFFD);
            i = i + 1;
        } else {
            return Err(out.len());
        }
    }
    Ok(out)
}

fn content_of<'a>(data: &'a [u8]) -> (r: &'a [u8])
    ensures
        r@ == content(data@),
{
    if data.len() == 0 {
        data
    } else {
        vstd::slice::slice_subrange(data, 0, data.len() - 1)
    }
}

/// Decodes a Modified UTF-8 string, closing byte included, into UTF-16 code
/// units. A malformed sequence is an error that tells how many units stand
/// in front of it and how many bytes the string has.
pub fn mutf8_to_utf16(utf8_data_in: &[u8]) -> (r: Result<Vec<u16>, DexError>)
    ensures
        match decode_units(utf8_data_in@) {
            Ok(units) => r is Ok && r->Ok_0@ == units,
            Err(idx) => r == Err::<Vec<u16>, DexError>(
                DexError::MalformedMUTF8Sequence {
                    idx: idx as usize,
                    len: content(utf8_data_in@).len() as usize,
                },
            ),
        },
{
    let bytes = content_of(utf8_data_in);
    match decode_bytes(bytes, false) {
        Ok(units) => Ok(units),
        Err(idx) => Err(DexError::MalformedMUTF8Sequence { idx, len: bytes.len() }),
    }
}

/// Decodes a Modified UTF-8 string, closing byte included, into UTF-16 code
/// units, with U+FFFD in place of what is malformed.
pub fn mutf8_to_utf16_lossy(utf8_data_in: &[u8]) -> (r: Vec<u16>)
    ensures
        r@ == decode_units_lossy(utf8_data_in@),
{
    let bytes = content_of(utf8_data_in);
    match decode_bytes(bytes, true) {
        Ok(units) => units,
        Err(_) => Vec::new(),
    }
}

fn unit_is_lead(ch: u16) -> (r: bool)
    ensures
        r == is_lead(ch),
{
    0xD800 <= ch && ch < 0xDC00
}

fn unit_is_trail(ch: u16) -> (r: bool)
    ensures
        r == is_trail(ch),
{
    0xDC00 <= ch && ch < 0xE000
}

/// Encodes UTF-16 code units as a Modified UTF-8 string, closing byte
/// included.
pub fn utf16_to_mutf8(utf16_in: &[u16], options: &Options) -> (r: Vec<u8>)
    ensures
        r@ == encode_units(utf16_in@, *options),
{
    let len = utf16_in.len();
    let mut out: Vec<u8> = Vec::new();
    let mut in_idx: usize = 0;
    while in_idx < len
        invariant
            in_idx <= len,
            len == utf16_in@.len(),
            out@ == encode_prefix(utf16_in@, in_idx as nat, *options),
        decreases len - in_idx,
    {
        let ch = utf16_in[in_idx];
        let ghost before = out@;
        let unpaired = (unit_is_lead(ch) && !(len - in_idx > 1 && unit_is_trail(
            utf16_in[in_idx + 1],
        ))) || (unit_is_trail(ch) && !(in_idx >= 1 && unit_is_lead(utf16_in[in_idx - 1])));
        if options.replace_bad_surrogates && unpaired {
            out.push(0x3F);
            assert(out@ =~= before + seq![0x3Fu8]);
        } else if ch < 0x80 && (options.short_zero || ch != 0) {
            out.push(ch as u8);
            assert(out@ =~= before + unit_bytes(ch, options.short_zero));
        } else if ch < 0x800 {
            out.push((0xC0 + ch / 64) as u8);
            out.push((0x80 + ch % 64) as u8);
            assert(out@ =~= before + unit_bytes(ch, options.short_zero));
        } else {
            out.push((0xE0 + ch / 4096) as u8);
            out.push((0x80 + ch / 64 % 64) as u8);
            out.push((0x80 + ch % 64) as u8);
            assert(out@ =~= before + unit_bytes(ch, options.short_zero));
        }
        in_idx = in_idx + 1;
    }
    out.push(0x00);
    out
}

/// The options of plain Modified UTF-8.
pub open spec fn plain() -> Options {
    Options { short_zero: false, replace_bad_surrogates: false }
}

proof fn lemma_prefix_grows(units: Seq<u16>, k: nat, n: nat, options: Options)
    requires
        k <= n,
    ensures
        encode_prefix(units, k, options).len() <= encode_prefix(units, n, options).len(),
        forall|j: int|
            0 <= j < encode_prefix(units, k, options).len() ==> encode_prefix(units, n, options)[j]
                == encode_prefix(units, k, options)[j],
    decreases n - k,
{
    if k < n {
        lemma_prefix_grows(units, k, (n - 1) as nat, options);
    }
}

proof fn lemma_sequence_of_unit(units: Seq<u16>, k: nat, n: nat)
    requires
        k < n <= units.len(),
    ensures
        ({
            let all = encode_prefix(units, n, plain());
            let p = encode_prefix(units, k, plain()).len() as int;
            &&& sequence_len(all, p) > 0
            &&& p + sequence_len(all, p) == encode_prefix(units, k + 1, plain()).len()
            &&& p + sequence_len(all, p) <= all.len()
            &&& sequence_unit(all, p) == units[k as int]
        }),
{
    let all = encode_prefix(units, n, plain());
    let before = encode_prefix(units, k, plain());
    let with = encode_prefix(units, k + 1, plain());
    let p = before.len() as int;
    let ch = units[k as int];
    lemma_prefix_grows(units, k + 1, n, plain());
    assert(with == before + unit_bytes(ch, false));
    let own = unit_bytes(ch, false);
    assert(forall|j: int| 0 <= j < own.len() ==> all[p + j] == own[j]) by {
        assert forall|j: int| 0 <= j < own.len() implies all[p + j] == own[j] by {
            assert(with[p + j] == own[j]);
        }
    }
    if ch < 0x80 && ch != 0 {
        assert(all[p] == own[0]);
    } else if ch < 0x800 {
        assert(all[p] == own[0]);
        assert(all[p + 1] == own[1]);
    } else {
        assert(all[p] == own[0]);
        assert(all[p + 1] == own[1]);
        assert(all[p + 2] == own[2]);
    }
}

proof fn lemma_decode_encoded(units: Seq<u16>, k: nat)
    requires
        k <= units.len(),
    ensures
        decode_from(
            encode_prefix(units, units.len(), plain()),
            encode_prefix(units, k, plain()).len() as int,
            units.take(k as int),
            false,
        ) == Ok::<Seq<u16>, nat>(units),
    decreases units.len() - k,
{
    let n = units.len();
    let all = encode_prefix(units, n, plain());
    if k == n {
        assert(units.take(k as int) =~= units);
    } else {
        lemma_sequence_of_unit(units, k, n);
        lemma_decode_encoded(units, k + 1);
        assert(units.take(k as int).push(units[k as int]) =~= units.take(k + 1 as int));
    }
}

/// Strict round trip: decoding the Modified UTF-8 string of any UTF-16
/// sequence gives the sequence back. Every code unit is encoded on its own,
/// so this holds of sequences with and without surrogate pairs.
pub proof fn lemma_mutf8_round_trip(units: Seq<u16>)
    ensures
        decode_units(encode_units(units, plain())) == Ok::<Seq<u16>, nat>(units),
{
    let all = encode_prefix(units, units.len(), plain());
    assert(content(encode_units(units, plain())) =~= all);
    lemma_decode_encoded(units, 0);
    assert(units.take(0) =~= Seq::<u16>::empty());
}

/// The UTF-16 code units of one character: itself below U+10000, a
/// surrogate pair from there on.
pub open spec fn char_units(c: char) -> Seq<u16> {
    if (c as u32) < 0x10000 {
        seq![c as u32 as u16]
    } else {
        seq![
            (0xD800 + (c as u32 - 0x10000) / 0x400) as u16,
            (0xDC00 + (c as u32 - 0x10000) % 0x400) as u16,
        ]
    }
}

/// The UTF-16 code units of a string.
pub open spec fn utf16_of(chars: Seq<char>) -> Seq<u16>
    decreases chars.len(),
{
    if chars.len() == 0 {
        Seq::empty()
    } else {
        utf16_of(chars.drop_last()) + char_units(chars.last())
    }
}

/// Encodes a string as UTF-16.
pub fn str_to_utf16(str_data_in: &str) -> (r: Vec<u16>)
    ensures
        r@ == utf16_of(str_data_in@),
{
    broadcast use vstd::string::axiom_spec_iter;

    let mut out: Vec<u16> = Vec::new();
    for c in it: str_data_in.chars()
        invariant
            it.seq() == str_data_in@,
            out@ == utf16_of(str_data_in@.take(it.index() as int)),
    {
        let ghost before = out@;
        let code = c as u32;
        if code < 0x10000 {
            out.push(code as u16);
        } else {
            out.push((0xD800 + (code - 0x10000) / 0x400) as u16);
            out.push((0xDC00 + (code - 0x10000) % 0x400) as u16);
        }
        proof {
            let next = str_data_in@.take(it.index() + 1);
            assert(next.drop_last() =~= str_data_in@.take(it.index() as int));
            assert(out@ =~= before + char_units(c));
        }
    }
    assert(str_data_in@.take(str_data_in@.len() as int) =~= str_data_in@);
    out
}

/// `char::from_u32` gives the character of a Unicode scalar value and
/// nothing for any other number: a surrogate, or a value above U+10FFFF.
pub assume_specification[ char::from_u32 ](i: u32) -> (r: Option<char>)
    ensures
        (i < 0xD800 || 0xE000 <= i <= 0x10FFFF) ==> r == Some(i as char),
        !(i < 0xD800 || 0xE000 <= i <= 0x10FFFF) ==> r is None,
;

/// `String::push` appends one character to the string.
pub assume_specification[ std::string::String::push ](s: &mut std::string::String, ch: char)
    ensures
        final(s)@ == old(s)@.push(ch),
;

/// The character of a surrogate pair.
pub open spec fn pair_char(lead: u16, trail: u16) -> char {
    (0x10000 + (lead - 0xD800) * 0x400 + (trail - 0xDC00)) as char
}

/// The characters of the UTF-16 code units from `i` on, behind the
/// characters `acc` decoded so far. A surrogate without its partner ends
/// strict decoding with nothing; lossy decoding puts U+FFFD in its place.
pub open spec fn chars_from(units: Seq<u16>, i: int, acc: Seq<char>, lossy: bool) -> Option<
    Seq<char>,
>
    decreases units.len() - i,
{
    if i < 0 || i >= units.len() {
        Some(acc)
    } else if !is_lead(units[i]) && !is_trail(units[i]) {
        chars_from(units, i + 1, acc.push(units[i] as char), lossy)
    } else if is_lead(units[i]) && i + 1 < units.len() && is_trail(units[i + 1]) {
        chars_from(units, i + 2, acc.push(pair_char(units[i], units[i + 1])), lossy)
    } else if lossy {
        chars_from(units, i + 1, acc.push('\u{FFFD}'), lossy)
    } else {
        None
    }
}

/// The string that UTF-16 code units spell; nothing where a surrogate has no
/// partner.
pub open spec fn utf16_chars(units: Seq<u16>) -> Option<Seq<char>> {
    chars_from(units, 0, Seq::empty(), false)
}

/// The string that UTF-16 code units spell, with U+FFFD for every surrogate
/// that has no partner.
pub open spec fn utf16_chars_lossy(units: Seq<u16>) -> Seq<char> {
    chars_from(units, 0, Seq::empty(), true)->Some_0
}

fn utf16_to_string(units: &[u16], lossy: bool) -> (r: Option<String>)
    ensures
        match chars_from(units@, 0, Seq::empty(), lossy) {
            Some(chars) => r is Some && r->Some_0@ == chars,
            None => r is None && !lossy,
        },
{
    let len = units.len();
    let mut out = String::new();
    let mut i: usize = 0;
    while i < len
        invariant
            i <= len,
            len == units@.len(),
            chars_from(units@, 0, Seq::empty(), lossy) == chars_from(units@, i as int, out@, lossy),
        decreases len - i,
    {
        let unit = units[i];
        if !unit_is_lead(unit) && !unit_is_trail(unit) {
            match char::from_u32(unit as u32) {
                Some(c) => out.push(c),
                None => {},
            }
            i = i + 1;
        } else if unit_is_lead(unit) && len - i > 1 && unit_is_trail(units[i + 1]) {
            let code: u32 = 0x10000 + (unit - 0xD800) as u32 * 0x400 + (units[i + 1] - 0xDC00) as u32;
            match char::from_u32(code) {
                Some(c) => out.push(c),
                None => {},
            }
            i = i + 2;
        } else if lossy {
            out.push('\u{FFFD}');
            i = i + 1;
        } else {
            return None;
        }
    }
    Some(out)
}

/// What strict decoding of a Modified UTF-8 string gives: its characters, or
/// the error of the first malformed sequence, or, where the bytes are well
/// formed but a surrogate has no partner, a decoding error.
pub open spec fn mutf8_chars(data: Seq<u8>) -> Result<Seq<char>, DexError> {
    match decode_units(data) {
        Ok(units) => match utf16_chars(units) {
            Some(chars) => Ok(chars),
            None => Err(DexError::Mutf8DecodeError),
        },
        Err(idx) => Err(
            DexError::MalformedMUTF8Sequence {
                idx: idx as usize,
                len: content(data).len() as usize,
            },
        ),
    }
}

/// Decodes a Modified UTF-8 string, closing byte included, strictly.
pub fn mutf8_to_str(utf8_data_in: &[u8]) -> (r: Result<String, DexError>)
    ensures
        match mutf8_chars(utf8_data_in@) {
            Ok(chars) => r is Ok && r->Ok_0@ == chars,
            Err(e) => r == Err::<String, DexError>(e),
        },
{
    let utf16_data = mutf8_to_utf16(utf8_data_in)?;
    match utf16_to_string(utf16_data.as_slice(), false) {
        Some(text) => Ok(text),
        None => Err(DexError::Mutf8DecodeError),
    }
}

/// Decodes a Modified UTF-8 string, closing byte included, with U+FFFD in
/// place of malformed sequences and of surrogates without a partner.
pub fn mutf8_to_str_lossy(utf8_data_in: &[u8]) -> (r: String)
    ensures
        r@ == utf16_chars_lossy(decode_units_lossy(utf8_data_in@)),
{
    let utf16_data = mutf8_to_utf16_lossy(utf8_data_in);
    match utf16_to_string(utf16_data.as_slice(), true) {
        Some(text) => text,
        None => String::new(),
    }
}

/// Encodes a string as Modified UTF-8, closing byte included.
pub fn str_to_mutf8(str_data_in: &str) -> (r: Vec<u8>)
    ensures
        r@ == encode_units(utf16_of(str_data_in@), plain()),
{
    let utf16_data_in = str_to_utf16(str_data_in);
    utf16_to_mutf8(utf16_data_in.as_slice(), &Options::new())
}

/// Encodes a string as Modified UTF-8, closing byte included, with `?` in
/// place of a surrogate without a partner.
pub fn str_to_mutf8_lossy(str_data_in: &str) -> (r: Vec<u8>)
    ensures
        r@ == encode_units(
            utf16_of(str_data_in@),
            Options { short_zero: false, replace_bad_surrogates: true },
        ),
{
    let utf16_data_in = str_to_utf16(str_data_in);
    let options = Options::new().replace_bad_surrogates(true);
    utf16_to_mutf8(utf16_data_in.as_slice(), &options)
}

proof fn lemma_chars_of_prefix(chars: Seq<char>, k: nat)
    requires
        k <= chars.len(),
    ensures
        chars_from(
            utf16_of(chars),
            utf16_of(chars.take(k as int)).len() as int,
            chars.take(k as int),
            false,
        ) == Some(chars),
    decreases chars.len() - k,
{
    let all = utf16_of(chars);
    if k == chars.len() {
        assert(chars.take(k as int) =~= chars);
    } else {
        let c = chars[k as int];
        let before = utf16_of(chars.take(k as int));
        let with = utf16_of(chars.take(k + 1 as int));
        assert(chars.take(k + 1 as int).drop_last() =~= chars.take(k as int));
        assert(with == before + char_units(c));
        lemma_units_prefix(chars, k + 1);
        lemma_chars_of_prefix(chars, k + 1);
        assert(chars.take(k as int).push(c) =~= chars.take(k + 1 as int));
        let p = before.len() as int;
        let code = c as u32;
        vstd::utf8::char_is_scalar(c);
        vstd::utf8::char_u32_cast(c, code);
        assert(code <= 0xD7FF || 0xE000 <= code <= 0x10FFFF);
        assert(code as char == c);
        if code < 0x10000 {
            assert(with[p] == char_units(c)[0]);
            assert(all[p] == with[p]);
            assert(all[p] as u32 == code);
            assert(all[p] as char == c);
        } else {
            assert(with[p] == char_units(c)[0]);
            assert(with[p + 1] == char_units(c)[1]);
            assert(all[p] == with[p]);
            assert(all[p + 1] == with[p + 1]);
            let lead = all[p];
            let trail = all[p + 1];
            assert(lead == 0xD800 + (code - 0x10000) / 0x400);
            assert(trail == 0xDC00 + (code - 0x10000) % 0x400);
            assert(0x10000 + (lead - 0xD800) * 0x400 + (trail - 0xDC00) == code);
            assert(pair_char(lead, trail) == c);
        }
    }
}

proof fn lemma_units_prefix(chars: Seq<char>, k: nat)
    requires
        k <= chars.len(),
    ensures
        utf16_of(chars.take(k as int)).len() <= utf16_of(chars).len(),
        forall|j: int|
            0 <= j < utf16_of(chars.take(k as int)).len() ==> utf16_of(chars)[j] == utf16_of(
                chars.take(k as int),
            )[j],
    decreases chars.len() - k,
{
    if k == chars.len() {
        assert(chars.take(k as int) =~= chars);
    } else {
        lemma_units_prefix(chars, k + 1);
        assert(chars.take(k + 1 as int).drop_last() =~= chars.take(k as int));
    }
}

/// Round trip of strings: decoding the Modified UTF-8 form of any string
/// strictly gives the string back.
pub proof fn lemma_string_round_trip(chars: Seq<char>)
    ensures
        mutf8_chars(encode_units(utf16_of(chars), plain())) == Ok::<Seq<char>, DexError>(chars),
{
    lemma_mutf8_round_trip(utf16_of(chars));
    lemma_chars_of_prefix(chars, 0);
    assert(chars.take(0) =~= Seq::<char>::empty());
}

} // verus!
