//! Operand access for every instruction format.

use std::ops::RangeInclusive;
use vstd::prelude::*;

use crate::error::DexError;
use crate::file::instruction::{u32_to_i32, wrap_i32, Format, Instruction, VarArgs};

verus! {

/// The error of an operand that the instruction's format does not have.
pub open spec fn no_operand(inst: Instruction, operand: &'static str) -> DexError {
    DexError::OperandAccessError { insn_name: inst.spec_name(), operand }
}

/// A fetched code unit as an operand value.
pub open spec fn unit_operand(r: Result<u16, DexError>) -> Result<i32, DexError> {
    match r {
        Ok(v) => Ok(v as i32),
        Err(e) => Err(e),
    }
}

/// A fetched pair of code units as an operand value, read as two's complement.
pub open spec fn pair_operand(r: Result<u32, DexError>) -> Result<i32, DexError> {
    match r {
        Ok(v) => Ok(wrap_i32(v as int) as i32),
        Err(e) => Err(e),
    }
}

/// The high byte of the first code unit.
pub open spec fn high_byte(inst: Instruction) -> int {
    inst@[0] as int / 256
}

/// The low nibble of the first code unit's high byte.
pub open spec fn nibble_a(inst: Instruction) -> int {
    inst@[0] as int / 256 % 16
}

/// The high nibble of the first code unit's high byte.
pub open spec fn nibble_b(inst: Instruction) -> int {
    inst@[0] as int / 4096
}

/// Whether instructions of format `f` have an `A` operand.
pub open spec fn format_has_a(f: Format) -> bool {
    f != Format::kInvalidFormat
}

/// Whether instructions of format `f` have a `B` operand.
pub open spec fn format_has_b(f: Format) -> bool {
    match f {
        Format::k11n
        | Format::k12x
        | Format::k21c
        | Format::k21h
        | Format::k21s
        | Format::k21t
        | Format::k22b
        | Format::k22c
        | Format::k22s
        | Format::k22t
        | Format::k22x
        | Format::k23x
        | Format::k31c
        | Format::k31i
        | Format::k31t
        | Format::k32x
        | Format::k35c
        | Format::k3rc
        | Format::k45cc
        | Format::k4rcc
        | Format::k51l => true,
        _ => false,
    }
}

/// Whether instructions of format `f` have a `C` operand.
pub open spec fn format_has_c(f: Format) -> bool {
    match f {
        Format::k22b
        | Format::k22c
        | Format::k22s
        | Format::k22t
        | Format::k23x
        | Format::k35c
        | Format::k3rc
        | Format::k45cc
        | Format::k4rcc => true,
        _ => false,
    }
}

/// The `A` operand of an instruction.
pub open spec fn operand_a(inst: Instruction) -> Result<i32, DexError> {
    match inst.spec_format() {
        Format::k10t
        | Format::k10x
        | Format::k11x
        | Format::k21c
        | Format::k21h
        | Format::k21s
        | Format::k21t
        | Format::k22b
        | Format::k22x
        | Format::k23x
        | Format::k31c
        | Format::k31i
        | Format::k31t
        | Format::k3rc
        | Format::k51l
        | Format::k4rcc => Ok(high_byte(inst) as i32),
        Format::k11n | Format::k12x | Format::k22c | Format::k22s | Format::k22t => Ok(
            nibble_a(inst) as i32,
        ),
        Format::k32x | Format::k20t => unit_operand(inst.spec_fetch16(1)),
        Format::k30t => pair_operand(inst.spec_fetch32(1)),
        Format::k35c | Format::k45cc => Ok(nibble_b(inst) as i32),
        Format::kInvalidFormat => Err(no_operand(inst, "A")),
    }
}

/// The 64-bit literal of a `51l` instruction.
pub open spec fn operand_wide_b(inst: Instruction) -> Result<u64, DexError> {
    if inst.spec_format() == Format::k51l {
        match inst.spec_fetch32(1) {
            Ok(low) => match inst.spec_fetch32(3) {
                Ok(high) => Ok((low + 0x1_0000_0000 * high) as u64),
                Err(e) => Err(e),
            },
            Err(e) => Err(e),
        }
    } else {
        Err(no_operand(inst, "B"))
    }
}

/// The `B` operand of an instruction. The four-bit literal of `11n` is sign
/// extended; a 64-bit literal gives its low half.
pub open spec fn operand_b(inst: Instruction) -> Result<i32, DexError> {
    match inst.spec_format() {
        Format::k11n => Ok(
            (if nibble_b(inst) >= 8 {
                nibble_b(inst) - 16
            } else {
                nibble_b(inst)
            }) as i32,
        ),
        Format::k21c
        | Format::k21t
        | Format::k21s
        | Format::k21h
        | Format::k22x
        | Format::k35c
        | Format::k3rc
        | Format::k45cc
        | Format::k4rcc => unit_operand(inst.spec_fetch16(1)),
        Format::k12x | Format::k22c | Format::k22s | Format::k22t => Ok(nibble_b(inst) as i32),
        Format::k22b | Format::k23x => match inst.spec_fetch16(1) {
            Ok(v) => Ok((v % 256) as i32),
            Err(e) => Err(e),
        },
        Format::k31c | Format::k31i | Format::k31t => pair_operand(inst.spec_fetch32(1)),
        Format::k32x => unit_operand(inst.spec_fetch16(2)),
        Format::k51l => match operand_wide_b(inst) {
            Ok(v) => Ok(wrap_i32(v as int % 0x1_0000_0000) as i32),
            Err(e) => Err(e),
        },
        _ => Err(no_operand(inst, "B")),
    }
}

/// The `C` operand of an instruction.
pub open spec fn operand_c(inst: Instruction) -> Result<i32, DexError> {
    match inst.spec_format() {
        Format::k22c | Format::k22s | Format::k22t => unit_operand(inst.spec_fetch16(1)),
        Format::k22b | Format::k23x => match inst.spec_fetch16(1) {
            Ok(v) => Ok((v / 256) as i32),
            Err(e) => Err(e),
        },
        Format::k3rc | Format::k4rcc => unit_operand(inst.spec_fetch16(2)),
        Format::k35c | Format::k45cc => match inst.spec_fetch16(2) {
            Ok(v) => Ok((v % 16) as i32),
            Err(e) => Err(e),
        },
        _ => Err(no_operand(inst, "C")),
    }
}

/// The `H` operand of an instruction: the prototype index of the
/// polymorphic invokes.
pub open spec fn operand_h(inst: Instruction) -> Result<i32, DexError> {
    match inst.spec_format() {
        Format::k45cc | Format::k4rcc => unit_operand(inst.spec_fetch16(3)),
        _ => Err(no_operand(inst, "H")),
    }
}

/// The five register nibbles of a register list: `C` to `F` from the third
/// code unit, `G` from the first.
pub open spec fn register_nibbles(inst: Instruction) -> Seq<u8> {
    seq![
        (inst@[2] % 16) as u8,
        (inst@[2] / 16 % 16) as u8,
        (inst@[2] / 256 % 16) as u8,
        (inst@[2] / 4096) as u8,
        nibble_a(inst) as u8,
    ]
}

/// The register list of a `35c` or `45cc` instruction: its count and that
/// many registers. A count above five is refused.
pub open spec fn operand_var_args(inst: Instruction) -> Result<(u8, Seq<u8>), DexError> {
    if inst.spec_format() == Format::k35c || inst.spec_format() == Format::k45cc {
        match inst.spec_fetch16(2) {
            Ok(_) => if nibble_b(inst) > 5 {
                Err(
                    DexError::InvalidArgCount {
                        opcode: inst.spec_name(),
                        format: inst.spec_format(),
                        count: nibble_b(inst) as u8,
                    },
                )
            } else {
                Ok((nibble_b(inst) as u8, register_nibbles(inst).take(nibble_b(inst))))
            },
            Err(e) => Err(e),
        }
    } else {
        Err(no_operand(inst, "var_args"))
    }
}

/// The first and last register of a `3rc` or `4rcc` instruction. A range of
/// no registers, or one that runs past register 65535, is refused.
pub open spec fn operand_args_range(inst: Instruction) -> Result<(u16, u16), DexError> {
    if inst.spec_format() == Format::k3rc || inst.spec_format() == Format::k4rcc {
        match inst.spec_fetch16(2) {
            Ok(first) => if high_byte(inst) == 0 || first + high_byte(inst) > u16::MAX {
                Err(
                    DexError::InvalidArgRange {
                        opcode: inst.spec_name(),
                        format: inst.spec_format(),
                        start: first,
                        end: high_byte(inst) as u16,
                    },
                )
            } else {
                Ok((first, (first + high_byte(inst) - 1) as u16))
            },
            Err(e) => Err(e),
        }
    } else {
        Err(no_operand(inst, "args_range"))
    }
}

// AA|op ...
fn inst_aa(inst: &Instruction<'_>) -> (r: u8)
    ensures
        r == high_byte(*inst),
{
    (inst.raw()[0] / 256) as u8
}

// B|A|op ...
fn inst_a(inst: &Instruction<'_>) -> (r: u8)
    ensures
        r == nibble_a(*inst),
{
    (inst.raw()[0] / 256 % 16) as u8
}

// B|A|op ...
fn inst_b(inst: &Instruction<'_>) -> (r: u8)
    ensures
        r == nibble_b(*inst),
{
    (inst.raw()[0] / 4096) as u8
}

fn unit_value(r: Result<u16, DexError>) -> (out: Result<i32, DexError>)
    ensures
        out == unit_operand(r),
{
    match r {
        Ok(v) => Ok(v as i32),
        Err(e) => Err(e),
    }
}

fn pair_value(r: Result<u32, DexError>) -> (out: Result<i32, DexError>)
    ensures
        out == pair_operand(r),
{
    match r {
        Ok(v) => Ok(u32_to_i32(v)),
        Err(e) => Err(e),
    }
}

/// Whether the instruction has an `A` operand.
#[inline]
pub fn has_a(inst: &Instruction<'_>) -> (r: bool)
    ensures
        r == format_has_a(inst.spec_format()),
{
    match inst.format() {
        Format::kInvalidFormat => false,
        _ => true,
    }
}

/// Reads the `A` operand.
#[allow(non_snake_case)]
#[inline]
pub fn A(inst: &Instruction<'_>) -> (r: Result<i32, DexError>)
    ensures
        r == operand_a(*inst),
{
    match inst.format() {
        Format::k10t
        | Format::k10x
        | Format::k11x
        | Format::k21c
        | Format::k21h
        | Format::k21s
        | Format::k21t
        | Format::k22b
        | Format::k22x
        | Format::k23x
        | Format::k31c
        | Format::k31i
        | Format::k31t
        | Format::k3rc
        | Format::k51l
        | Format::k4rcc => Ok(inst_aa(inst) as i32),
        Format::k11n | Format::k12x | Format::k22c | Format::k22s | Format::k22t => Ok(
            inst_a(inst) as i32,
        ),
        Format::k32x | Format::k20t => unit_value(inst.fetch16(1)),
        Format::k30t => pair_value(inst.fetch32(1)),
        Format::k35c | Format::k45cc => Ok(inst_b(inst) as i32),
        Format::kInvalidFormat => Err(
            DexError::OperandAccessError { insn_name: inst.name(), operand: "A" },
        ),
    }
}

/// Whether the instruction has a `B` operand.
#[inline]
pub fn has_b(inst: &Instruction<'_>) -> (r: bool)
    ensures
        r == format_has_b(inst.spec_format()),
{
    match inst.format() {
        Format::k11n
        | Format::k12x
        | Format::k21c
        | Format::k21h
        | Format::k21s
        | Format::k21t
        | Format::k22b
        | Format::k22c
        | Format::k22s
        | Format::k22t
        | Format::k22x
        | Format::k23x
        | Format::k31c
        | Format::k31i
        | Format::k31t
        | Format::k32x
        | Format::k35c
        | Format::k3rc
        | Format::k45cc
        | Format::k4rcc
        | Format::k51l => true,
        _ => false,
    }
}

/// Whether the instruction's `B` operand is a 64-bit literal.
pub fn has_wide_b(inst: &Instruction<'_>) -> (r: bool)
    ensures
        r == (inst.spec_format() == Format::k51l),
{
    inst.format() == Format::k51l
}

/// Reads the 64-bit literal of a `51l` instruction.
#[inline]
pub fn wide_b(inst: &Instruction<'_>) -> (r: Result<u64, DexError>)
    ensures
        r == operand_wide_b(*inst),
{
    if inst.format() != Format::k51l {
        return Err(DexError::OperandAccessError { insn_name: inst.name(), operand: "B" });
    }
    let low = inst.fetch32(1)?;
    let high = inst.fetch32(3)?;
    Ok(low as u64 + 0x1_0000_0000 * (high as u64))
}

/// Reads the `B` operand.
#[allow(non_snake_case)]
#[inline]
pub fn B(inst: &Instruction<'_>) -> (r: Result<i32, DexError>)
    ensures
        r == operand_b(*inst),
{
    match inst.format() {
        Format::k11n => {
            let nibble = inst_b(inst);
            if nibble >= 8 {
                Ok(nibble as i32 - 16)
            } else {
                Ok(nibble as i32)
            }
        },
        Format::k21c
        | Format::k21t
        | Format::k21s
        | Format::k21h
        | Format::k22x
        | Format::k35c
        | Format::k3rc
        | Format::k45cc
        | Format::k4rcc => unit_value(inst.fetch16(1)),
        Format::k12x | Format::k22c | Format::k22s | Format::k22t => Ok(inst_b(inst) as i32),
        Format::k22b | Format::k23x => match inst.fetch16(1) {
            Ok(v) => Ok((v % 256) as i32),
            Err(e) => Err(e),
        },
        Format::k31c | Format::k31i | Format::k31t => pair_value(inst.fetch32(1)),
        Format::k32x => unit_value(inst.fetch16(2)),
        Format::k51l => match wide_b(inst) {
            Ok(v) => Ok(u32_to_i32((v % 0x1_0000_0000) as u32)),
            Err(e) => Err(e),
        },
        _ => Err(DexError::OperandAccessError { insn_name: inst.name(), operand: "B" }),
    }
}

/// Whether the instruction has a `C` operand.
#[inline]
pub fn has_c(inst: &Instruction<'_>) -> (r: bool)
    ensures
        r == format_has_c(inst.spec_format()),
{
    match inst.format() {
        Format::k22b
        | Format::k22c
        | Format::k22s
        | Format::k22t
        | Format::k23x
        | Format::k35c
        | Format::k3rc
        | Format::k45cc
        | Format::k4rcc => true,
        _ => false,
    }
}

/// Reads the `C` operand.
#[allow(non_snake_case)]
#[inline]
pub fn C(inst: &Instruction<'_>) -> (r: Result<i32, DexError>)
    ensures
        r == operand_c(*inst),
{
    match inst.format() {
        Format::k22c | Format::k22s | Format::k22t => unit_value(inst.fetch16(1)),
        Format::k22b | Format::k23x => match inst.fetch16(1) {
            Ok(v) => Ok((v / 256) as i32),
            Err(e) => Err(e),
        },
        Format::k3rc | Format::k4rcc => unit_value(inst.fetch16(2)),
        Format::k35c | Format::k45cc => match inst.fetch16(2) {
            Ok(v) => Ok((v % 16) as i32),
            Err(e) => Err(e),
        },
        _ => Err(DexError::OperandAccessError { insn_name: inst.name(), operand: "C" }),
    }
}

/// Whether the instruction has an `H` operand.
#[inline]
pub fn has_h(inst: &Instruction<'_>) -> (r: bool)
    ensures
        r == (inst.spec_format() == Format::k45cc || inst.spec_format() == Format::k4rcc),
{
    match inst.format() {
        Format::k45cc | Format::k4rcc => true,
        _ => false,
    }
}

/// Reads the `H` operand.
#[allow(non_snake_case)]
#[inline]
pub fn H(inst: &Instruction<'_>) -> (r: Result<i32, DexError>)
    ensures
        r == operand_h(*inst),
{
    match inst.format() {
        Format::k45cc | Format::k4rcc => unit_value(inst.fetch16(3)),
        _ => Err(DexError::OperandAccessError { insn_name: inst.name(), operand: "H" }),
    }
}

/// Whether the instruction has a register list.
#[inline]
pub fn has_var_args(inst: &Instruction<'_>) -> (r: bool)
    ensures
        r == (inst.spec_format() == Format::k35c || inst.spec_format() == Format::k45cc),
{
    match inst.format() {
        Format::k35c | Format::k45cc => true,
        _ => false,
    }
}

/// Reads the register list of a `35c` or `45cc` instruction.
#[inline]
pub fn var_args(inst: &Instruction<'_>) -> (r: Result<VarArgs, DexError>)
    ensures
        match operand_var_args(*inst) {
            Ok((count, regs)) => r is Ok && r->Ok_0.count == count && r->Ok_0.arg@ == regs,
            Err(e) => r == Err::<VarArgs, DexError>(e),
        },
{
    if !has_var_args(inst) {
        return Err(DexError::OperandAccessError { insn_name: inst.name(), operand: "var_args" });
    }
    let reg_list = inst.fetch16(2)?;
    let count = inst_b(inst);
    // No more than five registers fit the list.
    if count > 5 {
        return Err(
            DexError::InvalidArgCount { opcode: inst.name(), format: inst.format(), count },
        );
    }
    let mut arg: Vec<u8> = Vec::new();
    if count > 0 {
        arg.push((reg_list % 16) as u8);
    }
    if count > 1 {
        arg.push((reg_list / 16 % 16) as u8);
    }
    if count > 2 {
        arg.push((reg_list / 256 % 16) as u8);
    }
    if count > 3 {
        arg.push((reg_list / 4096) as u8);
    }
    if count > 4 {
        arg.push(inst_a(inst));
    }
    assert(arg@ =~= register_nibbles(*inst).take(count as int));
    Ok(VarArgs { count, arg })
}

/// Whether the instruction has a register range.
#[inline]
pub fn has_args_range(inst: &Instruction<'_>) -> (r: bool)
    ensures
        r == (inst.spec_format() == Format::k3rc || inst.spec_format() == Format::k4rcc),
{
    match inst.format() {
        Format::k3rc | Format::k4rcc => true,
        _ => false,
    }
}

/// Reads the first and last register of a `3rc` or `4rcc` instruction.
pub fn range_bounds(inst: &Instruction<'_>) -> (r: Result<(u16, u16), DexError>)
    ensures
        r == operand_args_range(*inst),
{
    if !has_args_range(inst) {
        return Err(
            DexError::OperandAccessError { insn_name: inst.name(), operand: "args_range" },
        );
    }
    let first_reg = inst.fetch16(2)?;
    let count = inst_aa(inst) as u16;
    if count == 0 || first_reg as u32 + count as u32 > 0xffff {
        return Err(
            DexError::InvalidArgRange {
                opcode: inst.name(),
                format: inst.format(),
                start: first_reg,
                end: count,
            },
        );
    }
    Ok((first_reg, first_reg + count - 1))
}

/// Reads the register range of a `3rc` or `4rcc` instruction.
pub fn args_range(inst: &Instruction<'_>) -> (r: Result<RangeInclusive<u16>, DexError>)
    ensures
        match operand_args_range(*inst) {
            Ok((first, last)) => r is Ok && r->Ok_0@.start == first && r->Ok_0@.end == last
                && !r->Ok_0@.exhausted,
            Err(e) => r == Err::<RangeInclusive<u16>, DexError>(e),
        },
{
    match range_bounds(inst) {
        Ok((first, last)) => Ok(RangeInclusive::new(first, last)),
        Err(e) => Err(e),
    }
}

} // verus!
