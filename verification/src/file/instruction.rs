use vstd::prelude::*;
use vstd::slice::slice_subrange;

use crate::error::DexError;
use crate::file::opcodes::{
    code_from_byte, code_of, descriptor, descriptor_at, descriptor_of, table_row, Code,
};

verus! {

/// Layout of an instruction's operands within its code units.
#[allow(non_camel_case_types)]
#[derive(Debug, Clone, Copy, PartialEq, Eq, Structural)]
pub enum Format {
    /// op
    k10x,
    /// op vA, vB
    k12x,
    /// op vA, #+B
    k11n,
    /// op vAA
    k11x,
    /// op +AA
    k10t,
    /// op +AAAA
    k20t,
    /// op vAA, vBBBB
    k22x,
    /// op vAA, +BBBB
    k21t,
    /// op vAA, #+BBBB
    k21s,
    /// op vAA, #+BBBB0000[00000000]
    k21h,
    /// op vAA, thing@BBBB
    k21c,
    /// op vAA, vBB, vCC
    k23x,
    /// op vAA, vBB, #+CC
    k22b,
    /// op vA, vB, +CCCC
    k22t,
    /// op vA, vB, #+CCCC
    k22s,
    /// op vA, vB, thing@CCCC
    k22c,
    /// op vAAAA, vBBBB
    k32x,
    /// op +AAAAAAAA
    k30t,
    /// op vAA, +BBBBBBBB
    k31t,
    /// op vAA, #+BBBBBBBB
    k31i,
    /// op vAA, thing@BBBBBBBB
    k31c,
    /// op {vC, vD, vE, vF, vG}, thing@BBBB
    k35c,
    /// op {vCCCC .. v(CCCC+AA-1)}, thing@BBBB
    k3rc,
    /// op {vC, vD, vE, vF, vG}, meth@BBBB, proto@HHHH
    k45cc,
    /// op {vCCCC .. v(CCCC+AA-1)}, meth@BBBB, proto@HHHH
    k4rcc,
    /// op vAA, #+BBBBBBBBBBBBBBBB
    k51l,
    kInvalidFormat,
}

/// The pool that an instruction's reference operand points into.
#[derive(Debug, Clone, Copy, PartialEq, Eq, Structural)]
pub enum IndexType {
    Unknown,
    /// The instruction has no index.
    NoIndex,
    TypeRef,
    StringRef,
    MethodRef,
    FieldRef,
    /// A method and a prototype, as `invoke-polymorphic` has them.
    MethodAndProtoRef,
    CallSiteRef,
    MethodHandleRef,
    ProtoRef,
}

/// One row of the opcode table.
#[derive(Debug, Clone, Copy)]
pub struct InstructionDescriptor {
    pub name: &'static str,
    pub format: Format,
    pub index_type: IndexType,
    pub flags: u8,
    /// Size in code units, or one of the marks of `code_flags`.
    pub size_in_code_units: u8,
    pub opcode: Code,
    pub verify_flags: u32,
}

/// The size that a format gives its instructions, in code units: the first
/// digit of the format's name. `nop` is marked complex, because a payload may
/// follow it; a format without operands layout is marked custom.
pub open spec fn size_by_format(opcode: Code, format: Format) -> u8 {
    if opcode == Code::NOP {
        0xFF
    } else {
        match format {
            Format::k10x | Format::k12x | Format::k11n | Format::k11x | Format::k10t => 1,
            Format::k20t
            | Format::k22x
            | Format::k21t
            | Format::k21s
            | Format::k21h
            | Format::k21c
            | Format::k23x
            | Format::k22b
            | Format::k22t
            | Format::k22s
            | Format::k22c => 2,
            Format::k32x
            | Format::k30t
            | Format::k31t
            | Format::k31i
            | Format::k31c
            | Format::k35c
            | Format::k3rc => 3,
            Format::k45cc | Format::k4rcc => 4,
            Format::k51l => 5,
            Format::kInvalidFormat => 0xFE,
        }
    }
}

/// A row of the opcode table, its size filled in from the format.
pub open spec fn entry(
    name: &'static str,
    format: Format,
    index_type: IndexType,
    flags: u8,
    opcode: Code,
    verify_flags: u32,
) -> InstructionDescriptor {
    InstructionDescriptor {
        name,
        format,
        index_type,
        flags,
        size_in_code_units: size_by_format(opcode, format),
        opcode,
        verify_flags,
    }
}

/// Builds a row of the opcode table.
pub fn new_entry(
    name: &'static str,
    format: Format,
    index_type: IndexType,
    flags: u8,
    opcode: Code,
    verify_flags: u32,
) -> (r: InstructionDescriptor)
    ensures
        r == entry(name, format, index_type, flags, opcode, verify_flags),
{
    InstructionDescriptor {
        name,
        format,
        index_type,
        flags,
        size_in_code_units: Instruction::code_size_in_code_units_by_opcode(opcode, format),
        opcode,
        verify_flags,
    }
}

/// The 32-bit two's-complement reading of an unsigned 32-bit value.
pub open spec fn wrap_i32(x: int) -> int {
    if x <= i32::MAX {
        x
    } else {
        x - 0x1_0000_0000
    }
}

/// Reinterprets the bits of `x` as a signed value.
pub fn u32_to_i32(x: u32) -> (r: i32)
    ensures
        r == wrap_i32(x as int),
{
    if x <= 0x7fff_ffff {
        x as i32
    } else {
        let low: u32 = x - 0x8000_0000;
        (low as i32) - 0x4000_0000 - 0x4000_0000
    }
}

/// Code units of a payload, from the units of its pseudo-instruction:
/// `4 + 2 * size` for a packed switch, `2 + 4 * size` for a sparse switch,
/// `4 + ceil(width * length / 2)` for array data, one for anything else.
/// The units that the formula reads must be there.
pub open spec fn payload_units(units: Seq<u16>) -> int {
    if units[0] == 0x0100 {
        4 + units[1] * 2
    } else if units[0] == 0x0200 {
        2 + units[1] * 4
    } else if units[0] == 0x0300 {
        4 + (units[1] * (units[2] + 65536 * units[3]) + 1) / 2
    } else {
        1
    }
}

/// `x`, or the largest `usize` where `x` does not fit.
pub open spec fn clamp_usize(x: int) -> usize {
    if x <= usize::MAX {
        x as usize
    } else {
        usize::MAX
    }
}

/// The row of the opcode table for the instruction that `units` start with.
pub open spec fn desc_of_units(units: Seq<u16>) -> InstructionDescriptor {
    table_row((units[0] % 256) as u8)
}

/// The code unit at `offset` of an instruction, or the error that reports
/// the short stream.
pub open spec fn fetch16_of(units: Seq<u16>, offset: int) -> Result<u16, DexError> {
    if 0 <= offset < units.len() {
        Ok(units[offset])
    } else {
        Err(
            DexError::BadInstruction {
                opcode: desc_of_units(units).name,
                offset: offset as usize,
                size: units.len() as usize,
                target_type: "u16",
            },
        )
    }
}

/// The two code units at `offset` of an instruction as one little-endian
/// value, or the error that reports the short stream.
pub open spec fn fetch32_of(units: Seq<u16>, offset: int) -> Result<u32, DexError> {
    if 0 <= offset < units.len() {
        match fetch16_of(units, offset + 1) {
            Ok(high) => Ok((units[offset] + 65536 * high) as u32),
            Err(e) => Err(e),
        }
    } else {
        Err(
            DexError::BadInstruction {
                opcode: desc_of_units(units).name,
                offset: offset as usize,
                size: units.len() as usize,
                target_type: "u32",
            },
        )
    }
}

/// The size of a `nop` and of the payloads that share its opcode, or the
/// error of the first code unit that the payload header lacks.
pub open spec fn complex_size_of(units: Seq<u16>) -> Result<usize, DexError> {
    if units[0] == 0x0100 || units[0] == 0x0200 {
        match fetch16_of(units, 1) {
            Ok(_) => Ok(clamp_usize(payload_units(units))),
            Err(e) => Err(e),
        }
    } else if units[0] == 0x0300 {
        match fetch16_of(units, 1) {
            Ok(_) => match fetch32_of(units, 2) {
                Ok(_) => Ok(clamp_usize(payload_units(units))),
                Err(e) => Err(e),
            },
            Err(e) => Err(e),
        }
    } else {
        Ok(1)
    }
}

/// The size in code units of the instruction that `units` start with. A
/// payload whose header is cut short counts as one unit, and so does an
/// invalid format.
pub open spec fn size_of_units(units: Seq<u16>) -> usize {
    let size = desc_of_units(units).size_in_code_units;
    if size == 0xFF {
        match complex_size_of(units) {
            Ok(n) => n,
            Err(_) => 1,
        }
    } else if size == 0xFE {
        1
    } else {
        size as usize
    }
}

/// One instruction: the code units from its first unit to the end of the
/// stream it was taken from. It always holds at least one unit.
pub struct Instruction<'a>(&'a [u16]);

impl<'a> View for Instruction<'a> {
    type V = Seq<u16>;

    closed spec fn view(&self) -> Seq<u16> {
        self.0@
    }
}

impl<'a> Instruction<'a> {
    #[verifier::type_invariant]
    spec fn well_formed(self) -> bool {
        self.0@.len() > 0
    }

    /// The opcode: the low byte of the first code unit.
    pub open spec fn spec_opcode(&self) -> Code {
        code_of((self@[0] % 256) as u8)
    }

    /// The row of the opcode table for this instruction.
    pub open spec fn spec_desc(&self) -> InstructionDescriptor {
        desc_of_units(self@)
    }

    /// The format of the opcode.
    pub open spec fn spec_format(&self) -> Format {
        self.spec_desc().format
    }

    /// The name of the opcode.
    pub open spec fn spec_name(&self) -> &'static str {
        self.spec_desc().name
    }

    /// The code unit at `offset`, or the error that reports the short stream.
    pub open spec fn spec_fetch16(&self, offset: int) -> Result<u16, DexError> {
        fetch16_of(self@, offset)
    }

    /// The two code units at `offset` as one little-endian value, or the
    /// error that reports the short stream.
    pub open spec fn spec_fetch32(&self, offset: int) -> Result<u32, DexError> {
        fetch32_of(self@, offset)
    }

    /// The size of a `nop` and of the payloads that share its opcode, or the
    /// error of the first code unit that the payload header lacks.
    pub open spec fn spec_size_complex(&self) -> Result<usize, DexError> {
        complex_size_of(self@)
    }

    /// The size of the instruction in code units.
    pub open spec fn spec_size(&self) -> usize {
        size_of_units(self@)
    }

    /// Takes the instruction that starts at the first unit of `code`.
    #[inline(always)]
    pub fn at(code: &'a [u16]) -> (r: Instruction<'a>)
        requires
            code@.len() > 0,
        ensures
            r@ == code@,
    {
        Instruction(code)
    }

    /// The code units from the instruction's first unit on.
    pub fn raw(&self) -> (r: &'a [u16])
        ensures
            r@ == self@,
            r@.len() > 0,
    {
        proof {
            use_type_invariant(self);
        }
        self.0
    }

    /// The instruction `offset` code units further on. At least two units
    /// must be left there.
    #[inline]
    pub fn relative_at(&self, offset: usize) -> (r: Result<Instruction<'a>, DexError>)
        ensures
            offset + 1 < self@.len() ==> r is Ok && r->Ok_0@ == self@.subrange(
                offset as int,
                self@.len() as int,
            ),
            offset + 1 >= self@.len() ==> r == Err::<Instruction<'a>, DexError>(
                DexError::BadInstructionOffset {
                    opcode: self.spec_name(),
                    offset,
                    size: self@.len() as usize,
                },
            ),
    {
        proof {
            use_type_invariant(self);
        }
        let len = self.0.len();
        if offset >= len - 1 {
            Err(DexError::BadInstructionOffset { opcode: self.name(), offset, size: len })
        } else {
            Ok(Instruction::at(slice_subrange(self.0, offset, len)))
        }
    }

    /// Reads the code unit at `offset`.
    #[inline(always)]
    pub fn fetch16(&self, offset: usize) -> (r: Result<u16, DexError>)
        ensures
            r == self.spec_fetch16(offset as int),
    {
        if offset >= self.0.len() {
            return Err(
                DexError::BadInstruction {
                    opcode: self.name(),
                    offset,
                    size: self.0.len(),
                    target_type: "u16",
                },
            );
        }
        Ok(self.0[offset])
    }

    /// Reads the two code units at `offset` as one little-endian value.
    #[inline(always)]
    pub fn fetch32(&self, offset: usize) -> (r: Result<u32, DexError>)
        ensures
            r == self.spec_fetch32(offset as int),
    {
        if offset >= self.0.len() {
            return Err(
                DexError::BadInstruction {
                    opcode: self.name(),
                    offset,
                    size: self.0.len(),
                    target_type: "u32",
                },
            );
        }
        let low = self.0[offset];
        match self.fetch16(offset + 1) {
            Ok(high) => Ok(low as u32 + 65536 * (high as u32)),
            Err(e) => Err(e),
        }
    }

    fn format_desc_of(opcode: Code) -> (r: InstructionDescriptor)
        ensures
            r == descriptor(opcode),
    {
        descriptor_of(opcode)
    }

    /// The operand format of an opcode.
    pub fn format_of(opcode: Code) -> (r: Format)
        ensures
            r == descriptor(opcode).format,
    {
        Instruction::format_desc_of(opcode).format
    }

    /// The kind of index that an opcode's reference operand holds.
    pub fn index_type_of(opcode: Code) -> (r: IndexType)
        ensures
            r == descriptor(opcode).index_type,
    {
        Instruction::format_desc_of(opcode).index_type
    }

    /// The control-flow flags of an opcode.
    pub fn flags_of(opcode: Code) -> (r: u8)
        ensures
            r == descriptor(opcode).flags,
    {
        Instruction::format_desc_of(opcode).flags
    }

    /// The verify flags of an opcode.
    pub fn verify_flags_of(opcode: Code) -> (r: u32)
        ensures
            r == descriptor(opcode).verify_flags,
    {
        Instruction::format_desc_of(opcode).verify_flags
    }

    /// The mnemonic of an opcode.
    pub fn name_of(opcode: Code) -> (r: &'static str)
        ensures
            r == descriptor(opcode).name,
    {
        Instruction::format_desc_of(opcode).name
    }

    /// The opcode that a first code unit selects: the one of its low byte.
    #[inline(always)]
    pub fn opcode_of(inst_data: u16) -> (r: Code)
        ensures
            r == code_of((inst_data % 256) as u8),
    {
        code_from_byte((inst_data % 256) as u8)
    }

    /// The size that the table gives an opcode of the given format.
    #[inline]
    pub fn code_size_in_code_units_by_opcode(opcode: Code, format: Format) -> (r: u8)
        ensures
            r == size_by_format(opcode, format),
    {
        if opcode == Code::NOP {
            0xFF
        } else {
            match format {
                Format::k10x | Format::k12x | Format::k11n | Format::k11x | Format::k10t => 1,
                Format::k20t
                | Format::k22x
                | Format::k21t
                | Format::k21s
                | Format::k21h
                | Format::k21c
                | Format::k23x
                | Format::k22b
                | Format::k22t
                | Format::k22s
                | Format::k22c => 2,
                Format::k32x
                | Format::k30t
                | Format::k31t
                | Format::k31i
                | Format::k31c
                | Format::k35c
                | Format::k3rc => 3,
                Format::k45cc | Format::k4rcc => 4,
                Format::k51l => 5,
                Format::kInvalidFormat => 0xFE,
            }
        }
    }

    #[inline(always)]
    pub(crate) fn format_desc(&self) -> (r: InstructionDescriptor)
        ensures
            r == self.spec_desc(),
    {
        proof {
            use_type_invariant(self);
        }
        descriptor_at((self.0[0] % 256) as u8)
    }

    /// The instruction's opcode.
    #[inline(always)]
    #[verifier::when_used_as_spec(spec_opcode)]
    pub fn opcode(&self) -> (r: Code)
        ensures
            r == self.spec_opcode(),
    {
        proof {
            use_type_invariant(self);
        }
        Instruction::opcode_of(self.0[0])
    }

    /// The instruction's operand format.
    #[inline(always)]
    #[verifier::when_used_as_spec(spec_format)]
    pub fn format(&self) -> (r: Format)
        ensures
            r == self.spec_format(),
    {
        self.format_desc().format
    }

    /// The instruction's mnemonic.
    #[inline(always)]
    #[verifier::when_used_as_spec(spec_name)]
    pub fn name(&self) -> (r: &'static str)
        ensures
            r == self.spec_name(),
    {
        self.format_desc().name
    }

    /// The instruction that follows this one.
    pub fn next(&self) -> (r: Result<Instruction<'a>, DexError>)
        ensures
            self.spec_size() + 1 < self@.len() ==> r is Ok && r->Ok_0@ == self@.subrange(
                self.spec_size() as int,
                self@.len() as int,
            ),
            self.spec_size() + 1 >= self@.len() ==> r == Err::<Instruction<'a>, DexError>(
                DexError::BadInstructionOffset {
                    opcode: self.spec_name(),
                    offset: self.spec_size(),
                    size: self@.len() as usize,
                },
            ),
    {
        self.relative_at(self.size_in_code_units())
    }

    /// The instruction's size in code units.
    #[inline(always)]
    #[verifier::when_used_as_spec(spec_size)]
    pub fn size_in_code_units(&self) -> (r: usize)
        ensures
            r == self.spec_size(),
    {
        let size = self.format_desc().size_in_code_units;
        if size == 0xFF {
            match self.size_in_code_units_complex() {
                Ok(n) => n,
                Err(_) => 1,
            }
        } else if size == 0xFE {
            1
        } else {
            size as usize
        }
    }

    /// The size of a `nop` or of the payload that shares its opcode.
    pub fn size_in_code_units_complex(&self) -> (r: Result<usize, DexError>)
        ensures
            r == self.spec_size_complex(),
    {
        proof {
            use_type_invariant(self);
        }
        let inst_data = self.0[0];
        if inst_data == 0x0100 {
            let size = self.fetch16(1)?;
            Ok(4 + size as usize * 2)
        } else if inst_data == 0x0200 {
            let size = self.fetch16(1)?;
            Ok(2 + size as usize * 4)
        } else if inst_data == 0x0300 {
            let element_size = self.fetch16(1)?;
            let length = self.fetch32(2)?;
            assert(element_size * length <= 65535 * 0xffff_ffff) by (nonlinear_arith)
                requires
                    element_size <= 65535,
                    length <= 0xffff_ffff,
            ;
            // The plus one rounds an odd byte count up to whole code units.
            let units: u64 = 4 + (element_size as u64 * length as u64 + 1) / 2;
            if units > usize::MAX as u64 {
                Ok(usize::MAX)
            } else {
                Ok(units as usize)
            }
        } else {
            Ok(1)
        }
    }

    /// The verify flags of the instruction's opcode.
    pub fn verify_flags(&self) -> (r: u32)
        ensures
            r == self.spec_desc().verify_flags,
    {
        self.format_desc().verify_flags
    }
}

/// The registers of a `35c` or `45cc` instruction.
#[derive(Debug, Clone)]
pub struct VarArgs {
    pub count: u8,
    pub arg: Vec<u8>,
}

impl VarArgs {
    /// `count` registers, all zero.
    pub fn new(count: u8) -> (r: VarArgs)
        ensures
            r.count == count,
            r.arg@ == Seq::new(count as nat, |i: int| 0u8),
    {
        let mut arg: Vec<u8> = Vec::new();
        let mut i: u8 = 0;
        while i < count
            invariant
                i <= count,
                arg@ == Seq::new(i as nat, |j: int| 0u8),
            decreases count - i,
        {
            arg.push(0);
            i = i + 1;
            assert(arg@ =~= Seq::new(i as nat, |j: int| 0u8));
        }
        VarArgs { count, arg }
    }
}

} // verus!
