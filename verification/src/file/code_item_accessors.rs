//! A method's code: its instruction stream, try table and catch handlers.

use vstd::prelude::*;
use vstd::slice::slice_subrange;

use crate::error::DexError;
use crate::file::class_accessor::{leb_at, lemma_leb_at};
use crate::file::instruction::{clamp_usize, size_of_units, Instruction};
use crate::file::structs::{CodeItem, DexItem, TryItem, TypeIndex};
use crate::file::{clamp_to_u32, clamp_u32, fitting_records, DexFile, Miss};
use crate::leb128::{decode_leb128_off, decode_sleb128, sleb128_decode, tail};

verus! {

/// Bytes of the fixed prefix of a code item.
pub const CODE_ITEM_SIZE: u32 = 16;

/// Bytes of a try item.
pub const TRY_ITEM_SIZE: usize = 8;

/// `x` rounded up to a multiple of four.
pub open spec fn round_up_4(x: int) -> int {
    (x + 3) / 4 * 4
}

/// The `count` code units at `code_off`.
pub open spec fn insns_at(bytes: Seq<u8>, code_off: u32, count: u32) -> Result<Seq<u16>, Miss> {
    if code_off >= bytes.len() {
        Err(Miss::Index { index: code_off, item_ty: "code stream offset" })
    } else {
        fitting_records::<u16>(bytes, code_off, count as nat)
    }
}

/// The code units of a code item whose instruction stream lies at
/// `code_off`; none where the offset is zero.
pub open spec fn stream_at(bytes: Seq<u8>, code_off: u32, count: u32) -> Result<Seq<u16>, Miss> {
    if code_off == 0 {
        Ok(Seq::empty())
    } else {
        insns_at(bytes, code_off, count)
    }
}

/// The fixed prefix of the code item at `offset`; nothing where the offset
/// is zero.
pub open spec fn code_item_at(bytes: Seq<u8>, offset: u32) -> Result<Option<CodeItem>, Miss> {
    if offset >= bytes.len() {
        Err(Miss::Index { index: offset, item_ty: "code item offset" })
    } else if offset == 0 {
        Ok(None)
    } else if offset + 16 > bytes.len() {
        Err(Miss::Layout { offset, item_ty: CodeItem::label(), array_len: 0 })
    } else {
        Ok(Some(CodeItem::parse(bytes, offset as int)))
    }
}

/// The code item at `offset`, which is not zero, and the code units that
/// stand behind its sixteen bytes, at an offset of 32 bits.
pub open spec fn code_at(bytes: Seq<u8>, offset: u32) -> Result<(CodeItem, Seq<u16>), Miss> {
    match code_item_at(bytes, offset) {
        Err(m) => Err(m),
        Ok(None) => Err(Miss::Index { index: offset, item_ty: "code item offset" }),
        Ok(Some(item)) => if offset + 16 > u32::MAX {
            Err(Miss::Layout { offset, item_ty: "u16", array_len: item.insns_size as usize })
        } else {
            match stream_at(bytes, (offset + 16) as u32, item.insns_size) {
                Ok(units) => Ok((item, units)),
                Err(m) => Err(m),
            }
        },
    }
}

/// The try items of a code item whose try table starts at `start`: none
/// without a try table.
pub open spec fn tries_of(bytes: Seq<u8>, start: Option<int>, count: u16) -> Result<
    Seq<TryItem>,
    Miss,
> {
    match start {
        None => Ok(Seq::empty()),
        Some(off) => if off <= 0 || off >= bytes.len() || off > u32::MAX {
            Err(Miss::Index { index: clamp_u32(off), item_ty: "TryItem" })
        } else {
            try_items_at(bytes, off as u32, count)
        },
    }
}

/// The `count` try items at `tries_off`.
pub open spec fn try_items_at(bytes: Seq<u8>, tries_off: u32, count: u16) -> Result<
    Seq<TryItem>,
    Miss,
> {
    if tries_off >= bytes.len() {
        Err(Miss::Index { index: tries_off, item_ty: "TryItem" })
    } else {
        fitting_records::<TryItem>(bytes, tries_off, count as nat)
    }
}

/// Where the range of a try item ends, in code units.
pub open spec fn try_end(item: TryItem) -> int {
    item.start_addr + item.insn_count
}

/// The first try item from `i` on whose range runs past `count` code units.
pub open spec fn first_outside(items: Seq<TryItem>, count: int, i: int) -> Option<TryItem>
    decreases items.len() - i,
{
    if i < 0 || i >= items.len() {
        None
    } else if try_end(items[i]) > count {
        Some(items[i])
    } else {
        first_outside(items, count, i + 1)
    }
}

/// The try items `items` of a stream of `count` code units: all of them
/// where each covers code units of the stream only, else the error of the
/// first one that does not.
pub open spec fn covered_tries(items: Seq<TryItem>, count: int) -> Result<Seq<TryItem>, DexError> {
    match first_outside(items, count, 0) {
        Some(item) => Err(
            DexError::BadInstructionOffset {
                opcode: "try item",
                offset: clamp_usize(try_end(item)),
                size: count as usize,
            },
        ),
        None => Ok(items),
    }
}

/// Where no try item from `i` on runs past the stream, each of them lies
/// within it.
pub proof fn lemma_covered(items: Seq<TryItem>, count: int, i: int)
    requires
        0 <= i,
        first_outside(items, count, i) is None,
    ensures
        forall|j: int| i <= j < items.len() ==> try_end(#[trigger] items[j]) <= count,
    decreases items.len() - i,
{
    if i < items.len() {
        lemma_covered(items, count, i + 1);
    }
}

/// Accessor for one code item: its fixed prefix, the offset of its
/// instruction stream, and the code units of that stream.
#[derive(Debug)]
pub struct CodeItemAccessor {
    code_off: u32,
    code_item: CodeItem,
    insns: Vec<u16>,
}

impl CodeItemAccessor {
    #[verifier::type_invariant]
    spec fn type_inv(&self) -> bool {
        self.insns@.len() <= u32::MAX
    }

    /// The code units of the instruction stream.
    pub closed spec fn units(&self) -> Seq<u16> {
        self.insns@
    }

    /// The offset of the instruction stream in the file.
    pub closed spec fn spec_insns_off(&self) -> u32 {
        self.code_off
    }

    /// The fixed prefix of the code item.
    pub closed spec fn spec_code_item(&self) -> CodeItem {
        self.code_item
    }

    /// Where the try table starts in the file: behind the instruction
    /// stream, at the next multiple of four. Nothing without tries.
    pub open spec fn tries_abs_off(&self) -> Option<int> {
        if self.spec_code_item().tries_size == 0 {
            None
        } else {
            Some(round_up_4(self.spec_insns_off() + 2 * self.units().len()))
        }
    }

    /// Where the catch handler list starts in the file: right behind the
    /// last try item. Nothing without tries.
    pub open spec fn handlers_abs_off(&self) -> Option<int> {
        match self.tries_abs_off() {
            Some(off) => Some(off + self.spec_code_item().tries_size * TRY_ITEM_SIZE),
            None => None,
        }
    }

    /// The layout of a code item: the try table starts at the first
    /// multiple of four behind the instruction stream, and the handler list
    /// starts right where the try table ends.
    pub proof fn lemma_layout(&self)
        ensures
            self.tries_abs_off() is Some ==> {
                let end = self.spec_insns_off() + 2 * self.units().len();
                let tries = self.tries_abs_off()->Some_0;
                &&& tries % 4 == 0
                &&& end <= tries < end + 4
                &&& self.handlers_abs_off() == Some(
                    tries + self.spec_code_item().tries_size * TRY_ITEM_SIZE,
                )
            },
    {
    }

    /// The number of code units in the instruction stream.
    #[inline]
    pub fn insns_size_in_code_units(&self) -> (r: u32)
        ensures
            r == self.units().len(),
    {
        proof {
            use_type_invariant(self);
        }
        self.insns.len() as u32
    }

    /// The number of bytes in the instruction stream; the largest `u32`
    /// where that number does not fit.
    #[inline]
    pub fn insns_size_in_bytes(&self) -> (r: u32)
        ensures
            r == clamp_u32(2 * self.units().len() as int),
    {
        proof {
            use_type_invariant(self);
        }
        let bytes: u64 = self.insns.len() as u64 * 2;
        if bytes > 0xffff_ffff {
            0xffff_ffff
        } else {
            bytes as u32
        }
    }

    /// The code units of the instruction stream.
    #[inline(always)]
    pub fn insns(&self) -> (r: &[u16])
        ensures
            r@ == self.units(),
    {
        self.insns.as_slice()
    }

    fn tries_start(&self) -> (r: Option<u64>)
        ensures
            r is Some <==> self.tries_abs_off() is Some,
            r is Some ==> r->Some_0 == self.tries_abs_off()->Some_0 && self.spec_insns_off()
                <= r->Some_0 <= 0x3_0000_0003 && r->Some_0 % 4 == 0,
    {
        proof {
            use_type_invariant(self);
        }
        if self.tries_size() == 0 {
            return None;
        }
        let end: u64 = self.code_off as u64 + 2 * (self.insns.len() as u64);
        Some((end + 3) / 4 * 4)
    }

    /// Where the try table starts, counted from the start of the
    /// instruction stream. Nothing without tries.
    #[inline]
    pub fn get_tries_off(&self) -> (r: Option<usize>)
        ensures
            match self.tries_abs_off() {
                Some(off) => r == Some(clamp_usize(off - self.spec_insns_off())),
                None => r is None,
            },
    {
        match self.tries_start() {
            None => None,
            Some(off) => {
                let relative: u64 = off - self.code_off as u64;
                if relative > usize::MAX as u64 {
                    Some(usize::MAX)
                } else {
                    Some(relative as usize)
                }
            },
        }
    }

    /// Where the try table starts in the file, always at a multiple of four.
    /// Nothing without tries.
    #[inline]
    pub fn get_tries_abs_off(&self) -> (r: Option<usize>)
        ensures
            match self.tries_abs_off() {
                Some(off) => r == Some(clamp_usize(off)) && off % 4 == 0,
                None => r is None,
            },
    {
        match self.tries_start() {
            None => None,
            Some(off) => {
                if off > usize::MAX as u64 {
                    Some(usize::MAX)
                } else {
                    Some(off as usize)
                }
            },
        }
    }

    /// Where the catch handler list starts, counted from the start of the
    /// instruction stream: right behind the last try item. Nothing without
    /// tries.
    #[inline]
    pub fn get_catch_handler_data_off(&self) -> (r: Option<usize>)
        ensures
            match self.handlers_abs_off() {
                Some(off) => r == Some(clamp_usize(off - self.spec_insns_off())),
                None => r is None,
            },
    {
        match self.tries_start() {
            None => None,
            Some(off) => {
                let relative: u64 = off - self.code_off as u64 + self.tries_size() as u64 * 8;
                if relative > usize::MAX as u64 {
                    Some(usize::MAX)
                } else {
                    Some(relative as usize)
                }
            },
        }
    }

    /// Where the catch handler list starts in the file: right behind the
    /// last try item. Nothing without tries.
    #[inline]
    pub fn get_catch_handler_data_abs_off(&self) -> (r: Option<usize>)
        ensures
            match self.handlers_abs_off() {
                Some(off) => r == Some(clamp_usize(off)),
                None => r is None,
            },
    {
        match self.tries_start() {
            None => None,
            Some(off) => {
                let absolute: u64 = off + self.tries_size() as u64 * 8;
                if absolute > usize::MAX as u64 {
                    Some(usize::MAX)
                } else {
                    Some(absolute as usize)
                }
            },
        }
    }

    /// Whether the method has any code units.
    #[inline]
    pub fn has_code(&self) -> (r: bool)
        ensures
            r == (self.units().len() > 0),
    {
        self.insns.len() > 0
    }

    /// The accessor for a code item whose instruction stream lies at
    /// `code_off`. Offset zero stands for no code.
    #[inline(always)]
    pub fn from_code_item(dex: &DexFile<'_>, code_item: CodeItem, code_off: u32) -> (r: Result<
        CodeItemAccessor,
        DexError,
    >)
        ensures
            match stream_at(dex.bytes(), code_off, code_item.insns_size) {
                Ok(units) => r is Ok && r->Ok_0.units() == units && r->Ok_0.spec_insns_off()
                    == code_off && r->Ok_0.spec_code_item() == code_item,
                Err(m) => r is Err && dex.reports(r->Err_0, m),
            },
    {
        let insns = if code_off == 0 {
            Vec::new()
        } else {
            dex.get_insns_raw(code_off, code_item.insns_size)?
        };
        Ok(CodeItemAccessor { code_off, code_item, insns })
    }

    /// The offset of the instruction stream in the file.
    pub fn insns_off(&self) -> (r: u32)
        ensures
            r == self.spec_insns_off(),
    {
        self.code_off
    }

    /// The offset of the code item in the file: sixteen bytes in front of
    /// the instruction stream, in 32-bit wrapping arithmetic.
    pub fn code_item_off(&self) -> (r: u32)
        ensures
            r == if self.spec_insns_off() >= CODE_ITEM_SIZE {
                self.spec_insns_off() - CODE_ITEM_SIZE
            } else {
                self.spec_insns_off() + 0x1_0000_0000 - CODE_ITEM_SIZE
            },
    {
        if self.code_off >= 16 {
            self.code_off - 16
        } else {
            0xffff_ffff - (15 - self.code_off)
        }
    }

    /// The fixed prefix of the code item.
    pub fn code_item(&self) -> (r: &CodeItem)
        ensures
            *r == self.spec_code_item(),
    {
        &self.code_item
    }

    /// The number of registers that the code uses.
    pub fn registers_size(&self) -> (r: u16)
        ensures
            r == self.spec_code_item().registers_size,
    {
        self.code_item.registers_size
    }

    /// The number of words of incoming arguments.
    pub fn ins_size(&self) -> (r: u16)
        ensures
            r == self.spec_code_item().ins_size,
    {
        self.code_item.ins_size
    }

    /// The number of words of outgoing arguments.
    pub fn outs_size(&self) -> (r: u16)
        ensures
            r == self.spec_code_item().outs_size,
    {
        self.code_item.outs_size
    }

    /// The number of try items.
    pub fn tries_size(&self) -> (r: u16)
        ensures
            r == self.spec_code_item().tries_size,
    {
        self.code_item.tries_size
    }

    /// The instruction at code unit `pc`.
    pub fn inst_at(&self, pc: u32) -> (r: Instruction<'_>)
        requires
            pc < self.units().len(),
        ensures
            r@ == self.units().subrange(pc as int, self.units().len() as int),
    {
        Instruction::at(slice_subrange(self.insns.as_slice(), pc as usize, self.insns.len()))
    }

    /// The code unit at which an instruction of this stream starts. An
    /// instruction holds the stream from its first unit to the end, so the
    /// units that it lacks are those in front of it.
    pub fn get_inst_offset_in_code_units(&self, inst: &Instruction<'_>) -> (r: usize)
        requires
            inst@.len() <= self.units().len(),
        ensures
            r == self.units().len() - inst@.len(),
    {
        self.insns.len() - inst.raw().len()
    }

    /// An iterator over the instructions of the stream.
    pub fn instructions(&self) -> (r: DexInstructionIterator<'_>)
        ensures
            r.stream() == self.units(),
            r.pc() == 0,
    {
        DexInstructionIterator::new(self.insns.as_slice())
    }
}

impl<'a> DexFile<'a> {
    /// The fixed prefix of the code item at `offset`; nothing where
    /// `offset` is zero.
    #[inline(always)]
    pub fn get_code_item(&self, offset: u32) -> (r: Result<Option<CodeItem>, DexError>)
        ensures
            match code_item_at(self.bytes(), offset) {
                Ok(item) => r == Ok::<Option<CodeItem>, DexError>(item),
                Err(m) => r is Err && self.reports(r->Err_0, m),
            },
    {
        if offset as usize >= self.file_size() {
            return Err(
                DexError::DexIndexError {
                    index: offset,
                    max: self.file_size(),
                    item_ty: "code item offset",
                },
            );
        }
        self.data_ptr::<CodeItem>(offset)
    }

    /// The accessor for the code item at `offset`, which is not zero.
    #[inline(always)]
    pub fn get_code_item_accessor(&self, offset: u32) -> (r: Result<CodeItemAccessor, DexError>)
        requires
            offset != 0,
        ensures
            match code_at(self.bytes(), offset) {
                Ok((item, units)) => r is Ok && r->Ok_0.spec_code_item() == item
                    && r->Ok_0.spec_insns_off() == offset + 16 && r->Ok_0.units() == units,
                Err(m) => r is Err && self.reports(r->Err_0, m),
            },
    {
        if offset as usize >= self.file_size() {
            return Err(
                DexError::DexIndexError {
                    index: offset,
                    max: self.file_size(),
                    item_ty: "code item offset",
                },
            );
        }
        let code_item = self.non_null_data_ptr::<CodeItem>(offset)?;
        assert(self.bytes().len() <= usize::MAX);
        if offset > 0xffff_ffff - 16 {
            // The offset of the stream does not fit 32 bits.
            return Err(self.layout_error(offset, "u16", code_item.insns_size as usize));
        }
        CodeItemAccessor::from_code_item(self, code_item, offset + 16)
    }

    /// The `size_in_code_units` code units at `code_off`, which is not zero.
    #[inline(always)]
    pub fn get_insns_raw(&self, code_off: u32, size_in_code_units: u32) -> (r: Result<
        Vec<u16>,
        DexError,
    >)
        requires
            code_off != 0,
        ensures
            match insns_at(self.bytes(), code_off, size_in_code_units) {
                Ok(units) => r is Ok && r->Ok_0@ == units && units.len() == size_in_code_units,
                Err(m) => r is Err && self.reports(r->Err_0, m),
            },
    {
        if code_off as usize >= self.file_size() {
            return Err(
                DexError::DexIndexError {
                    index: code_off,
                    max: self.file_size(),
                    item_ty: "code stream offset",
                },
            );
        }
        self.non_null_array_data_ptr::<u16>(code_off, size_in_code_units as usize)
    }

    /// The try items of a code item, none where it has no tries. A table
    /// with an item that covers code units behind the end of the instruction
    /// stream is refused.
    pub fn get_try_item(&self, ca: &CodeItemAccessor) -> (r: Result<Vec<TryItem>, DexError>)
        ensures
            match tries_of(self.bytes(), ca.tries_abs_off(), ca.spec_code_item().tries_size) {
                Ok(items) => match covered_tries(items, ca.units().len() as int) {
                    Ok(covered) => r is Ok && r->Ok_0@ == covered,
                    Err(e) => r == Err::<Vec<TryItem>, DexError>(e),
                },
                Err(m) => r is Err && self.reports(r->Err_0, m),
            },
            r is Ok ==> forall|i: int|
                0 <= i < r->Ok_0@.len() ==> (#[trigger] r->Ok_0@[i]).start_addr
                    + r->Ok_0@[i].insn_count <= ca.units().len(),
    {
        let offset = match ca.get_tries_abs_off() {
            None => {
                return Ok(Vec::new());
            },
            Some(offset) => offset,
        };
        if offset >= self.file_size() || offset > 0xffff_ffff || offset == 0 {
            return Err(
                DexError::DexIndexError {
                    index: clamp_to_u32(offset),
                    max: self.file_size(),
                    item_ty: "TryItem",
                },
            );
        }
        let items = self.get_try_items_raw(offset as u32, ca.tries_size())?;
        let count = ca.insns_size_in_code_units();
        let mut i: usize = 0;
        while i < items.len()
            invariant
                i <= items@.len(),
                count == ca.units().len(),
                tries_of(self.bytes(), ca.tries_abs_off(), ca.spec_code_item().tries_size) == Ok::<
                    Seq<TryItem>,
                    Miss,
                >(items@),
                first_outside(items@, count as int, 0) == first_outside(items@, count as int, i as int),
            decreases items@.len() - i,
        {
            let end: u64 = items[i].start_addr as u64 + items[i].insn_count as u64;
            if end > count as u64 {
                return Err(
                    DexError::BadInstructionOffset {
                        opcode: "try item",
                        offset: if end > usize::MAX as u64 {
                            usize::MAX
                        } else {
                            end as usize
                        },
                        size: count as usize,
                    },
                );
            }
            i = i + 1;
        }
        proof {
            lemma_covered(items@, count as int, 0);
        }
        Ok(items)
    }

    /// The `tries_size` try items at `tries_off`, which is not zero.
    #[inline]
    pub fn get_try_items_raw(&self, tries_off: u32, tries_size: u16) -> (r: Result<
        Vec<TryItem>,
        DexError,
    >)
        requires
            tries_off != 0,
        ensures
            match try_items_at(self.bytes(), tries_off, tries_size) {
                Ok(items) => r is Ok && r->Ok_0@ == items,
                Err(m) => r is Err && self.reports(r->Err_0, m),
            },
    {
        if tries_off as usize >= self.file_size() {
            return Err(
                DexError::DexIndexError {
                    index: tries_off,
                    max: self.file_size(),
                    item_ty: "TryItem",
                },
            );
        }
        self.non_null_array_data_ptr::<TryItem>(tries_off, tries_size as usize)
    }
}

/// Steps through the instructions of a stream of code units.
pub struct DexInstructionIterator<'a> {
    instructions: &'a [u16],
    pc: usize,
}

impl<'a> DexInstructionIterator<'a> {
    /// The stream of code units.
    pub closed spec fn stream(&self) -> Seq<u16> {
        self.instructions@
    }

    /// The code unit at which the next instruction starts.
    pub closed spec fn pc(&self) -> usize {
        self.pc
    }

    /// The units of the instruction at the current position.
    pub open spec fn current(&self) -> Seq<u16> {
        self.stream().subrange(self.pc() as int, self.stream().len() as int)
    }

    /// An iterator at the start of `instructions`.
    pub fn new(instructions: &'a [u16]) -> (r: Self)
        ensures
            r.stream() == instructions@,
            r.pc() == 0,
    {
        Self { instructions, pc: 0 }
    }

    /// The instruction at the current position.
    pub fn inst(&self) -> (r: Instruction<'a>)
        requires
            self.pc() < self.stream().len(),
        ensures
            r@ == self.current(),
    {
        Instruction::at(slice_subrange(self.instructions, self.pc, self.instructions.len()))
    }

    /// The code unit at which the next instruction starts.
    pub fn dex_pc(&self) -> (r: usize)
        ensures
            r == self.pc(),
    {
        self.pc
    }

    /// Steps over the instruction at the current position. At the end of
    /// the stream nothing changes.
    pub fn advance(&mut self)
        ensures
            final(self).stream() == old(self).stream(),
            old(self).pc() >= old(self).stream().len() ==> final(self).pc() == old(self).pc(),
            old(self).pc() < old(self).stream().len() ==> final(self).pc() == clamp_usize(
                old(self).pc() + size_of_units(old(self).current()),
            ),
    {
        if self.pc >= self.instructions.len() {
            return ;
        }
        let size = self.inst().size_in_code_units();
        self.pc = if size > usize::MAX - self.pc {
            usize::MAX
        } else {
            self.pc + size
        };
    }

    /// Hands out the instruction at the current position and steps over it.
    /// At the end of the stream there is nothing.
    pub fn next(&mut self) -> (r: Option<Instruction<'a>>)
        ensures
            final(self).stream() == old(self).stream(),
            old(self).pc() >= old(self).stream().len() ==> r is None && final(self).pc() == old(self).pc(),
            old(self).pc() < old(self).stream().len() ==> r is Some && r->Some_0@ == old(self).current() && final(self).pc() == clamp_usize(
                old(self).pc() + size_of_units(old(self).current()),
            ),
    {
        if self.pc < self.instructions.len() {
            let inst = self.inst();
            let size = inst.size_in_code_units();
            self.pc = if size > usize::MAX - self.pc {
                usize::MAX
            } else {
                self.pc + size
            };
            Some(inst)
        } else {
            None
        }
    }
}

/// One handler of a try block: the type it catches and the address of its
/// code. The handler that catches everything holds the type index 65535.
#[derive(Debug, Clone, Copy, PartialEq, Eq, Structural)]
pub struct CatchHandlerData {
    pub type_idx: TypeIndex,
    pub address: u32,
    pub is_catch_all: bool,
}

impl Default for CatchHandlerData {
    fn default() -> (r: CatchHandlerData)
        ensures
            r == (CatchHandlerData { type_idx: 0, address: 0, is_catch_all: false }),
    {
        CatchHandlerData { type_idx: 0, address: 0, is_catch_all: false }
    }
}

/// The handler that catches everything, at `address`.
pub open spec fn catch_all(address: u32) -> CatchHandlerData {
    CatchHandlerData { type_idx: 0xFFFF, address, is_catch_all: true }
}

/// The typed handler at `pos`, two unsigned LEB128 values, and the position
/// behind it. A type index keeps its low sixteen bits.
pub open spec fn typed_handler_at(bytes: Seq<u8>, pos: int) -> Result<
    (CatchHandlerData, int),
    DexError,
> {
    match leb_at(bytes, pos) {
        Err(e) => Err(e),
        Ok((type_idx, q1)) => match leb_at(bytes, q1) {
            Err(e) => Err(e),
            Ok((address, q2)) => Ok(
                (
                    CatchHandlerData {
                        type_idx: (type_idx % 65536) as u16,
                        address,
                        is_catch_all: false,
                    },
                    q2,
                ),
            ),
        },
    }
}

/// The handler that catches everything, read at `pos`: one unsigned LEB128
/// value.
pub open spec fn catch_all_at(bytes: Seq<u8>, pos: int) -> Result<
    (CatchHandlerData, int),
    DexError,
> {
    match leb_at(bytes, pos) {
        Err(e) => Err(e),
        Ok((address, q1)) => Ok((catch_all(address), q1)),
    }
}

/// The next `count` typed handlers from `pos` on, behind the handlers `acc`,
/// and the position behind them.
pub open spec fn typed_handlers(
    bytes: Seq<u8>,
    pos: int,
    count: nat,
    acc: Seq<CatchHandlerData>,
) -> Result<(Seq<CatchHandlerData>, int), DexError>
    decreases count,
{
    if count == 0 {
        Ok((acc, pos))
    } else {
        match typed_handler_at(bytes, pos) {
            Err(e) => Err(e),
            Ok((handler, next)) => typed_handlers(
                bytes,
                next,
                (count - 1) as nat,
                acc.push(handler),
            ),
        }
    }
}

/// The magnitude of a handler count.
pub open spec fn magnitude(n: i32) -> nat {
    if n < 0 {
        (-n) as nat
    } else {
        n as nat
    }
}

/// The handlers of an encoded catch handler list: a signed LEB128 count
/// `n`, then `|n|` typed handlers, then, where `n` is not positive, the
/// handler that catches everything.
pub open spec fn handler_list(bytes: Seq<u8>) -> Result<Seq<CatchHandlerData>, DexError> {
    match sleb128_decode(tail(bytes, 0)) {
        Err(e) => Err(DexError::VarIntError(e)),
        Ok((n, used)) => match typed_handlers(bytes, used as int, magnitude(n), Seq::empty()) {
            Err(e) => Err(e),
            Ok((typed, pos)) => if n <= 0 {
                match catch_all_at(bytes, pos) {
                    Err(e) => Err(e),
                    Ok((last, _)) => Ok(typed.push(last)),
                }
            } else {
                Ok(typed)
            },
        },
    }
}

proof fn lemma_typed_handlers(bytes: Seq<u8>, pos: int, count: nat, acc: Seq<CatchHandlerData>)
    requires
        forall|i: int| 0 <= i < acc.len() ==> !acc[i].is_catch_all,
    ensures
        typed_handlers(bytes, pos, count, acc) is Ok ==> ({
            let all = typed_handlers(bytes, pos, count, acc)->Ok_0.0;
            &&& all.len() == acc.len() + count
            &&& forall|i: int| 0 <= i < all.len() ==> !all[i].is_catch_all
        }),
    decreases count,
{
    if count > 0 {
        match typed_handler_at(bytes, pos) {
            Ok((handler, next)) => {
                lemma_typed_handlers(bytes, next, (count - 1) as nat, acc.push(handler));
            },
            Err(_) => {},
        }
    }
}

/// A handler list whose count `n` is not positive holds exactly `|n|` typed
/// handlers, and behind them one handler that catches everything, with the
/// type index 65535. One whose count is positive holds `n` typed handlers
/// and no other.
pub proof fn lemma_catch_all_encoding(bytes: Seq<u8>)
    requires
        handler_list(bytes) is Ok,
    ensures
        ({
            let n = sleb128_decode(tail(bytes, 0))->Ok_0.0;
            let list = handler_list(bytes)->Ok_0;
            &&& sleb128_decode(tail(bytes, 0)) is Ok
            &&& n <= 0 ==> list.len() == magnitude(n) + 1 && list.last().is_catch_all
                && list.last().type_idx == u16::MAX
            &&& n > 0 ==> list.len() == n
            &&& forall|i: int| 0 <= i < magnitude(n) ==> !(#[trigger] list[i]).is_catch_all
        }),
{
    let n = sleb128_decode(tail(bytes, 0))->Ok_0.0;
    let used = sleb128_decode(tail(bytes, 0))->Ok_0.1;
    lemma_typed_handlers(bytes, used as int, magnitude(n), Seq::empty());
}

/// Steps through the handlers of an encoded catch handler list.
pub struct EncodedCatchHandlerIterator<'a> {
    data: &'a [u8],
    offset: usize,
    has_catch_all: bool,
    remaining: u32,
}

impl<'a> EncodedCatchHandlerIterator<'a> {
    /// The bytes of the list, up to the end of the file.
    pub closed spec fn data(&self) -> Seq<u8> {
        self.data@
    }

    /// The position of the handler to read next.
    pub closed spec fn offset(&self) -> usize {
        self.offset
    }

    /// Whether a handler that catches everything is still to come.
    pub closed spec fn has_catch_all(&self) -> bool {
        self.has_catch_all
    }

    /// The number of typed handlers still to come.
    pub closed spec fn remaining(&self) -> u32 {
        self.remaining
    }

    /// Reads the count of a handler list.
    pub fn new(data: &'a [u8]) -> (r: Result<Self, DexError>)
        ensures
            match sleb128_decode(tail(data@, 0)) {
                Ok((n, used)) => r is Ok && r->Ok_0.data() == data@ && r->Ok_0.offset() == used
                    && r->Ok_0.has_catch_all() == (n <= 0) && r->Ok_0.remaining() == magnitude(n),
                Err(e) => r is Err && r->Err_0 == DexError::VarIntError(e),
            },
    {
        let mut pos: usize = 0;
        let count = decode_sleb128(data, &mut pos)?;
        let remaining: u32 = if count < 0 {
            (-(count as i64)) as u32
        } else {
            count as u32
        };
        Ok(Self { data, offset: pos, has_catch_all: count <= 0, remaining })
    }

    fn leb128(&mut self) -> (r: Result<u32, DexError>)
        ensures
            final(self).data() == old(self).data(),
            final(self).has_catch_all() == old(self).has_catch_all(),
            final(self).remaining() == old(self).remaining(),
            match leb_at(old(self).data(), old(self).offset() as int) {
                Ok((v, next)) => r == Ok::<u32, DexError>(v) && final(self).offset() == next,
                Err(e) => r == Err::<u32, DexError>(e) && final(self).offset() == old(self).offset(),
            },
    {
        decode_leb128_off(self.data, &mut self.offset)
    }

    /// Reads the next handler: a typed one while any are left, then the one
    /// that catches everything where the list has one. Behind these, and
    /// behind an error, there is nothing more; the error itself is handed
    /// out once.
    pub fn next(&mut self) -> (r: Option<Result<CatchHandlerData, DexError>>)
        ensures
            final(self).data() == old(self).data(),
            old(self).remaining() > 0 ==> match typed_handler_at(
                old(self).data(),
                old(self).offset() as int,
            ) {
                Ok((handler, next)) => r == Some(Ok::<CatchHandlerData, DexError>(handler))
                    && final(self).offset() == next && final(self).remaining() == old(self).remaining() - 1 && final(self).has_catch_all() == old(self).has_catch_all(),
                Err(e) => r == Some(Err::<CatchHandlerData, DexError>(e)) && final(self).remaining() == 0 && !final(self).has_catch_all(),
            },
            old(self).remaining() == 0 && old(self).has_catch_all() ==> !final(self).has_catch_all() && final(self).remaining() == 0 && match catch_all_at(
                old(self).data(),
                old(self).offset() as int,
            ) {
                Ok((handler, next)) => r == Some(Ok::<CatchHandlerData, DexError>(handler))
                    && final(self).offset() == next,
                Err(e) => r == Some(Err::<CatchHandlerData, DexError>(e)),
            },
            old(self).remaining() == 0 && !old(self).has_catch_all() ==> r is None && final(self).remaining() == 0 && !final(self).has_catch_all() && final(self).offset() == old(self).offset(),
    {
        if self.remaining > 0 {
            let start = self.offset;
            let type_idx = match self.leb128() {
                Ok(v) => v,
                Err(e) => {
                    self.remaining = 0;
                    self.has_catch_all = false;
                    return Some(Err(e));
                },
            };
            let address = match self.leb128() {
                Ok(v) => v,
                Err(e) => {
                    self.offset = start;
                    self.remaining = 0;
                    self.has_catch_all = false;
                    return Some(Err(e));
                },
            };
            self.remaining = self.remaining - 1;
            return Some(
                Ok(
                    CatchHandlerData {
                        type_idx: (type_idx % 65536) as TypeIndex,
                        address,
                        is_catch_all: false,
                    },
                ),
            );
        }
        if self.has_catch_all {
            self.has_catch_all = false;
            return match self.leb128() {
                Ok(address) => Some(
                    Ok(CatchHandlerData { type_idx: 0xFFFF, address, is_catch_all: true }),
                ),
                Err(e) => Some(Err(e)),
            };
        }
        None
    }

    /// Reads a whole handler list.
    pub fn handlers(data: &'a [u8]) -> (r: Result<Vec<CatchHandlerData>, DexError>)
        ensures
            match handler_list(data@) {
                Ok(list) => r is Ok && r->Ok_0@ == list,
                Err(e) => r == Err::<Vec<CatchHandlerData>, DexError>(e),
            },
    {
        let mut iter = EncodedCatchHandlerIterator::new(data)?;
        let ghost start = iter.offset as int;
        let ghost count = iter.remaining as nat;
        let mut out: Vec<CatchHandlerData> = Vec::new();
        while iter.remaining > 0
            invariant
                iter.data() == data@,
                sleb128_decode(tail(data@, 0)) is Ok,
                start == sleb128_decode(tail(data@, 0))->Ok_0.1,
                count == magnitude(sleb128_decode(tail(data@, 0))->Ok_0.0),
                iter.has_catch_all() == (sleb128_decode(tail(data@, 0))->Ok_0.0 <= 0),
                typed_handlers(data@, start, count, Seq::empty()) == typed_handlers(
                    data@,
                    iter.offset() as int,
                    iter.remaining() as nat,
                    out@,
                ),
            decreases iter.remaining,
        {
            match iter.next() {
                Some(Ok(handler)) => out.push(handler),
                Some(Err(e)) => {
                    return Err(e);
                },
                None => {},
            }
        }
        match iter.next() {
            Some(Ok(handler)) => out.push(handler),
            Some(Err(e)) => {
                return Err(e);
            },
            None => {},
        }
        Ok(out)
    }
}

} // verus!
