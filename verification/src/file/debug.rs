//! The debug info of a method: parameter names and the state machine that
//! maps addresses to source lines.

pub mod code;

use vstd::prelude::*;

use crate::error::{DexError, VarIntError};
use crate::file::class_accessor::{leb_at, lemma_leb_at};
use crate::file::instruction::wrap_i32;
use crate::file::DexFile;
use crate::leb128::{
    decode_leb128_off, decode_sleb128, lemma_decode_size, lemma_run_bounds, run_from,
    sleb128_decode, tail,
};

verus! {

/// The source file that positions refer to.
#[derive(Debug, Clone, Copy, PartialEq, Eq, Structural)]
pub enum SourceFile {
    /// The file of the class.
    This,
    /// The file whose name is the string at this index.
    Other(u32),
}

/// The registers of the state machine as a position entry shows them.
#[derive(Debug, Clone, Copy, PartialEq, Eq, Structural)]
pub struct PositionInfo {
    pub address: u32,
    pub line: u32,
    pub file: SourceFile,
    pub prologue_end: bool,
    pub epilogue_begin: bool,
}

impl PositionInfo {
    /// The registers before the first opcode: address and line zero, the
    /// class's own file, no flags.
    pub fn new() -> (r: PositionInfo)
        ensures
            r == initial_position(0),
    {
        PositionInfo {
            address: 0,
            line: 0,
            file: SourceFile::This,
            prologue_end: false,
            epilogue_begin: false,
        }
    }
}

/// The registers before the first opcode, at line `line`.
pub open spec fn initial_position(line: u32) -> PositionInfo {
    PositionInfo {
        address: 0,
        line,
        file: SourceFile::This,
        prologue_end: false,
        epilogue_begin: false,
    }
}

/// The index that a "plus one" encoded value stands for, as 32 bits: zero
/// stands for "no index", all bits set.
pub open spec fn p1_index(raw: u32) -> u32 {
    if raw == 0 {
        u32::MAX
    } else {
        (raw - 1) as u32
    }
}

/// The "plus one" encoded index at `pos` and the position behind it.
pub open spec fn index_at(bytes: Seq<u8>, pos: int) -> Result<(u32, int), DexError> {
    match leb_at(bytes, pos) {
        Ok((raw, next)) => Ok((p1_index(raw), next)),
        Err(e) => Err(e),
    }
}

/// The signed LEB128 value at `pos` and the position behind it.
pub open spec fn sleb_at(bytes: Seq<u8>, pos: int) -> Result<(i32, int), DexError> {
    match sleb128_decode(tail(bytes, pos)) {
        Ok((v, n)) => Ok((v, pos + n)),
        Err(e) => Err(DexError::VarIntError(e)),
    }
}

/// `x` within 32 bits, wrapping.
pub open spec fn wrap_u32(x: int) -> u32 {
    (x % 0x1_0000_0000) as u32
}

/// The next `count` parameter names from `pos` on, behind the names `acc`,
/// and the position behind them.
pub open spec fn names_from(bytes: Seq<u8>, pos: int, count: nat, acc: Seq<u32>) -> Result<
    (Seq<u32>, int),
    DexError,
>
    decreases count,
{
    if count == 0 {
        Ok((acc, pos))
    } else {
        match index_at(bytes, pos) {
            Err(e) => Err(e),
            Ok((name, next)) => names_from(bytes, next, (count - 1) as nat, acc.push(name)),
        }
    }
}

/// The start of a debug info item: the first line, the number of parameter
/// names, and the position of the first name.
pub open spec fn debug_header(bytes: Seq<u8>, pos: int) -> Result<(u32, u32, int), DexError> {
    match leb_at(bytes, pos) {
        Err(e) => Err(e),
        Ok((line, q1)) => match leb_at(bytes, q1) {
            Err(e) => Err(e),
            Ok((count, q2)) => Ok((line, count, q2)),
        },
    }
}

/// The first line, the parameter names, and the position of the first
/// opcode of the state machine.
pub open spec fn parameter_names_of(bytes: Seq<u8>) -> Result<(u32, Seq<u32>, int), DexError> {
    match debug_header(bytes, 0) {
        Err(e) => Err(e),
        Ok((line, count, pos)) => match names_from(bytes, pos, count as nat, Seq::empty()) {
            Err(e) => Err(e),
            Ok((names, end)) => Ok((line, names, end)),
        },
    }
}

/// What one opcode of the state machine does.
pub struct Step {
    /// The position behind the opcode and its operands.
    pub next: int,
    /// The registers behind the opcode.
    pub entry: PositionInfo,
    /// The position entry that the opcode emits, if it emits one.
    pub emitted: Option<PositionInfo>,
    /// Whether the opcode ends the sequence.
    pub done: bool,
}

/// A step that changes the registers and emits nothing.
pub open spec fn quiet(next: int, entry: PositionInfo) -> Result<Step, DexError> {
    Ok(Step { next, entry, emitted: None, done: false })
}

/// A step that reads its operands without changing the registers.
pub open spec fn skipped(r: Result<(u32, int), DexError>, entry: PositionInfo) -> Result<
    Step,
    DexError,
> {
    match r {
        Ok((_, next)) => quiet(next, entry),
        Err(e) => Err(e),
    }
}

/// The position behind a register number and `names` "plus one" indices.
pub open spec fn local_end(bytes: Seq<u8>, pos: int, names: nat) -> Result<(u32, int), DexError>
    decreases names,
{
    if names == 0 {
        leb_at(bytes, pos)
    } else {
        match local_end(bytes, pos, (names - 1) as nat) {
            Ok((_, next)) => index_at(bytes, next),
            Err(e) => Err(e),
        }
    }
}

/// The opcode at `pos` carried out on the registers `entry`. The end of the
/// bytes in place of an opcode is a truncated stream.
#[verifier::opaque]
pub open spec fn debug_step(bytes: Seq<u8>, pos: int, entry: PositionInfo) -> Result<
    Step,
    DexError,
> {
    if pos < 0 || pos >= bytes.len() {
        Err(DexError::VarIntError(VarIntError::NotEnoughBytes))
    } else {
        let opcode = bytes[pos];
        if opcode == 0x00 {
            Ok(Step { next: pos + 1, entry, emitted: None, done: true })
        } else if opcode == 0x01 {
            match leb_at(bytes, pos + 1) {
                Ok((diff, next)) => quiet(
                    next,
                    PositionInfo { address: wrap_u32(entry.address + diff), ..entry },
                ),
                Err(e) => Err(e),
            }
        } else if opcode == 0x02 {
            match sleb_at(bytes, pos + 1) {
                Ok((diff, next)) => quiet(
                    next,
                    PositionInfo { line: wrap_u32(entry.line + diff), ..entry },
                ),
                Err(e) => Err(e),
            }
        } else if opcode == 0x03 {
            skipped(local_end(bytes, pos + 1, 2), entry)
        } else if opcode == 0x04 {
            skipped(local_end(bytes, pos + 1, 3), entry)
        } else if opcode == 0x05 || opcode == 0x06 {
            skipped(local_end(bytes, pos + 1, 0), entry)
        } else if opcode == 0x07 {
            quiet(pos + 1, PositionInfo { prologue_end: true, ..entry })
        } else if opcode == 0x08 {
            quiet(pos + 1, PositionInfo { epilogue_begin: true, ..entry })
        } else if opcode == 0x09 {
            match index_at(bytes, pos + 1) {
                Ok((file, next)) => quiet(
                    next,
                    PositionInfo { file: SourceFile::Other(file), ..entry },
                ),
                Err(e) => Err(e),
            }
        } else {
            let adjusted = opcode - 0x0a;
            let moved = PositionInfo {
                address: wrap_u32(entry.address + adjusted / 15),
                line: wrap_u32(entry.line - 4 + adjusted % 15),
                ..entry
            };
            Ok(
                Step {
                    next: pos + 1,
                    entry: PositionInfo { prologue_end: false, epilogue_begin: false, ..moved },
                    emitted: Some(moved),
                    done: false,
                },
            )
        }
    }
}

/// The position entries that the state machine emits from `pos` on, behind
/// the entries `acc`, up to the opcode that ends the sequence.
pub open spec fn positions_from(
    bytes: Seq<u8>,
    pos: int,
    entry: PositionInfo,
    acc: Seq<PositionInfo>,
) -> Result<Seq<PositionInfo>, DexError>
    decreases bytes.len() - pos,
{
    match debug_step(bytes, pos, entry) {
        Err(e) => Err(e),
        Ok(step) => if step.done {
            Ok(acc)
        } else if pos < step.next <= bytes.len() {
            positions_from(
                bytes,
                step.next,
                step.entry,
                match step.emitted {
                    Some(p) => acc.push(p),
                    None => acc,
                },
            )
        } else {
            Err(DexError::VarIntError(VarIntError::NotEnoughBytes))
        },
    }
}

/// The position entries of a debug info item.
pub open spec fn positions_of(bytes: Seq<u8>) -> Result<Seq<PositionInfo>, DexError> {
    match parameter_names_of(bytes) {
        Err(e) => Err(e),
        Ok((line, _, pos)) => positions_from(bytes, pos, initial_position(line), Seq::empty()),
    }
}

/// What is known of the local variable in a register: the string index of
/// its name, the type index of its type and the string index of its
/// signature, each with all bits set where it is not known.
#[derive(Debug, Clone, Copy, PartialEq, Eq, Structural)]
pub struct LocalInfo {
    pub name_idx: u32,
    pub type_idx: u32,
    pub sig_idx: u32,
}

/// What happens to a local variable.
#[derive(Debug, Clone, Copy, PartialEq, Eq, Structural)]
pub enum LocalChange {
    /// A local is introduced in the register.
    Start,
    /// The local in the register goes out of scope.
    End,
    /// The local that the register held last is in scope again.
    Restart,
}

/// One event in the life of the local variables of a method.
#[derive(Debug, Clone, Copy, PartialEq, Eq, Structural)]
pub struct LocalEvent {
    pub change: LocalChange,
    /// The address register at the time of the event.
    pub address: u32,
    pub register: u32,
    /// For a start what the opcode says; for an end or a restart what the
    /// last start in the register said.
    pub local: LocalInfo,
}

/// A local of which nothing is known.
pub open spec fn unknown_local() -> LocalInfo {
    LocalInfo { name_idx: u32::MAX, type_idx: u32::MAX, sig_idx: u32::MAX }
}

/// What the table of registers knows of `register`; registers beyond the
/// table are not tracked.
pub open spec fn known_local(table: Seq<LocalInfo>, register: u32) -> LocalInfo {
    if register < table.len() {
        table[register as int]
    } else {
        unknown_local()
    }
}

/// The table with `local` noted for `register`.
pub open spec fn noted(table: Seq<LocalInfo>, register: u32, local: LocalInfo) -> Seq<LocalInfo> {
    if register < table.len() {
        table.update(register as int, local)
    } else {
        table
    }
}

/// What one opcode does to the local variables.
pub struct LocalStep {
    /// The position behind the opcode and its operands.
    pub next: int,
    /// The address register behind the opcode.
    pub address: u32,
    /// The table of registers behind the opcode.
    pub table: Seq<LocalInfo>,
    /// The event of the opcode, if it has one.
    pub event: Option<LocalEvent>,
    /// Whether the opcode ends the sequence.
    pub done: bool,
}

/// The start of a local at `pos`: its register and what the opcode says of
/// it, with a signature for the extended form.
pub open spec fn start_at(bytes: Seq<u8>, pos: int, extended: bool) -> Result<
    (u32, LocalInfo, int),
    DexError,
> {
    match leb_at(bytes, pos) {
        Err(e) => Err(e),
        Ok((register, q1)) => match index_at(bytes, q1) {
            Err(e) => Err(e),
            Ok((name_idx, q2)) => match index_at(bytes, q2) {
                Err(e) => Err(e),
                Ok((type_idx, q3)) => if extended {
                    match index_at(bytes, q3) {
                        Err(e) => Err(e),
                        Ok((sig_idx, q4)) => Ok(
                            (register, LocalInfo { name_idx, type_idx, sig_idx }, q4),
                        ),
                    }
                } else {
                    Ok((register, LocalInfo { name_idx, type_idx, sig_idx: u32::MAX }, q3))
                },
            },
        },
    }
}

/// The opcode at `pos` as the local variables see it: the opcodes that
/// start, end and restart a local are events, those that move the address
/// register move it, and the others only take their operands.
pub open spec fn local_step(bytes: Seq<u8>, pos: int, address: u32, table: Seq<LocalInfo>) -> Result<
    LocalStep,
    DexError,
> {
    if pos < 0 || pos >= bytes.len() {
        Err(DexError::VarIntError(VarIntError::NotEnoughBytes))
    } else {
        let opcode = bytes[pos];
        if opcode == 0x00 {
            Ok(LocalStep { next: pos + 1, address, table, event: None, done: true })
        } else if opcode == 0x01 {
            match leb_at(bytes, pos + 1) {
                Ok((diff, next)) => Ok(
                    LocalStep {
                        next,
                        address: wrap_u32(address + diff),
                        table,
                        event: None,
                        done: false,
                    },
                ),
                Err(e) => Err(e),
            }
        } else if opcode == 0x02 {
            match sleb_at(bytes, pos + 1) {
                Ok((_, next)) => Ok(LocalStep { next, address, table, event: None, done: false }),
                Err(e) => Err(e),
            }
        } else if opcode == 0x03 || opcode == 0x04 {
            match start_at(bytes, pos + 1, opcode == 0x04) {
                Ok((register, local, next)) => Ok(
                    LocalStep {
                        next,
                        address,
                        table: noted(table, register, local),
                        event: Some(
                            LocalEvent { change: LocalChange::Start, address, register, local },
                        ),
                        done: false,
                    },
                ),
                Err(e) => Err(e),
            }
        } else if opcode == 0x05 || opcode == 0x06 {
            match leb_at(bytes, pos + 1) {
                Ok((register, next)) => Ok(
                    LocalStep {
                        next,
                        address,
                        table,
                        event: Some(
                            LocalEvent {
                                change: if opcode == 0x05 {
                                    LocalChange::End
                                } else {
                                    LocalChange::Restart
                                },
                                address,
                                register,
                                local: known_local(table, register),
                            },
                        ),
                        done: false,
                    },
                ),
                Err(e) => Err(e),
            }
        } else if opcode == 0x07 || opcode == 0x08 {
            Ok(LocalStep { next: pos + 1, address, table, event: None, done: false })
        } else if opcode == 0x09 {
            match index_at(bytes, pos + 1) {
                Ok((_, next)) => Ok(LocalStep { next, address, table, event: None, done: false }),
                Err(e) => Err(e),
            }
        } else {
            Ok(
                LocalStep {
                    next: pos + 1,
                    address: wrap_u32(address + (opcode - 0x0a) / 15),
                    table,
                    event: None,
                    done: false,
                },
            )
        }
    }
}

/// The events of the local variables from `pos` on, behind the events
/// `acc`, up to the opcode that ends the sequence.
pub open spec fn locals_from(
    bytes: Seq<u8>,
    pos: int,
    address: u32,
    table: Seq<LocalInfo>,
    acc: Seq<LocalEvent>,
) -> Result<Seq<LocalEvent>, DexError>
    decreases bytes.len() - pos,
{
    match local_step(bytes, pos, address, table) {
        Err(e) => Err(e),
        Ok(step) => if step.done {
            Ok(acc)
        } else if pos < step.next <= bytes.len() {
            locals_from(
                bytes,
                step.next,
                step.address,
                step.table,
                match step.event {
                    Some(event) => acc.push(event),
                    None => acc,
                },
            )
        } else {
            Err(DexError::VarIntError(VarIntError::NotEnoughBytes))
        },
    }
}

/// The events of the local variables of a debug info item, for a method
/// with `registers` registers. At the start nothing is known of any
/// register.
pub open spec fn locals_of(bytes: Seq<u8>, registers: u16) -> Result<Seq<LocalEvent>, DexError> {
    match parameter_names_of(bytes) {
        Err(e) => Err(e),
        Ok((_, _, pos)) => locals_from(
            bytes,
            pos,
            0,
            Seq::new(registers as nat, |i: int| unknown_local()),
            Seq::empty(),
        ),
    }
}

fn read_index(data: &[u8], offset: &mut usize) -> (r: Result<u32, DexError>)
    ensures
        match index_at(data@, *old(offset) as int) {
            Ok((v, next)) => r == Ok::<u32, DexError>(v) && *final(offset) == next && next
                <= data@.len(),
            Err(e) => r == Err::<u32, DexError>(e) && *final(offset) == *old(offset),
        },
{
    match decode_leb128_off(data, offset) {
        Ok(raw) => Ok(
            if raw == 0 {
                0xffff_ffff
            } else {
                raw - 1
            },
        ),
        Err(e) => Err(e),
    }
}

fn read_local(data: &[u8], offset: &mut usize, names: u8) -> (r: Result<(), DexError>)
    requires
        names <= 3,
    ensures
        match local_end(data@, *old(offset) as int, names as nat) {
            Ok((_, next)) => r is Ok && *final(offset) == next && next <= data@.len(),
            Err(e) => r == Err::<(), DexError>(e),
        },
{
    reveal_with_fuel(local_end, 4);
    decode_leb128_off(data, offset)?;
    if names >= 1 {
        read_index(data, offset)?;
    }
    if names >= 2 {
        read_index(data, offset)?;
    }
    if names >= 3 {
        read_index(data, offset)?;
    }
    Ok(())
}

fn wrapping_add_u32(a: u32, b: u32) -> (r: u32)
    ensures
        r == wrap_u32(a + b),
{
    if b > u32::MAX - a {
        b - (u32::MAX - a) - 1
    } else {
        a + b
    }
}

fn wrapping_add_i32(a: u32, b: i32) -> (r: u32)
    ensures
        r == wrap_u32(a + b),
{
    let sum: i64 = a as i64 + b as i64;
    if sum < 0 {
        (sum + 0x1_0000_0000) as u32
    } else if sum > 0xffff_ffff {
        (sum - 0x1_0000_0000) as u32
    } else {
        sum as u32
    }
}

/// Accessor for one debug info item.
pub struct CodeItemDebugInfoAccessor<'a> {
    ptr: &'a [u8],
}

impl<'a> CodeItemDebugInfoAccessor<'a> {
    /// The bytes of the item, up to the end of the file.
    pub closed spec fn bytes(&self) -> Seq<u8> {
        self.ptr@
    }

    /// The accessor for the debug info item at the start of `ptr`.
    pub fn new(ptr: &'a [u8]) -> (r: Self)
        ensures
            r.bytes() == ptr@,
    {
        Self { ptr }
    }

    /// An iterator over the parameter names.
    pub fn parameter_names(&self) -> (r: Result<DebugInfoParameterNamesIterator<'a>, DexError>)
        ensures
            match debug_header(self.bytes(), 0) {
                Ok((_, count, pos)) => r is Ok && r->Ok_0.bytes() == self.bytes()
                    && r->Ok_0.offset() == pos && r->Ok_0.left() == count,
                Err(e) => r is Err && r->Err_0 == e,
            },
    {
        DebugInfoParameterNamesIterator::new(self.ptr, 0)
    }

    /// Reads the parameter names: the string index of each, all bits set
    /// for a parameter without a name.
    pub fn read_parameter_names(&self) -> (r: Result<Vec<u32>, DexError>)
        ensures
            match parameter_names_of(self.bytes()) {
                Ok((_, names, _)) => r is Ok && r->Ok_0@ == names,
                Err(e) => r == Err::<Vec<u32>, DexError>(e),
            },
    {
        let mut offset: usize = 0;
        let mut names: Vec<u32> = Vec::new();
        self.decode_names(&mut offset, &mut names)?;
        Ok(names)
    }

    fn decode_names(&self, offset: &mut usize, names: &mut Vec<u32>) -> (r: Result<u32, DexError>)
        requires
            *old(offset) == 0,
            old(names)@.len() == 0,
        ensures
            match parameter_names_of(self.bytes()) {
                Ok((line, all, end)) => r == Ok::<u32, DexError>(line) && final(names)@ == all
                    && *final(offset) == end && end <= self.bytes().len(),
                Err(e) => r == Err::<u32, DexError>(e),
            },
    {
        let line = decode_leb128_off(self.ptr, offset)?;
        let size = decode_leb128_off(self.ptr, offset)?;
        let ghost start = *offset as int;
        assert(names@ =~= Seq::<u32>::empty());
        let mut i: u32 = 0;
        while i < size
            invariant
                i <= size,
                *offset <= self.bytes().len(),
                debug_header(self.bytes(), 0) == Ok::<(u32, u32, int), DexError>(
                    (line, size, start),
                ),
                names_from(self.bytes(), start, size as nat, Seq::empty()) == names_from(
                    self.bytes(),
                    *offset as int,
                    (size - i) as nat,
                    names@,
                ),
            decreases size - i,
        {
            let index = read_index(self.ptr, offset)?;
            names.push(index);
            i = i + 1;
        }
        Ok(line)
    }

    /// Hands the string index of every parameter name to the visitor, all
    /// bits set for a parameter without a name. Stops at the first name
    /// that cannot be read.
    pub fn visit_parameter_names<F: Fn(u32)>(&self, visitor: F) -> (r: Result<(), DexError>)
        requires
            forall|index: u32| visitor.requires((index,)),
        ensures
            match parameter_names_of(self.bytes()) {
                Ok(_) => r is Ok,
                Err(e) => r == Err::<(), DexError>(e),
            },
            r is Ok ==> forall|i: int|
                0 <= i < parameter_names_of(self.bytes())->Ok_0.1.len() ==> visitor.ensures(
                    (#[trigger] parameter_names_of(self.bytes())->Ok_0.1[i],),
                    (),
                ),
    {
        let mut offset: usize = 0;
        self.decode_parameter_names(visitor, &mut offset)?;
        Ok(())
    }

    fn decode_parameter_names<F: Fn(u32)>(&self, visitor: F, offset: &mut usize) -> (r: Result<
        u32,
        DexError,
    >)
        requires
            *old(offset) == 0,
            forall|index: u32| visitor.requires((index,)),
        ensures
            match parameter_names_of(self.bytes()) {
                Ok((line, _, end)) => r == Ok::<u32, DexError>(line) && *final(offset) == end
                    && end <= self.bytes().len(),
                Err(e) => r == Err::<u32, DexError>(e),
            },
            r is Ok ==> forall|i: int|
                0 <= i < parameter_names_of(self.bytes())->Ok_0.1.len() ==> visitor.ensures(
                    (#[trigger] parameter_names_of(self.bytes())->Ok_0.1[i],),
                    (),
                ),
    {
        let line = decode_leb128_off(self.ptr, offset)?;
        let size = decode_leb128_off(self.ptr, offset)?;
        let ghost start = *offset as int;
        let ghost mut seen: Seq<u32> = Seq::empty();
        let mut i: u32 = 0;
        while i < size
            invariant
                i <= size,
                *offset <= self.bytes().len(),
                forall|index: u32| visitor.requires((index,)),
                forall|j: int| 0 <= j < seen.len() ==> visitor.ensures((#[trigger] seen[j],), ()),
                debug_header(self.bytes(), 0) == Ok::<(u32, u32, int), DexError>(
                    (line, size, start),
                ),
                names_from(self.bytes(), start, size as nat, Seq::empty()) == names_from(
                    self.bytes(),
                    *offset as int,
                    (size - i) as nat,
                    seen,
                ),
            decreases size - i,
        {
            let index = read_index(self.ptr, offset)?;
            visitor(index);
            proof {
                seen = seen.push(index);
            }
            i = i + 1;
        }
        Ok(line)
    }

    fn step(&self, offset: &mut usize, entry: &mut PositionInfo) -> (r: Result<
        (Option<PositionInfo>, bool),
        DexError,
    >)
        ensures
            match debug_step(self.bytes(), *old(offset) as int, *old(entry)) {
                Ok(step) => r == Ok::<(Option<PositionInfo>, bool), DexError>(
                    (step.emitted, step.done),
                ) && *final(offset) == step.next && *final(entry) == step.entry && *old(offset)
                    < step.next <= self.bytes().len(),
                Err(e) => r == Err::<(Option<PositionInfo>, bool), DexError>(e),
            },
    {
        reveal_with_fuel(local_end, 4);
        reveal(debug_step);
        if *offset >= self.ptr.len() {
            return Err(DexError::VarIntError(VarIntError::NotEnoughBytes));
        }
        let opcode = self.ptr[*offset];
        *offset = *offset + 1;
        if opcode == 0x00 {
            Ok((None, true))
        } else if opcode == 0x01 {
            let diff = decode_leb128_off(self.ptr, offset)?;
            entry.address = wrapping_add_u32(entry.address, diff);
            Ok((None, false))
        } else if opcode == 0x02 {
            let diff = decode_sleb128(self.ptr, offset)?;
            entry.line = wrapping_add_i32(entry.line, diff);
            Ok((None, false))
        } else if opcode == 0x03 {
            read_local(self.ptr, offset, 2)?;
            Ok((None, false))
        } else if opcode == 0x04 {
            read_local(self.ptr, offset, 3)?;
            Ok((None, false))
        } else if opcode == 0x05 || opcode == 0x06 {
            read_local(self.ptr, offset, 0)?;
            Ok((None, false))
        } else if opcode == 0x07 {
            entry.prologue_end = true;
            Ok((None, false))
        } else if opcode == 0x08 {
            entry.epilogue_begin = true;
            Ok((None, false))
        } else if opcode == 0x09 {
            let file = read_index(self.ptr, offset)?;
            entry.file = SourceFile::Other(file);
            Ok((None, false))
        } else {
            let adjusted = opcode - 0x0a;
            entry.address = wrapping_add_u32(entry.address, (adjusted / 15) as u32);
            entry.line = wrapping_add_i32(entry.line, (adjusted % 15) as i32 - 4);
            let emitted = *entry;
            entry.epilogue_begin = false;
            entry.prologue_end = false;
            Ok((Some(emitted), false))
        }
    }

    fn read_start(&self, offset: &mut usize, extended: bool) -> (r: Result<
        (u32, LocalInfo),
        DexError,
    >)
        ensures
            match start_at(self.bytes(), *old(offset) as int, extended) {
                Ok((register, local, next)) => r == Ok::<(u32, LocalInfo), DexError>(
                    (register, local),
                ) && *final(offset) == next && *old(offset) < next <= self.bytes().len(),
                Err(e) => r == Err::<(u32, LocalInfo), DexError>(e),
            },
    {
        proof {
            lemma_leb_at(self.bytes(), *offset as int);
        }
        let register = decode_leb128_off(self.ptr, offset)?;
        let name_idx = read_index(self.ptr, offset)?;
        let type_idx = read_index(self.ptr, offset)?;
        let sig_idx = if extended {
            read_index(self.ptr, offset)?
        } else {
            0xffff_ffff
        };
        Ok((register, LocalInfo { name_idx, type_idx, sig_idx }))
    }

    fn local_step(&self, offset: &mut usize, address: &mut u32, table: &mut Vec<LocalInfo>) -> (r:
        Result<(Option<LocalEvent>, bool), DexError>)
        ensures
            match local_step(self.bytes(), *old(offset) as int, *old(address), old(table)@) {
                Ok(step) => r == Ok::<(Option<LocalEvent>, bool), DexError>(
                    (step.event, step.done),
                ) && *final(offset) == step.next && *final(address) == step.address && final(table)@ == step.table && *old(offset) < step.next <= self.bytes().len(),
                Err(e) => r == Err::<(Option<LocalEvent>, bool), DexError>(e),
            },
    {
        if *offset >= self.ptr.len() {
            return Err(DexError::VarIntError(VarIntError::NotEnoughBytes));
        }
        let opcode = self.ptr[*offset];
        *offset = *offset + 1;
        proof {
            lemma_leb_at(self.bytes(), *offset as int);
            lemma_decode_size(tail(self.bytes(), *offset as int));
        }
        if opcode == 0x00 {
            Ok((None, true))
        } else if opcode == 0x01 {
            let diff = decode_leb128_off(self.ptr, offset)?;
            *address = wrapping_add_u32(*address, diff);
            Ok((None, false))
        } else if opcode == 0x02 {
            decode_sleb128(self.ptr, offset)?;
            Ok((None, false))
        } else if opcode == 0x03 || opcode == 0x04 {
            let (register, local) = self.read_start(offset, opcode == 0x04)?;
            if (register as usize) < table.len() {
                table.set(register as usize, local);
            }
            Ok(
                (
                    Some(
                        LocalEvent {
                            change: LocalChange::Start,
                            address: *address,
                            register,
                            local,
                        },
                    ),
                    false,
                ),
            )
        } else if opcode == 0x05 || opcode == 0x06 {
            let register = decode_leb128_off(self.ptr, offset)?;
            let local = if (register as usize) < table.len() {
                table[register as usize]
            } else {
                LocalInfo { name_idx: 0xffff_ffff, type_idx: 0xffff_ffff, sig_idx: 0xffff_ffff }
            };
            let change = if opcode == 0x05 {
                LocalChange::End
            } else {
                LocalChange::Restart
            };
            Ok((Some(LocalEvent { change, address: *address, register, local }), false))
        } else if opcode == 0x07 || opcode == 0x08 {
            Ok((None, false))
        } else if opcode == 0x09 {
            read_index(self.ptr, offset)?;
            Ok((None, false))
        } else {
            *address = wrapping_add_u32(*address, ((opcode - 0x0a) / 15) as u32);
            Ok((None, false))
        }
    }

    fn fresh_table(registers: u16) -> (r: Vec<LocalInfo>)
        ensures
            r@ == Seq::new(registers as nat, |i: int| unknown_local()),
    {
        let mut table: Vec<LocalInfo> = Vec::new();
        let mut i: u16 = 0;
        while i < registers
            invariant
                i <= registers,
                table@ == Seq::new(i as nat, |j: int| unknown_local()),
            decreases registers - i,
        {
            table.push(
                LocalInfo { name_idx: 0xffff_ffff, type_idx: 0xffff_ffff, sig_idx: 0xffff_ffff },
            );
            i = i + 1;
            assert(table@ =~= Seq::new(i as nat, |j: int| unknown_local()));
        }
        table
    }

    /// Runs the state machine for a method with `registers_size` registers
    /// and collects the events of its local variables.
    pub fn read_local_info(&self, registers_size: u16) -> (r: Result<Vec<LocalEvent>, DexError>)
        ensures
            match locals_of(self.bytes(), registers_size) {
                Ok(events) => r is Ok && r->Ok_0@ == events,
                Err(e) => r == Err::<Vec<LocalEvent>, DexError>(e),
            },
    {
        let mut offset: usize = 0;
        let mut names: Vec<u32> = Vec::new();
        self.decode_names(&mut offset, &mut names)?;
        let mut address: u32 = 0;
        let mut table = CodeItemDebugInfoAccessor::fresh_table(registers_size);
        let ghost start = offset as int;
        let ghost first = table@;
        let mut out: Vec<LocalEvent> = Vec::new();
        assert(out@ =~= Seq::<LocalEvent>::empty());
        loop
            invariant
                offset <= self.bytes().len(),
                parameter_names_of(self.bytes()) is Ok,
                parameter_names_of(self.bytes())->Ok_0.2 == start,
                first == Seq::new(registers_size as nat, |i: int| unknown_local()),
                locals_from(self.bytes(), start, 0, first, Seq::empty()) == locals_from(
                    self.bytes(),
                    offset as int,
                    address,
                    table@,
                    out@,
                ),
            decreases self.bytes().len() - offset,
        {
            let (event, done) = self.local_step(&mut offset, &mut address, &mut table)?;
            if done {
                return Ok(out);
            }
            match event {
                Some(event) => out.push(event),
                None => {},
            }
        }
    }

    /// Runs the state machine for a method with `registers_size` registers
    /// and hands every event of its local variables to the visitor. Stops at
    /// the opcode that ends the sequence, or at the first opcode that cannot
    /// be read.
    pub fn decode_local_info<F: Fn(&LocalEvent)>(&self, registers_size: u16, visitor: F) -> (r:
        Result<(), DexError>)
        requires
            forall|event: LocalEvent| visitor.requires((&event,)),
        ensures
            match locals_of(self.bytes(), registers_size) {
                Ok(_) => r is Ok,
                Err(e) => r == Err::<(), DexError>(e),
            },
            r is Ok ==> forall|i: int|
                0 <= i < locals_of(self.bytes(), registers_size)->Ok_0.len() ==> visitor.ensures(
                    (&(#[trigger] locals_of(self.bytes(), registers_size)->Ok_0[i]),),
                    (),
                ),
    {
        let mut offset: usize = 0;
        let mut names: Vec<u32> = Vec::new();
        self.decode_names(&mut offset, &mut names)?;
        let mut address: u32 = 0;
        let mut table = CodeItemDebugInfoAccessor::fresh_table(registers_size);
        let ghost start = offset as int;
        let ghost first = table@;
        let ghost mut seen: Seq<LocalEvent> = Seq::empty();
        loop
            invariant
                offset <= self.bytes().len(),
                forall|event: LocalEvent| visitor.requires((&event,)),
                forall|j: int| 0 <= j < seen.len() ==> visitor.ensures((&(#[trigger] seen[j]),), ()),
                parameter_names_of(self.bytes()) is Ok,
                parameter_names_of(self.bytes())->Ok_0.2 == start,
                first == Seq::new(registers_size as nat, |i: int| unknown_local()),
                locals_from(self.bytes(), start, 0, first, Seq::empty()) == locals_from(
                    self.bytes(),
                    offset as int,
                    address,
                    table@,
                    seen,
                ),
            decreases self.bytes().len() - offset,
        {
            let (event, done) = self.local_step(&mut offset, &mut address, &mut table)?;
            if done {
                return Ok(());
            }
            match event {
                Some(event) => {
                    visitor(&event);
                    proof {
                        seen = seen.push(event);
                    }
                },
                None => {},
            }
        }
    }

    /// Runs the state machine and collects the position entries it emits.
    pub fn read_position_info(&self) -> (r: Result<Vec<PositionInfo>, DexError>)
        ensures
            match positions_of(self.bytes()) {
                Ok(positions) => r is Ok && r->Ok_0@ == positions,
                Err(e) => r == Err::<Vec<PositionInfo>, DexError>(e),
            },
    {
        let mut offset: usize = 0;
        let mut names: Vec<u32> = Vec::new();
        let line = self.decode_names(&mut offset, &mut names)?;
        let mut entry = PositionInfo::new();
        entry.line = line;
        let ghost start = offset as int;
        let ghost first = entry;
        let mut out: Vec<PositionInfo> = Vec::new();
        assert(out@ =~= Seq::<PositionInfo>::empty());
        loop
            invariant
                offset <= self.bytes().len(),
                parameter_names_of(self.bytes()) is Ok,
                parameter_names_of(self.bytes())->Ok_0.0 == first.line,
                parameter_names_of(self.bytes())->Ok_0.2 == start,
                first == initial_position(first.line),
                positions_from(self.bytes(), start, first, Seq::empty()) == positions_from(
                    self.bytes(),
                    offset as int,
                    entry,
                    out@,
                ),
            decreases self.bytes().len() - offset,
        {
            let (emitted, done) = self.step(&mut offset, &mut entry)?;
            if done {
                return Ok(out);
            }
            match emitted {
                Some(position) => out.push(position),
                None => {},
            }
        }
    }

    /// Runs the state machine and hands every position entry it emits to
    /// the visitor. Stops at the opcode that ends the sequence, or at the
    /// first opcode that cannot be read.
    pub fn decode_position_info<F: Fn(&PositionInfo)>(&self, pos_visitor: F) -> (r: Result<
        (),
        DexError,
    >)
        requires
            forall|p: PositionInfo| pos_visitor.requires((&p,)),
        ensures
            match positions_of(self.bytes()) {
                Ok(_) => r is Ok,
                Err(e) => r == Err::<(), DexError>(e),
            },
            r is Ok ==> forall|i: int|
                0 <= i < positions_of(self.bytes())->Ok_0.len() ==> pos_visitor.ensures(
                    (&(#[trigger] positions_of(self.bytes())->Ok_0[i]),),
                    (),
                ),
    {
        let mut offset: usize = 0;
        let mut names: Vec<u32> = Vec::new();
        let line = self.decode_names(&mut offset, &mut names)?;
        let mut entry = PositionInfo::new();
        entry.line = line;
        let ghost start = offset as int;
        let ghost first = entry;
        let ghost mut seen: Seq<PositionInfo> = Seq::empty();
        loop
            invariant
                offset <= self.bytes().len(),
                forall|p: PositionInfo| pos_visitor.requires((&p,)),
                forall|j: int|
                    0 <= j < seen.len() ==> pos_visitor.ensures((&(#[trigger] seen[j]),), ()),
                parameter_names_of(self.bytes()) is Ok,
                parameter_names_of(self.bytes())->Ok_0.0 == first.line,
                parameter_names_of(self.bytes())->Ok_0.2 == start,
                first == initial_position(first.line),
                positions_from(self.bytes(), start, first, Seq::empty()) == positions_from(
                    self.bytes(),
                    offset as int,
                    entry,
                    seen,
                ),
            decreases self.bytes().len() - offset,
        {
            let (emitted, done) = self.step(&mut offset, &mut entry)?;
            if done {
                return Ok(());
            }
            match emitted {
                Some(position) => {
                    pos_visitor(&position);
                    proof {
                        seen = seen.push(position);
                    }
                },
                None => {},
            }
        }
    }
}

/// Steps through the parameter names of a debug info item.
pub struct DebugInfoParameterNamesIterator<'dex> {
    ptr: &'dex [u8],
    offset: usize,
    remaining: u32,
}

impl<'dex> DebugInfoParameterNamesIterator<'dex> {
    /// The bytes that the names are read from.
    pub closed spec fn bytes(&self) -> Seq<u8> {
        self.ptr@
    }

    /// The position of the name to read next.
    pub closed spec fn offset(&self) -> usize {
        self.offset
    }

    /// The number of names still to come.
    pub closed spec fn left(&self) -> int {
        self.remaining as int
    }

    /// An iterator over the parameter names of the debug info item at
    /// `offset`: it reads the first line and the number of names, and
    /// stands at the first name.
    pub fn new(ptr: &'dex [u8], offset: usize) -> (r: Result<Self, DexError>)
        ensures
            match debug_header(ptr@, offset as int) {
                Ok((_, count, pos)) => r is Ok && r->Ok_0.bytes() == ptr@ && r->Ok_0.offset()
                    == pos && r->Ok_0.left() == count,
                Err(e) => r is Err && r->Err_0 == e,
            },
    {
        let mut pos = offset;
        // The first line is not a name.
        let _line = decode_leb128_off(ptr, &mut pos)?;
        let size = decode_leb128_off(ptr, &mut pos)?;
        Ok(Self { ptr, offset: pos, remaining: size })
    }

    /// Reads the next name. Behind the last name, and behind an error,
    /// there is nothing more; the error itself is handed out once.
    pub fn next(&mut self) -> (r: Option<Result<u32, DexError>>)
        ensures
            final(self).bytes() == old(self).bytes(),
            old(self).left() <= 0 ==> r is None && final(self).left() == old(self).left()
                && final(self).offset() == old(self).offset(),
            old(self).left() > 0 ==> match index_at(old(self).bytes(), old(self).offset() as int) {
                Ok((name, next)) => r == Some(Ok::<u32, DexError>(name)) && final(self).offset()
                    == next && final(self).left() == old(self).left() - 1,
                Err(e) => r == Some(Err::<u32, DexError>(e)) && final(self).left() == 0,
            },
    {
        if self.remaining == 0 {
            return None;
        }
        match read_index(self.ptr, &mut self.offset) {
            Ok(v) => {
                self.remaining = self.remaining - 1;
                Some(Ok(v))
            },
            Err(e) => {
                self.remaining = 0;
                Some(Err(e))
            },
        }
    }
}

impl<'a> DexFile<'a> {
    /// The accessor for the debug info item at `offset`.
    #[inline(always)]
    pub fn get_debug_info_accessor(&self, offset: u32) -> (r: Result<
        CodeItemDebugInfoAccessor<'a>,
        DexError,
    >)
        ensures
            offset < self.bytes().len() ==> r is Ok && r->Ok_0.bytes() == tail(
                self.bytes(),
                offset as int,
            ),
            offset >= self.bytes().len() ==> r is Err && r->Err_0 == (DexError::DexIndexError {
                index: offset,
                max: self.bytes().len() as usize,
                item_ty: "debug info offset",
            }),
    {
        let data = self.data();
        if offset as usize >= data.len() {
            return Err(
                DexError::DexIndexError {
                    index: offset,
                    max: data.len(),
                    item_ty: "debug info offset",
                },
            );
        }
        Ok(
            CodeItemDebugInfoAccessor::new(
                vstd::slice::slice_subrange(data, offset as usize, data.len()),
            ),
        )
    }

    /// The accessor for the debug info item at `offset`; nothing where
    /// `offset` is zero or has all bits set, which both stand for "none".
    #[inline(always)]
    pub fn get_debug_info_accessor_opt(&self, offset: u32) -> (r: Result<
        Option<CodeItemDebugInfoAccessor<'a>>,
        DexError,
    >)
        ensures
            offset == 0 || offset == u32::MAX ==> r is Ok && r->Ok_0 is None,
            0 < offset < u32::MAX && offset < self.bytes().len() ==> r is Ok && r->Ok_0 is Some
                && r->Ok_0->Some_0.bytes() == tail(self.bytes(), offset as int),
            0 < offset < u32::MAX && offset >= self.bytes().len() ==> r is Err && r->Err_0 == (
            DexError::DexIndexError {
                index: offset,
                max: self.bytes().len() as usize,
                item_ty: "debug info offset",
            }),
    {
        if offset == 0 || offset == u32::MAX {
            Ok(None)
        } else {
            match self.get_debug_info_accessor(offset) {
                Ok(accessor) => Ok(Some(accessor)),
                Err(e) => Err(e),
            }
        }
    }
}

} // verus!
