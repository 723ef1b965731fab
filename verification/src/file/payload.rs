//! The tables that switch and fill-array-data instructions point at. Each one
//! lies in the instruction stream, behind a code unit that holds the opcode
//! of `nop` and a signature.

use vstd::prelude::*;

use crate::error::DexError;
use crate::file::instruction::{fetch16_of, fetch32_of, u32_to_i32, wrap_i32, Instruction};

verus! {

/// The table of a `packed-switch`: the targets of a run of keys.
#[derive(Debug, PartialEq, Eq)]
pub struct PackedSwitch {
    /// Number of targets.
    pub size: u16,
    /// The key of the first target; every further target has the next key.
    pub first_key: i32,
    /// Branch targets, relative to the address of the switch instruction.
    pub targets: Vec<i32>,
}

/// The table of a `sparse-switch`: keys and the target of each.
#[derive(Debug, PartialEq, Eq)]
pub struct SparseSwitch {
    /// Number of keys, and of targets.
    pub size: u16,
    /// The keys.
    pub keys: Vec<i32>,
    /// The branch target of each key, relative to the address of the switch
    /// instruction.
    pub targets: Vec<i32>,
}

/// The table of a `fill-array-data`: the elements of an array.
#[derive(Debug, PartialEq, Eq)]
pub struct FillArrayData {
    /// Number of bytes in an element.
    pub width: u16,
    /// Number of elements.
    pub size: u32,
    /// The bytes of the elements, one element after the other.
    pub data: Vec<u8>,
}

/// A table in the instruction stream.
#[derive(Debug, PartialEq, Eq)]
pub enum Payload {
    PackedSwitch(PackedSwitch),
    SparseSwitch(SparseSwitch),
    FillArrayData(FillArrayData),
}

/// What a packed-switch table is.
pub struct PackedSwitchModel {
    pub size: u16,
    pub first_key: i32,
    pub targets: Seq<i32>,
}

/// What a sparse-switch table is.
pub struct SparseSwitchModel {
    pub size: u16,
    pub keys: Seq<i32>,
    pub targets: Seq<i32>,
}

/// What a fill-array-data table is.
pub struct FillArrayDataModel {
    pub width: u16,
    pub size: u32,
    pub data: Seq<u8>,
}

/// What a table in the instruction stream is.
pub enum PayloadModel {
    PackedSwitch(PackedSwitchModel),
    SparseSwitch(SparseSwitchModel),
    FillArrayData(FillArrayDataModel),
}

impl View for PackedSwitch {
    type V = PackedSwitchModel;

    open spec fn view(&self) -> PackedSwitchModel {
        PackedSwitchModel { size: self.size, first_key: self.first_key, targets: self.targets@ }
    }
}

impl View for SparseSwitch {
    type V = SparseSwitchModel;

    open spec fn view(&self) -> SparseSwitchModel {
        SparseSwitchModel { size: self.size, keys: self.keys@, targets: self.targets@ }
    }
}

impl View for FillArrayData {
    type V = FillArrayDataModel;

    open spec fn view(&self) -> FillArrayDataModel {
        FillArrayDataModel { width: self.width, size: self.size, data: self.data@ }
    }
}

impl View for Payload {
    type V = PayloadModel;

    open spec fn view(&self) -> PayloadModel {
        match self {
            Payload::PackedSwitch(table) => PayloadModel::PackedSwitch(table@),
            Payload::SparseSwitch(table) => PayloadModel::SparseSwitch(table@),
            Payload::FillArrayData(table) => PayloadModel::FillArrayData(table@),
        }
    }
}

/// The signed value of the two code units at `offset`, low unit first.
pub open spec fn word(units: Seq<u16>, offset: int) -> i32 {
    wrap_i32(units[offset] + 65536 * units[offset + 1]) as i32
}

/// The number of whole 32-bit values that `units` hold from `offset` on.
pub open spec fn words_left(units: Seq<u16>, offset: int) -> int {
    if offset <= units.len() {
        (units.len() - offset) / 2
    } else {
        0
    }
}

/// The `count` signed 32-bit values from `offset` on, or the error of the
/// first one that the stream lacks.
pub open spec fn words_at(units: Seq<u16>, offset: int, count: nat) -> Result<Seq<i32>, DexError> {
    if count <= words_left(units, offset) {
        Ok(Seq::new(count, |k: int| word(units, offset + 2 * k)))
    } else {
        Err(fetch32_of(units, offset + 2 * words_left(units, offset))->Err_0)
    }
}

/// The packed-switch table behind the first code unit: the number of
/// targets, the first key, and the targets.
pub open spec fn packed_switch_of(units: Seq<u16>) -> Result<PackedSwitchModel, DexError> {
    match fetch16_of(units, 1) {
        Err(e) => Err(e),
        Ok(size) => match fetch32_of(units, 2) {
            Err(e) => Err(e),
            Ok(_) => match words_at(units, 4, size as nat) {
                Err(e) => Err(e),
                Ok(targets) => Ok(PackedSwitchModel { size, first_key: word(units, 2), targets }),
            },
        },
    }
}

/// The sparse-switch table behind the first code unit: the number of keys,
/// the keys, and behind them the targets.
pub open spec fn sparse_switch_of(units: Seq<u16>) -> Result<SparseSwitchModel, DexError> {
    match fetch16_of(units, 1) {
        Err(e) => Err(e),
        Ok(size) => match words_at(units, 2, size as nat) {
            Err(e) => Err(e),
            Ok(keys) => match words_at(units, 2 + 2 * size, size as nat) {
                Err(e) => Err(e),
                Ok(targets) => Ok(SparseSwitchModel { size, keys, targets }),
            },
        },
    }
}

/// Byte `k` of the data of a fill-array-data table: the code units hold two
/// bytes each, the low one first.
pub open spec fn data_byte(units: Seq<u16>, k: int) -> u8 {
    let unit = units[4 + k / 2];
    if k % 2 == 0 {
        (unit % 256) as u8
    } else {
        (unit / 256) as u8
    }
}

/// The fill-array-data table behind the first code unit: the width of an
/// element, the number of elements, and `width * size` bytes of data. Where
/// the stream ends within the data, the error names the first code unit
/// that is not there.
pub open spec fn fill_array_data_of(units: Seq<u16>) -> Result<FillArrayDataModel, DexError> {
    match fetch16_of(units, 1) {
        Err(e) => Err(e),
        Ok(width) => match fetch32_of(units, 2) {
            Err(e) => Err(e),
            Ok(size) => if 4 + (width * size + 1) / 2 > units.len() {
                Err(fetch16_of(units, units.len() as int)->Err_0)
            } else {
                Ok(
                    FillArrayDataModel {
                        width,
                        size,
                        data: Seq::new((width * size) as nat, |k: int| data_byte(units, k)),
                    },
                )
            },
        },
    }
}

/// The table that starts at the first code unit, by its signature; nothing
/// where the unit holds none of the three signatures.
pub open spec fn payload_of(units: Seq<u16>) -> Result<Option<PayloadModel>, DexError> {
    if units[0] == 0x0100 {
        match packed_switch_of(units) {
            Ok(table) => Ok(Some(PayloadModel::PackedSwitch(table))),
            Err(e) => Err(e),
        }
    } else if units[0] == 0x0200 {
        match sparse_switch_of(units) {
            Ok(table) => Ok(Some(PayloadModel::SparseSwitch(table))),
            Err(e) => Err(e),
        }
    } else if units[0] == 0x0300 {
        match fill_array_data_of(units) {
            Ok(table) => Ok(Some(PayloadModel::FillArrayData(table))),
            Err(e) => Err(e),
        }
    } else {
        Ok(None)
    }
}

/// Reads `count` signed 32-bit values from `offset` on.
fn read_words(inst: &Instruction, offset: usize, count: u16) -> (r: Result<Vec<i32>, DexError>)
    requires
        offset <= inst@.len(),
        offset <= 0x2_0004,
    ensures
        match words_at(inst@, offset as int, count as nat) {
            Ok(words) => r is Ok && r->Ok_0@ == words,
            Err(e) => r == Err::<Vec<i32>, DexError>(e),
        },
        r is Ok ==> offset + 2 * count <= inst@.len(),
{
    let mut out: Vec<i32> = Vec::new();
    let mut i: usize = 0;
    while i < count as usize
        invariant
            i <= count,
            offset <= inst@.len(),
            offset <= 0x2_0004,
            i <= words_left(inst@, offset as int),
            out@ =~= Seq::new(i as nat, |k: int| word(inst@, offset + 2 * k)),
        decreases count - i,
    {
        let value = inst.fetch32(offset + 2 * i)?;
        out.push(u32_to_i32(value));
        i = i + 1;
    }
    Ok(out)
}

impl PackedSwitch {
    /// Reads the packed-switch table behind the first code unit of `inst`,
    /// whatever that unit holds.
    pub fn read(inst: &Instruction) -> (r: Result<PackedSwitch, DexError>)
        ensures
            match packed_switch_of(inst@) {
                Ok(table) => r is Ok && r->Ok_0@ == table,
                Err(e) => r == Err::<PackedSwitch, DexError>(e),
            },
    {
        let size = inst.fetch16(1)?;
        let first_key = u32_to_i32(inst.fetch32(2)?);
        let targets = read_words(inst, 4, size)?;
        Ok(PackedSwitch { size, first_key, targets })
    }
}

impl SparseSwitch {
    /// Reads the sparse-switch table behind the first code unit of `inst`,
    /// whatever that unit holds.
    pub fn read(inst: &Instruction) -> (r: Result<SparseSwitch, DexError>)
        ensures
            match sparse_switch_of(inst@) {
                Ok(table) => r is Ok && r->Ok_0@ == table,
                Err(e) => r == Err::<SparseSwitch, DexError>(e),
            },
    {
        let size = inst.fetch16(1)?;
        let keys = read_words(inst, 2, size)?;
        let targets = read_words(inst, 2 + 2 * (size as usize), size)?;
        Ok(SparseSwitch { size, keys, targets })
    }
}

impl FillArrayData {
    /// Reads the fill-array-data table behind the first code unit of `inst`,
    /// whatever that unit holds.
    pub fn read(inst: &Instruction) -> (r: Result<FillArrayData, DexError>)
        ensures
            match fill_array_data_of(inst@) {
                Ok(table) => r is Ok && r->Ok_0@ == table,
                Err(e) => r == Err::<FillArrayData, DexError>(e),
            },
    {
        let width = inst.fetch16(1)?;
        let size = inst.fetch32(2)?;
        let units = inst.raw();
        let len = units.len();
        assert(width * size <= 0xffff * 0xffff_ffff) by (nonlinear_arith)
            requires
                width <= 0xffff,
                size <= 0xffff_ffff,
        ;
        let count: u64 = width as u64 * size as u64;
        if (count + 1) / 2 > (len - 4) as u64 {
            return Err(
                DexError::BadInstruction {
                    opcode: inst.name(),
                    offset: len,
                    size: len,
                    target_type: "u16",
                },
            );
        }
        let mut data: Vec<u8> = Vec::new();
        let mut k: u64 = 0;
        while k < count
            invariant
                k <= count,
                units@ == inst@,
                len == units@.len(),
                4 + (count + 1) / 2 <= len,
                data@ =~= Seq::new(k as nat, |j: int| data_byte(inst@, j)),
            decreases count - k,
        {
            let unit = units[4 + (k / 2) as usize];
            let byte: u8 = if k % 2 == 0 {
                (unit % 256) as u8
            } else {
                (unit / 256) as u8
            };
            data.push(byte);
            k = k + 1;
        }
        Ok(FillArrayData { width, size, data })
    }
}

impl Payload {
    /// Reads the table that starts at the first code unit of `inst`. An
    /// instruction that starts with none of the three signatures has no
    /// table.
    pub fn read(inst: &Instruction) -> (r: Result<Option<Payload>, DexError>)
        ensures
            match payload_of(inst@) {
                Ok(Some(table)) => r is Ok && r->Ok_0 is Some && r->Ok_0->Some_0@ == table,
                Ok(None) => r is Ok && r->Ok_0 is None,
                Err(e) => r == Err::<Option<Payload>, DexError>(e),
            },
    {
        let signature = inst.raw()[0];
        if signature == 0x0100 {
            Ok(Some(Payload::PackedSwitch(PackedSwitch::read(inst)?)))
        } else if signature == 0x0200 {
            Ok(Some(Payload::SparseSwitch(SparseSwitch::read(inst)?)))
        } else if signature == 0x0300 {
            Ok(Some(Payload::FillArrayData(FillArrayData::read(inst)?)))
        } else {
            Ok(None)
        }
    }
}

} // verus!
