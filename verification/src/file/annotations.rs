//! Encoded values and annotations.

use vstd::prelude::*;
use vstd::slice::slice_subrange;

use crate::error::DexError;
use crate::file::class_accessor::{leb_at, lemma_leb_at};
use crate::file::instruction::clamp_usize;
use crate::file::structs::{
    le32, AnnotationsDirectoryItem, ClassDef, DexItem, FieldAnnotationsItem, MethodAnnotationsItem,
    ParameterAnnotationsItem,
};
use crate::file::{fitting_records, DexFile, Miss};
use crate::leb128::{decode_leb128_off, tail};

verus! {

/// The kinds of encoded value, as the low five bits of a header byte name
/// them.
#[derive(Debug, Clone, Copy, PartialEq, Eq, Structural)]
pub enum EncodedValueType {
    Byte,
    Short,
    Char,
    Int,
    Long,
    Float,
    Double,
    MethodType,
    MethodHandle,
    String,
    Type,
    Field,
    Method,
    Enum,
    Array,
    Annotation,
    Null,
    Boolean,
}

/// The kind that the type bits `value_type` name, if they name one.
pub open spec fn value_type_of(value_type: u8) -> Option<EncodedValueType> {
    match value_type {
        0x00 => Some(EncodedValueType::Byte),
        0x02 => Some(EncodedValueType::Short),
        0x03 => Some(EncodedValueType::Char),
        0x04 => Some(EncodedValueType::Int),
        0x06 => Some(EncodedValueType::Long),
        0x10 => Some(EncodedValueType::Float),
        0x11 => Some(EncodedValueType::Double),
        0x15 => Some(EncodedValueType::MethodType),
        0x16 => Some(EncodedValueType::MethodHandle),
        0x17 => Some(EncodedValueType::String),
        0x18 => Some(EncodedValueType::Type),
        0x19 => Some(EncodedValueType::Field),
        0x1a => Some(EncodedValueType::Method),
        0x1b => Some(EncodedValueType::Enum),
        0x1c => Some(EncodedValueType::Array),
        0x1d => Some(EncodedValueType::Annotation),
        0x1e => Some(EncodedValueType::Null),
        0x1f => Some(EncodedValueType::Boolean),
        _ => None,
    }
}

impl EncodedValueType {
    /// Whether the type bits name a kind of value.
    #[inline]
    pub fn is_valid(value_type: u8) -> (r: bool)
        ensures
            r == value_type_of(value_type) is Some,
    {
        match value_type {
            0x00 | 0x02..=0x04 | 0x06 | 0x10 | 0x11 | 0x15..=0x1F => true,
            _ => false,
        }
    }

    /// Whether the type bits lie among those of the numbers: the integers
    /// from `Byte` to `Long` with the gap between them, `Float` and
    /// `Double`.
    #[inline]
    pub fn is_primitive(value_type: u8) -> (r: bool)
        ensures
            r == (value_type == 0x00 || 0x02 <= value_type <= 0x06 || value_type == 0x10
                || value_type == 0x11),
    {
        match value_type {
            0x00 | 0x02..=0x06 | 0x10 | 0x11 => true,
            _ => false,
        }
    }

    /// The kind that valid type bits name.
    pub fn from(value: u8) -> (r: EncodedValueType)
        requires
            value_type_of(value) is Some,
        ensures
            Some(r) == value_type_of(value),
    {
        match EncodedValueType::of(value) {
            Some(kind) => kind,
            None => EncodedValueType::Null,
        }
    }

    /// The kind that the type bits name, if they name one.
    pub fn of(value_type: u8) -> (r: Option<EncodedValueType>)
        ensures
            r == value_type_of(value_type),
    {
        match value_type {
            0x00 => Some(EncodedValueType::Byte),
            0x02 => Some(EncodedValueType::Short),
            0x03 => Some(EncodedValueType::Char),
            0x04 => Some(EncodedValueType::Int),
            0x06 => Some(EncodedValueType::Long),
            0x10 => Some(EncodedValueType::Float),
            0x11 => Some(EncodedValueType::Double),
            0x15 => Some(EncodedValueType::MethodType),
            0x16 => Some(EncodedValueType::MethodHandle),
            0x17 => Some(EncodedValueType::String),
            0x18 => Some(EncodedValueType::Type),
            0x19 => Some(EncodedValueType::Field),
            0x1a => Some(EncodedValueType::Method),
            0x1b => Some(EncodedValueType::Enum),
            0x1c => Some(EncodedValueType::Array),
            0x1d => Some(EncodedValueType::Annotation),
            0x1e => Some(EncodedValueType::Null),
            0x1f => Some(EncodedValueType::Boolean),
            _ => None,
        }
    }
}

/// A decoded value. `Float` and `Double` hold the bits of the IEEE-754
/// number.
#[derive(Debug, PartialEq, Eq)]
pub enum EncodedValue {
    Byte(i8),
    Short(i16),
    Char(u16),
    Int(i32),
    Long(i64),
    Float(u32),
    Double(u64),
    MethodType(u32),
    MethodHandle(u32),
    String(u32),
    Type(u32),
    Field(u32),
    Method(u32),
    Enum(u32),
    Boolean(bool),
    Array(Vec<EncodedValue>),
    Annotation(EncodedAnnotation),
    Null,
}

/// The values of an encoded array.
pub type EncodedArray = Vec<EncodedValue>;

/// One element of an annotation: a name and a value.
#[derive(Debug, PartialEq, Eq)]
pub struct AnnotationElement {
    pub name_idx: u32,
    pub value: EncodedValue,
}

/// A decoded annotation: its type and its elements.
#[derive(Debug, PartialEq, Eq)]
pub struct EncodedAnnotation {
    pub type_idx: u32,
    pub elements: Vec<AnnotationElement>,
}

/// An annotation with its visibility: 0 for build, 1 for runtime, 2 for
/// system.
#[derive(Debug, PartialEq, Eq)]
pub struct AnnotationItem {
    pub visibility: u8,
    pub annotation: EncodedAnnotation,
}

/// What a decoded value is: the same tree with sequences for vectors.
pub enum ValueModel {
    Byte(i8),
    Short(i16),
    Char(u16),
    Int(i32),
    Long(i64),
    Float(u32),
    Double(u64),
    MethodType(u32),
    MethodHandle(u32),
    String(u32),
    Type(u32),
    Field(u32),
    Method(u32),
    Enum(u32),
    Boolean(bool),
    Array(Seq<ValueModel>),
    Annotation(AnnotationModel),
    Null,
}

/// What a decoded annotation is.
pub struct AnnotationModel {
    pub type_idx: u32,
    pub elements: Seq<(u32, ValueModel)>,
}

/// The model of a value.
pub open spec fn model_of(v: EncodedValue) -> ValueModel
    decreases v,
{
    match v {
        EncodedValue::Byte(x) => ValueModel::Byte(x),
        EncodedValue::Short(x) => ValueModel::Short(x),
        EncodedValue::Char(x) => ValueModel::Char(x),
        EncodedValue::Int(x) => ValueModel::Int(x),
        EncodedValue::Long(x) => ValueModel::Long(x),
        EncodedValue::Float(x) => ValueModel::Float(x),
        EncodedValue::Double(x) => ValueModel::Double(x),
        EncodedValue::MethodType(x) => ValueModel::MethodType(x),
        EncodedValue::MethodHandle(x) => ValueModel::MethodHandle(x),
        EncodedValue::String(x) => ValueModel::String(x),
        EncodedValue::Type(x) => ValueModel::Type(x),
        EncodedValue::Field(x) => ValueModel::Field(x),
        EncodedValue::Method(x) => ValueModel::Method(x),
        EncodedValue::Enum(x) => ValueModel::Enum(x),
        EncodedValue::Boolean(x) => ValueModel::Boolean(x),
        EncodedValue::Array(items) => ValueModel::Array(
            Seq::new(
                items@.len(),
                |i: int|
                    if 0 <= i < items.len() {
                        model_of(items[i])
                    } else {
                        ValueModel::Null
                    },
            ),
        ),
        EncodedValue::Annotation(a) => ValueModel::Annotation(
            AnnotationModel {
                type_idx: a.type_idx,
                elements: Seq::new(
                    a.elements@.len(),
                    |i: int|
                        if 0 <= i < a.elements.len() {
                            (a.elements[i].name_idx, model_of(a.elements[i].value))
                        } else {
                            (0, ValueModel::Null)
                        },
                ),
            },
        ),
        EncodedValue::Null => ValueModel::Null,
    }
}

/// The models of some values.
pub open spec fn models_of(items: Seq<EncodedValue>) -> Seq<ValueModel> {
    Seq::new(items.len(), |i: int| model_of(items[i]))
}

/// The models of some annotation elements.
pub open spec fn element_models(items: Seq<AnnotationElement>) -> Seq<(u32, ValueModel)> {
    Seq::new(items.len(), |i: int| (items[i].name_idx, model_of(items[i].value)))
}

/// The model of an annotation.
pub open spec fn annotation_model(a: EncodedAnnotation) -> AnnotationModel {
    AnnotationModel { type_idx: a.type_idx, elements: element_models(a.elements@) }
}

/// 256 to the power `k`, for `k` up to eight.
pub open spec fn pow256(k: int) -> int {
    if k <= 0 {
        1
    } else if k == 1 {
        0x100
    } else if k == 2 {
        0x1_0000
    } else if k == 3 {
        0x100_0000
    } else if k == 4 {
        0x1_0000_0000
    } else if k == 5 {
        0x100_0000_0000
    } else if k == 6 {
        0x1_0000_0000_0000
    } else if k == 7 {
        0x100_0000_0000_0000
    } else {
        0x1_0000_0000_0000_0000
    }
}

/// The little-endian value of the `n` bytes at `off`.
pub open spec fn le_value(bytes: Seq<u8>, off: int, n: nat) -> int
    decreases n,
{
    if n == 0 {
        0
    } else {
        bytes[off] + 256 * le_value(bytes, off + 1, (n - 1) as nat)
    }
}

/// The two's-complement reading of the `n` bytes at `off`: the top bit of
/// the last byte is the sign.
pub open spec fn signed_value(bytes: Seq<u8>, off: int, n: nat) -> int {
    if n >= 1 && bytes[off + n - 1] >= 128 {
        le_value(bytes, off, n) - pow256(n as int)
    } else {
        le_value(bytes, off, n)
    }
}

/// `v` moved up by `k` bytes.
pub open spec fn shifted(v: int, k: nat) -> int
    decreases k,
{
    if k == 0 {
        v
    } else {
        256 * shifted(v, (k - 1) as nat)
    }
}

/// The `n` bytes at `off` as the high-order bytes of a value of `width`
/// bytes, the rest zero.
pub open spec fn high_value(bytes: Seq<u8>, off: int, n: nat, width: nat) -> int {
    shifted(le_value(bytes, off, n), (width - n) as nat)
}

/// The most bytes that a value of the given type bits may take.
pub open spec fn max_width(value_type: u8) -> nat {
    if value_type == 0x00 {
        1
    } else if value_type == 0x02 || value_type == 0x03 {
        2
    } else if value_type == 0x06 || value_type == 0x11 {
        8
    } else {
        4
    }
}

/// The value of `n` bytes at `off` for the type bits of a number or an
/// index.
pub open spec fn scalar_model(bytes: Seq<u8>, off: int, n: nat, value_type: u8) -> ValueModel {
    match value_type {
        0x00 => ValueModel::Byte(signed_value(bytes, off, n) as i8),
        0x02 => ValueModel::Short(signed_value(bytes, off, n) as i16),
        0x03 => ValueModel::Char(le_value(bytes, off, n) as u16),
        0x04 => ValueModel::Int(signed_value(bytes, off, n) as i32),
        0x06 => ValueModel::Long(signed_value(bytes, off, n) as i64),
        0x10 => ValueModel::Float(high_value(bytes, off, n, 4) as u32),
        0x11 => ValueModel::Double(high_value(bytes, off, n, 8) as u64),
        0x15 => ValueModel::MethodType(le_value(bytes, off, n) as u32),
        0x16 => ValueModel::MethodHandle(le_value(bytes, off, n) as u32),
        0x17 => ValueModel::String(le_value(bytes, off, n) as u32),
        0x18 => ValueModel::Type(le_value(bytes, off, n) as u32),
        0x19 => ValueModel::Field(le_value(bytes, off, n) as u32),
        0x1a => ValueModel::Method(le_value(bytes, off, n) as u32),
        _ => ValueModel::Enum(le_value(bytes, off, n) as u32),
    }
}

/// The number or index behind the header byte at `off`, whose size bits ask
/// for `value_arg + 1` bytes: too many for the type is a size error, more
/// than the bytes hold is a bounds error.
pub open spec fn scalar_at(bytes: Seq<u8>, off: int, value_type: u8, value_arg: u8) -> Result<
    (ValueModel, int),
    DexError,
> {
    let width = (value_arg + 1) as nat;
    if width > max_width(value_type) {
        Err(
            DexError::BadEncodedValueSize {
                value_type,
                size: width as usize,
                max: max_width(value_type) as usize,
            },
        )
    } else if off + 1 + width > bytes.len() {
        Err(
            DexError::InvalidEncodedValue {
                value_type,
                offset: clamp_usize(off + 1 + width),
                size: bytes.len() as usize,
            },
        )
    } else {
        Ok((scalar_model(bytes, off + 1, width, value_type), off + 1 + width))
    }
}

/// The error of a count of `count` items of at least `each` bytes that the
/// bytes behind `pos` cannot hold.
pub open spec fn length_error(bytes: Seq<u8>, pos: int, count: u32, value_type: u8) -> DexError {
    DexError::BadEncodedArrayLength {
        value_type,
        size: count as usize,
        offset: pos as usize,
        max: bytes.len() as usize,
    }
}

/// The encoded value at `off`, and the position behind it.
pub open spec fn value_at(bytes: Seq<u8>, off: int) -> Result<(ValueModel, int), DexError>
    decreases bytes.len() - off, 0nat,
{
    if off < 0 || off >= bytes.len() {
        Err(DexError::EmptyEncodedValue)
    } else {
        let value_type = bytes[off] % 32;
        let value_arg = bytes[off] / 32;
        if value_type_of(value_type) is None {
            Err(DexError::BadEncodedValueType(value_type))
        } else if value_type == 0x1c {
            match array_at(bytes, off + 1) {
                Ok((items, next)) => Ok((ValueModel::Array(items), next)),
                Err(e) => Err(e),
            }
        } else if value_type == 0x1d {
            match annotation_at(bytes, off + 1) {
                Ok((a, next)) => Ok((ValueModel::Annotation(a), next)),
                Err(e) => Err(e),
            }
        } else if value_type == 0x1e {
            Ok((ValueModel::Null, off + 1))
        } else if value_type == 0x1f {
            Ok((ValueModel::Boolean(value_arg != 0), off + 1))
        } else {
            scalar_at(bytes, off, value_type, value_arg)
        }
    }
}

/// The encoded array at `pos`: a count and that many values. A count of
/// more values than bytes are left is refused.
pub open spec fn array_at(bytes: Seq<u8>, pos: int) -> Result<(Seq<ValueModel>, int), DexError>
    decreases bytes.len() - pos, 0nat,
{
    if pos < 0 {
        Err(DexError::EmptyEncodedValue)
    } else {
        match leb_at(bytes, pos) {
            Err(e) => Err(e),
            Ok((count, start)) => if pos < start <= bytes.len() {
                if count > bytes.len() - start {
                    Err(length_error(bytes, start, count, 0x1c))
                } else {
                    values_at(bytes, start, count as nat, Seq::empty())
                }
            } else {
                Err(DexError::EmptyEncodedValue)
            },
        }
    }
}

/// The next `count` values from `pos` on, behind the values `acc`.
pub open spec fn values_at(bytes: Seq<u8>, pos: int, count: nat, acc: Seq<ValueModel>) -> Result<
    (Seq<ValueModel>, int),
    DexError,
>
    decreases bytes.len() - pos, count + 1,
{
    if count == 0 {
        Ok((acc, pos))
    } else {
        match value_at(bytes, pos) {
            Err(e) => Err(e),
            Ok((v, next)) => if pos < next <= bytes.len() {
                values_at(bytes, next, (count - 1) as nat, acc.push(v))
            } else {
                Err(DexError::EmptyEncodedValue)
            },
        }
    }
}

/// The encoded annotation at `pos`: a type, a count and that many elements.
/// A count of more elements than the bytes left can hold, at two bytes
/// each, is refused.
pub open spec fn annotation_at(bytes: Seq<u8>, pos: int) -> Result<(AnnotationModel, int), DexError>
    decreases bytes.len() - pos, 0nat,
{
    if pos < 0 {
        Err(DexError::EmptyEncodedValue)
    } else {
        match leb_at(bytes, pos) {
            Err(e) => Err(e),
            Ok((type_idx, q1)) => match leb_at(bytes, q1) {
                Err(e) => Err(e),
                Ok((count, start)) => if pos < start <= bytes.len() {
                    if count * 2 > bytes.len() - start {
                        Err(length_error(bytes, start, count, 0x1d))
                    } else {
                        match elements_at(bytes, start, count as nat, Seq::empty()) {
                            Ok((elements, next)) => Ok((AnnotationModel { type_idx, elements }, next)),
                            Err(e) => Err(e),
                        }
                    }
                } else {
                    Err(DexError::EmptyEncodedValue)
                },
            },
        }
    }
}

/// The next `count` annotation elements from `pos` on, behind the elements
/// `acc`: each a name index and a value.
pub open spec fn elements_at(
    bytes: Seq<u8>,
    pos: int,
    count: nat,
    acc: Seq<(u32, ValueModel)>,
) -> Result<(Seq<(u32, ValueModel)>, int), DexError>
    decreases bytes.len() - pos, count + 1,
{
    if count == 0 {
        Ok((acc, pos))
    } else if pos < 0 {
        Err(DexError::EmptyEncodedValue)
    } else {
        match leb_at(bytes, pos) {
            Err(e) => Err(e),
            Ok((name_idx, q1)) => if pos < q1 <= bytes.len() {
                match value_at(bytes, q1) {
                    Err(e) => Err(e),
                    Ok((v, next)) => if q1 < next <= bytes.len() {
                        elements_at(bytes, next, (count - 1) as nat, acc.push((name_idx, v)))
                    } else {
                        Err(DexError::EmptyEncodedValue)
                    },
                }
            } else {
                Err(DexError::EmptyEncodedValue)
            },
        }
    }
}

/// The model of an array is the array of the models.
pub proof fn lemma_array_model(items: Vec<EncodedValue>)
    ensures
        model_of(EncodedValue::Array(items)) == ValueModel::Array(models_of(items@)),
{
    let m = model_of(EncodedValue::Array(items));
    assert(m is Array);
    assert(m->Array_0 =~= models_of(items@));
}

/// The model of an annotation value is that of its annotation.
pub proof fn lemma_annotation_model(a: EncodedAnnotation)
    ensures
        model_of(EncodedValue::Annotation(a)) == ValueModel::Annotation(annotation_model(a)),
{
    let m = model_of(EncodedValue::Annotation(a));
    assert(m is Annotation);
    assert(m->Annotation_0.elements =~= element_models(a.elements@));
}

fn pow256_of(k: usize) -> (r: u64)
    requires
        k <= 7,
    ensures
        r == pow256(k as int),
{
    if k == 0 {
        1
    } else if k == 1 {
        0x100
    } else if k == 2 {
        0x1_0000
    } else if k == 3 {
        0x100_0000
    } else if k == 4 {
        0x1_0000_0000
    } else if k == 5 {
        0x100_0000_0000
    } else if k == 6 {
        0x1_0000_0000_0000
    } else {
        0x100_0000_0000_0000
    }
}

fn read_le(value: &[u8], off: usize, n: usize) -> (r: u64)
    requires
        1 <= n <= 8,
        off + n <= value@.len() <= usize::MAX,
    ensures
        r == le_value(value@, off as int, n as nat),
        r < pow256(n as int),
{
    let mut acc: u64 = 0;
    let mut i: usize = n;
    while i > 0
        invariant
            i <= n <= 8,
            off + n <= value@.len() <= usize::MAX,
            acc == le_value(value@, off + i, (n - i) as nat),
            acc < pow256(n - i),
        decreases i,
    {
        i = i - 1;
        acc = value[off + i] as u64 + 256 * acc;
    }
    acc
}

/// The value of the top half of the range of `n` bytes starts at half of
/// 256 to the `n`.
proof fn lemma_top_byte(bytes: Seq<u8>, off: int, n: nat)
    requires
        1 <= n <= 8,
    ensures
        bytes[off + n - 1] >= 128 ==> le_value(bytes, off, n) >= pow256(n as int) / 2,
        bytes[off + n - 1] < 128 ==> le_value(bytes, off, n) < pow256(n as int) / 2,
        0 <= le_value(bytes, off, n) < pow256(n as int),
{
    reveal_with_fuel(le_value, 9);
}

fn read_signed(value: &[u8], off: usize, n: usize) -> (r: i64)
    requires
        1 <= n <= 8,
        off + n <= value@.len() <= usize::MAX,
    ensures
        r == signed_value(value@, off as int, n as nat),
        -pow256(n as int) / 2 <= r < pow256(n as int) / 2,
{
    let v = read_le(value, off, n);
    proof {
        lemma_top_byte(value@, off as int, n as nat);
    }
    if value[off + n - 1] >= 128 {
        if n == 8 {
            let low: u64 = v - 0x8000_0000_0000_0000;
            (low as i64) - 0x4000_0000_0000_0000 - 0x4000_0000_0000_0000
        } else {
            v as i64 - pow256_of(n) as i64
        }
    } else {
        v as i64
    }
}

fn read_high(value: &[u8], off: usize, n: usize, width: usize) -> (r: u64)
    requires
        1 <= n <= width <= 8,
        off + n <= value@.len() <= usize::MAX,
    ensures
        r == high_value(value@, off as int, n as nat, width as nat),
        r < pow256(width as int),
{
    let v = read_le(value, off, n);
    let mut acc: u64 = v;
    let mut j: usize = 0;
    while j < width - n
        invariant
            1 <= n <= width <= 8,
            j <= width - n,
            acc == shifted(v as int, j as nat),
            acc < pow256(n + j),
        decreases width - n - j,
    {
        acc = 256 * acc;
        j = j + 1;
    }
    acc
}

fn width_limit(value_type: u8) -> (r: usize)
    ensures
        r == max_width(value_type),
{
    if value_type == 0x00 {
        1
    } else if value_type == 0x02 || value_type == 0x03 {
        2
    } else if value_type == 0x06 || value_type == 0x11 {
        8
    } else {
        4
    }
}

/// Checks that a value of `width` bytes behind the header at `offset` is no
/// wider than its type allows and lies within the bytes.
pub fn check_size(value_arg: u8, value_type: u8, offset: usize, value: &[u8]) -> (r: Result<
    (),
    DexError,
>)
    requires
        value_arg <= 7,
        offset < value@.len(),
    ensures
        match scalar_at(value@, offset as int, value_type, value_arg) {
            Ok(_) => r is Ok,
            Err(e) => r == Err::<(), DexError>(e),
        },
        value@.len() <= usize::MAX,
{
    let width = value_arg as usize + 1;
    let len = value.len();
    let max = width_limit(value_type);
    if width > max {
        return Err(DexError::BadEncodedValueSize { value_type, size: width, max });
    }
    if width > len - offset - 1 {
        let end = if width > usize::MAX - offset - 1 {
            usize::MAX
        } else {
            offset + 1 + width
        };
        return Err(DexError::InvalidEncodedValue { value_type, offset: end, size: len });
    }
    Ok(())
}

fn read_scalar(value: &[u8], offset: &mut usize, value_type: u8, value_arg: u8) -> (r: Result<
    EncodedValue,
    DexError,
>)
    requires
        value_arg <= 7,
        *old(offset) < value@.len(),
        value_type_of(value_type) is Some,
        value_type != 0x1c && value_type != 0x1d && value_type != 0x1e && value_type != 0x1f,
    ensures
        match scalar_at(value@, *old(offset) as int, value_type, value_arg) {
            Ok((m, next)) => r is Ok && model_of(r->Ok_0) == m && *final(offset) == next && *old(offset) < next <= value@.len(),
            Err(e) => r is Err && r->Err_0 == e,
        },
{
    check_size(value_arg, value_type, *offset, value)?;
    let n = value_arg as usize + 1;
    let at = *offset + 1;
    *offset = at + n;
    Ok(
        if value_type == 0x00 {
            EncodedValue::Byte(read_signed(value, at, n) as i8)
        } else if value_type == 0x02 {
            EncodedValue::Short(read_signed(value, at, n) as i16)
        } else if value_type == 0x03 {
            EncodedValue::Char(read_le(value, at, n) as u16)
        } else if value_type == 0x04 {
            EncodedValue::Int(read_signed(value, at, n) as i32)
        } else if value_type == 0x06 {
            EncodedValue::Long(read_signed(value, at, n))
        } else if value_type == 0x10 {
            EncodedValue::Float(read_high(value, at, n, 4) as u32)
        } else if value_type == 0x11 {
            EncodedValue::Double(read_high(value, at, n, 8))
        } else if value_type == 0x15 {
            EncodedValue::MethodType(read_le(value, at, n) as u32)
        } else if value_type == 0x16 {
            EncodedValue::MethodHandle(read_le(value, at, n) as u32)
        } else if value_type == 0x17 {
            EncodedValue::String(read_le(value, at, n) as u32)
        } else if value_type == 0x18 {
            EncodedValue::Type(read_le(value, at, n) as u32)
        } else if value_type == 0x19 {
            EncodedValue::Field(read_le(value, at, n) as u32)
        } else if value_type == 0x1a {
            EncodedValue::Method(read_le(value, at, n) as u32)
        } else {
            EncodedValue::Enum(read_le(value, at, n) as u32)
        },
    )
}

impl AnnotationItem {
    /// Decodes an annotation item: a visibility byte and an annotation.
    pub fn from_raw_parts(value: &[u8]) -> (r: Result<AnnotationItem, DexError>)
        ensures
            value@.len() == 0 ==> r is Err && r->Err_0 == DexError::EmptyEncodedValue,
            value@.len() > 0 ==> match annotation_at(value@, 1) {
                Ok((a, _)) => r is Ok && r->Ok_0.visibility == value@[0] && annotation_model(
                    r->Ok_0.annotation,
                ) == a,
                Err(e) => r is Err && r->Err_0 == e,
            },
    {
        if value.len() == 0 {
            return Err(DexError::EmptyEncodedValue);
        }
        let mut offset: usize = 1;
        let annotation = EncodedAnnotation::from_raw_parts(value, &mut offset)?;
        Ok(AnnotationItem { visibility: value[0], annotation })
    }
}

impl AnnotationElement {
    /// The value of the element.
    pub fn value(&self) -> (r: &EncodedValue)
        ensures
            *r == self.value,
    {
        &self.value
    }
}

impl EncodedAnnotation {
    /// The elements of the annotation.
    pub fn elements(&self) -> (r: &[AnnotationElement])
        ensures
            r@ == self.elements@,
    {
        self.elements.as_slice()
    }

    /// Decodes the annotation at the start of `value`.
    pub fn new(value: &[u8]) -> (r: Result<EncodedAnnotation, DexError>)
        ensures
            match annotation_at(value@, 0) {
                Ok((a, _)) => r is Ok && annotation_model(r->Ok_0) == a,
                Err(e) => r is Err && r->Err_0 == e,
            },
    {
        let mut offset: usize = 0;
        EncodedAnnotation::from_raw_parts(value, &mut offset)
    }

    fn from_raw_parts(value: &[u8], offset: &mut usize) -> (r: Result<EncodedAnnotation, DexError>)
        ensures
            match annotation_at(value@, *old(offset) as int) {
                Ok((a, next)) => r is Ok && annotation_model(r->Ok_0) == a && *final(offset)
                    == next && *old(offset) < next <= value@.len(),
                Err(e) => r is Err && r->Err_0 == e,
            },
        decreases value@.len() - *old(offset), 0nat,
    {
        let ghost pos = *offset as int;
        proof {
            lemma_leb_at(value@, pos);
            if leb_at(value@, pos) is Ok {
                lemma_leb_at(value@, leb_at(value@, pos)->Ok_0.1);
            }
        }
        let type_idx = decode_leb128_off(value, offset)?;
        let length = decode_leb128_off(value, offset)?;
        let ghost start = *offset as int;
        if length as u64 * 2 > (value.len() - *offset) as u64 {
            return Err(
                DexError::BadEncodedArrayLength {
                    value_type: 0x1d,
                    size: length as usize,
                    offset: *offset,
                    max: value.len(),
                },
            );
        }
        let mut elements: Vec<AnnotationElement> = Vec::new();
        assert(element_models(elements@) =~= Seq::<(u32, ValueModel)>::empty());
        let mut i: u32 = 0;
        while i < length
            invariant
                i <= length,
                pos == *old(offset),
                pos < start <= *offset <= value@.len(),
                leb_at(value@, pos) is Ok,
                leb_at(value@, pos)->Ok_0.0 == type_idx,
                leb_at(value@, leb_at(value@, pos)->Ok_0.1) == Ok::<(u32, int), DexError>(
                    (length, start),
                ),
                length * 2 <= value@.len() - start,
                elements_at(value@, start, length as nat, Seq::empty()) == elements_at(
                    value@,
                    *offset as int,
                    (length - i) as nat,
                    element_models(elements@),
                ),
            decreases length - i,
        {
            let ghost before = elements@;
            let element = AnnotationElement::from_raw_parts(value, offset)?;
            elements.push(element);
            i = i + 1;
            assert(element_models(elements@) =~= element_models(before).push(
                (element.name_idx, model_of(element.value)),
            ));
        }
        Ok(EncodedAnnotation { type_idx, elements })
    }
}

impl AnnotationElement {
    fn from_raw_parts(value: &[u8], offset: &mut usize) -> (r: Result<AnnotationElement, DexError>)
        requires
            *old(offset) <= value@.len(),
        ensures
            match leb_at(value@, *old(offset) as int) {
                Err(e) => r is Err && r->Err_0 == e,
                Ok((name_idx, q1)) => *old(offset) < q1 <= value@.len() && match value_at(value@, q1) {
                    Err(e) => r is Err && r->Err_0 == e,
                    Ok((m, next)) => r is Ok && r->Ok_0.name_idx == name_idx && model_of(
                        r->Ok_0.value,
                    ) == m && *final(offset) == next && q1 < next <= value@.len(),
                },
            },
        decreases value@.len() - *old(offset), 1nat,
    {
        proof {
            lemma_leb_at(value@, *offset as int);
        }
        let name_idx = decode_leb128_off(value, offset)?;
        let value = EncodedValue::from_raw_parts(value, offset)?;
        Ok(AnnotationElement { name_idx, value })
    }
}

impl EncodedValue {
    /// Decodes the encoded value at the start of `value`.
    pub fn new(value: &[u8]) -> (r: Result<EncodedValue, DexError>)
        ensures
            match value_at(value@, 0) {
                Ok((m, _)) => r is Ok && model_of(r->Ok_0) == m,
                Err(e) => r is Err && r->Err_0 == e,
            },
    {
        let mut offset: usize = 0;
        EncodedValue::from_raw_parts(value, &mut offset)
    }

    /// Decodes the encoded value at `*offset` and moves the cursor behind it.
    /// Where no byte is left, or the first byte names no kind of value, the
    /// cursor stays where it was.
    fn from_raw_parts(value: &[u8], offset: &mut usize) -> (r: Result<EncodedValue, DexError>)
        ensures
            match value_at(value@, *old(offset) as int) {
                Ok((m, next)) => r is Ok && model_of(r->Ok_0) == m && *final(offset) == next
                    && *old(offset) < next <= value@.len(),
                Err(e) => r is Err && r->Err_0 == e,
            },
            *old(offset) >= value@.len() || value_type_of(value@[*old(offset) as int] % 32)
                is None ==> *final(offset) == *old(offset),
        decreases value@.len() - *old(offset), 0nat,
    {
        if *offset >= value.len() {
            return Err(DexError::EmptyEncodedValue);
        }
        let header_byte = value[*offset];
        let value_type = header_byte % 32;
        let value_arg = header_byte / 32;
        if !EncodedValueType::is_valid(value_type) {
            return Err(DexError::BadEncodedValueType(value_type));
        }
        if value_type == 0x1c {
            *offset = *offset + 1;
            let items = EncodedValue::from_encoded_array(value, offset)?;
            proof {
                lemma_array_model(items);
            }
            Ok(EncodedValue::Array(items))
        } else if value_type == 0x1d {
            *offset = *offset + 1;
            let a = EncodedValue::from_encoded_annotation(value, offset)?;
            proof {
                lemma_annotation_model(a);
            }
            Ok(EncodedValue::Annotation(a))
        } else if value_type == 0x1e {
            *offset = *offset + 1;
            Ok(EncodedValue::Null)
        } else if value_type == 0x1f {
            *offset = *offset + 1;
            Ok(EncodedValue::Boolean(value_arg != 0))
        } else {
            read_scalar(value, offset, value_type, value_arg)
        }
    }

    fn from_encoded_array(value: &[u8], offset: &mut usize) -> (r: Result<
        Vec<EncodedValue>,
        DexError,
    >)
        requires
            *old(offset) <= value@.len(),
        ensures
            match array_at(value@, *old(offset) as int) {
                Ok((items, next)) => r is Ok && models_of(r->Ok_0@) == items && *final(offset)
                    == next && *old(offset) < next <= value@.len(),
                Err(e) => r is Err && r->Err_0 == e,
            },
        decreases value@.len() - *old(offset), 0nat,
    {
        let ghost pos = *offset as int;
        proof {
            lemma_leb_at(value@, pos);
        }
        let length = decode_leb128_off(value, offset)?;
        let ghost start = *offset as int;
        if length as u64 > (value.len() - *offset) as u64 {
            return Err(
                DexError::BadEncodedArrayLength {
                    value_type: 0x1c,
                    size: length as usize,
                    offset: *offset,
                    max: value.len(),
                },
            );
        }
        let mut values: Vec<EncodedValue> = Vec::new();
        assert(models_of(values@) =~= Seq::<ValueModel>::empty());
        let mut i: u32 = 0;
        while i < length
            invariant
                i <= length,
                pos == *old(offset),
                pos < start <= *offset <= value@.len(),
                leb_at(value@, pos) == Ok::<(u32, int), DexError>((length, start)),
                length <= value@.len() - start,
                values_at(value@, start, length as nat, Seq::empty()) == values_at(
                    value@,
                    *offset as int,
                    (length - i) as nat,
                    models_of(values@),
                ),
            decreases length - i,
        {
            let ghost before = values@;
            let item = EncodedValue::from_raw_parts(value, offset)?;
            values.push(item);
            i = i + 1;
            assert(models_of(values@) =~= models_of(before).push(model_of(item)));
        }
        Ok(values)
    }

    fn from_encoded_annotation(value: &[u8], offset: &mut usize) -> (r: Result<
        EncodedAnnotation,
        DexError,
    >)
        requires
            *old(offset) <= value@.len(),
        ensures
            match annotation_at(value@, *old(offset) as int) {
                Ok((a, next)) => r is Ok && annotation_model(r->Ok_0) == a && *final(offset)
                    == next && *old(offset) < next <= value@.len(),
                Err(e) => r is Err && r->Err_0 == e,
            },
        decreases value@.len() - *old(offset), 1nat,
    {
        EncodedAnnotation::from_raw_parts(value, offset)
    }
}

/// The annotation set at `off`: a count and that many offsets of
/// annotation items. Offset zero stands for the empty set.
pub open spec fn annotation_set_at(bytes: Seq<u8>, off: u32) -> Result<Seq<u32>, Miss> {
    if off >= bytes.len() {
        Err(Miss::Index { index: off, item_ty: "AnnotationSetItem" })
    } else if off == 0 {
        Ok(Seq::empty())
    } else if off + 4 > bytes.len() {
        Err(Miss::Layout { offset: off, item_ty: "u32", array_len: 0 })
    } else if off + 4 > u32::MAX || off + 4 >= bytes.len() {
        Err(Miss::Index { index: off, item_ty: "AnnotationSetItem" })
    } else {
        fitting_records::<u32>(bytes, (off + 4) as u32, le32(bytes, off as int) as nat)
    }
}

/// The `count` records of a table of the annotations directory at `at`. A
/// count of zero reads nothing; a table beyond 32 bits is reported at the
/// largest offset.
pub open spec fn directory_table<T: DexItem>(bytes: Seq<u8>, at: int, count: u32) -> Result<
    Seq<T>,
    Miss,
> {
    if count == 0 {
        Ok(Seq::empty())
    } else if at <= 0 || at > u32::MAX {
        Err(Miss::Layout { offset: u32::MAX, item_ty: T::label(), array_len: count as usize })
    } else {
        fitting_records::<T>(bytes, at as u32, count as nat)
    }
}

/// What the annotations directory of a class holds: the tables of the
/// annotations of fields, methods and parameters, and the annotation set of
/// the class itself.
pub struct Annotations {
    pub fields: Seq<FieldAnnotationsItem>,
    pub methods: Seq<MethodAnnotationsItem>,
    pub parameters: Seq<ParameterAnnotationsItem>,
    pub class: Seq<u32>,
}

/// The annotations of a class whose directory lies at `off`: the three
/// tables stand behind the sixteen bytes of the directory, one behind the
/// other. Offset zero stands for a class without annotations.
pub open spec fn annotations_at(bytes: Seq<u8>, off: u32) -> Result<Annotations, Miss> {
    let item = AnnotationsDirectoryItem::parse(bytes, off as int);
    let fields_at = off + 16;
    let methods_at = fields_at + item.fields_size * 8;
    let parameters_at = methods_at + item.methods_size * 8;
    if off == 0 {
        Ok(
            Annotations {
                fields: Seq::empty(),
                methods: Seq::empty(),
                parameters: Seq::empty(),
                class: Seq::empty(),
            },
        )
    } else if off + 16 > bytes.len() {
        Err(Miss::Layout { offset: off, item_ty: AnnotationsDirectoryItem::label(), array_len: 0 })
    } else {
        match directory_table::<FieldAnnotationsItem>(bytes, fields_at, item.fields_size) {
            Err(m) => Err(m),
            Ok(fields) => match directory_table::<MethodAnnotationsItem>(
                bytes,
                methods_at,
                item.methods_size,
            ) {
                Err(m) => Err(m),
                Ok(methods) => match directory_table::<ParameterAnnotationsItem>(
                    bytes,
                    parameters_at,
                    item.parameters_size,
                ) {
                    Err(m) => Err(m),
                    Ok(parameters) => match annotation_set_at(bytes, item.class_annotations_off) {
                        Err(m) => Err(m),
                        Ok(class) => Ok(Annotations { fields, methods, parameters, class }),
                    },
                },
            },
        }
    }
}

/// The annotations of one class: those of the class itself and the tables
/// of those of its fields, methods and parameters.
#[derive(Debug)]
pub struct ClassAnnotationsAccessor {
    class_def: ClassDef,
    field_annotations: Vec<FieldAnnotationsItem>,
    method_annotations: Vec<MethodAnnotationsItem>,
    parameter_annotations: Vec<ParameterAnnotationsItem>,
    class_annotations: Vec<u32>,
}

impl ClassAnnotationsAccessor {
    /// The class that the annotations belong to.
    pub closed spec fn class_def(&self) -> ClassDef {
        self.class_def
    }

    /// The entries of the fields that carry annotations.
    pub closed spec fn field_ann(&self) -> Seq<FieldAnnotationsItem> {
        self.field_annotations@
    }

    /// The entries of the methods that carry annotations.
    pub closed spec fn method_ann(&self) -> Seq<MethodAnnotationsItem> {
        self.method_annotations@
    }

    /// The entries of the methods whose parameters carry annotations.
    pub closed spec fn parameter_ann(&self) -> Seq<ParameterAnnotationsItem> {
        self.parameter_annotations@
    }

    /// The offsets of the annotation items of the class itself.
    pub closed spec fn class_ann(&self) -> Seq<u32> {
        self.class_annotations@
    }

    /// What the accessor holds.
    pub open spec fn view(&self) -> Annotations {
        Annotations {
            fields: self.field_ann(),
            methods: self.method_ann(),
            parameters: self.parameter_ann(),
            class: self.class_ann(),
        }
    }

    fn read_table<T: DexItem>(dex: &DexFile<'_>, at: u64, count: u32) -> (r: Result<
        Vec<T>,
        DexError,
    >)
        ensures
            match directory_table::<T>(dex.bytes(), at as int, count) {
                Ok(items) => r is Ok && r->Ok_0@ == items,
                Err(m) => r is Err && dex.reports(r->Err_0, m),
            },
    {
        if count == 0 {
            return Ok(Vec::new());
        }
        if at == 0 || at > 0xffff_ffff {
            return Err(dex.layout_error(0xffff_ffff, T::item_name(), count as usize));
        }
        dex.non_null_array_data_ptr::<T>(at as u32, count as usize)
    }

    /// Reads the annotations directory of a class. A class without one has
    /// no annotations.
    pub fn new(dex: &DexFile<'_>, class_def: ClassDef) -> (r: Result<Self, DexError>)
        ensures
            match annotations_at(dex.bytes(), class_def.annotations_off) {
                Ok(annotations) => r is Ok && r->Ok_0@ == annotations && r->Ok_0.class_def()
                    == class_def,
                Err(m) => r is Err && dex.reports(r->Err_0, m),
            },
    {
        let off = class_def.annotations_off;
        match dex.data_ptr::<AnnotationsDirectoryItem>(off)? {
            None => {
                let accessor = ClassAnnotationsAccessor::new_empty(class_def);
                proof {
                    assert(accessor.field_ann() =~= Seq::empty());
                    assert(accessor.method_ann() =~= Seq::empty());
                    assert(accessor.parameter_ann() =~= Seq::empty());
                    assert(accessor.class_ann() =~= Seq::empty());
                }
                Ok(accessor)
            },
            Some(item) => {
                let fields_at: u64 = off as u64 + 16;
                let field_annotations = ClassAnnotationsAccessor::read_table::<
                    FieldAnnotationsItem,
                >(dex, fields_at, item.fields_size)?;
                let methods_at: u64 = fields_at + item.fields_size as u64 * 8;
                let method_annotations = ClassAnnotationsAccessor::read_table::<
                    MethodAnnotationsItem,
                >(dex, methods_at, item.methods_size)?;
                let parameters_at: u64 = methods_at + item.methods_size as u64 * 8;
                let parameter_annotations = ClassAnnotationsAccessor::read_table::<
                    ParameterAnnotationsItem,
                >(dex, parameters_at, item.parameters_size)?;
                let class_annotations = dex.get_annotation_set(item.class_annotations_off)?;
                Ok(
                    Self {
                        class_def,
                        field_annotations,
                        method_annotations,
                        parameter_annotations,
                        class_annotations,
                    },
                )
            },
        }
    }

    /// The accessor of a class without annotations.
    pub fn new_empty(class_def: ClassDef) -> (r: Self)
        ensures
            r.field_ann().len() == 0,
            r.method_ann().len() == 0,
            r.parameter_ann().len() == 0,
            r.class_ann().len() == 0,
            r.class_def() == class_def,
    {
        Self {
            class_def,
            field_annotations: Vec::new(),
            method_annotations: Vec::new(),
            parameter_annotations: Vec::new(),
            class_annotations: Vec::new(),
        }
    }

    /// The class that the annotations belong to.
    #[inline]
    pub fn get_class_def(&self) -> (r: &ClassDef)
        ensures
            *r == self.class_def(),
    {
        &self.class_def
    }

    /// The entries of the fields that carry annotations.
    #[inline]
    pub fn get_field_ann(&self) -> (r: &[FieldAnnotationsItem])
        ensures
            r@ == self.field_ann(),
    {
        self.field_annotations.as_slice()
    }

    /// The entries of the methods that carry annotations.
    #[inline]
    pub fn get_method_ann(&self) -> (r: &[MethodAnnotationsItem])
        ensures
            r@ == self.method_ann(),
    {
        self.method_annotations.as_slice()
    }

    /// The entries of the methods whose parameters carry annotations.
    #[inline]
    pub fn get_parameter_ann(&self) -> (r: &[ParameterAnnotationsItem])
        ensures
            r@ == self.parameter_ann(),
    {
        self.parameter_annotations.as_slice()
    }

    /// The offsets of the annotation items of the class itself.
    #[inline]
    pub fn get_class_ann(&self) -> (r: &[u32])
        ensures
            r@ == self.class_ann(),
    {
        self.class_annotations.as_slice()
    }
}

impl<'a> DexFile<'a> {
    /// The annotations of a class.
    pub fn get_class_annotation_accessor(&self, class_def: ClassDef) -> (r: Result<
        ClassAnnotationsAccessor,
        DexError,
    >)
        ensures
            match annotations_at(self.bytes(), class_def.annotations_off) {
                Ok(annotations) => r is Ok && r->Ok_0@ == annotations && r->Ok_0.class_def()
                    == class_def,
                Err(m) => r is Err && self.reports(r->Err_0, m),
            },
    {
        ClassAnnotationsAccessor::new(self, class_def)
    }

    /// The encoded value at `off`.
    pub fn get_encoded_value(&self, off: u32) -> (r: Result<EncodedValue, DexError>)
        ensures
            off >= self.bytes().len() ==> r is Err && r->Err_0 == (DexError::DexIndexError {
                index: off,
                max: self.bytes().len() as usize,
                item_ty: "EncodedValue",
            }),
            off < self.bytes().len() ==> match value_at(tail(self.bytes(), off as int), 0) {
                Ok((m, _)) => r is Ok && model_of(r->Ok_0) == m,
                Err(e) => r is Err && r->Err_0 == e,
            },
    {
        let data = self.data();
        if off as usize >= data.len() {
            return Err(
                DexError::DexIndexError { index: off, max: data.len(), item_ty: "EncodedValue" },
            );
        }
        EncodedValue::new(slice_subrange(data, off as usize, data.len()))
    }

    /// The annotation item at `off`.
    pub fn get_annotation(&self, off: u32) -> (r: Result<AnnotationItem, DexError>)
        ensures
            off >= self.bytes().len() ==> r is Err && r->Err_0 == (DexError::DexIndexError {
                index: off,
                max: self.bytes().len() as usize,
                item_ty: "Annotation",
            }),
            off < self.bytes().len() ==> match annotation_at(tail(self.bytes(), off as int), 1) {
                Ok((a, _)) => r is Ok && r->Ok_0.visibility == self.bytes()[off as int]
                    && annotation_model(r->Ok_0.annotation) == a,
                Err(e) => r is Err && r->Err_0 == e,
            },
    {
        let data = self.data();
        if off as usize >= data.len() {
            return Err(
                DexError::DexIndexError { index: off, max: data.len(), item_ty: "Annotation" },
            );
        }
        AnnotationItem::from_raw_parts(slice_subrange(data, off as usize, data.len()))
    }

    /// The annotation set at `off`: the offsets of its annotation items.
    /// Offset zero stands for the empty set.
    pub fn get_annotation_set(&self, off: u32) -> (r: Result<Vec<u32>, DexError>)
        ensures
            match annotation_set_at(self.bytes(), off) {
                Ok(offsets) => r is Ok && r->Ok_0@ == offsets,
                Err(m) => r is Err && self.reports(r->Err_0, m),
            },
    {
        if off as usize >= self.file_size() {
            return Err(
                DexError::DexIndexError {
                    index: off,
                    max: self.file_size(),
                    item_ty: "AnnotationSetItem",
                },
            );
        }
        match self.data_ptr::<u32>(off)? {
            None => Ok(Vec::new()),
            Some(size) => {
                if off > 0xffff_ffff - 4 || (off + 4) as usize >= self.file_size() {
                    return Err(
                        DexError::DexIndexError {
                            index: off,
                            max: self.file_size(),
                            item_ty: "AnnotationSetItem",
                        },
                    );
                }
                self.non_null_array_data_ptr::<u32>(off + 4, size as usize)
            },
        }
    }

    /// The annotation set of a field.
    #[inline(always)]
    pub fn get_field_annotation_set(&self, anno_item: &FieldAnnotationsItem) -> (r: Result<
        Vec<u32>,
        DexError,
    >)
        ensures
            match annotation_set_at(self.bytes(), anno_item.annotations_off) {
                Ok(offsets) => r is Ok && r->Ok_0@ == offsets,
                Err(m) => r is Err && self.reports(r->Err_0, m),
            },
    {
        self.get_annotation_set(anno_item.annotations_off)
    }

    /// The annotation set of a method.
    #[inline(always)]
    pub fn get_method_annotation_set(&self, anno_item: &MethodAnnotationsItem) -> (r: Result<
        Vec<u32>,
        DexError,
    >)
        ensures
            match annotation_set_at(self.bytes(), anno_item.annotations_off) {
                Ok(offsets) => r is Ok && r->Ok_0@ == offsets,
                Err(m) => r is Err && self.reports(r->Err_0, m),
            },
    {
        self.get_annotation_set(anno_item.annotations_off)
    }

    /// The annotation set that a parameter annotations item points at.
    #[inline(always)]
    pub fn get_parameter_annotation_set(&self, anno_item: &ParameterAnnotationsItem) -> (r: Result<
        Vec<u32>,
        DexError,
    >)
        ensures
            match annotation_set_at(self.bytes(), anno_item.annotations_off) {
                Ok(offsets) => r is Ok && r->Ok_0@ == offsets,
                Err(m) => r is Err && self.reports(r->Err_0, m),
            },
    {
        self.get_annotation_set(anno_item.annotations_off)
    }
}

} // verus!
