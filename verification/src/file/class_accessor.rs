//! The members of a class: four lists of delta-encoded fields and methods.

use vstd::prelude::*;

use crate::error::DexError;
use crate::file::instruction::clamp_usize;
use crate::file::modifiers::{InvokeType, ACC_CONSTRUCTOR, ACC_INTERFACE, ACC_STATIC};
use crate::file::structs::ClassDef;
use crate::file::DexFile;
use crate::leb128::{decode_leb128_off, lemma_decode_size, tail, uleb128_decode};

verus! {

/// The unsigned LEB128 value at `pos` and the position behind it.
pub open spec fn leb_at(bytes: Seq<u8>, pos: int) -> Result<(u32, int), DexError> {
    match uleb128_decode(tail(bytes, pos)) {
        Ok((v, n)) => Ok((v, pos + n)),
        Err(e) => Err(DexError::VarIntError(e)),
    }
}

/// A successful read at a position within the bytes moves forward and stays
/// within the bytes.
pub proof fn lemma_leb_at(bytes: Seq<u8>, pos: int)
    requires
        0 <= pos,
    ensures
        leb_at(bytes, pos) is Ok ==> pos < leb_at(bytes, pos)->Ok_0.1 <= bytes.len(),
{
    lemma_decode_size(tail(bytes, pos));
}

/// A member of a class as the class data encodes it: each one is read
/// relative to the one before it in its section.
pub trait ClassItemBase: Sized + Copy {
    /// The member that follows `self`, read at `pos`, and the position
    /// behind it.
    spec fn parse_next(self, bytes: Seq<u8>, pos: int) -> Result<(Self, int), DexError>;

    /// The value from which the second section of a list is read: the
    /// running index back at zero, the section flag flipped.
    spec fn section_start(self) -> Self;

    /// The value from which the first section of a list is read.
    spec fn first() -> Self;

    /// The index that the member holds.
    spec fn running_index(self) -> u32;

    /// Reads the member that follows `self` at `*pos` into `self` and moves
    /// `pos` behind it. On an error nothing changes.
    fn read(&mut self, data: &[u8], pos: &mut usize) -> (r: Result<(), DexError>)
        ensures
            match old(self).parse_next(data@, *old(pos) as int) {
                Ok((item, next)) => r is Ok && *final(self) == item && *final(pos) == next,
                Err(e) => r == Err::<(), DexError>(e) && *final(self) == *old(self) && *final(pos)
                    == *old(pos),
            },
    ;

    /// Moves on to the second section of the list.
    fn next_section(&mut self)
        ensures
            *final(self) == old(self).section_start(),
    ;

    /// The value from which the first section of a list is read.
    fn start() -> (r: Self)
        ensures
            r == Self::first(),
    ;

    /// Within a section the running index never falls, every read moves
    /// forward within the bytes, and both sections start at index zero.
    proof fn lemma_step(self, bytes: Seq<u8>, pos: int)
        requires
            0 <= pos,
        ensures
            self.parse_next(bytes, pos) is Ok ==> self.parse_next(bytes, pos)->Ok_0.0.running_index()
                >= self.running_index() && pos < self.parse_next(bytes, pos)->Ok_0.1
                <= bytes.len(),
            Self::first().running_index() == 0,
            self.section_start().running_index() == 0,
    ;
}

/// An encoded method.
#[derive(Debug, Clone, Copy, PartialEq, Eq, Structural)]
pub struct Method {
    /// Index into the method-ids table.
    pub index: u32,
    pub access_flags: u32,
    /// Offset of the code item, or zero.
    pub code_offset: u32,
    /// Whether the method stands in the list of direct methods.
    pub is_static_or_direct: bool,
}

impl Method {
    /// The invoke kind of a direct method.
    #[inline]
    pub fn get_direct_invoke_type(&self) -> (r: InvokeType)
        ensures
            r == if self.access_flags & ACC_STATIC != 0 {
                InvokeType::Static
            } else {
                InvokeType::Direct
            },
    {
        if self.access_flags & ACC_STATIC != 0 {
            InvokeType::Static
        } else {
            InvokeType::Direct
        }
    }

    /// The invoke kind of a virtual method of a class with the given flags.
    #[inline(always)]
    pub fn get_virtual_invoke_type(&self, class_access_flags: u32) -> (r: InvokeType)
        ensures
            r == if class_access_flags & ACC_INTERFACE != 0 {
                InvokeType::Interface
            } else if self.access_flags & ACC_CONSTRUCTOR != 0 {
                InvokeType::Super
            } else {
                InvokeType::Virtual
            },
    {
        if class_access_flags & ACC_INTERFACE != 0 {
            InvokeType::Interface
        } else if self.access_flags & ACC_CONSTRUCTOR != 0 {
            InvokeType::Super
        } else {
            InvokeType::Virtual
        }
    }
}

impl ClassItemBase for Method {
    open spec fn parse_next(self, bytes: Seq<u8>, pos: int) -> Result<(Method, int), DexError> {
        match leb_at(bytes, pos) {
            Err(e) => Err(e),
            Ok((diff, q1)) => if self.index + diff > u32::MAX {
                Err(
                    DexError::BadEncodedIndex {
                        index: self.index,
                        next_index: diff,
                        item_ty: "Method",
                    },
                )
            } else {
                match leb_at(bytes, q1) {
                    Err(e) => Err(e),
                    Ok((access_flags, q2)) => match leb_at(bytes, q2) {
                        Err(e) => Err(e),
                        Ok((code_offset, q3)) => Ok(
                            (
                                Method {
                                    index: (self.index + diff) as u32,
                                    access_flags,
                                    code_offset,
                                    is_static_or_direct: self.is_static_or_direct,
                                },
                                q3,
                            ),
                        ),
                    },
                }
            },
        }
    }

    open spec fn section_start(self) -> Method {
        Method { index: 0, is_static_or_direct: false, ..self }
    }

    open spec fn first() -> Method {
        Method { index: 0, access_flags: 0, code_offset: 0, is_static_or_direct: true }
    }

    open spec fn running_index(self) -> u32 {
        self.index
    }

    fn read(&mut self, data: &[u8], pos: &mut usize) -> (r: Result<(), DexError>) {
        let mut cursor = *pos;
        let value = decode_leb128_off(data, &mut cursor)?;
        if value > u32::MAX - self.index {
            return Err(
                DexError::BadEncodedIndex { index: self.index, next_index: value, item_ty: "Method" },
            );
        }
        let access_flags = decode_leb128_off(data, &mut cursor)?;
        let code_offset = decode_leb128_off(data, &mut cursor)?;
        self.index = self.index + value;
        self.access_flags = access_flags;
        self.code_offset = code_offset;
        *pos = cursor;
        Ok(())
    }

    fn next_section(&mut self) {
        self.index = 0;
        self.is_static_or_direct = false;
    }

    fn start() -> (r: Method) {
        Method { index: 0, access_flags: 0, code_offset: 0, is_static_or_direct: true }
    }

    proof fn lemma_step(self, bytes: Seq<u8>, pos: int) {
        lemma_leb_at(bytes, pos);
        if leb_at(bytes, pos) is Ok {
            let q1 = leb_at(bytes, pos)->Ok_0.1;
            lemma_leb_at(bytes, q1);
            if leb_at(bytes, q1) is Ok {
                lemma_leb_at(bytes, leb_at(bytes, q1)->Ok_0.1);
            }
        }
    }
}

impl Default for Method {
    fn default() -> (r: Method)
        ensures
            r == Method::first(),
    {
        Method::start()
    }
}

/// An encoded field.
#[derive(Debug, Clone, Copy, PartialEq, Eq, Structural)]
pub struct Field {
    /// Index into the field-ids table.
    pub index: u32,
    pub access_flags: u32,
    /// Whether the field stands in the list of static fields.
    pub is_static: bool,
}

impl Field {
    /// Whether the field stands in the list of static fields.
    #[inline(always)]
    pub fn is_static(&self) -> (r: bool)
        ensures
            r == self.is_static,
    {
        self.is_static
    }
}

impl ClassItemBase for Field {
    open spec fn parse_next(self, bytes: Seq<u8>, pos: int) -> Result<(Field, int), DexError> {
        match leb_at(bytes, pos) {
            Err(e) => Err(e),
            Ok((diff, q1)) => if self.index + diff > u32::MAX {
                Err(
                    DexError::BadEncodedIndex {
                        index: self.index,
                        next_index: diff,
                        item_ty: "Field",
                    },
                )
            } else {
                match leb_at(bytes, q1) {
                    Err(e) => Err(e),
                    Ok((access_flags, q2)) => Ok(
                        (
                            Field {
                                index: (self.index + diff) as u32,
                                access_flags,
                                is_static: self.is_static,
                            },
                            q2,
                        ),
                    ),
                }
            },
        }
    }

    open spec fn section_start(self) -> Field {
        Field { index: 0, is_static: false, ..self }
    }

    open spec fn first() -> Field {
        Field { index: 0, access_flags: 0, is_static: true }
    }

    open spec fn running_index(self) -> u32 {
        self.index
    }

    fn read(&mut self, data: &[u8], pos: &mut usize) -> (r: Result<(), DexError>) {
        let mut cursor = *pos;
        let value = decode_leb128_off(data, &mut cursor)?;
        if value > u32::MAX - self.index {
            return Err(
                DexError::BadEncodedIndex { index: self.index, next_index: value, item_ty: "Field" },
            );
        }
        let access_flags = decode_leb128_off(data, &mut cursor)?;
        self.index = self.index + value;
        self.access_flags = access_flags;
        *pos = cursor;
        Ok(())
    }

    fn next_section(&mut self) {
        self.index = 0;
        self.is_static = false;
    }

    fn start() -> (r: Field) {
        Field { index: 0, access_flags: 0, is_static: true }
    }

    proof fn lemma_step(self, bytes: Seq<u8>, pos: int) {
        lemma_leb_at(bytes, pos);
        if leb_at(bytes, pos) is Ok {
            lemma_leb_at(bytes, leb_at(bytes, pos)->Ok_0.1);
        }
    }
}

impl Default for Field {
    fn default() -> (r: Field)
        ensures
            r == Field::first(),
    {
        Field::start()
    }
}

/// The next `count` members of a section, read one after the other from
/// `pos` on, behind the members `acc`: all the members, the last one, and
/// the position behind it; or the first error.
pub open spec fn read_members<T: ClassItemBase>(
    bytes: Seq<u8>,
    pos: int,
    count: nat,
    cur: T,
    acc: Seq<T>,
) -> Result<(Seq<T>, T, int), DexError>
    decreases count,
{
    if count == 0 {
        Ok((acc, cur, pos))
    } else {
        match cur.parse_next(bytes, pos) {
            Ok((item, next)) => read_members(bytes, next, (count - 1) as nat, item, acc.push(item)),
            Err(e) => Err(e),
        }
    }
}

/// The four counts at the start of a class data item and the position of
/// the first member.
pub open spec fn class_counts(bytes: Seq<u8>) -> Result<(u32, u32, u32, u32, int), DexError> {
    match leb_at(bytes, 0) {
        Err(e) => Err(e),
        Ok((a, q1)) => match leb_at(bytes, q1) {
            Err(e) => Err(e),
            Ok((b, q2)) => match leb_at(bytes, q2) {
                Err(e) => Err(e),
                Ok((c, q3)) => match leb_at(bytes, q3) {
                    Err(e) => Err(e),
                    Ok((d, q4)) => Ok((a, b, c, d, q4)),
                },
            },
        }
    }
}

/// The fields of a class, static ones first, with the position behind them.
pub open spec fn fields_of(bytes: Seq<u8>) -> Result<(Seq<Field>, int), DexError> {
    match class_counts(bytes) {
        Err(e) => Err(e),
        Ok((statics, instances, _, _, start)) => match read_members(
            bytes,
            start,
            statics as nat,
            Field::first(),
            Seq::empty(),
        ) {
            Err(e) => Err(e),
            Ok((first, last, pos)) => match read_members(
                bytes,
                pos,
                instances as nat,
                last.section_start(),
                first,
            ) {
                Err(e) => Err(e),
                Ok((all, _, end)) => Ok((all, end)),
            },
        },
    }
}

/// The methods of a class, direct ones first.
pub open spec fn methods_of(bytes: Seq<u8>) -> Result<Seq<Method>, DexError> {
    match class_counts(bytes) {
        Err(e) => Err(e),
        Ok((_, _, directs, virtuals, _)) => match fields_of(bytes) {
            Err(e) => Err(e),
            Ok((_, start)) => match read_members(
                bytes,
                start,
                directs as nat,
                Method::first(),
                Seq::empty(),
            ) {
                Err(e) => Err(e),
                Ok((first, last, pos)) => match read_members(
                    bytes,
                    pos,
                    virtuals as nat,
                    last.section_start(),
                    first,
                ) {
                    Err(e) => Err(e),
                    Ok((all, _, _)) => Ok(all),
                },
            },
        },
    }
}

/// Whether the indices of `items` never fall from `from` on up to `to`.
pub open spec fn ascending<T: ClassItemBase>(items: Seq<T>, from: int, to: int) -> bool {
    forall|i: int, j: int|
        from <= i <= j < to ==> items[i].running_index() <= items[j].running_index()
}

/// The running index within a section: read from a value whose index
/// is no larger than any index to come, the members that a section adds
/// have indices that never fall, and none lies below the index it started
/// from.
pub proof fn lemma_section_ascends<T: ClassItemBase>(
    bytes: Seq<u8>,
    pos: int,
    count: nat,
    cur: T,
    acc: Seq<T>,
    from: int,
)
    requires
        0 <= pos,
        0 <= from <= acc.len(),
        ascending(acc, from, acc.len() as int),
        forall|i: int| from <= i < acc.len() ==> acc[i].running_index() <= cur.running_index(),
        read_members(bytes, pos, count, cur, acc) is Ok,
    ensures
        ({
            let all = read_members(bytes, pos, count, cur, acc)->Ok_0.0;
            &&& all.len() == acc.len() + count
            &&& ascending(all, from, all.len() as int)
            &&& forall|i: int| 0 <= i < acc.len() ==> all[i] == acc[i]
            &&& forall|i: int|
                acc.len() <= i < all.len() ==> cur.running_index() <= all[i].running_index()
        }),
    decreases count,
{
    if count > 0 {
        cur.lemma_step(bytes, pos);
        let item = cur.parse_next(bytes, pos)->Ok_0.0;
        let next = cur.parse_next(bytes, pos)->Ok_0.1;
        let grown = acc.push(item);
        assert(ascending(grown, from, grown.len() as int));
        lemma_section_ascends(bytes, next, (count - 1) as nat, item, grown, from);
        let all = read_members(bytes, pos, count, cur, acc)->Ok_0.0;
        assert(forall|i: int| 0 <= i < acc.len() ==> all[i] == grown[i]);
        assert(all[acc.len() as int] == grown[acc.len() as int]);
    }
}

/// The running index over the fields of a class: the indices of the
/// static fields never fall, and neither do those of the instance fields,
/// which start again from zero.
pub proof fn lemma_fields_ascend(bytes: Seq<u8>)
    requires
        fields_of(bytes) is Ok,
    ensures
        ({
            let statics = class_counts(bytes)->Ok_0.0;
            let instances = class_counts(bytes)->Ok_0.1;
            let all = fields_of(bytes)->Ok_0.0;
            &&& all.len() == statics + instances
            &&& ascending(all, 0, statics as int)
            &&& ascending(all, statics as int, all.len() as int)
        }),
{
    let counts = class_counts(bytes)->Ok_0;
    let start = counts.4;
    lemma_leb_at(bytes, 0);
    let q1 = leb_at(bytes, 0)->Ok_0.1;
    lemma_leb_at(bytes, q1);
    let q2 = leb_at(bytes, q1)->Ok_0.1;
    lemma_leb_at(bytes, q2);
    let q3 = leb_at(bytes, q2)->Ok_0.1;
    lemma_leb_at(bytes, q3);
    let first = read_members(bytes, start, counts.0 as nat, Field::first(), Seq::empty())->Ok_0;
    lemma_section_ascends(bytes, start, counts.0 as nat, Field::first(), Seq::empty(), 0);
    lemma_section_end(bytes, start, counts.0 as nat, Field::first(), Seq::empty());
    first.1.lemma_step(bytes, first.2);
    lemma_section_ascends(
        bytes,
        first.2,
        counts.1 as nat,
        first.1.section_start(),
        first.0,
        first.0.len() as int,
    );
    let all = fields_of(bytes)->Ok_0.0;
    assert(forall|i: int| 0 <= i < first.0.len() ==> all[i] == first.0[i]);
}

/// The running index over the methods of a class: the indices of the
/// direct methods never fall, and neither do those of the virtual methods,
/// which start again from zero.
pub proof fn lemma_methods_ascend(bytes: Seq<u8>)
    requires
        methods_of(bytes) is Ok,
    ensures
        ({
            let directs = class_counts(bytes)->Ok_0.2;
            let virtuals = class_counts(bytes)->Ok_0.3;
            let all = methods_of(bytes)->Ok_0;
            &&& all.len() == directs + virtuals
            &&& ascending(all, 0, directs as int)
            &&& ascending(all, directs as int, all.len() as int)
        }),
{
    let counts = class_counts(bytes)->Ok_0;
    let entry = counts.4;
    lemma_leb_at(bytes, 0);
    let q1 = leb_at(bytes, 0)->Ok_0.1;
    lemma_leb_at(bytes, q1);
    let q2 = leb_at(bytes, q1)->Ok_0.1;
    lemma_leb_at(bytes, q2);
    let q3 = leb_at(bytes, q2)->Ok_0.1;
    lemma_leb_at(bytes, q3);
    let statics = read_members(bytes, entry, counts.0 as nat, Field::first(), Seq::empty())->Ok_0;
    lemma_section_end(bytes, entry, counts.0 as nat, Field::first(), Seq::empty());
    lemma_section_end(bytes, statics.2, counts.1 as nat, statics.1.section_start(), statics.0);
    let start = fields_of(bytes)->Ok_0.1;
    let first = read_members(bytes, start, counts.2 as nat, Method::first(), Seq::empty())->Ok_0;
    lemma_section_ascends(bytes, start, counts.2 as nat, Method::first(), Seq::empty(), 0);
    lemma_section_end(bytes, start, counts.2 as nat, Method::first(), Seq::empty());
    first.1.lemma_step(bytes, first.2);
    lemma_section_ascends(
        bytes,
        first.2,
        counts.3 as nat,
        first.1.section_start(),
        first.0,
        first.0.len() as int,
    );
    let all = methods_of(bytes)->Ok_0;
    assert(forall|i: int| 0 <= i < first.0.len() ==> all[i] == first.0[i]);
}

/// A section that is read from a position within the bytes ends at one.
pub proof fn lemma_section_end<T: ClassItemBase>(
    bytes: Seq<u8>,
    pos: int,
    count: nat,
    cur: T,
    acc: Seq<T>,
)
    requires
        0 <= pos,
        read_members(bytes, pos, count, cur, acc) is Ok,
    ensures
        pos <= read_members(bytes, pos, count, cur, acc)->Ok_0.2,
    decreases count,
{
    if count > 0 {
        cur.lemma_step(bytes, pos);
        let item = cur.parse_next(bytes, pos)->Ok_0.0;
        let next = cur.parse_next(bytes, pos)->Ok_0.1;
        lemma_section_end(bytes, next, (count - 1) as nat, item, acc.push(item));
    }
}

/// Accessor for the class data item of one class.
pub struct ClassAccessor<'a> {
    ptr_pos: usize,
    class_data: &'a [u8],
    pub(crate) num_static_fields: u32,
    pub(crate) num_instance_fields: u32,
    pub(crate) num_direct_methods: u32,
    pub(crate) num_virtual_methods: u32,
    static_fields_off: u32,
}

impl<'a> DexFile<'a> {
    /// The accessor for the members of a class; nothing for a class without
    /// class data.
    pub fn get_class_accessor(&self, class_def: &ClassDef) -> (r: Result<
        Option<ClassAccessor<'a>>,
        DexError,
    >)
        ensures
            class_def.class_data_off == 0 ==> r is Ok && r->Ok_0 is None,
            class_def.class_data_off != 0 && class_def.class_data_off >= self.bytes().len() ==> r
                is Err && r->Err_0 == (DexError::BadOffsetTooLarge {
                offset: class_def.class_data_off,
                size: self.bytes().len() as usize,
                section: "class_data_off",
            }),
            class_def.class_data_off != 0 && class_def.class_data_off < self.bytes().len()
                ==> match class_counts(tail(self.bytes(), class_def.class_data_off as int)) {
                Ok(_) => r is Ok && r->Ok_0 is Some && r->Ok_0->Some_0.inv()
                    && r->Ok_0->Some_0.bytes() == tail(self.bytes(), class_def.class_data_off as int),
                Err(e) => r is Err && r->Err_0 == e,
            },
    {
        let off = class_def.class_data_off;
        if off == 0 {
            return Ok(None);
        }
        let data = self.data();
        if off as usize >= data.len() {
            return Err(
                DexError::BadOffsetTooLarge { offset: off, size: data.len(), section: "class_data_off" },
            );
        }
        let class_data = vstd::slice::slice_subrange(data, off as usize, data.len());
        match ClassAccessor::from_raw(class_data) {
            Ok(accessor) => Ok(Some(accessor)),
            Err(e) => Err(e),
        }
    }
}

/// A visitor that accepts every method.
pub fn null_method_visitor(_method: &Method) -> (r: Result<(), DexError>)
    ensures
        r is Ok,
{
    Ok(())
}

/// A visitor that accepts every field.
pub fn null_field_visitor(_field: &Field) -> (r: Result<(), DexError>)
    ensures
        r is Ok,
{
    Ok(())
}

/// Whether the visitor can return `Ok` for `item`.
pub open spec fn accepts<T, F: Fn(&T) -> Result<(), DexError>>(visitor: F, item: T) -> bool {
    exists|ret: Result<(), DexError>| ret is Ok && #[trigger] visitor.ensures((&item,), ret)
}

/// What a visit of the `count` members from `pos` on comes to, for the
/// result `r` that it returned: either every member was read and every call
/// of the visitor returned `Ok`, or `r` is the first error, that of a read
/// or that of the visitor on a member read before.
pub open spec fn visited<T: ClassItemBase, F: Fn(&T) -> Result<(), DexError>>(
    bytes: Seq<u8>,
    pos: int,
    count: nat,
    cur: T,
    visitor: F,
    r: Result<(), DexError>,
) -> bool
    decreases count,
{
    if count == 0 {
        r is Ok
    } else {
        match cur.parse_next(bytes, pos) {
            Err(e) => r == Err::<(), DexError>(e),
            Ok((item, next)) => {
                ||| r is Err && visitor.ensures((&item,), r)
                ||| accepts(visitor, item) && visited(
                    bytes,
                    next,
                    (count - 1) as nat,
                    item,
                    visitor,
                    r,
                )
            },
        }
    }
}

/// A visit that returned `Ok` is one in which every member was read and
/// accepted, whatever the `Ok` value is written as.
pub proof fn lemma_visited_ok<T: ClassItemBase, F: Fn(&T) -> Result<(), DexError>>(
    bytes: Seq<u8>,
    pos: int,
    count: nat,
    cur: T,
    visitor: F,
    r: Result<(), DexError>,
)
    requires
        visited(bytes, pos, count, cur, visitor, r),
        r is Ok,
    ensures
        visited(bytes, pos, count, cur, visitor, Ok(())),
    decreases count,
{
    if count > 0 {
        match cur.parse_next(bytes, pos) {
            Ok((item, next)) => {
                lemma_visited_ok(bytes, next, (count - 1) as nat, item, visitor, r);
            },
            Err(_) => {},
        }
    }
}

/// What a section of `count` members from `pos` on comes to when it is read
/// behind the member `cur`: its last member and the position behind it.
pub open spec fn section_read<T: ClassItemBase>(bytes: Seq<u8>, pos: int, count: nat, cur: T) -> (
    T,
    int,
) {
    let read = read_members(bytes, pos, count, cur, Seq::empty())->Ok_0;
    (read.1, read.2)
}

/// What a walk over the four sections of a class comes to, for the result
/// `r` that it returned. The sections are visited one after the other, each
/// by its own visitor and in the order of its members. A section is
/// reached only when every member before it was read and accepted, and `r`
/// is the result of the section at which the walk ended: the first error,
/// of a read or of a visitor, or `Ok` behind the last virtual method.
pub open spec fn walked<
    F1: Fn(&Field) -> Result<(), DexError>,
    F2: Fn(&Field) -> Result<(), DexError>,
    F3: Fn(&Method) -> Result<(), DexError>,
    F4: Fn(&Method) -> Result<(), DexError>,
>(
    bytes: Seq<u8>,
    static_field_visitor: F1,
    instance_field_visitor: F2,
    direct_method_visitor: F3,
    virtual_method_visitor: F4,
    r: Result<(), DexError>,
) -> bool {
    let counts = class_counts(bytes)->Ok_0;
    let statics = section_read(bytes, counts.4, counts.0 as nat, Field::first());
    let instances = section_read(bytes, statics.1, counts.1 as nat, statics.0.section_start());
    let directs = section_read(bytes, instances.1, counts.2 as nat, Method::first());
    let first = |r: Result<(), DexError>|
        visited(bytes, counts.4, counts.0 as nat, Field::first(), static_field_visitor, r);
    let second = |r: Result<(), DexError>|
        visited(
            bytes,
            statics.1,
            counts.1 as nat,
            statics.0.section_start(),
            instance_field_visitor,
            r,
        );
    let third = |r: Result<(), DexError>|
        visited(bytes, instances.1, counts.2 as nat, Method::first(), direct_method_visitor, r);
    let fourth = |r: Result<(), DexError>|
        visited(
            bytes,
            directs.1,
            counts.3 as nat,
            directs.0.section_start(),
            virtual_method_visitor,
            r,
        );
    ||| r is Err && first(r)
    ||| first(Ok(())) && r is Err && second(r)
    ||| first(Ok(())) && second(Ok(())) && r is Err && third(r)
    ||| first(Ok(())) && second(Ok(())) && third(Ok(())) && fourth(r)
}

/// Whether `r` is what the visitor can return for some member.
pub open spec fn refused_by<T, F: Fn(&T) -> Result<(), DexError>>(
    visitor: F,
    r: Result<(), DexError>,
) -> bool {
    exists|t: T| #[trigger] visitor.ensures((&t,), r)
}

/// Whether the visitor returns `Ok` whatever it is given.
pub open spec fn never_fails<T, F: Fn(&T) -> Result<(), DexError>>(visitor: F) -> bool {
    forall|t: T, ret: Result<(), DexError>| #[trigger] visitor.ensures((&t,), ret) ==> ret is Ok
}

/// What reading all members of a class comes to: `Ok`, or the first error.
pub open spec fn decode_status(bytes: Seq<u8>) -> Result<(), DexError> {
    match methods_of(bytes) {
        Ok(_) => Ok(()),
        Err(e) => Err(e),
    }
}

/// Whether `r` is `Ok` where `want` is, and the error of `want` where it is
/// an error.
pub open spec fn matches_status(r: Result<(), DexError>, want: Result<(), DexError>) -> bool {
    match want {
        Ok(_) => r is Ok,
        Err(e) => r == Err::<(), DexError>(e),
    }
}

/// What a visit says of the members: where it returned `Ok`, every member
/// was read and accepted; where the visitor never fails, it returned what
/// the reading came to.
pub proof fn lemma_visited<T: ClassItemBase, F: Fn(&T) -> Result<(), DexError>>(
    bytes: Seq<u8>,
    pos: int,
    count: nat,
    cur: T,
    visitor: F,
)
    ensures
        forall|r: Result<(), DexError>| #[trigger]
            visited(bytes, pos, count, cur, visitor, r) && r is Ok ==> read_members(
                bytes,
                pos,
                count,
                cur,
                Seq::empty(),
            ) is Ok && forall|i: int|
                0 <= i < count ==> accepts(
                    visitor,
                    #[trigger] read_members(bytes, pos, count, cur, Seq::empty())->Ok_0.0[i],
                ),
        forall|r: Result<(), DexError>| #[trigger]
            visited(bytes, pos, count, cur, visitor, r) && never_fails(visitor) ==> (match read_members(
                bytes,
                pos,
                count,
                cur,
                Seq::empty(),
            ) {
                Ok(_) => r is Ok,
                Err(e) => r == Err::<(), DexError>(e),
            }),
        forall|r: Result<(), DexError>| #[trigger]
            visited(bytes, pos, count, cur, visitor, r) && r is Err ==> refused_by(visitor, r) || (
            read_members(bytes, pos, count, cur, Seq::empty()) is Err && r == Err::<(), DexError>(
                read_members(bytes, pos, count, cur, Seq::empty())->Err_0,
            )),
    decreases count,
{
    if count > 0 {
        match cur.parse_next(bytes, pos) {
            Ok((item, next)) => {
                lemma_visited(bytes, next, (count - 1) as nat, item, visitor);
                lemma_read_members_acc(bytes, next, (count - 1) as nat, item, seq![item]);
                assert(Seq::<T>::empty().push(item) =~= seq![item]);
                assert forall|r: Result<(), DexError>| #[trigger]
                    visited(bytes, pos, count, cur, visitor, r) && r is Ok implies read_members(
                    bytes,
                    pos,
                    count,
                    cur,
                    Seq::empty(),
                ) is Ok && forall|i: int|
                    0 <= i < count ==> accepts(
                        visitor,
                        #[trigger] read_members(bytes, pos, count, cur, Seq::empty())->Ok_0.0[i],
                    ) by {
                    assert(visited(bytes, next, (count - 1) as nat, item, visitor, r));
                    let rest = read_members(bytes, next, (count - 1) as nat, item, Seq::empty())->Ok_0.0;
                    let all = read_members(bytes, pos, count, cur, Seq::empty())->Ok_0.0;
                    assert(all == seq![item] + rest);
                    assert forall|i: int| 0 <= i < count implies accepts(
                        visitor,
                        #[trigger] all[i],
                    ) by {
                        if i > 0 {
                            assert(all[i] == rest[i - 1]);
                        }
                    }
                }
                assert forall|r: Result<(), DexError>| #[trigger]
                    visited(bytes, pos, count, cur, visitor, r) && never_fails(
                        visitor,
                    ) implies (match read_members(bytes, pos, count, cur, Seq::empty()) {
                    Ok(_) => r is Ok,
                    Err(e) => r == Err::<(), DexError>(e),
                }) by {
                    assert(visited(bytes, next, (count - 1) as nat, item, visitor, r));
                }
                assert forall|r: Result<(), DexError>| #[trigger]
                    visited(bytes, pos, count, cur, visitor, r) && r is Err implies refused_by(
                    visitor,
                    r,
                ) || (read_members(bytes, pos, count, cur, Seq::empty()) is Err && r == Err::<
                    (),
                    DexError,
                >(read_members(bytes, pos, count, cur, Seq::empty())->Err_0)) by {
                    if visitor.ensures((&item,), r) {
                        assert(refused_by(visitor, r));
                    } else {
                        assert(visited(bytes, next, (count - 1) as nat, item, visitor, r));
                    }
                }
            },
            Err(_) => {},
        }
    }
}

impl<'a> ClassAccessor<'a> {
    #[verifier::type_invariant]
    spec fn type_inv(&self) -> bool {
        self.inv()
    }

    /// What holds of every accessor: its counts and the place of its first
    /// member are those that the bytes spell.
    pub closed spec fn inv(&self) -> bool {
        class_counts(self.class_data@) == Ok::<(u32, u32, u32, u32, int), DexError>(
            (
                self.num_static_fields,
                self.num_instance_fields,
                self.num_direct_methods,
                self.num_virtual_methods,
                self.static_fields_off as int,
            ),
        )
    }

    /// The bytes of the class data item, up to the end of the file.
    pub closed spec fn bytes(&self) -> Seq<u8> {
        self.class_data@
    }

    /// Reads the four counts of a class data item.
    pub fn from_raw(class_data: &'a [u8]) -> (r: Result<ClassAccessor<'a>, DexError>)
        ensures
            match class_counts(class_data@) {
                Ok(_) => r is Ok && r->Ok_0.bytes() == class_data@ && r->Ok_0.inv(),
                Err(e) => r is Err && r->Err_0 == e,
            },
    {
        let mut ptr_pos: usize = 0;
        let num_static_fields = decode_leb128_off(class_data, &mut ptr_pos)?;
        let num_instance_fields = decode_leb128_off(class_data, &mut ptr_pos)?;
        let num_direct_methods = decode_leb128_off(class_data, &mut ptr_pos)?;
        let num_virtual_methods = decode_leb128_off(class_data, &mut ptr_pos)?;
        proof {
            lemma_leb_at(class_data@, 0);
            let q1 = leb_at(class_data@, 0)->Ok_0.1;
            lemma_decode_size(tail(class_data@, 0));
            lemma_decode_size(tail(class_data@, q1));
            let q2 = leb_at(class_data@, q1)->Ok_0.1;
            lemma_decode_size(tail(class_data@, q2));
            let q3 = leb_at(class_data@, q2)->Ok_0.1;
            lemma_decode_size(tail(class_data@, q3));
        }
        Ok(
            ClassAccessor {
                ptr_pos,
                class_data,
                num_static_fields,
                num_instance_fields,
                num_direct_methods,
                num_virtual_methods,
                static_fields_off: ptr_pos as u32,
            },
        )
    }

    /// The four counts: static fields, instance fields, direct methods,
    /// virtual methods.
    pub open spec fn counts(&self) -> (u32, u32, u32, u32) {
        let c = class_counts(self.bytes())->Ok_0;
        (c.0, c.1, c.2, c.3)
    }

    /// The number of static fields.
    pub fn num_static_fields(&self) -> (r: u32)
        ensures
            r == self.counts().0,
    {
        proof {
            use_type_invariant(self);
        }
        self.num_static_fields
    }

    /// The number of instance fields.
    pub fn num_instance_fields(&self) -> (r: u32)
        ensures
            r == self.counts().1,
    {
        proof {
            use_type_invariant(self);
        }
        self.num_instance_fields
    }

    /// The number of direct methods.
    pub fn num_direct_methods(&self) -> (r: u32)
        ensures
            r == self.counts().2,
    {
        proof {
            use_type_invariant(self);
        }
        self.num_direct_methods
    }

    /// The number of virtual methods.
    pub fn num_virtual_methods(&self) -> (r: u32)
        ensures
            r == self.counts().3,
    {
        proof {
            use_type_invariant(self);
        }
        self.num_virtual_methods
    }

    /// The number of fields, static and instance.
    #[inline(always)]
    pub fn num_fields(&self) -> (r: usize)
        ensures
            r == clamp_usize(self.counts().0 + self.counts().1),
    {
        proof {
            use_type_invariant(self);
        }
        let total: u64 = self.num_instance_fields as u64 + self.num_static_fields as u64;
        if total > usize::MAX as u64 {
            usize::MAX
        } else {
            total as usize
        }
    }

    /// The number of methods, direct and virtual.
    #[inline(always)]
    pub fn num_methods(&self) -> (r: usize)
        ensures
            r == clamp_usize(self.counts().2 + self.counts().3),
    {
        proof {
            use_type_invariant(self);
        }
        let total: u64 = self.num_direct_methods as u64 + self.num_virtual_methods as u64;
        if total > usize::MAX as u64 {
            usize::MAX
        } else {
            total as usize
        }
    }

    /// Reads `count` members from `*offset` on and hands each to the
    /// visitor. Stops at the first error, of a read or of the visitor.
    #[inline(always)]
    pub fn visit_members<T: ClassItemBase, F: Fn(&T) -> Result<(), DexError>>(
        &self,
        count: u32,
        offset: &mut usize,
        visitor: F,
        iter: &mut T,
    ) -> (r: Result<(), DexError>)
        requires
            forall|t: T| visitor.requires((&t,)),
        ensures
            visited(self.bytes(), *old(offset) as int, count as nat, *old(iter), visitor, r),
            r is Ok ==> read_members(
                self.bytes(),
                *old(offset) as int,
                count as nat,
                *old(iter),
                Seq::empty(),
            ) is Ok && read_members(
                self.bytes(),
                *old(offset) as int,
                count as nat,
                *old(iter),
                Seq::empty(),
            )->Ok_0.1 == *final(iter) && read_members(
                self.bytes(),
                *old(offset) as int,
                count as nat,
                *old(iter),
                Seq::empty(),
            )->Ok_0.2 == *final(offset),
    {
        let ghost start = *offset as int;
        let ghost first = *iter;
        let ghost mut seen: Seq<T> = Seq::empty();
        let mut done: u32 = 0;
        while done < count
            invariant
                done <= count,
                start == *old(offset),
                first == *old(iter),
                forall|t: T| visitor.requires((&t,)),
                forall|r: Result<(), DexError>|
                    visited(
                        self.bytes(),
                        *offset as int,
                        (count - done) as nat,
                        *iter,
                        visitor,
                        r,
                    ) ==> #[trigger] visited(
                        self.bytes(),
                        start,
                        count as nat,
                        first,
                        visitor,
                        r,
                    ),
                read_members(self.bytes(), start, count as nat, first, Seq::empty())
                    == read_members(
                    self.bytes(),
                    *offset as int,
                    (count - done) as nat,
                    *iter,
                    seen,
                ),
            decreases count - done,
        {
            let ghost before = *iter;
            let ghost before_pos = *offset as int;
            match iter.read(self.class_data, offset) {
                Ok(()) => {},
                Err(e) => {
                    assert(visited(
                        self.bytes(),
                        before_pos,
                        (count - done) as nat,
                        before,
                        visitor,
                        Err(e),
                    ));
                    return Err(e);
                },
            }
            let ghost item = *iter;
            let answer = visitor(&*iter);
            assert(visitor.ensures((&item,), answer));
            match answer {
                Ok(()) => {
                    assert(accepts(visitor, item));
                },
                Err(e) => {
                    assert(visited(
                        self.bytes(),
                        before_pos,
                        (count - done) as nat,
                        before,
                        visitor,
                        Err(e),
                    ));
                    return Err(e);
                },
            }
            proof {
                seen = seen.push(*iter);
                assert forall|r: Result<(), DexError>|
                    visited(
                        self.bytes(),
                        *offset as int,
                        (count - done - 1) as nat,
                        *iter,
                        visitor,
                        r,
                    ) implies #[trigger] visited(
                    self.bytes(),
                    start,
                    count as nat,
                    first,
                    visitor,
                    r,
                ) by {
                    assert(before.parse_next(self.bytes(), before_pos) == Ok::<(T, int), DexError>(
                        (item, *offset as int),
                    ));
                    assert(accepts(visitor, item));
                    assert(((count - done) as nat - 1) as nat == (count - done - 1) as nat);
                    assert(visited(
                        self.bytes(),
                        before_pos,
                        (count - done) as nat,
                        before,
                        visitor,
                        r,
                    ));
                }
            }
            done = done + 1;
        }
        assert(visited(self.bytes(), *offset as int, 0, *iter, visitor, Ok(())));
        Ok(())
    }

    fn collect_members<T: ClassItemBase>(
        &self,
        count: u32,
        offset: &mut usize,
        iter: &mut T,
        out: &mut Vec<T>,
    ) -> (r: Result<(), DexError>)
        ensures
            match read_members(
                self.bytes(),
                *old(offset) as int,
                count as nat,
                *old(iter),
                old(out)@,
            ) {
                Ok((items, last, end)) => r is Ok && final(out)@ == items && *final(iter) == last
                    && *final(offset) == end,
                Err(e) => r == Err::<(), DexError>(e),
            },
    {
        let ghost start = *offset as int;
        let ghost first = *iter;
        let ghost had = out@;
        let mut done: u32 = 0;
        while done < count
            invariant
                done <= count,
                start == *old(offset),
                first == *old(iter),
                had == old(out)@,
                read_members(self.bytes(), start, count as nat, first, had) == read_members(
                    self.bytes(),
                    *offset as int,
                    (count - done) as nat,
                    *iter,
                    out@,
                ),
            decreases count - done,
        {
            match iter.read(self.class_data, offset) {
                Ok(()) => {},
                Err(e) => {
                    return Err(e);
                },
            }
            out.push(*iter);
            done = done + 1;
        }
        Ok(())
    }

    /// Hands every static field to the first visitor and every instance
    /// field to the second, in the order of the class data.
    #[inline(always)]
    pub fn visit_fields<F1: Fn(&Field) -> Result<(), DexError>, F2: Fn(&Field) -> Result<(), DexError>>(
        &self,
        static_field_visitor: F1,
        instance_field_visitor: F2,
    ) -> (r: Result<(), DexError>)
        requires
            forall|t: Field| static_field_visitor.requires((&t,)),
            forall|t: Field| instance_field_visitor.requires((&t,)),
        ensures
            r is Ok ==> fields_of(self.bytes()) is Ok && methods_of(self.bytes()) is Ok,
            r is Ok ==> forall|i: int|
                0 <= i < fields_of(self.bytes())->Ok_0.0.len() ==> if i < self.counts().0 {
                    accepts(static_field_visitor, #[trigger] fields_of(self.bytes())->Ok_0.0[i])
                } else {
                    accepts(instance_field_visitor, fields_of(self.bytes())->Ok_0.0[i])
                },
            never_fails(static_field_visitor) && never_fails(instance_field_visitor)
                ==> matches_status(r, decode_status(self.bytes())),
            r is Err ==> (decode_status(self.bytes()) is Err && r == decode_status(self.bytes()))
                || refused_by(static_field_visitor, r) || refused_by(instance_field_visitor, r),
            walked(
                self.bytes(),
                static_field_visitor,
                instance_field_visitor,
                null_method_visitor,
                null_method_visitor,
                r,
            ),
    {
        let r = self.visit_fields_and_methods(
            static_field_visitor,
            instance_field_visitor,
            null_method_visitor,
            null_method_visitor,
        );
        proof {
            assert(never_fails(null_method_visitor)) by {
                assert forall|t: Method, ret: Result<(), DexError>|
                    null_method_visitor.ensures((&t,), ret) implies ret is Ok by {}
            }
        }
        r
    }

    /// Hands every direct method to the first visitor and every virtual
    /// method to the second, in the order of the class data.
    #[inline(always)]
    pub fn visit_methods<
        F1: Fn(&Method) -> Result<(), DexError>,
        F2: Fn(&Method) -> Result<(), DexError>,
    >(&self, direct_method_visitor: F1, virtual_method_visitor: F2) -> (r: Result<(), DexError>)
        requires
            forall|t: Method| direct_method_visitor.requires((&t,)),
            forall|t: Method| virtual_method_visitor.requires((&t,)),
        ensures
            r is Ok ==> fields_of(self.bytes()) is Ok && methods_of(self.bytes()) is Ok,
            r is Ok ==> forall|i: int|
                0 <= i < methods_of(self.bytes())->Ok_0.len() ==> if i < self.counts().2 {
                    accepts(direct_method_visitor, #[trigger] methods_of(self.bytes())->Ok_0[i])
                } else {
                    accepts(virtual_method_visitor, methods_of(self.bytes())->Ok_0[i])
                },
            never_fails(direct_method_visitor) && never_fails(virtual_method_visitor)
                ==> matches_status(r, decode_status(self.bytes())),
            r is Err ==> (decode_status(self.bytes()) is Err && r == decode_status(self.bytes()))
                || refused_by(direct_method_visitor, r) || refused_by(virtual_method_visitor, r),
            walked(
                self.bytes(),
                null_field_visitor,
                null_field_visitor,
                direct_method_visitor,
                virtual_method_visitor,
                r,
            ),
    {
        let r = self.visit_fields_and_methods(
            null_field_visitor,
            null_field_visitor,
            direct_method_visitor,
            virtual_method_visitor,
        );
        proof {
            assert(never_fails(null_field_visitor)) by {
                assert forall|t: Field, ret: Result<(), DexError>|
                    null_field_visitor.ensures((&t,), ret) implies ret is Ok by {}
            }
        }
        r
    }

    /// Walks the four sections of the class data in their order and hands
    /// every member to the visitor of its section. Stops at the first error,
    /// of a read or of a visitor.
    #[inline]
    pub fn visit_fields_and_methods<
        F1: Fn(&Field) -> Result<(), DexError>,
        F2: Fn(&Field) -> Result<(), DexError>,
        F3: Fn(&Method) -> Result<(), DexError>,
        F4: Fn(&Method) -> Result<(), DexError>,
    >(
        &self,
        static_field_visitor: F1,
        instance_field_visitor: F2,
        direct_method_visitor: F3,
        virtual_method_visitor: F4,
    ) -> (r: Result<(), DexError>)
        requires
            forall|t: Field| static_field_visitor.requires((&t,)),
            forall|t: Field| instance_field_visitor.requires((&t,)),
            forall|t: Method| direct_method_visitor.requires((&t,)),
            forall|t: Method| virtual_method_visitor.requires((&t,)),
        ensures
            r is Ok ==> fields_of(self.bytes()) is Ok && methods_of(self.bytes()) is Ok,
            r is Ok ==> forall|i: int|
                0 <= i < fields_of(self.bytes())->Ok_0.0.len() ==> if i < self.counts().0 {
                    accepts(static_field_visitor, #[trigger] fields_of(self.bytes())->Ok_0.0[i])
                } else {
                    accepts(instance_field_visitor, fields_of(self.bytes())->Ok_0.0[i])
                },
            r is Ok ==> forall|i: int|
                0 <= i < methods_of(self.bytes())->Ok_0.len() ==> if i < self.counts().2 {
                    accepts(direct_method_visitor, #[trigger] methods_of(self.bytes())->Ok_0[i])
                } else {
                    accepts(virtual_method_visitor, methods_of(self.bytes())->Ok_0[i])
                },
            never_fails(static_field_visitor) && never_fails(instance_field_visitor)
                && never_fails(direct_method_visitor) && never_fails(virtual_method_visitor)
                ==> matches_status(r, decode_status(self.bytes())),
            r is Err ==> (decode_status(self.bytes()) is Err && r == decode_status(self.bytes()))
                || refused_by(static_field_visitor, r) || refused_by(instance_field_visitor, r)
                || refused_by(direct_method_visitor, r) || refused_by(virtual_method_visitor, r),
            walked(
                self.bytes(),
                static_field_visitor,
                instance_field_visitor,
                direct_method_visitor,
                virtual_method_visitor,
                r,
            ),
    {
        proof {
            use_type_invariant(self);
        }
        let ghost bytes = self.bytes();
        let mut field = Field::start();
        let mut offset = self.static_fields_off as usize;
        let ghost q0 = offset as int;
        proof {
            lemma_visited(bytes, q0, self.num_static_fields as nat, field, static_field_visitor);
            lemma_read_members_acc(
                bytes,
                q0,
                self.num_static_fields as nat,
                field,
                Seq::empty(),
            );
        }
        let r1 = self.visit_members(
            self.num_static_fields,
            &mut offset,
            static_field_visitor,
            &mut field,
        );
        if r1.is_err() {
            return r1;
        }
        proof {
            lemma_visited_ok(
                bytes,
                q0,
                self.num_static_fields as nat,
                Field::first(),
                static_field_visitor,
                r1,
            );
        }
        // Switch to the instance fields.
        let ghost last_static = field;
        field.next_section();
        let ghost q1 = offset as int;
        let ghost statics = read_members(
            bytes,
            q0,
            self.num_static_fields as nat,
            Field::first(),
            Seq::empty(),
        )->Ok_0.0;
        proof {
            lemma_visited(bytes, q1, self.num_instance_fields as nat, field, instance_field_visitor);
            lemma_read_members_acc(bytes, q1, self.num_instance_fields as nat, field, statics);
        }
        let r2 = self.visit_members(
            self.num_instance_fields,
            &mut offset,
            instance_field_visitor,
            &mut field,
        );
        if r2.is_err() {
            return r2;
        }
        proof {
            lemma_visited_ok(
                bytes,
                q1,
                self.num_instance_fields as nat,
                last_static.section_start(),
                instance_field_visitor,
                r2,
            );
        }
        let mut method = Method::start();
        let ghost q2 = offset as int;
        proof {
            lemma_visited(bytes, q2, self.num_direct_methods as nat, method, direct_method_visitor);
            lemma_read_members_acc(
                bytes,
                q2,
                self.num_direct_methods as nat,
                method,
                Seq::empty(),
            );
        }
        let r3 = self.visit_members(
            self.num_direct_methods,
            &mut offset,
            direct_method_visitor,
            &mut method,
        );
        if r3.is_err() {
            return r3;
        }
        proof {
            lemma_visited_ok(
                bytes,
                q2,
                self.num_direct_methods as nat,
                Method::first(),
                direct_method_visitor,
                r3,
            );
        }
        method.next_section();
        let ghost q3 = offset as int;
        let ghost directs = read_members(
            bytes,
            q2,
            self.num_direct_methods as nat,
            Method::first(),
            Seq::empty(),
        )->Ok_0.0;
        proof {
            lemma_visited(bytes, q3, self.num_virtual_methods as nat, method, virtual_method_visitor);
            lemma_read_members_acc(bytes, q3, self.num_virtual_methods as nat, method, directs);
        }
        self.visit_members(
            self.num_virtual_methods,
            &mut offset,
            virtual_method_visitor,
            &mut method,
        )
    }

    /// An iterator over all fields, static ones first.
    #[inline(always)]
    pub fn get_fields(&self) -> (r: DataIterator<'a, Field>)
        ensures
            r.data() == self.bytes(),
            r.value() == Field::first(),
            r.pos() == 0,
            r.off() == class_counts(self.bytes())->Ok_0.4,
            r.partition() == self.counts().0,
            r.end() == clamp_usize(self.counts().0 + self.counts().1),
    {
        proof {
            use_type_invariant(self);
        }
        DataIterator::new(
            self.class_data,
            self.static_fields_off as usize,
            self.num_static_fields as usize,
            self.num_fields(),
        )
    }

    /// An iterator over the static fields.
    #[inline(always)]
    pub fn get_static_fieds(&self) -> (r: DataIterator<'a, Field>)
        ensures
            r.data() == self.bytes(),
            r.value() == Field::first(),
            r.pos() == 0,
            r.off() == class_counts(self.bytes())->Ok_0.4,
            r.partition() == self.counts().0,
            r.end() == self.counts().0,
    {
        proof {
            use_type_invariant(self);
        }
        DataIterator::new(
            self.class_data,
            self.static_fields_off as usize,
            self.num_static_fields as usize,
            self.num_static_fields as usize,
        )
    }

    fn read_fields(&self, statics: &mut Vec<Field>, instances: &mut Vec<Field>) -> (r: Result<
        usize,
        DexError,
    >)
        requires
            old(statics)@.len() == 0,
            old(instances)@.len() == 0,
        ensures
            match fields_of(self.bytes()) {
                Ok((all, end)) => r is Ok && r->Ok_0 == end && all
                    == final(statics)@ + final(instances)@ && final(statics)@.len()
                    == self.counts().0 && final(instances)@.len() == self.counts().1,
                Err(e) => r == Err::<usize, DexError>(e),
            },
    {
        proof {
            use_type_invariant(self);
        }
        let mut field = Field::start();
        let mut offset = self.static_fields_off as usize;
        proof {
            assert(statics@ =~= Seq::<Field>::empty());
            assert(instances@ =~= Seq::<Field>::empty());
            lemma_read_members_acc(
                self.bytes(),
                offset as int,
                self.num_static_fields as nat,
                field,
                Seq::empty(),
            );
        }
        self.collect_members(self.num_static_fields, &mut offset, &mut field, statics)?;
        field.next_section();
        proof {
            lemma_read_members_acc(
                self.bytes(),
                offset as int,
                self.num_instance_fields as nat,
                field,
                statics@,
            );
        }
        self.collect_members(self.num_instance_fields, &mut offset, &mut field, instances)?;
        Ok(offset)
    }

    fn read_methods(
        &self,
        start: usize,
        directs: &mut Vec<Method>,
        virtuals: &mut Vec<Method>,
    ) -> (r: Result<(), DexError>)
        requires
            old(directs)@.len() == 0,
            old(virtuals)@.len() == 0,
            fields_of(self.bytes()) is Ok,
            fields_of(self.bytes())->Ok_0.1 == start,
        ensures
            match methods_of(self.bytes()) {
                Ok(all) => r is Ok && all == final(directs)@ + final(virtuals)@
                    && final(directs)@.len() == self.counts().2
                    && final(virtuals)@.len() == self.counts().3,
                Err(e) => r == Err::<(), DexError>(e),
            },
    {
        proof {
            use_type_invariant(self);
        }
        let mut method = Method::start();
        let mut offset = start;
        proof {
            assert(directs@ =~= Seq::<Method>::empty());
            assert(virtuals@ =~= Seq::<Method>::empty());
            lemma_read_members_acc(
                self.bytes(),
                offset as int,
                self.num_direct_methods as nat,
                method,
                Seq::empty(),
            );
        }
        self.collect_members(self.num_direct_methods, &mut offset, &mut method, directs)?;
        method.next_section();
        proof {
            lemma_read_members_acc(
                self.bytes(),
                offset as int,
                self.num_virtual_methods as nat,
                method,
                directs@,
            );
        }
        self.collect_members(self.num_virtual_methods, &mut offset, &mut method, virtuals)?;
        Ok(())
    }

    /// The instance fields: all fields but the static ones that come first.
    #[inline(always)]
    pub fn get_instance_fields(&self) -> (r: Result<Vec<Field>, DexError>)
        ensures
            match fields_of(self.bytes()) {
                Ok((all, _)) => r is Ok && r->Ok_0@ == all.skip(self.counts().0 as int),
                Err(e) => r == Err::<Vec<Field>, DexError>(e),
            },
    {
        let mut statics: Vec<Field> = Vec::new();
        let mut instances: Vec<Field> = Vec::new();
        self.read_fields(&mut statics, &mut instances)?;
        assert((statics@ + instances@).skip(statics@.len() as int) =~= instances@);
        Ok(instances)
    }

    /// An iterator over all methods, direct ones first. The fields in front
    /// of them are read to find where the methods start.
    #[inline(always)]
    pub fn get_methods(&self) -> (r: Result<DataIterator<'a, Method>, DexError>)
        ensures
            match fields_of(self.bytes()) {
                Ok((_, end)) => r is Ok && r->Ok_0.data() == self.bytes() && r->Ok_0.value()
                    == Method::first() && r->Ok_0.pos() == 0 && r->Ok_0.off() == end
                    && r->Ok_0.partition() == self.counts().2 && r->Ok_0.end() == clamp_usize(
                    self.counts().2 + self.counts().3,
                ),
                Err(e) => r is Err && r->Err_0 == e,
            },
    {
        proof {
            use_type_invariant(self);
        }
        let mut statics: Vec<Field> = Vec::new();
        let mut instances: Vec<Field> = Vec::new();
        let offset = self.read_fields(&mut statics, &mut instances)?;
        Ok(
            DataIterator::new(
                self.class_data,
                offset,
                self.num_direct_methods as usize,
                self.num_methods(),
            ),
        )
    }

    /// The direct methods: the first of all methods.
    #[inline(always)]
    pub fn get_direct_methods(&self) -> (r: Result<Vec<Method>, DexError>)
        ensures
            match methods_of(self.bytes()) {
                Ok(all) => r is Ok && r->Ok_0@ == all.take(self.counts().2 as int),
                Err(e) => r == Err::<Vec<Method>, DexError>(e),
            },
    {
        let mut statics: Vec<Field> = Vec::new();
        let mut instances: Vec<Field> = Vec::new();
        let offset = self.read_fields(&mut statics, &mut instances)?;
        let mut directs: Vec<Method> = Vec::new();
        let mut virtuals: Vec<Method> = Vec::new();
        self.read_methods(offset, &mut directs, &mut virtuals)?;
        assert((directs@ + virtuals@).take(directs@.len() as int) =~= directs@);
        Ok(directs)
    }

    /// The virtual methods: all methods but the direct ones that come first.
    #[inline(always)]
    pub fn get_virtual_methods(&self) -> (r: Result<Vec<Method>, DexError>)
        ensures
            match methods_of(self.bytes()) {
                Ok(all) => r is Ok && r->Ok_0@ == all.skip(self.counts().2 as int),
                Err(e) => r == Err::<Vec<Method>, DexError>(e),
            },
    {
        let mut statics: Vec<Field> = Vec::new();
        let mut instances: Vec<Field> = Vec::new();
        let offset = self.read_fields(&mut statics, &mut instances)?;
        let mut directs: Vec<Method> = Vec::new();
        let mut virtuals: Vec<Method> = Vec::new();
        self.read_methods(offset, &mut directs, &mut virtuals)?;
        assert((directs@ + virtuals@).skip(directs@.len() as int) =~= virtuals@);
        Ok(virtuals)
    }
}

/// The members read do not depend on the members read before; these only
/// stand in front.
pub proof fn lemma_read_members_acc<T: ClassItemBase>(
    bytes: Seq<u8>,
    pos: int,
    count: nat,
    cur: T,
    acc: Seq<T>,
)
    ensures
        match read_members(bytes, pos, count, cur, Seq::empty()) {
            Ok((items, last, end)) => read_members(bytes, pos, count, cur, acc) == Ok::<
                (Seq<T>, T, int),
                DexError,
            >((acc + items, last, end)) && items.len() == count,
            Err(e) => read_members(bytes, pos, count, cur, acc) == Err::<
                (Seq<T>, T, int),
                DexError,
            >(e),
        },
    decreases count,
{
    if count > 0 {
        match cur.parse_next(bytes, pos) {
            Ok((item, next)) => {
                lemma_read_members_acc(bytes, next, (count - 1) as nat, item, acc.push(item));
                lemma_read_members_acc(bytes, next, (count - 1) as nat, item, seq![item]);
                match read_members(bytes, next, (count - 1) as nat, item, Seq::empty()) {
                    Ok((items, last, end)) => {
                        assert(acc.push(item) + items =~= acc + (seq![item] + items));
                        assert(Seq::<T>::empty().push(item) =~= seq![item]);
                    },
                    Err(_) => {
                        assert(Seq::<T>::empty().push(item) =~= seq![item]);
                    },
                }
            },
            Err(_) => {},
        }
    } else {
        assert(acc + Seq::<T>::empty() =~= acc);
    }
}

/// Steps through the members of one list of a class data item: a first
/// section, and behind it a second one that starts at `partition`.
pub struct DataIterator<'a, T: ClassItemBase> {
    class_data: &'a [u8],
    value: T,
    pos: usize,
    off: usize,
    partition_pos: usize,
    end_pos: usize,
}

impl<'a, T: ClassItemBase> DataIterator<'a, T> {
    /// The bytes that the members are read from.
    pub closed spec fn data(&self) -> Seq<u8> {
        self.class_data@
    }

    /// The member read last, or the value from which the first is read.
    pub closed spec fn value(&self) -> T {
        self.value
    }

    /// The number of members read so far.
    pub closed spec fn pos(&self) -> usize {
        self.pos
    }

    /// The position in the bytes of the member to read next.
    pub closed spec fn off(&self) -> usize {
        self.off
    }

    /// The number of members in the first section.
    pub closed spec fn partition(&self) -> usize {
        self.partition_pos
    }

    /// The number of members in both sections.
    pub closed spec fn end(&self) -> usize {
        self.end_pos
    }

    /// An iterator over `end_pos` members from `start_pos` on, the first
    /// `partition_pos` of them in the first section.
    pub fn new(class_data: &'a [u8], start_pos: usize, partition_pos: usize, end_pos: usize) -> (r:
        Self)
        ensures
            r.data() == class_data@,
            r.value() == T::first(),
            r.pos() == 0,
            r.off() == start_pos,
            r.partition() == partition_pos,
            r.end() == end_pos,
    {
        Self { class_data, value: T::start(), pos: 0, partition_pos, off: start_pos, end_pos }
    }

    /// Whether a member is left to read.
    #[verifier::when_used_as_spec(spec_is_valid)]
    pub fn is_valid(&self) -> (r: bool)
        ensures
            r == self.spec_is_valid(),
    {
        self.pos < self.end_pos
    }

    /// Whether a member is left to read.
    pub open spec fn spec_is_valid(&self) -> bool {
        self.pos() < self.end()
    }

    /// The position in the bytes of the member to read next.
    pub fn offset(&self) -> (r: usize)
        ensures
            r == self.off(),
    {
        self.off
    }

    /// The value from which the next member is read: at the boundary the
    /// start of the second section, else the member read last.
    pub open spec fn base(&self) -> T {
        if self.pos() == self.partition() {
            self.value().section_start()
        } else {
            self.value()
        }
    }

    /// Reads the next member. Behind the last member, and behind an error,
    /// there is nothing more; the error itself is handed out once.
    pub fn next(&mut self) -> (r: Option<Result<T, DexError>>)
        ensures
            final(self).data() == old(self).data(),
            final(self).partition() == old(self).partition(),
            final(self).end() == old(self).end(),
            !old(self).spec_is_valid() ==> r is None && final(self).pos() == old(self).pos()
                && final(self).off() == old(self).off()
                && final(self).value() == old(self).value(),
            old(self).spec_is_valid() ==> match old(self).base().parse_next(
                old(self).data(),
                old(self).off() as int,
            ) {
                Ok((item, next)) => r == Some(Ok::<T, DexError>(item)) && final(self).value()
                    == item && final(self).off() == next && final(self).pos() == old(self).pos()
                    + 1,
                Err(e) => r == Some(Err::<T, DexError>(e))
                    && final(self).pos() == old(self).end()
                    && final(self).off() == old(self).off()
                    && final(self).value() == old(self).base(),
            },
    {
        if self.pos < self.end_pos {
            if self.pos == self.partition_pos {
                self.value.next_section();
            }
            match self.value.read(self.class_data, &mut self.off) {
                Ok(()) => {},
                Err(e) => {
                    self.pos = self.end_pos;
                    return Some(Err(e));
                },
            }
            self.pos = self.pos + 1;
            return Some(Ok(self.value));
        }
        None
    }
}

} // verus!
