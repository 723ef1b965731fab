//! Readable names for the things in a file, and the text of instructions.

pub mod prettify;
pub mod text;

use vstd::prelude::*;
use vstd::string::*;

use crate::desc_names::{pretty, pretty_desc};
use crate::error::DexError;
use crate::file::dump::text::{
    debug_string, debug_text, dec, hex, plus_dec, push_dec, push_hex, push_plus,
    push_plus_unsigned, push_signed, signed_dec,
};
use crate::file::instruction::{Format, Instruction};
use crate::file::opcodes::{lemma_names_not_empty, Code};
use crate::file::vreg;
use crate::file::vreg::{
    operand_a, operand_args_range, operand_b, operand_c, operand_h, operand_var_args,
    operand_wide_b,
};
use crate::file::structs::{
    FieldId, MethodId, ProtoId, ProtoIndex, StringId, TypeId, TypeIndex, TypeItem,
};
use crate::file::{
    entry_at, field_ids_of, is_text, method_ids_of, proto_ids_of, shorty_lossy_at, string_ids_of,
    string_lossy_at, text_lossy_of, type_ids_of, type_list_of, reports, DexFile, DexLocation, Miss,
};

verus! {

/// The text that stands for a thing whose index is not valid.
pub open spec fn placeholder(kind: &'static str, n: nat) -> Seq<char> {
    "<<invalid-"@ + kind@ + "-idx-"@ + dec(n) + ">>"@
}

fn placeholder_for(kind: &'static str, n: u64) -> (r: String)
    ensures
        r@ == placeholder(kind, n as nat),
{
    let mut out = String::from_str("<<invalid-");
    out.append(kind);
    out.append("-idx-");
    push_dec(&mut out, n);
    out.append(">>");
    out
}

/// The readable name of a type, or the error of its descriptor.
pub open spec fn type_opt_text(bytes: Seq<u8>, type_id: TypeId) -> Result<Seq<char>, DexError> {
    match string_lossy_at(bytes, type_id.descriptor_idx) {
        Ok(descriptor) => Ok(pretty(descriptor)),
        Err(e) => Err(e),
    }
}

/// The readable name of the type at index `idx`, or the error of the index
/// or of the descriptor.
pub open spec fn type_opt_at(bytes: Seq<u8>, idx: u16) -> Result<Seq<char>, DexError> {
    match entry_at::<TypeId>(bytes, type_ids_of(bytes), idx as u32, "TypeId") {
        Ok(type_id) => type_opt_text(bytes, type_id),
        Err(e) => Err(e),
    }
}

/// The readable name of the type at index `idx`, or a placeholder.
pub open spec fn type_text_at(bytes: Seq<u8>, idx: u16) -> Seq<char> {
    match type_opt_at(bytes, idx) {
        Ok(text) => text,
        Err(_) => placeholder("type", idx as nat),
    }
}

/// The text of the string of a string id, or a placeholder.
pub open spec fn utf16_text(bytes: Seq<u8>, string_id: StringId) -> Seq<char> {
    match text_lossy_of(bytes, string_id.string_data_off) {
        Ok(text) => text,
        Err(_) => placeholder("string", string_id.string_data_off as nat),
    }
}

/// The text of the string at index `idx`, or a placeholder.
pub open spec fn utf16_text_at(bytes: Seq<u8>, idx: u32) -> Seq<char> {
    match entry_at::<StringId>(bytes, string_ids_of(bytes), idx, "StringId") {
        Ok(string_id) => utf16_text(bytes, string_id),
        Err(_) => placeholder("string", idx as nat),
    }
}

/// The readable name of a field: its type and a blank where the options
/// ask for it, then the class, a dot and the name.
pub open spec fn field_opt_text(bytes: Seq<u8>, field_id: FieldId, opts: prettify::Field) -> Result<
    Seq<char>,
    DexError,
> {
    let typed = if opts == prettify::Field::WithType {
        match type_opt_at(bytes, field_id.type_idx) {
            Ok(text) => Ok(Seq::<char>::empty() + text + " "@),
            Err(e) => Err(e),
        }
    } else {
        Ok(Seq::<char>::empty())
    };
    match typed {
        Err(e) => Err(e),
        Ok(front) => match type_opt_at(bytes, field_id.class_idx) {
            Err(e) => Err(e),
            Ok(class) => match string_lossy_at(bytes, field_id.name_idx) {
                Err(e) => Err(e),
                Ok(name) => Ok(front + class + "."@ + name),
            },
        },
    }
}

/// The readable name of the field at index `idx`.
pub open spec fn field_opt_at(bytes: Seq<u8>, idx: u32, opts: prettify::Field) -> Result<
    Seq<char>,
    DexError,
> {
    match entry_at::<FieldId>(bytes, field_ids_of(bytes), idx, "FieldId") {
        Ok(field_id) => field_opt_text(bytes, field_id, opts),
        Err(e) => Err(e),
    }
}

/// The readable name of the field at index `idx`, or a placeholder.
pub open spec fn field_text_at(bytes: Seq<u8>, idx: u32, opts: prettify::Field) -> Seq<char> {
    match field_opt_at(bytes, idx, opts) {
        Ok(text) => text,
        Err(_) => placeholder("field", idx as nat),
    }
}

/// A field id as text, field by field.
pub open spec fn field_id_text(field_id: FieldId) -> Seq<char> {
    "FieldId { class_idx: "@ + dec(field_id.class_idx as nat) + ", type_idx: "@ + dec(
        field_id.type_idx as nat,
    ) + ", name_idx: "@ + dec(field_id.name_idx as nat) + " }"@
}

/// The readable name of a field, or a placeholder that shows the field id.
pub open spec fn field_text(bytes: Seq<u8>, field_id: FieldId, opts: prettify::Field) -> Seq<char> {
    match field_opt_text(bytes, field_id, opts) {
        Ok(text) => text,
        Err(_) => "<<invalid-field-idx-"@ + field_id_text(field_id) + ">>"@,
    }
}

/// The readable names of the first `n` types of a list, with `, ` between
/// them.
pub open spec fn joined_types(bytes: Seq<u8>, items: Seq<TypeItem>, n: nat) -> Seq<char>
    decreases n,
{
    if n == 0 {
        Seq::empty()
    } else if n == 1 {
        Seq::<char>::empty() + type_text_at(bytes, items[0].type_idx)
    } else {
        joined_types(bytes, items, (n - 1) as nat) + ", "@ + type_text_at(
            bytes,
            items[n - 1].type_idx,
        )
    }
}

/// Why a readable name could not be made: an error of a string or an index,
/// or something that the file does not hold.
pub enum Failure {
    Is(DexError),
    Missing(Miss),
}

/// Whether the error `e` is the failure `f` in a file of these bytes,
/// opened from this location.
pub open spec fn failed_as(e: DexError, f: Failure, bytes: Seq<u8>, location: DexLocation) -> bool {
    match f {
        Failure::Is(x) => e == x,
        Failure::Missing(m) => reports(e, m, bytes, location),
    }
}

/// The parameter list of a prototype: nothing where it has none.
pub open spec fn parameters_of(bytes: Seq<u8>, offset: u32) -> Result<
    Option<Seq<TypeItem>>,
    Failure,
> {
    match type_list_of(bytes, offset) {
        Ok(list) => Ok(list),
        Err(m) => Err(Failure::Missing(m)),
    }
}

/// The parameter types of a prototype in parentheses.
pub open spec fn signature_text(bytes: Seq<u8>, proto_id: ProtoId) -> Result<Seq<char>, Failure> {
    match parameters_of(bytes, proto_id.parameters_off) {
        Err(f) => Err(f),
        Ok(None) => Ok("("@ + ")"@),
        Ok(Some(items)) => Ok("("@ + joined_types(bytes, items, items.len()) + ")"@),
    }
}

/// The readable name of a method: class, a dot and the name; with the
/// signature, the return type and a blank in front and the parameter types
/// in parentheses behind.
pub open spec fn method_opt_text(
    bytes: Seq<u8>,
    method_id: MethodId,
    opts: prettify::Method,
) -> Result<Seq<char>, Failure> {
    if opts == prettify::Method::WithSig {
        match entry_at::<ProtoId>(
            bytes,
            proto_ids_of(bytes),
            method_id.proto_idx as u32,
            "ProtoId",
        ) {
            Err(e) => Err(Failure::Is(e)),
            Ok(proto_id) => match string_lossy_at(bytes, method_id.name_idx) {
                Err(e) => Err(Failure::Is(e)),
                Ok(name) => match signature_text(bytes, proto_id) {
                    Err(f) => Err(f),
                    Ok(signature) => Ok(
                        Seq::<char>::empty() + type_text_at(bytes, proto_id.return_type_idx) + " "@
                            + type_text_at(bytes, method_id.class_idx) + "."@ + name + signature,
                    ),
                },
            },
        }
    } else {
        match string_lossy_at(bytes, method_id.name_idx) {
            Err(e) => Err(Failure::Is(e)),
            Ok(name) => Ok(
                Seq::<char>::empty() + type_text_at(bytes, method_id.class_idx) + "."@ + name,
            ),
        }
    }
}

/// The readable name of the method at index `idx`.
pub open spec fn method_opt_at(bytes: Seq<u8>, idx: u32, opts: prettify::Method) -> Result<
    Seq<char>,
    Failure,
> {
    match entry_at::<MethodId>(bytes, method_ids_of(bytes), idx, "MethodId") {
        Ok(method_id) => method_opt_text(bytes, method_id, opts),
        Err(e) => Err(Failure::Is(e)),
    }
}

/// The readable name of the method at index `idx`, or a placeholder.
pub open spec fn method_text_at(bytes: Seq<u8>, idx: u32, opts: prettify::Method) -> Seq<char> {
    match method_opt_at(bytes, idx, opts) {
        Ok(text) => text,
        Err(_) => placeholder("method", idx as nat),
    }
}

/// Whether a result holds the text, or is the failure, that `want` names,
/// in a file of these bytes, opened from this location.
pub open spec fn is_named(
    r: Result<String, DexError>,
    want: Result<Seq<char>, Failure>,
    bytes: Seq<u8>,
    location: DexLocation,
) -> bool {
    match want {
        Ok(text) => r is Ok && r->Ok_0@ == text,
        Err(f) => r is Err && failed_as(r->Err_0, f, bytes, location),
    }
}

impl<'a> DexFile<'a> {
    /// The readable name of the field at index `field_idx`, or a
    /// placeholder.
    pub fn pretty_field_at(&self, field_idx: u32, opts: prettify::Field) -> (r: String)
        ensures
            r@ == field_text_at(self.bytes(), field_idx, opts),
    {
        match self.pretty_field_opt_at(field_idx, opts) {
            Ok(s) => s,
            Err(_) => placeholder_for("field", field_idx as u64),
        }
    }

    /// The readable name of a field, or a placeholder that shows the id.
    pub fn pretty_field(&self, field_id: &FieldId, opts: prettify::Field) -> (r: String)
        ensures
            r@ == field_text(self.bytes(), *field_id, opts),
    {
        match self.pretty_field_opt(field_id, opts) {
            Ok(s) => s,
            Err(_) => {
                let mut out = String::from_str("<<invalid-field-idx-");
                let ghost start = out@;
                let mut id = String::from_str("FieldId { class_idx: ");
                push_dec(&mut id, field_id.class_idx as u64);
                id.append(", type_idx: ");
                push_dec(&mut id, field_id.type_idx as u64);
                id.append(", name_idx: ");
                push_dec(&mut id, field_id.name_idx as u64);
                id.append(" }");
                out.append(id.as_str());
                out.append(">>");
                out
            },
        }
    }

    /// The readable name of the field at index `field_idx`.
    pub fn pretty_field_opt_at(&self, field_idx: u32, opts: prettify::Field) -> (r: Result<
        String,
        DexError,
    >)
        ensures
            is_text(r, field_opt_at(self.bytes(), field_idx, opts)),
    {
        let field_id = self.get_field_id(field_idx)?;
        self.pretty_field_opt(&field_id, opts)
    }

    /// The readable name of a field.
    pub fn pretty_field_opt(&self, field_id: &FieldId, opts: prettify::Field) -> (r: Result<
        String,
        DexError,
    >)
        ensures
            is_text(r, field_opt_text(self.bytes(), *field_id, opts)),
    {
        let mut result = String::new();
        assert(result@ =~= Seq::<char>::empty());
        if opts == prettify::Field::WithType {
            let typed = self.pretty_type_opt_at(field_id.type_idx)?;
            result.append(typed.as_str());
            result.append(" ");
        }
        let class = self.pretty_type_opt_at(field_id.class_idx)?;
        result.append(class.as_str());
        result.append(".");
        let name = self.get_utf16_str_lossy_at(field_id.name_idx)?;
        result.append(name.as_str());
        Ok(result)
    }

    /// The readable name of the type at index `type_idx`, or a placeholder.
    pub fn pretty_type_at(&self, type_idx: TypeIndex) -> (r: String)
        ensures
            r@ == type_text_at(self.bytes(), type_idx),
    {
        match self.pretty_type_opt_at(type_idx) {
            Ok(s) => s,
            Err(_) => placeholder_for("type", type_idx as u64),
        }
    }

    /// The readable name of a type, or a placeholder that shows the index
    /// of its descriptor.
    pub fn pretty_type(&self, type_id: &TypeId) -> (r: String)
        ensures
            r@ == match type_opt_text(self.bytes(), *type_id) {
                Ok(text) => text,
                Err(_) => placeholder("type", type_id.descriptor_idx as nat),
            },
    {
        match self.pretty_type_opt(type_id) {
            Ok(s) => s,
            Err(_) => placeholder_for("type", type_id.descriptor_idx as u64),
        }
    }

    /// The readable name of the type at index `type_idx`.
    pub fn pretty_type_opt_at(&self, type_idx: TypeIndex) -> (r: Result<String, DexError>)
        ensures
            is_text(r, type_opt_at(self.bytes(), type_idx)),
    {
        let type_id = self.get_type_id(type_idx)?;
        self.pretty_type_opt(&type_id)
    }

    /// The readable name of a type.
    pub fn pretty_type_opt(&self, type_id: &TypeId) -> (r: Result<String, DexError>)
        ensures
            is_text(r, type_opt_text(self.bytes(), *type_id)),
    {
        let descriptor = self.get_type_desc_utf16_lossy(type_id)?;
        Ok(pretty_desc(descriptor.as_str()))
    }

    /// The text of the string of a string id, or a placeholder.
    pub fn pretty_utf16(&self, string_id: &StringId) -> (r: String)
        ensures
            r@ == utf16_text(self.bytes(), *string_id),
    {
        match self.get_utf16_str_lossy(string_id) {
            Ok(str_data) => str_data,
            Err(_) => placeholder_for("string", string_id.string_data_off as u64),
        }
    }

    /// The text of the string at index `idx`, or a placeholder.
    pub fn pretty_utf16_at(&self, idx: u32) -> (r: String)
        ensures
            r@ == utf16_text_at(self.bytes(), idx),
    {
        match self.get_string_id(idx) {
            Ok(string_id) => self.pretty_utf16(&string_id),
            Err(_) => placeholder_for("string", idx as u64),
        }
    }

    /// The readable name of the method at index `method_idx`, or a
    /// placeholder.
    pub fn pretty_method_at(&self, method_idx: u32, opts: prettify::Method) -> (r: String)
        ensures
            r@ == method_text_at(self.bytes(), method_idx, opts),
    {
        match self.pretty_method_opt_at(method_idx, opts) {
            Ok(s) => s,
            Err(_) => placeholder_for("method", method_idx as u64),
        }
    }

    /// The readable name of the method at index `idx`.
    pub fn pretty_method_opt_at(&self, idx: u32, opts: prettify::Method) -> (r: Result<
        String,
        DexError,
    >)
        ensures
            is_named(
                r,
                method_opt_at(self.bytes(), idx, opts),
                self.bytes(),
                self.spec_location(),
            ),
    {
        let method_id = self.get_method_id(idx)?;
        self.pretty_method_opt(&method_id, opts)
    }

    fn signature(&self, proto_id: &ProtoId) -> (r: Result<String, DexError>)
        ensures
            is_named(
                r,
                signature_text(self.bytes(), *proto_id),
                self.bytes(),
                self.spec_location(),
            ),
    {
        let mut result = String::from_str("(");
        let ghost open = result@;
        match self.get_type_list(proto_id.parameters_off)? {
            None => {},
            Some(params) => {
                let mut i: usize = 0;
                while i < params.len()
                    invariant
                        i <= params@.len(),
                        result@ == open + joined_types(self.bytes(), params@, i as nat),
                    decreases params.len() - i,
                {
                    let ghost before = result@;
                    let ghost joined = joined_types(self.bytes(), params@, i as nat);
                    if i > 0 {
                        result.append(", ");
                    }
                    let name = self.pretty_type_at(params[i].type_idx);
                    result.append(name.as_str());
                    i = i + 1;
                    proof {
                        let piece = type_text_at(self.bytes(), params@[i - 1].type_idx);
                        if i == 1 {
                            assert(joined =~= Seq::<char>::empty());
                            assert(result@ =~= open + (Seq::<char>::empty() + piece));
                        } else {
                            assert(result@ =~= open + (joined + ", "@ + piece));
                        }
                    }
                }
            },
        }
        result.append(")");
        proof {
            if proto_id.parameters_off == 0 {
                assert(result@ =~= "("@ + ")"@);
            }
        }
        Ok(result)
    }

    /// The readable name of a method.
    pub fn pretty_method_opt(&self, method_id: &MethodId, opts: prettify::Method) -> (r: Result<
        String,
        DexError,
    >)
        ensures
            is_named(
                r,
                method_opt_text(self.bytes(), *method_id, opts),
                self.bytes(),
                self.spec_location(),
            ),
    {
        let mut result = String::new();
        assert(result@ =~= Seq::<char>::empty());
        match opts {
            prettify::Method::WithSig => {
                let proto_id = self.get_proto_id(method_id.proto_idx)?;
                let returned = self.pretty_type_at(proto_id.return_type_idx);
                result.append(returned.as_str());
                result.append(" ");
                let class = self.pretty_type_at(method_id.class_idx);
                result.append(class.as_str());
                result.append(".");
                let name = self.get_utf16_str_lossy_at(method_id.name_idx)?;
                result.append(name.as_str());
                let signature = self.signature(&proto_id)?;
                result.append(signature.as_str());
                Ok(result)
            },
            prettify::Method::NoSig => {
                let class = self.pretty_type_at(method_id.class_idx);
                result.append(class.as_str());
                result.append(".");
                let name = self.get_utf16_str_lossy_at(method_id.name_idx)?;
                result.append(name.as_str());
                Ok(result)
            },
        }
    }
}

/// A signed 32-bit value as the unsigned value of the same bits.
pub open spec fn as_u32(v: i32) -> u32 {
    if v >= 0 {
        v as u32
    } else {
        (v + 0x1_0000_0000) as u32
    }
}

/// The low sixteen bits of a signed 32-bit value.
pub open spec fn as_u16(v: i32) -> u16 {
    (as_u32(v) % 0x1_0000) as u16
}

/// The 32-bit literal whose upper half is the low sixteen bits of `v`.
pub open spec fn high16(v: i32) -> u32 {
    (as_u16(v) * 0x1_0000) as u32
}

/// The 64-bit literal whose top sixteen bits are the low sixteen bits of
/// `v`.
pub open spec fn high48(v: i32) -> u64 {
    (as_u16(v) * 0x1_0000_0000_0000) as u64
}

/// The first `n` registers of a list as `v1, v2, ...`.
pub open spec fn registers_text(regs: Seq<u8>, n: nat) -> Seq<char>
    decreases n,
{
    if n == 0 {
        Seq::empty()
    } else if n == 1 {
        "v"@ + dec(regs[0] as nat)
    } else {
        registers_text(regs, (n - 1) as nat) + ", v"@ + dec(regs[n - 1] as nat)
    }
}

fn to_u32(v: i32) -> (r: u32)
    ensures
        r == as_u32(v),
{
    if v >= 0 {
        v as u32
    } else {
        (v as i64 + 0x1_0000_0000) as u32
    }
}

fn to_u16(v: i32) -> (r: u16)
    ensures
        r == as_u16(v),
{
    (to_u32(v) % 0x1_0000) as u16
}

fn to_high16(v: i32) -> (r: u32)
    ensures
        r == high16(v),
{
    to_u16(v) as u32 * 0x1_0000
}

fn to_high48(v: i32) -> (r: u64)
    ensures
        r == high48(v),
{
    to_u16(v) as u64 * 0x1_0000_0000_0000
}

fn push_registers(out: &mut String, regs: &Vec<u8>)
    ensures
        final(out)@ == old(out)@ + registers_text(regs@, regs@.len()),
{
    let ghost start = out@;
    let mut i: usize = 0;
    assert(out@ =~= start + registers_text(regs@, 0));
    while i < regs.len()
        invariant
            i <= regs@.len(),
            out@ == start + registers_text(regs@, i as nat),
        decreases regs.len() - i,
    {
        let ghost joined = registers_text(regs@, i as nat);
        if i > 0 {
            out.append(", v");
        } else {
            out.append("v");
        }
        push_dec(out, regs[i] as u64);
        i = i + 1;
        proof {
            let piece = dec(regs@[i - 1] as nat);
            if i == 1 {
                assert(joined =~= Seq::<char>::empty());
                assert(out@ =~= start + ("v"@ + piece));
            } else {
                assert(out@ =~= start + (joined + ", v"@ + piece));
            }
        }
    }
}

/// Whether the opcode reads or writes a static field.
pub open spec fn static_field_op(code: Code) -> bool {
    match code {
        Code::SGET
        | Code::SGET_WIDE
        | Code::SGET_OBJECT
        | Code::SGET_BOOLEAN
        | Code::SGET_BYTE
        | Code::SGET_CHAR
        | Code::SGET_SHORT
        | Code::SPUT
        | Code::SPUT_WIDE
        | Code::SPUT_OBJECT
        | Code::SPUT_BOOLEAN
        | Code::SPUT_BYTE
        | Code::SPUT_CHAR
        | Code::SPUT_SHORT => true,
        _ => false,
    }
}

/// Whether the opcode reads or writes an instance field.
pub open spec fn instance_field_op(code: Code) -> bool {
    match code {
        Code::IGET
        | Code::IGET_WIDE
        | Code::IGET_OBJECT
        | Code::IGET_BOOLEAN
        | Code::IGET_BYTE
        | Code::IGET_CHAR
        | Code::IGET_SHORT
        | Code::IPUT
        | Code::IPUT_WIDE
        | Code::IPUT_OBJECT
        | Code::IPUT_BOOLEAN
        | Code::IPUT_BYTE
        | Code::IPUT_CHAR
        | Code::IPUT_SHORT => true,
        _ => false,
    }
}

/// Whether the opcode names a class in its `B` operand.
pub open spec fn class_op(code: Code) -> bool {
    match code {
        Code::CHECK_CAST | Code::CONST_CLASS | Code::NEW_INSTANCE => true,
        _ => false,
    }
}

/// Whether the opcode invokes a method on a list of registers.
pub open spec fn invoke_op(code: Code) -> bool {
    match code {
        Code::INVOKE_VIRTUAL
        | Code::INVOKE_SUPER
        | Code::INVOKE_DIRECT
        | Code::INVOKE_STATIC
        | Code::INVOKE_INTERFACE => true,
        _ => false,
    }
}

/// Whether the opcode invokes a method on a range of registers.
pub open spec fn invoke_range_op(code: Code) -> bool {
    match code {
        Code::INVOKE_VIRTUAL_RANGE
        | Code::INVOKE_SUPER_RANGE
        | Code::INVOKE_DIRECT_RANGE
        | Code::INVOKE_STATIC_RANGE
        | Code::INVOKE_INTERFACE_RANGE => true,
        _ => false,
    }
}

fn is_static_field_op(code: Code) -> (r: bool)
    ensures
        r == static_field_op(code),
{
    match code {
        Code::SGET
        | Code::SGET_WIDE
        | Code::SGET_OBJECT
        | Code::SGET_BOOLEAN
        | Code::SGET_BYTE
        | Code::SGET_CHAR
        | Code::SGET_SHORT
        | Code::SPUT
        | Code::SPUT_WIDE
        | Code::SPUT_OBJECT
        | Code::SPUT_BOOLEAN
        | Code::SPUT_BYTE
        | Code::SPUT_CHAR
        | Code::SPUT_SHORT => true,
        _ => false,
    }
}

fn is_instance_field_op(code: Code) -> (r: bool)
    ensures
        r == instance_field_op(code),
{
    match code {
        Code::IGET
        | Code::IGET_WIDE
        | Code::IGET_OBJECT
        | Code::IGET_BOOLEAN
        | Code::IGET_BYTE
        | Code::IGET_CHAR
        | Code::IGET_SHORT
        | Code::IPUT
        | Code::IPUT_WIDE
        | Code::IPUT_OBJECT
        | Code::IPUT_BOOLEAN
        | Code::IPUT_BYTE
        | Code::IPUT_CHAR
        | Code::IPUT_SHORT => true,
        _ => false,
    }
}

fn is_class_op(code: Code) -> (r: bool)
    ensures
        r == class_op(code),
{
    match code {
        Code::CHECK_CAST | Code::CONST_CLASS | Code::NEW_INSTANCE => true,
        _ => false,
    }
}

fn is_invoke_op(code: Code) -> (r: bool)
    ensures
        r == invoke_op(code),
{
    match code {
        Code::INVOKE_VIRTUAL
        | Code::INVOKE_SUPER
        | Code::INVOKE_DIRECT
        | Code::INVOKE_STATIC
        | Code::INVOKE_INTERFACE => true,
        _ => false,
    }
}

fn is_invoke_range_op(code: Code) -> (r: bool)
    ensures
        r == invoke_range_op(code),
{
    match code {
        Code::INVOKE_VIRTUAL_RANGE
        | Code::INVOKE_SUPER_RANGE
        | Code::INVOKE_DIRECT_RANGE
        | Code::INVOKE_STATIC_RANGE
        | Code::INVOKE_INTERFACE_RANGE => true,
        _ => false,
    }
}

/// The text `op`.
#[verifier::opaque]
pub open spec fn plain_name(inst: Instruction) -> Result<Seq<char>, DexError> {
    Ok(inst.spec_name()@)
}

/// The text `op vA, vB`.
#[verifier::opaque]
pub open spec fn two_registers(inst: Instruction) -> Result<Seq<char>, DexError> {
    match operand_a(inst) {
        Err(e) => Err(e),
        Ok(a) => match operand_b(inst) {
            Err(e) => Err(e),
            Ok(b) => Ok(
                inst.spec_name()@ + " v"@ + signed_dec(a as int) + ", v"@ + signed_dec(b as int),
            ),
        },
    }
}

/// The text `op vA, #+B`.
#[verifier::opaque]
pub open spec fn register_literal(inst: Instruction) -> Result<Seq<char>, DexError> {
    match operand_a(inst) {
        Err(e) => Err(e),
        Ok(a) => match operand_b(inst) {
            Err(e) => Err(e),
            Ok(b) => Ok(
                inst.spec_name()@ + " v"@ + signed_dec(a as int) + ", #"@ + plus_dec(b as int),
            ),
        },
    }
}

/// The text `op vA`.
#[verifier::opaque]
pub open spec fn one_register(inst: Instruction) -> Result<Seq<char>, DexError> {
    match operand_a(inst) {
        Err(e) => Err(e),
        Ok(a) => Ok(
            inst.spec_name()@ + " v"@ + signed_dec(a as int),
        ),
    }
}

/// The text `op +A`.
#[verifier::opaque]
pub open spec fn branch(inst: Instruction) -> Result<Seq<char>, DexError> {
    match operand_a(inst) {
        Err(e) => Err(e),
        Ok(a) => Ok(
            inst.spec_name()@ + " "@ + plus_dec(a as int),
        ),
    }
}

/// The text `op vA, +B`.
#[verifier::opaque]
pub open spec fn register_branch(inst: Instruction) -> Result<Seq<char>, DexError> {
    match operand_a(inst) {
        Err(e) => Err(e),
        Ok(a) => match operand_b(inst) {
            Err(e) => Err(e),
            Ok(b) => Ok(
                inst.spec_name()@ + " v"@ + signed_dec(a as int) + ", "@ + plus_dec(b as int),
            ),
        },
    }
}

/// The text `op vA, #int +B0000 // 0x..`.
#[verifier::opaque]
pub open spec fn high16_int(inst: Instruction) -> Result<Seq<char>, DexError> {
    match operand_b(inst) {
        Err(e) => Err(e),
        Ok(b) => match operand_a(inst) {
            Err(e) => Err(e),
            Ok(a) => Ok(
                inst.spec_name()@ + " v"@ + signed_dec(a as int) + ", #int "@
                    + plus_dec(high16(b) as int) + " // "@ + hex(high16(b) as nat),
            ),
        },
    }
}

/// The text `op vA, #long +B000000000000 // 0x..`.
#[verifier::opaque]
pub open spec fn high16_long(inst: Instruction) -> Result<Seq<char>, DexError> {
    match operand_b(inst) {
        Err(e) => Err(e),
        Ok(b) => match operand_a(inst) {
            Err(e) => Err(e),
            Ok(a) => Ok(
                inst.spec_name()@ + " v"@ + signed_dec(a as int) + ", #long "@
                    + plus_dec(high48(b) as int) + " // "@ + hex(high48(b) as nat),
            ),
        },
    }
}

/// The text `op vA, thing@B`.
#[verifier::opaque]
pub open spec fn register_thing(inst: Instruction) -> Result<Seq<char>, DexError> {
    match operand_a(inst) {
        Err(e) => Err(e),
        Ok(a) => match operand_b(inst) {
            Err(e) => Err(e),
            Ok(b) => Ok(
                inst.spec_name()@ + " v"@ + signed_dec(a as int) + ", thing@"@
                    + signed_dec(b as int),
            ),
        },
    }
}

/// The text `op vA, vB, vC`.
#[verifier::opaque]
pub open spec fn three_registers(inst: Instruction) -> Result<Seq<char>, DexError> {
    match operand_a(inst) {
        Err(e) => Err(e),
        Ok(a) => match operand_b(inst) {
            Err(e) => Err(e),
            Ok(b) => match operand_c(inst) {
                Err(e) => Err(e),
                Ok(c) => Ok(
                    inst.spec_name()@ + " v"@ + signed_dec(a as int) + ", v"@ + signed_dec(b as int)
                        + ", v"@ + signed_dec(c as int),
                ),
            },
        },
    }
}

/// The text `op vA, vB, #+C`.
#[verifier::opaque]
pub open spec fn two_registers_literal(inst: Instruction) -> Result<Seq<char>, DexError> {
    match operand_a(inst) {
        Err(e) => Err(e),
        Ok(a) => match operand_b(inst) {
            Err(e) => Err(e),
            Ok(b) => match operand_c(inst) {
                Err(e) => Err(e),
                Ok(c) => Ok(
                    inst.spec_name()@ + " v"@ + signed_dec(a as int) + ", v"@ + signed_dec(b as int)
                        + ", #"@ + plus_dec(c as int),
                ),
            },
        },
    }
}

/// The text `op vA, vB, +C`.
#[verifier::opaque]
pub open spec fn two_registers_branch(inst: Instruction) -> Result<Seq<char>, DexError> {
    match operand_a(inst) {
        Err(e) => Err(e),
        Ok(a) => match operand_b(inst) {
            Err(e) => Err(e),
            Ok(b) => match operand_c(inst) {
                Err(e) => Err(e),
                Ok(c) => Ok(
                    inst.spec_name()@ + " v"@ + signed_dec(a as int) + ", v"@ + signed_dec(b as int)
                        + ", "@ + plus_dec(c as int),
                ),
            },
        },
    }
}

/// The text `op vA, vB, thing@C`.
#[verifier::opaque]
pub open spec fn two_registers_thing(inst: Instruction) -> Result<Seq<char>, DexError> {
    match operand_c(inst) {
        Err(e) => Err(e),
        Ok(c) => match operand_a(inst) {
            Err(e) => Err(e),
            Ok(a) => match operand_b(inst) {
                Err(e) => Err(e),
                Ok(b) => Ok(
                    inst.spec_name()@ + " v"@ + signed_dec(a as int) + ", v"@ + signed_dec(b as int)
                        + ", thing@"@ + dec(as_u32(c) as nat),
                ),
            },
        },
    }
}

/// The text `op vA, thing@B`, the index unsigned.
#[verifier::opaque]
pub open spec fn register_wide_thing(inst: Instruction) -> Result<Seq<char>, DexError> {
    match operand_b(inst) {
        Err(e) => Err(e),
        Ok(b) => match operand_a(inst) {
            Err(e) => Err(e),
            Ok(a) => Ok(
                inst.spec_name()@ + " v"@ + signed_dec(a as int) + ", thing@"@
                    + dec(as_u32(b) as nat),
            ),
        },
    }
}

/// The text `op {regs}, // call_site@B`.
#[verifier::opaque]
pub open spec fn list_call_site(inst: Instruction) -> Result<Seq<char>, DexError> {
    match operand_var_args(inst) {
        Err(e) => Err(e),
        Ok((count, regs)) => match operand_b(inst) {
            Err(e) => Err(e),
            Ok(b) => Ok(
                inst.spec_name()@ + " {"@ + registers_text(regs, regs.len()) + "}, // call_site@"@
                    + dec(as_u32(b) as nat),
            ),
        },
    }
}

/// The text `op {regs}, thing@B`.
#[verifier::opaque]
pub open spec fn list_thing(inst: Instruction) -> Result<Seq<char>, DexError> {
    match operand_var_args(inst) {
        Err(e) => Err(e),
        Ok((count, regs)) => match operand_b(inst) {
            Err(e) => Err(e),
            Ok(b) => Ok(
                inst.spec_name()@ + " {"@ + registers_text(regs, regs.len()) + "}, thing@"@
                    + dec(as_u32(b) as nat),
            ),
        },
    }
}

/// The text `op {vFirst .. vLast}, // call_site@B`.
#[verifier::opaque]
pub open spec fn range_call_site(inst: Instruction) -> Result<Seq<char>, DexError> {
    match operand_args_range(inst) {
        Err(e) => Err(e),
        Ok((first, last)) => match operand_b(inst) {
            Err(e) => Err(e),
            Ok(b) => Ok(
                inst.spec_name()@ + " {v"@ + dec(first as nat) + " .. v"@ + dec(last as nat)
                    + "}, // call_site@"@ + dec(as_u32(b) as nat),
            ),
        },
    }
}

/// The text `op {vFirst .. vLast} thing@B`.
#[verifier::opaque]
pub open spec fn range_thing(inst: Instruction) -> Result<Seq<char>, DexError> {
    match operand_args_range(inst) {
        Err(e) => Err(e),
        Ok((first, last)) => match operand_b(inst) {
            Err(e) => Err(e),
            Ok(b) => Ok(
                inst.spec_name()@ + " {v"@ + dec(first as nat) + " .. v"@ + dec(last as nat)
                    + "} thing@"@ + dec(as_u32(b) as nat),
            ),
        },
    }
}

/// The text `op {regs}, method@B, proto@H`.
#[verifier::opaque]
pub open spec fn list_method_proto(inst: Instruction) -> Result<Seq<char>, DexError> {
    match operand_var_args(inst) {
        Err(e) => Err(e),
        Ok((count, regs)) => match operand_b(inst) {
            Err(e) => Err(e),
            Ok(b) => match operand_h(inst) {
                Err(e) => Err(e),
                Ok(h) => Ok(
                    inst.spec_name()@ + " {"@ + registers_text(regs, regs.len()) + "}, method@"@
                        + dec(as_u32(b) as nat) + ", proto@"@ + dec(as_u32(h) as nat),
                ),
            },
        },
    }
}

/// The text `op {vFirst .. vLast}, method@B, proto@H`.
#[verifier::opaque]
pub open spec fn range_method_proto(inst: Instruction) -> Result<Seq<char>, DexError> {
    match operand_args_range(inst) {
        Err(e) => Err(e),
        Ok((first, last)) => match operand_b(inst) {
            Err(e) => Err(e),
            Ok(b) => match operand_h(inst) {
                Err(e) => Err(e),
                Ok(h) => Ok(
                    inst.spec_name()@ + " {v"@ + dec(first as nat) + " .. v"@ + dec(last as nat)
                        + "}, method@"@ + dec(as_u32(b) as nat) + ", proto@"@
                        + dec(as_u32(h) as nat),
                ),
            },
        },
    }
}

/// The text `op vA, #+B`, the literal of 64 bits.
#[verifier::opaque]
pub open spec fn register_wide_literal(inst: Instruction) -> Result<Seq<char>, DexError> {
    match operand_a(inst) {
        Err(e) => Err(e),
        Ok(a) => match operand_wide_b(inst) {
            Err(e) => Err(e),
            Ok(wide) => Ok(
                inst.spec_name()@ + " v"@ + signed_dec(a as int) + ", #"@ + plus_dec(wide as int),
            ),
        },
    }
}

/// The text `op vA, "string" // string@B`.
#[verifier::opaque]
pub open spec fn register_string(inst: Instruction, bytes: Seq<u8>) -> Result<Seq<char>, DexError> {
    match operand_b(inst) {
        Err(e) => Err(e),
        Ok(b) => match operand_a(inst) {
            Err(e) => Err(e),
            Ok(a) => Ok(
                inst.spec_name()@ + " v"@ + signed_dec(a as int) + ", "@
                    + debug_text(utf16_text_at(bytes, as_u32(b))) + " // string@"@
                    + signed_dec(b as int),
            ),
        },
    }
}

/// The text `op vA, type // type@B`.
#[verifier::opaque]
pub open spec fn register_type(inst: Instruction, bytes: Seq<u8>) -> Result<Seq<char>, DexError> {
    match operand_b(inst) {
        Err(e) => Err(e),
        Ok(b) => match operand_a(inst) {
            Err(e) => Err(e),
            Ok(a) => Ok(
                inst.spec_name()@ + " v"@ + signed_dec(a as int) + ", "@
                    + type_text_at(bytes, as_u16(b)) + " // type@"@ + dec(as_u16(b) as nat),
            ),
        },
    }
}

/// The text `op vA, field // field@B`.
#[verifier::opaque]
pub open spec fn register_field(inst: Instruction, bytes: Seq<u8>) -> Result<Seq<char>, DexError> {
    match operand_b(inst) {
        Err(e) => Err(e),
        Ok(b) => match operand_a(inst) {
            Err(e) => Err(e),
            Ok(a) => Ok(
                inst.spec_name()@ + " v"@ + signed_dec(a as int) + ", "@
                    + field_text_at(bytes, as_u32(b), prettify::Field::WithType) + " // field@"@
                    + dec(as_u32(b) as nat),
            ),
        },
    }
}

/// The text `op vA, vB, field // field@C`.
#[verifier::opaque]
pub open spec fn two_registers_field(inst: Instruction, bytes: Seq<u8>) -> Result<Seq<char>, DexError> {
    match operand_c(inst) {
        Err(e) => Err(e),
        Ok(c) => match operand_a(inst) {
            Err(e) => Err(e),
            Ok(a) => match operand_b(inst) {
                Err(e) => Err(e),
                Ok(b) => Ok(
                    inst.spec_name()@ + " v"@ + signed_dec(a as int) + ", v"@ + signed_dec(b as int)
                        + ", "@ + field_text_at(bytes, as_u32(c), prettify::Field::WithType)
                        + " // field@"@ + dec(as_u32(c) as nat),
                ),
            },
        },
    }
}

/// The text `op vA, vB, type // type@C`.
#[verifier::opaque]
pub open spec fn two_registers_type(inst: Instruction, bytes: Seq<u8>) -> Result<Seq<char>, DexError> {
    match operand_c(inst) {
        Err(e) => Err(e),
        Ok(c) => match operand_a(inst) {
            Err(e) => Err(e),
            Ok(a) => match operand_b(inst) {
                Err(e) => Err(e),
                Ok(b) => Ok(
                    inst.spec_name()@ + " v"@ + signed_dec(a as int) + ", v"@ + signed_dec(b as int)
                        + ", "@ + type_text_at(bytes, as_u16(c)) + " // type@"@
                        + dec(as_u32(c) as nat),
                ),
            },
        },
    }
}

/// The text `op vA, "string" // string@B`, the index unsigned.
#[verifier::opaque]
pub open spec fn register_wide_string(inst: Instruction, bytes: Seq<u8>) -> Result<Seq<char>, DexError> {
    match operand_b(inst) {
        Err(e) => Err(e),
        Ok(b) => match operand_a(inst) {
            Err(e) => Err(e),
            Ok(a) => Ok(
                inst.spec_name()@ + " v"@ + signed_dec(a as int) + ", "@
                    + debug_text(utf16_text_at(bytes, as_u32(b))) + " // string@"@
                    + dec(as_u32(b) as nat),
            ),
        },
    }
}

/// The text `op {regs}, type // type@B`.
#[verifier::opaque]
pub open spec fn list_type(inst: Instruction, bytes: Seq<u8>) -> Result<Seq<char>, DexError> {
    match operand_var_args(inst) {
        Err(e) => Err(e),
        Ok((count, regs)) => match operand_b(inst) {
            Err(e) => Err(e),
            Ok(b) => Ok(
                inst.spec_name()@ + " {"@ + registers_text(regs, regs.len()) + "}, "@
                    + type_text_at(bytes, as_u16(b)) + " // type@"@ + dec(as_u32(b) as nat),
            ),
        },
    }
}

/// The text `op {regs}, method // method@B`.
#[verifier::opaque]
pub open spec fn list_method(inst: Instruction, bytes: Seq<u8>) -> Result<Seq<char>, DexError> {
    match operand_var_args(inst) {
        Err(e) => Err(e),
        Ok((count, regs)) => match operand_b(inst) {
            Err(e) => Err(e),
            Ok(b) => Ok(
                inst.spec_name()@ + " {"@ + registers_text(regs, regs.len()) + "}, "@
                    + method_text_at(bytes, as_u32(b), prettify::Method::WithSig) + " // method@"@
                    + dec(as_u32(b) as nat),
            ),
        },
    }
}

/// The text `op {vFirst .. vLast}, method // method@B`.
#[verifier::opaque]
pub open spec fn range_method(inst: Instruction, bytes: Seq<u8>) -> Result<Seq<char>, DexError> {
    match operand_args_range(inst) {
        Err(e) => Err(e),
        Ok((first, last)) => match operand_b(inst) {
            Err(e) => Err(e),
            Ok(b) => Ok(
                inst.spec_name()@ + " {v"@ + dec(first as nat) + " .. v"@ + dec(last as nat)
                    + "}, "@ + method_text_at(bytes, as_u32(b), prettify::Method::WithSig)
                    + " // method@"@ + dec(as_u32(b) as nat),
            ),
        },
    }
}

/// The text `op {regs}, method, shorty // method@B, proto@H`.
#[verifier::opaque]
pub open spec fn list_method_shorty(inst: Instruction, bytes: Seq<u8>) -> Result<Seq<char>, DexError> {
    match operand_var_args(inst) {
        Err(e) => Err(e),
        Ok((count, regs)) => match operand_b(inst) {
            Err(e) => Err(e),
            Ok(b) => match operand_h(inst) {
                Err(e) => Err(e),
                Ok(h) => match shorty_lossy_at(bytes, as_u16(h)) {
                    Err(e) => Err(e),
                    Ok(shorty) => Ok(
                        inst.spec_name()@ + " {"@ + registers_text(regs, regs.len()) + "}, "@
                            + method_text_at(bytes, as_u32(b), prettify::Method::WithSig) + ", "@
                            + shorty + " // method@"@ + dec(as_u32(b) as nat) + ", proto@"@
                            + dec(as_u32(h) as nat),
                    ),
                },
            },
        },
    }
}

/// The text `op {vFirst .. vLast}, method, shorty // method@B, proto@H`.
#[verifier::opaque]
pub open spec fn range_method_shorty(inst: Instruction, bytes: Seq<u8>) -> Result<Seq<char>, DexError> {
    match operand_args_range(inst) {
        Err(e) => Err(e),
        Ok((first, last)) => match operand_b(inst) {
            Err(e) => Err(e),
            Ok(b) => match operand_h(inst) {
                Err(e) => Err(e),
                Ok(h) => match shorty_lossy_at(bytes, as_u16(h)) {
                    Err(e) => Err(e),
                    Ok(shorty) => Ok(
                        inst.spec_name()@ + " {v"@ + dec(first as nat) + " .. v"@ + dec(last as nat)
                            + "}, "@ + method_text_at(bytes, as_u32(b), prettify::Method::WithSig)
                            + ", "@ + shorty + " // method@"@ + dec(as_u32(b) as nat) + ", proto@"@
                            + dec(as_u32(h) as nat),
                    ),
                },
            },
        },
    }
}

/// The name of a `nop` or of the payload that shares its opcode.
pub open spec fn payload_name(inst: Instruction) -> Seq<char> {
    if inst@[0] == 0x0300 {
        "array-data"@
    } else if inst@[0] == 0x0100 {
        "packed-switch"@
    } else if inst@[0] == 0x0200 {
        "sparse-switch"@
    } else {
        inst.spec_name()@
    }
}

/// The text of a `21c` instruction: with a file, the string, class or field
/// that the opcode refers to; else the bare index.
pub open spec fn text_21c(inst: Instruction, dex: Option<Seq<u8>>) -> Result<Seq<char>, DexError> {
    match dex {
        Some(bytes) => if inst.spec_opcode() == Code::CONST_STRING {
            register_string(inst, bytes)
        } else if class_op(inst.spec_opcode()) {
            register_type(inst, bytes)
        } else if static_field_op(inst.spec_opcode()) {
            register_field(inst, bytes)
        } else {
            register_thing(inst)
        },
        None => register_thing(inst),
    }
}

/// The text of a `22c` instruction: with a file, the field or class that
/// the opcode refers to; else the bare index.
pub open spec fn text_22c(inst: Instruction, dex: Option<Seq<u8>>) -> Result<Seq<char>, DexError> {
    match dex {
        Some(bytes) => if instance_field_op(inst.spec_opcode()) {
            two_registers_field(inst, bytes)
        } else if inst.spec_opcode() == Code::NEW_ARRAY || inst.spec_opcode()
            == Code::INSTANCE_OF {
            two_registers_type(inst, bytes)
        } else {
            two_registers_thing(inst)
        },
        None => two_registers_thing(inst),
    }
}

/// The text of a `31c` instruction: with a file, the string of
/// `const-string/jumbo`; else the bare index.
pub open spec fn text_31c(inst: Instruction, dex: Option<Seq<u8>>) -> Result<Seq<char>, DexError> {
    match dex {
        Some(bytes) => if inst.spec_opcode() == Code::CONST_STRING_JUMBO {
            register_wide_string(inst, bytes)
        } else {
            register_wide_thing(inst)
        },
        None => register_wide_thing(inst),
    }
}

/// The text of a `35c` instruction: with a file, the class or method that
/// the opcode refers to; for `invoke-custom` the call site; else the bare
/// index.
pub open spec fn text_35c(inst: Instruction, dex: Option<Seq<u8>>) -> Result<Seq<char>, DexError> {
    if dex is Some && inst.spec_opcode() == Code::FILLED_NEW_ARRAY {
        list_type(inst, dex->Some_0)
    } else if dex is Some && invoke_op(inst.spec_opcode()) {
        list_method(inst, dex->Some_0)
    } else if inst.spec_opcode() == Code::INVOKE_CUSTOM {
        list_call_site(inst)
    } else {
        list_thing(inst)
    }
}

/// The text of a `3rc` instruction: with a file, the method that the
/// opcode refers to; for `invoke-custom/range` the call site; else the bare
/// index.
pub open spec fn text_3rc(inst: Instruction, dex: Option<Seq<u8>>) -> Result<Seq<char>, DexError> {
    if dex is Some && invoke_range_op(inst.spec_opcode()) {
        range_method(inst, dex->Some_0)
    } else if inst.spec_opcode() == Code::INVOKE_CUSTOM_RANGE {
        range_call_site(inst)
    } else {
        range_thing(inst)
    }
}

/// The text of a `45cc` instruction: with a file, the method and the
/// shorty of the prototype; else the bare indices.
pub open spec fn text_45cc(inst: Instruction, dex: Option<Seq<u8>>) -> Result<
    Seq<char>,
    DexError,
> {
    match dex {
        Some(bytes) => list_method_shorty(inst, bytes),
        None => list_method_proto(inst),
    }
}

/// The text of a `4rcc` instruction: with a file and for
/// `invoke-polymorphic/range`, the method and the shorty of the prototype;
/// else the bare indices.
pub open spec fn text_4rcc(inst: Instruction, dex: Option<Seq<u8>>) -> Result<
    Seq<char>,
    DexError,
> {
    if dex is Some && inst.spec_opcode() == Code::INVOKE_POLYMORPHIC_RANGE {
        range_method_shorty(inst, dex->Some_0)
    } else {
        range_method_proto(inst)
    }
}

/// The text of an instruction, as its format lays it out. With a file at
/// hand, indices are resolved to what they refer to.
pub open spec fn instruction_text(inst: Instruction, dex: Option<Seq<u8>>) -> Result<
    Seq<char>,
    DexError,
> {
    if inst.spec_opcode() == Code::NOP {
        Ok(payload_name(inst))
    } else {
        match inst.spec_format() {
            Format::k10x => plain_name(inst),
            Format::k12x | Format::k22x | Format::k32x => two_registers(inst),
            Format::k11n | Format::k21s | Format::k31i => register_literal(inst),
            Format::k11x => one_register(inst),
            Format::k10t | Format::k20t | Format::k30t => branch(inst),
            Format::k21t | Format::k31t => register_branch(inst),
            Format::k21h => if inst.spec_opcode() == Code::CONST_HIGH16 {
                high16_int(inst)
            } else {
                high16_long(inst)
            },
            Format::k21c => text_21c(inst, dex),
            Format::k23x => three_registers(inst),
            Format::k22b | Format::k22s => two_registers_literal(inst),
            Format::k22t => two_registers_branch(inst),
            Format::k22c => text_22c(inst, dex),
            Format::k31c => text_31c(inst, dex),
            Format::k35c => text_35c(inst, dex),
            Format::k3rc => text_3rc(inst, dex),
            Format::k45cc => text_45cc(inst, dex),
            Format::k4rcc => text_4rcc(inst, dex),
            Format::k51l => register_wide_literal(inst),
            Format::kInvalidFormat => Ok("<invalid-opcode-format>"@),
        }
    }
}

/// The text `op vA, "string" // string@B`, or the failure of what
/// cannot be resolved.
#[verifier::opaque]
pub open spec fn register_string_strict(inst: Instruction, bytes: Seq<u8>) -> Result<
    Seq<char>,
    Failure,
> {
    match operand_b(inst) {
        Err(e) => Err(Failure::Is(e)),
        Ok(b) => match operand_a(inst) {
            Err(e) => Err(Failure::Is(e)),
            Ok(a) => match string_lossy_at(bytes, as_u32(b)) {
                Err(e) => Err(Failure::Is(e)),
                Ok(string_0) => Ok(
                    inst.spec_name()@ + " v"@ + signed_dec(a as int) + ", "@ + debug_text(string_0)
                        + " // string@"@ + signed_dec(b as int),
                ),
            },
        },
    }
}

/// The text `op vA, type // type@B`, or the failure of what
/// cannot be resolved.
#[verifier::opaque]
pub open spec fn register_type_strict(inst: Instruction, bytes: Seq<u8>) -> Result<
    Seq<char>,
    Failure,
> {
    match operand_b(inst) {
        Err(e) => Err(Failure::Is(e)),
        Ok(b) => match operand_a(inst) {
            Err(e) => Err(Failure::Is(e)),
            Ok(a) => match type_opt_at(bytes, as_u16(b)) {
                Err(e) => Err(Failure::Is(e)),
                Ok(type_0) => Ok(
                    inst.spec_name()@ + " v"@ + signed_dec(a as int) + ", "@ + type_0 + " // type@"@
                        + dec(as_u16(b) as nat),
                ),
            },
        },
    }
}

/// The text `op vA, field // field@B`, or the failure of what
/// cannot be resolved.
#[verifier::opaque]
pub open spec fn register_field_strict(inst: Instruction, bytes: Seq<u8>) -> Result<
    Seq<char>,
    Failure,
> {
    match operand_b(inst) {
        Err(e) => Err(Failure::Is(e)),
        Ok(b) => match operand_a(inst) {
            Err(e) => Err(Failure::Is(e)),
            Ok(a) => match field_opt_at(bytes, as_u32(b), prettify::Field::WithType) {
                Err(e) => Err(Failure::Is(e)),
                Ok(field_0) => Ok(
                    inst.spec_name()@ + " v"@ + signed_dec(a as int) + ", "@ + field_0
                        + " // field@"@ + dec(as_u32(b) as nat),
                ),
            },
        },
    }
}

/// The text `op vA, vB, field // field@C`, or the failure of what
/// cannot be resolved.
#[verifier::opaque]
pub open spec fn two_registers_field_strict(inst: Instruction, bytes: Seq<u8>) -> Result<
    Seq<char>,
    Failure,
> {
    match operand_c(inst) {
        Err(e) => Err(Failure::Is(e)),
        Ok(c) => match operand_a(inst) {
            Err(e) => Err(Failure::Is(e)),
            Ok(a) => match operand_b(inst) {
                Err(e) => Err(Failure::Is(e)),
                Ok(b) => match field_opt_at(bytes, as_u32(c), prettify::Field::WithType) {
                    Err(e) => Err(Failure::Is(e)),
                    Ok(field_0) => Ok(
                        inst.spec_name()@ + " v"@ + signed_dec(a as int) + ", v"@
                            + signed_dec(b as int) + ", "@ + field_0 + " // field@"@
                            + dec(as_u32(c) as nat),
                    ),
                },
            },
        },
    }
}

/// The text `op vA, vB, type // type@C`, or the failure of what
/// cannot be resolved.
#[verifier::opaque]
pub open spec fn two_registers_type_strict(inst: Instruction, bytes: Seq<u8>) -> Result<
    Seq<char>,
    Failure,
> {
    match operand_c(inst) {
        Err(e) => Err(Failure::Is(e)),
        Ok(c) => match operand_a(inst) {
            Err(e) => Err(Failure::Is(e)),
            Ok(a) => match operand_b(inst) {
                Err(e) => Err(Failure::Is(e)),
                Ok(b) => match type_opt_at(bytes, as_u16(c)) {
                    Err(e) => Err(Failure::Is(e)),
                    Ok(type_0) => Ok(
                        inst.spec_name()@ + " v"@ + signed_dec(a as int) + ", v"@
                            + signed_dec(b as int) + ", "@ + type_0 + " // type@"@
                            + dec(as_u32(c) as nat),
                    ),
                },
            },
        },
    }
}

/// The text `op vA, "string" // string@B`, the index unsigned, or the failure of what
/// cannot be resolved.
#[verifier::opaque]
pub open spec fn register_wide_string_strict(inst: Instruction, bytes: Seq<u8>) -> Result<
    Seq<char>,
    Failure,
> {
    match operand_b(inst) {
        Err(e) => Err(Failure::Is(e)),
        Ok(b) => match operand_a(inst) {
            Err(e) => Err(Failure::Is(e)),
            Ok(a) => match string_lossy_at(bytes, as_u32(b)) {
                Err(e) => Err(Failure::Is(e)),
                Ok(string_0) => Ok(
                    inst.spec_name()@ + " v"@ + signed_dec(a as int) + ", "@ + debug_text(string_0)
                        + " // string@"@ + dec(as_u32(b) as nat),
                ),
            },
        },
    }
}

/// The text `op {regs}, type // type@B`, or the failure of what
/// cannot be resolved.
#[verifier::opaque]
pub open spec fn list_type_strict(inst: Instruction, bytes: Seq<u8>) -> Result<
    Seq<char>,
    Failure,
> {
    match operand_var_args(inst) {
        Err(e) => Err(Failure::Is(e)),
        Ok((count, regs)) => match operand_b(inst) {
            Err(e) => Err(Failure::Is(e)),
            Ok(b) => match type_opt_at(bytes, as_u16(b)) {
                Err(e) => Err(Failure::Is(e)),
                Ok(type_0) => Ok(
                    inst.spec_name()@ + " {"@ + registers_text(regs, regs.len()) + "}, "@ + type_0
                        + " // type@"@ + dec(as_u32(b) as nat),
                ),
            },
        },
    }
}

/// The text `op {regs}, method // method@B`, or the failure of what
/// cannot be resolved.
#[verifier::opaque]
pub open spec fn list_method_strict(inst: Instruction, bytes: Seq<u8>) -> Result<
    Seq<char>,
    Failure,
> {
    match operand_var_args(inst) {
        Err(e) => Err(Failure::Is(e)),
        Ok((count, regs)) => match operand_b(inst) {
            Err(e) => Err(Failure::Is(e)),
            Ok(b) => match method_opt_at(bytes, as_u32(b), prettify::Method::WithSig) {
                Err(f) => Err(f),
                Ok(method_0) => Ok(
                    inst.spec_name()@ + " {"@ + registers_text(regs, regs.len()) + "}, "@ + method_0
                        + " // method@"@ + dec(as_u32(b) as nat),
                ),
            },
        },
    }
}

/// The text `op {vFirst .. vLast}, method // method@B`, or the failure of what
/// cannot be resolved.
#[verifier::opaque]
pub open spec fn range_method_strict(inst: Instruction, bytes: Seq<u8>) -> Result<
    Seq<char>,
    Failure,
> {
    match operand_args_range(inst) {
        Err(e) => Err(Failure::Is(e)),
        Ok((first, last)) => match operand_b(inst) {
            Err(e) => Err(Failure::Is(e)),
            Ok(b) => match method_opt_at(bytes, as_u32(b), prettify::Method::WithSig) {
                Err(f) => Err(f),
                Ok(method_0) => Ok(
                    inst.spec_name()@ + " {v"@ + dec(first as nat) + " .. v"@ + dec(last as nat)
                        + "}, "@ + method_0 + " // method@"@ + dec(as_u32(b) as nat),
                ),
            },
        },
    }
}

/// The text `op {regs}, method, shorty // method@B, proto@H`, or the failure of what
/// cannot be resolved.
#[verifier::opaque]
pub open spec fn list_method_shorty_strict(inst: Instruction, bytes: Seq<u8>) -> Result<
    Seq<char>,
    Failure,
> {
    match operand_var_args(inst) {
        Err(e) => Err(Failure::Is(e)),
        Ok((count, regs)) => match operand_b(inst) {
            Err(e) => Err(Failure::Is(e)),
            Ok(b) => match operand_h(inst) {
                Err(e) => Err(Failure::Is(e)),
                Ok(h) => match shorty_lossy_at(bytes, as_u16(h)) {
                    Err(e) => Err(Failure::Is(e)),
                    Ok(shorty) => match method_opt_at(bytes, as_u32(b), prettify::Method::WithSig) {
                        Err(f) => Err(f),
                        Ok(method_0) => Ok(
                            inst.spec_name()@ + " {"@ + registers_text(regs, regs.len()) + "}, "@
                                + method_0 + ", "@ + shorty + " // method@"@ + dec(as_u32(b) as nat)
                                + ", proto@"@ + dec(as_u32(h) as nat),
                        ),
                    },
                },
            },
        },
    }
}

/// The text `op {vFirst .. vLast}, method, shorty // method@B, proto@H`, or the failure of what
/// cannot be resolved.
#[verifier::opaque]
pub open spec fn range_method_shorty_strict(inst: Instruction, bytes: Seq<u8>) -> Result<
    Seq<char>,
    Failure,
> {
    match operand_args_range(inst) {
        Err(e) => Err(Failure::Is(e)),
        Ok((first, last)) => match operand_b(inst) {
            Err(e) => Err(Failure::Is(e)),
            Ok(b) => match operand_h(inst) {
                Err(e) => Err(Failure::Is(e)),
                Ok(h) => match shorty_lossy_at(bytes, as_u16(h)) {
                    Err(e) => Err(Failure::Is(e)),
                    Ok(shorty) => match method_opt_at(bytes, as_u32(b), prettify::Method::WithSig) {
                        Err(f) => Err(f),
                        Ok(method_0) => Ok(
                            inst.spec_name()@ + " {v"@ + dec(first as nat) + " .. v"@
                                + dec(last as nat) + "}, "@ + method_0 + ", "@ + shorty
                                + " // method@"@ + dec(as_u32(b) as nat) + ", proto@"@
                                + dec(as_u32(h) as nat),
                        ),
                    },
                },
            },
        },
    }
}

/// A text that needs no file, with its error as a failure.
pub open spec fn lifted(r: Result<Seq<char>, DexError>) -> Result<Seq<char>, Failure> {
    match r {
        Ok(text) => Ok(text),
        Err(e) => Err(Failure::Is(e)),
    }
}

/// The text of an instruction against a file, as its format lays it out,
/// with every index resolved to what it refers to. An index that cannot be
/// resolved is a failure.
pub open spec fn instruction_text_strict(inst: Instruction, bytes: Seq<u8>) -> Result<
    Seq<char>,
    Failure,
> {
    let opcode = inst.spec_opcode();
    if opcode == Code::NOP {
        Ok(payload_name(inst))
    } else {
        match inst.spec_format() {
            Format::k21c => if opcode == Code::CONST_STRING {
                register_string_strict(inst, bytes)
            } else if class_op(opcode) {
                register_type_strict(inst, bytes)
            } else if static_field_op(opcode) {
                register_field_strict(inst, bytes)
            } else {
                lifted(register_thing(inst))
            },
            Format::k22c => if instance_field_op(opcode) {
                two_registers_field_strict(inst, bytes)
            } else if opcode == Code::NEW_ARRAY || opcode == Code::INSTANCE_OF {
                two_registers_type_strict(inst, bytes)
            } else {
                lifted(two_registers_thing(inst))
            },
            Format::k31c => if opcode == Code::CONST_STRING_JUMBO {
                register_wide_string_strict(inst, bytes)
            } else {
                lifted(register_wide_thing(inst))
            },
            Format::k35c => if opcode == Code::FILLED_NEW_ARRAY {
                list_type_strict(inst, bytes)
            } else if invoke_op(opcode) {
                list_method_strict(inst, bytes)
            } else if opcode == Code::INVOKE_CUSTOM {
                lifted(list_call_site(inst))
            } else {
                lifted(list_thing(inst))
            },
            Format::k3rc => if invoke_range_op(opcode) {
                range_method_strict(inst, bytes)
            } else if opcode == Code::INVOKE_CUSTOM_RANGE {
                lifted(range_call_site(inst))
            } else {
                lifted(range_thing(inst))
            },
            Format::k45cc => list_method_shorty_strict(inst, bytes),
            Format::k4rcc => if opcode == Code::INVOKE_POLYMORPHIC_RANGE {
                range_method_shorty_strict(inst, bytes)
            } else {
                lifted(range_method_proto(inst))
            },
            _ => lifted(instruction_text(inst, None)),
        }
    }
}

/// The bytes of the file that an instruction is shown against, if any.
pub open spec fn file_bytes(dex_file: Option<&DexFile>) -> Option<Seq<u8>> {
    match dex_file {
        Some(dex) => Some(dex.bytes()),
        None => None,
    }
}

impl<'a> Instruction<'a> {
    fn plain_name_text(&self) -> (r: Result<String, DexError>)
        ensures
            is_text(r, plain_name(*self)),
    {
        proof {
            reveal(plain_name);
        }
        let mut out = String::from_str(self.name());
        Ok(out)
    }

    fn two_registers_text(&self) -> (r: Result<String, DexError>)
        ensures
            is_text(r, two_registers(*self)),
    {
        proof {
            reveal(two_registers);
        }
        let a = vreg::A(self)?;
        let b = vreg::B(self)?;
        let mut out = String::from_str(self.name());
        out.append(" v");
        push_signed(&mut out, a as i64);
        out.append(", v");
        push_signed(&mut out, b as i64);
        Ok(out)
    }

    fn register_literal_text(&self) -> (r: Result<String, DexError>)
        ensures
            is_text(r, register_literal(*self)),
    {
        proof {
            reveal(register_literal);
        }
        let a = vreg::A(self)?;
        let b = vreg::B(self)?;
        let mut out = String::from_str(self.name());
        out.append(" v");
        push_signed(&mut out, a as i64);
        out.append(", #");
        push_plus(&mut out, b as i64);
        Ok(out)
    }

    fn one_register_text(&self) -> (r: Result<String, DexError>)
        ensures
            is_text(r, one_register(*self)),
    {
        proof {
            reveal(one_register);
        }
        let a = vreg::A(self)?;
        let mut out = String::from_str(self.name());
        out.append(" v");
        push_signed(&mut out, a as i64);
        Ok(out)
    }

    fn branch_text(&self) -> (r: Result<String, DexError>)
        ensures
            is_text(r, branch(*self)),
    {
        proof {
            reveal(branch);
        }
        let a = vreg::A(self)?;
        let mut out = String::from_str(self.name());
        out.append(" ");
        push_plus(&mut out, a as i64);
        Ok(out)
    }

    fn register_branch_text(&self) -> (r: Result<String, DexError>)
        ensures
            is_text(r, register_branch(*self)),
    {
        proof {
            reveal(register_branch);
        }
        let a = vreg::A(self)?;
        let b = vreg::B(self)?;
        let mut out = String::from_str(self.name());
        out.append(" v");
        push_signed(&mut out, a as i64);
        out.append(", ");
        push_plus(&mut out, b as i64);
        Ok(out)
    }

    fn high16_int_text(&self) -> (r: Result<String, DexError>)
        ensures
            is_text(r, high16_int(*self)),
    {
        proof {
            reveal(high16_int);
        }
        let b = vreg::B(self)?;
        let a = vreg::A(self)?;
        let mut out = String::from_str(self.name());
        out.append(" v");
        push_signed(&mut out, a as i64);
        out.append(", #int ");
        push_plus_unsigned(&mut out, to_high16(b) as u64);
        out.append(" // ");
        push_hex(&mut out, to_high16(b) as u64);
        Ok(out)
    }

    fn high16_long_text(&self) -> (r: Result<String, DexError>)
        ensures
            is_text(r, high16_long(*self)),
    {
        proof {
            reveal(high16_long);
        }
        let b = vreg::B(self)?;
        let a = vreg::A(self)?;
        let mut out = String::from_str(self.name());
        out.append(" v");
        push_signed(&mut out, a as i64);
        out.append(", #long ");
        push_plus_unsigned(&mut out, to_high48(b));
        out.append(" // ");
        push_hex(&mut out, to_high48(b));
        Ok(out)
    }

    fn register_thing_text(&self) -> (r: Result<String, DexError>)
        ensures
            is_text(r, register_thing(*self)),
    {
        proof {
            reveal(register_thing);
        }
        let a = vreg::A(self)?;
        let b = vreg::B(self)?;
        let mut out = String::from_str(self.name());
        out.append(" v");
        push_signed(&mut out, a as i64);
        out.append(", thing@");
        push_signed(&mut out, b as i64);
        Ok(out)
    }

    fn three_registers_text(&self) -> (r: Result<String, DexError>)
        ensures
            is_text(r, three_registers(*self)),
    {
        proof {
            reveal(three_registers);
        }
        let a = vreg::A(self)?;
        let b = vreg::B(self)?;
        let c = vreg::C(self)?;
        let mut out = String::from_str(self.name());
        out.append(" v");
        push_signed(&mut out, a as i64);
        out.append(", v");
        push_signed(&mut out, b as i64);
        out.append(", v");
        push_signed(&mut out, c as i64);
        Ok(out)
    }

    fn two_registers_literal_text(&self) -> (r: Result<String, DexError>)
        ensures
            is_text(r, two_registers_literal(*self)),
    {
        proof {
            reveal(two_registers_literal);
        }
        let a = vreg::A(self)?;
        let b = vreg::B(self)?;
        let c = vreg::C(self)?;
        let mut out = String::from_str(self.name());
        out.append(" v");
        push_signed(&mut out, a as i64);
        out.append(", v");
        push_signed(&mut out, b as i64);
        out.append(", #");
        push_plus(&mut out, c as i64);
        Ok(out)
    }

    fn two_registers_branch_text(&self) -> (r: Result<String, DexError>)
        ensures
            is_text(r, two_registers_branch(*self)),
    {
        proof {
            reveal(two_registers_branch);
        }
        let a = vreg::A(self)?;
        let b = vreg::B(self)?;
        let c = vreg::C(self)?;
        let mut out = String::from_str(self.name());
        out.append(" v");
        push_signed(&mut out, a as i64);
        out.append(", v");
        push_signed(&mut out, b as i64);
        out.append(", ");
        push_plus(&mut out, c as i64);
        Ok(out)
    }

    fn two_registers_thing_text(&self) -> (r: Result<String, DexError>)
        ensures
            is_text(r, two_registers_thing(*self)),
    {
        proof {
            reveal(two_registers_thing);
        }
        let c = vreg::C(self)?;
        let a = vreg::A(self)?;
        let b = vreg::B(self)?;
        let mut out = String::from_str(self.name());
        out.append(" v");
        push_signed(&mut out, a as i64);
        out.append(", v");
        push_signed(&mut out, b as i64);
        out.append(", thing@");
        push_dec(&mut out, to_u32(c) as u64);
        Ok(out)
    }

    fn register_wide_thing_text(&self) -> (r: Result<String, DexError>)
        ensures
            is_text(r, register_wide_thing(*self)),
    {
        proof {
            reveal(register_wide_thing);
        }
        let b = vreg::B(self)?;
        let a = vreg::A(self)?;
        let mut out = String::from_str(self.name());
        out.append(" v");
        push_signed(&mut out, a as i64);
        out.append(", thing@");
        push_dec(&mut out, to_u32(b) as u64);
        Ok(out)
    }

    fn list_call_site_text(&self) -> (r: Result<String, DexError>)
        ensures
            is_text(r, list_call_site(*self)),
    {
        proof {
            reveal(list_call_site);
        }
        let list = vreg::var_args(self)?;
        let b = vreg::B(self)?;
        let mut out = String::from_str(self.name());
        out.append(" {");
        push_registers(&mut out, &list.arg);
        out.append("}, // call_site@");
        push_dec(&mut out, to_u32(b) as u64);
        Ok(out)
    }

    fn list_thing_text(&self) -> (r: Result<String, DexError>)
        ensures
            is_text(r, list_thing(*self)),
    {
        proof {
            reveal(list_thing);
        }
        let list = vreg::var_args(self)?;
        let b = vreg::B(self)?;
        let mut out = String::from_str(self.name());
        out.append(" {");
        push_registers(&mut out, &list.arg);
        out.append("}, thing@");
        push_dec(&mut out, to_u32(b) as u64);
        Ok(out)
    }

    fn range_call_site_text(&self) -> (r: Result<String, DexError>)
        ensures
            is_text(r, range_call_site(*self)),
    {
        proof {
            reveal(range_call_site);
        }
        let (first, last) = vreg::range_bounds(self)?;
        let b = vreg::B(self)?;
        let mut out = String::from_str(self.name());
        out.append(" {v");
        push_dec(&mut out, first as u64);
        out.append(" .. v");
        push_dec(&mut out, last as u64);
        out.append("}, // call_site@");
        push_dec(&mut out, to_u32(b) as u64);
        Ok(out)
    }

    fn range_thing_text(&self) -> (r: Result<String, DexError>)
        ensures
            is_text(r, range_thing(*self)),
    {
        proof {
            reveal(range_thing);
        }
        let (first, last) = vreg::range_bounds(self)?;
        let b = vreg::B(self)?;
        let mut out = String::from_str(self.name());
        out.append(" {v");
        push_dec(&mut out, first as u64);
        out.append(" .. v");
        push_dec(&mut out, last as u64);
        out.append("} thing@");
        push_dec(&mut out, to_u32(b) as u64);
        Ok(out)
    }

    fn list_method_proto_text(&self) -> (r: Result<String, DexError>)
        ensures
            is_text(r, list_method_proto(*self)),
    {
        proof {
            reveal(list_method_proto);
        }
        let list = vreg::var_args(self)?;
        let b = vreg::B(self)?;
        let h = vreg::H(self)?;
        let mut out = String::from_str(self.name());
        out.append(" {");
        push_registers(&mut out, &list.arg);
        out.append("}, method@");
        push_dec(&mut out, to_u32(b) as u64);
        out.append(", proto@");
        push_dec(&mut out, to_u32(h) as u64);
        Ok(out)
    }

    fn range_method_proto_text(&self) -> (r: Result<String, DexError>)
        ensures
            is_text(r, range_method_proto(*self)),
    {
        proof {
            reveal(range_method_proto);
        }
        let (first, last) = vreg::range_bounds(self)?;
        let b = vreg::B(self)?;
        let h = vreg::H(self)?;
        let mut out = String::from_str(self.name());
        out.append(" {v");
        push_dec(&mut out, first as u64);
        out.append(" .. v");
        push_dec(&mut out, last as u64);
        out.append("}, method@");
        push_dec(&mut out, to_u32(b) as u64);
        out.append(", proto@");
        push_dec(&mut out, to_u32(h) as u64);
        Ok(out)
    }

    fn register_wide_literal_text(&self) -> (r: Result<String, DexError>)
        ensures
            is_text(r, register_wide_literal(*self)),
    {
        proof {
            reveal(register_wide_literal);
        }
        let a = vreg::A(self)?;
        let wide = vreg::wide_b(self)?;
        let mut out = String::from_str(self.name());
        out.append(" v");
        push_signed(&mut out, a as i64);
        out.append(", #");
        push_plus_unsigned(&mut out, wide);
        Ok(out)
    }

    fn register_string_text(&self, dex: &DexFile<'_>) -> (r: Result<String, DexError>)
        ensures
            is_text(r, register_string(*self, dex.bytes())),
    {
        proof {
            reveal(register_string);
        }
        let b = vreg::B(self)?;
        let a = vreg::A(self)?;
        let mut out = String::from_str(self.name());
        out.append(" v");
        push_signed(&mut out, a as i64);
        out.append(", ");
        out.append(debug_string(dex.pretty_utf16_at(to_u32(b)).as_str()).as_str());
        out.append(" // string@");
        push_signed(&mut out, b as i64);
        Ok(out)
    }

    fn register_type_text(&self, dex: &DexFile<'_>) -> (r: Result<String, DexError>)
        ensures
            is_text(r, register_type(*self, dex.bytes())),
    {
        proof {
            reveal(register_type);
        }
        let b = vreg::B(self)?;
        let a = vreg::A(self)?;
        let mut out = String::from_str(self.name());
        out.append(" v");
        push_signed(&mut out, a as i64);
        out.append(", ");
        out.append(dex.pretty_type_at(to_u16(b)).as_str());
        out.append(" // type@");
        push_dec(&mut out, to_u16(b) as u64);
        Ok(out)
    }

    fn register_field_text(&self, dex: &DexFile<'_>) -> (r: Result<String, DexError>)
        ensures
            is_text(r, register_field(*self, dex.bytes())),
    {
        proof {
            reveal(register_field);
        }
        let b = vreg::B(self)?;
        let a = vreg::A(self)?;
        let mut out = String::from_str(self.name());
        out.append(" v");
        push_signed(&mut out, a as i64);
        out.append(", ");
        out.append(dex.pretty_field_at(to_u32(b), prettify::Field::WithType).as_str());
        out.append(" // field@");
        push_dec(&mut out, to_u32(b) as u64);
        Ok(out)
    }

    fn two_registers_field_text(&self, dex: &DexFile<'_>) -> (r: Result<String, DexError>)
        ensures
            is_text(r, two_registers_field(*self, dex.bytes())),
    {
        proof {
            reveal(two_registers_field);
        }
        let c = vreg::C(self)?;
        let a = vreg::A(self)?;
        let b = vreg::B(self)?;
        let mut out = String::from_str(self.name());
        out.append(" v");
        push_signed(&mut out, a as i64);
        out.append(", v");
        push_signed(&mut out, b as i64);
        out.append(", ");
        out.append(dex.pretty_field_at(to_u32(c), prettify::Field::WithType).as_str());
        out.append(" // field@");
        push_dec(&mut out, to_u32(c) as u64);
        Ok(out)
    }

    fn two_registers_type_text(&self, dex: &DexFile<'_>) -> (r: Result<String, DexError>)
        ensures
            is_text(r, two_registers_type(*self, dex.bytes())),
    {
        proof {
            reveal(two_registers_type);
        }
        let c = vreg::C(self)?;
        let a = vreg::A(self)?;
        let b = vreg::B(self)?;
        let mut out = String::from_str(self.name());
        out.append(" v");
        push_signed(&mut out, a as i64);
        out.append(", v");
        push_signed(&mut out, b as i64);
        out.append(", ");
        out.append(dex.pretty_type_at(to_u16(c)).as_str());
        out.append(" // type@");
        push_dec(&mut out, to_u32(c) as u64);
        Ok(out)
    }

    fn register_wide_string_text(&self, dex: &DexFile<'_>) -> (r: Result<String, DexError>)
        ensures
            is_text(r, register_wide_string(*self, dex.bytes())),
    {
        proof {
            reveal(register_wide_string);
        }
        let b = vreg::B(self)?;
        let a = vreg::A(self)?;
        let mut out = String::from_str(self.name());
        out.append(" v");
        push_signed(&mut out, a as i64);
        out.append(", ");
        out.append(debug_string(dex.pretty_utf16_at(to_u32(b)).as_str()).as_str());
        out.append(" // string@");
        push_dec(&mut out, to_u32(b) as u64);
        Ok(out)
    }

    fn list_type_text(&self, dex: &DexFile<'_>) -> (r: Result<String, DexError>)
        ensures
            is_text(r, list_type(*self, dex.bytes())),
    {
        proof {
            reveal(list_type);
        }
        let list = vreg::var_args(self)?;
        let b = vreg::B(self)?;
        let mut out = String::from_str(self.name());
        out.append(" {");
        push_registers(&mut out, &list.arg);
        out.append("}, ");
        out.append(dex.pretty_type_at(to_u16(b)).as_str());
        out.append(" // type@");
        push_dec(&mut out, to_u32(b) as u64);
        Ok(out)
    }

    fn list_method_text(&self, dex: &DexFile<'_>) -> (r: Result<String, DexError>)
        ensures
            is_text(r, list_method(*self, dex.bytes())),
    {
        proof {
            reveal(list_method);
        }
        let list = vreg::var_args(self)?;
        let b = vreg::B(self)?;
        let mut out = String::from_str(self.name());
        out.append(" {");
        push_registers(&mut out, &list.arg);
        out.append("}, ");
        out.append(dex.pretty_method_at(to_u32(b), prettify::Method::WithSig).as_str());
        out.append(" // method@");
        push_dec(&mut out, to_u32(b) as u64);
        Ok(out)
    }

    fn range_method_text(&self, dex: &DexFile<'_>) -> (r: Result<String, DexError>)
        ensures
            is_text(r, range_method(*self, dex.bytes())),
    {
        proof {
            reveal(range_method);
        }
        let (first, last) = vreg::range_bounds(self)?;
        let b = vreg::B(self)?;
        let mut out = String::from_str(self.name());
        out.append(" {v");
        push_dec(&mut out, first as u64);
        out.append(" .. v");
        push_dec(&mut out, last as u64);
        out.append("}, ");
        out.append(dex.pretty_method_at(to_u32(b), prettify::Method::WithSig).as_str());
        out.append(" // method@");
        push_dec(&mut out, to_u32(b) as u64);
        Ok(out)
    }

    fn list_method_shorty_text(&self, dex: &DexFile<'_>) -> (r: Result<String, DexError>)
        ensures
            is_text(r, list_method_shorty(*self, dex.bytes())),
    {
        proof {
            reveal(list_method_shorty);
        }
        let list = vreg::var_args(self)?;
        let b = vreg::B(self)?;
        let h = vreg::H(self)?;
        let shorty = dex.get_shorty_lossy_at(to_u16(h))?;
        let mut out = String::from_str(self.name());
        out.append(" {");
        push_registers(&mut out, &list.arg);
        out.append("}, ");
        out.append(dex.pretty_method_at(to_u32(b), prettify::Method::WithSig).as_str());
        out.append(", ");
        out.append(shorty.as_str());
        out.append(" // method@");
        push_dec(&mut out, to_u32(b) as u64);
        out.append(", proto@");
        push_dec(&mut out, to_u32(h) as u64);
        Ok(out)
    }

    fn range_method_shorty_text(&self, dex: &DexFile<'_>) -> (r: Result<String, DexError>)
        ensures
            is_text(r, range_method_shorty(*self, dex.bytes())),
    {
        proof {
            reveal(range_method_shorty);
        }
        let (first, last) = vreg::range_bounds(self)?;
        let b = vreg::B(self)?;
        let h = vreg::H(self)?;
        let shorty = dex.get_shorty_lossy_at(to_u16(h))?;
        let mut out = String::from_str(self.name());
        out.append(" {v");
        push_dec(&mut out, first as u64);
        out.append(" .. v");
        push_dec(&mut out, last as u64);
        out.append("}, ");
        out.append(dex.pretty_method_at(to_u32(b), prettify::Method::WithSig).as_str());
        out.append(", ");
        out.append(shorty.as_str());
        out.append(" // method@");
        push_dec(&mut out, to_u32(b) as u64);
        out.append(", proto@");
        push_dec(&mut out, to_u32(h) as u64);
        Ok(out)
    }

    fn format_21c(&self, dex_file: Option<&DexFile<'_>>) -> (r: Result<String, DexError>)
        ensures
            is_text(r, text_21c(*self, file_bytes(dex_file))),
    {
        match dex_file {
            Some(dex) => {
                let opcode = self.opcode();
                if opcode == Code::CONST_STRING {
                    self.register_string_text(dex)
                } else if is_class_op(opcode) {
                    self.register_type_text(dex)
                } else if is_static_field_op(opcode) {
                    self.register_field_text(dex)
                } else {
                    self.register_thing_text()
                }
            },
            None => self.register_thing_text(),
        }
    }

    fn format_22c(&self, dex_file: Option<&DexFile<'_>>) -> (r: Result<String, DexError>)
        ensures
            is_text(r, text_22c(*self, file_bytes(dex_file))),
    {
        match dex_file {
            Some(dex) => {
                let opcode = self.opcode();
                if is_instance_field_op(opcode) {
                    self.two_registers_field_text(dex)
                } else if opcode == Code::NEW_ARRAY || opcode == Code::INSTANCE_OF {
                    self.two_registers_type_text(dex)
                } else {
                    self.two_registers_thing_text()
                }
            },
            None => self.two_registers_thing_text(),
        }
    }

    fn format_31c(&self, dex_file: Option<&DexFile<'_>>) -> (r: Result<String, DexError>)
        ensures
            is_text(r, text_31c(*self, file_bytes(dex_file))),
    {
        match dex_file {
            Some(dex) => {
                if self.opcode() == Code::CONST_STRING_JUMBO {
                    self.register_wide_string_text(dex)
                } else {
                    self.register_wide_thing_text()
                }
            },
            None => self.register_wide_thing_text(),
        }
    }

    fn format_35c(&self, dex_file: Option<&DexFile<'_>>) -> (r: Result<String, DexError>)
        ensures
            is_text(r, text_35c(*self, file_bytes(dex_file))),
    {
        let opcode = self.opcode();
        match dex_file {
            Some(dex) => {
                if opcode == Code::FILLED_NEW_ARRAY {
                    return self.list_type_text(dex);
                }
                if is_invoke_op(opcode) {
                    return self.list_method_text(dex);
                }
            },
            None => {},
        }
        if opcode == Code::INVOKE_CUSTOM {
            self.list_call_site_text()
        } else {
            self.list_thing_text()
        }
    }

    fn format_3rc(&self, dex_file: Option<&DexFile<'_>>) -> (r: Result<String, DexError>)
        ensures
            is_text(r, text_3rc(*self, file_bytes(dex_file))),
    {
        let opcode = self.opcode();
        match dex_file {
            Some(dex) => {
                if is_invoke_range_op(opcode) {
                    return self.range_method_text(dex);
                }
            },
            None => {},
        }
        if opcode == Code::INVOKE_CUSTOM_RANGE {
            self.range_call_site_text()
        } else {
            self.range_thing_text()
        }
    }

    fn format_45cc(&self, dex_file: Option<&DexFile<'_>>) -> (r: Result<String, DexError>)
        ensures
            is_text(r, text_45cc(*self, file_bytes(dex_file))),
    {
        match dex_file {
            Some(dex) => self.list_method_shorty_text(dex),
            None => self.list_method_proto_text(),
        }
    }

    fn format_4rcc(&self, dex_file: Option<&DexFile<'_>>) -> (r: Result<String, DexError>)
        ensures
            is_text(r, text_4rcc(*self, file_bytes(dex_file))),
    {
        match dex_file {
            Some(dex) => {
                if self.opcode() == Code::INVOKE_POLYMORPHIC_RANGE {
                    return self.range_method_shorty_text(dex);
                }
            },
            None => {},
        }
        self.range_method_proto_text()
    }

    fn register_string_strict_text(&self, dex: &DexFile<'_>) -> (r: Result<String, DexError>)
        ensures
            is_named(
                r,
                register_string_strict(*self, dex.bytes()),
                dex.bytes(),
                dex.spec_location(),
            ),
    {
        proof {
            reveal(register_string_strict);
        }
        let b = vreg::B(self)?;
        let a = vreg::A(self)?;
        let string_0 = dex.get_utf16_str_lossy_at(to_u32(b))?;
        let mut out = String::from_str(self.name());
        out.append(" v");
        push_signed(&mut out, a as i64);
        out.append(", ");
        out.append(debug_string(string_0.as_str()).as_str());
        out.append(" // string@");
        push_signed(&mut out, b as i64);
        Ok(out)
    }

    fn register_type_strict_text(&self, dex: &DexFile<'_>) -> (r: Result<String, DexError>)
        ensures
            is_named(
                r,
                register_type_strict(*self, dex.bytes()),
                dex.bytes(),
                dex.spec_location(),
            ),
    {
        proof {
            reveal(register_type_strict);
        }
        let b = vreg::B(self)?;
        let a = vreg::A(self)?;
        let type_0 = dex.pretty_type_opt_at(to_u16(b))?;
        let mut out = String::from_str(self.name());
        out.append(" v");
        push_signed(&mut out, a as i64);
        out.append(", ");
        out.append(type_0.as_str());
        out.append(" // type@");
        push_dec(&mut out, to_u16(b) as u64);
        Ok(out)
    }

    fn register_field_strict_text(&self, dex: &DexFile<'_>) -> (r: Result<String, DexError>)
        ensures
            is_named(
                r,
                register_field_strict(*self, dex.bytes()),
                dex.bytes(),
                dex.spec_location(),
            ),
    {
        proof {
            reveal(register_field_strict);
        }
        let b = vreg::B(self)?;
        let a = vreg::A(self)?;
        let field_0 = dex.pretty_field_opt_at(to_u32(b), prettify::Field::WithType)?;
        let mut out = String::from_str(self.name());
        out.append(" v");
        push_signed(&mut out, a as i64);
        out.append(", ");
        out.append(field_0.as_str());
        out.append(" // field@");
        push_dec(&mut out, to_u32(b) as u64);
        Ok(out)
    }

    fn two_registers_field_strict_text(&self, dex: &DexFile<'_>) -> (r: Result<String, DexError>)
        ensures
            is_named(
                r,
                two_registers_field_strict(*self, dex.bytes()),
                dex.bytes(),
                dex.spec_location(),
            ),
    {
        proof {
            reveal(two_registers_field_strict);
        }
        let c = vreg::C(self)?;
        let a = vreg::A(self)?;
        let b = vreg::B(self)?;
        let field_0 = dex.pretty_field_opt_at(to_u32(c), prettify::Field::WithType)?;
        let mut out = String::from_str(self.name());
        out.append(" v");
        push_signed(&mut out, a as i64);
        out.append(", v");
        push_signed(&mut out, b as i64);
        out.append(", ");
        out.append(field_0.as_str());
        out.append(" // field@");
        push_dec(&mut out, to_u32(c) as u64);
        Ok(out)
    }

    fn two_registers_type_strict_text(&self, dex: &DexFile<'_>) -> (r: Result<String, DexError>)
        ensures
            is_named(
                r,
                two_registers_type_strict(*self, dex.bytes()),
                dex.bytes(),
                dex.spec_location(),
            ),
    {
        proof {
            reveal(two_registers_type_strict);
        }
        let c = vreg::C(self)?;
        let a = vreg::A(self)?;
        let b = vreg::B(self)?;
        let type_0 = dex.pretty_type_opt_at(to_u16(c))?;
        let mut out = String::from_str(self.name());
        out.append(" v");
        push_signed(&mut out, a as i64);
        out.append(", v");
        push_signed(&mut out, b as i64);
        out.append(", ");
        out.append(type_0.as_str());
        out.append(" // type@");
        push_dec(&mut out, to_u32(c) as u64);
        Ok(out)
    }

    fn register_wide_string_strict_text(&self, dex: &DexFile<'_>) -> (r: Result<String, DexError>)
        ensures
            is_named(
                r,
                register_wide_string_strict(*self, dex.bytes()),
                dex.bytes(),
                dex.spec_location(),
            ),
    {
        proof {
            reveal(register_wide_string_strict);
        }
        let b = vreg::B(self)?;
        let a = vreg::A(self)?;
        let string_0 = dex.get_utf16_str_lossy_at(to_u32(b))?;
        let mut out = String::from_str(self.name());
        out.append(" v");
        push_signed(&mut out, a as i64);
        out.append(", ");
        out.append(debug_string(string_0.as_str()).as_str());
        out.append(" // string@");
        push_dec(&mut out, to_u32(b) as u64);
        Ok(out)
    }

    fn list_type_strict_text(&self, dex: &DexFile<'_>) -> (r: Result<String, DexError>)
        ensures
            is_named(
                r,
                list_type_strict(*self, dex.bytes()),
                dex.bytes(),
                dex.spec_location(),
            ),
    {
        proof {
            reveal(list_type_strict);
        }
        let list = vreg::var_args(self)?;
        let b = vreg::B(self)?;
        let type_0 = dex.pretty_type_opt_at(to_u16(b))?;
        let mut out = String::from_str(self.name());
        out.append(" {");
        push_registers(&mut out, &list.arg);
        out.append("}, ");
        out.append(type_0.as_str());
        out.append(" // type@");
        push_dec(&mut out, to_u32(b) as u64);
        Ok(out)
    }

    fn list_method_strict_text(&self, dex: &DexFile<'_>) -> (r: Result<String, DexError>)
        ensures
            is_named(
                r,
                list_method_strict(*self, dex.bytes()),
                dex.bytes(),
                dex.spec_location(),
            ),
    {
        proof {
            reveal(list_method_strict);
        }
        let list = vreg::var_args(self)?;
        let b = vreg::B(self)?;
        let method_0 = dex.pretty_method_opt_at(to_u32(b), prettify::Method::WithSig)?;
        let mut out = String::from_str(self.name());
        out.append(" {");
        push_registers(&mut out, &list.arg);
        out.append("}, ");
        out.append(method_0.as_str());
        out.append(" // method@");
        push_dec(&mut out, to_u32(b) as u64);
        Ok(out)
    }

    fn range_method_strict_text(&self, dex: &DexFile<'_>) -> (r: Result<String, DexError>)
        ensures
            is_named(
                r,
                range_method_strict(*self, dex.bytes()),
                dex.bytes(),
                dex.spec_location(),
            ),
    {
        proof {
            reveal(range_method_strict);
        }
        let (first, last) = vreg::range_bounds(self)?;
        let b = vreg::B(self)?;
        let method_0 = dex.pretty_method_opt_at(to_u32(b), prettify::Method::WithSig)?;
        let mut out = String::from_str(self.name());
        out.append(" {v");
        push_dec(&mut out, first as u64);
        out.append(" .. v");
        push_dec(&mut out, last as u64);
        out.append("}, ");
        out.append(method_0.as_str());
        out.append(" // method@");
        push_dec(&mut out, to_u32(b) as u64);
        Ok(out)
    }

    fn list_method_shorty_strict_text(&self, dex: &DexFile<'_>) -> (r: Result<String, DexError>)
        ensures
            is_named(
                r,
                list_method_shorty_strict(*self, dex.bytes()),
                dex.bytes(),
                dex.spec_location(),
            ),
    {
        proof {
            reveal(list_method_shorty_strict);
        }
        let list = vreg::var_args(self)?;
        let b = vreg::B(self)?;
        let h = vreg::H(self)?;
        let shorty = dex.get_shorty_lossy_at(to_u16(h))?;
        let method_0 = dex.pretty_method_opt_at(to_u32(b), prettify::Method::WithSig)?;
        let mut out = String::from_str(self.name());
        out.append(" {");
        push_registers(&mut out, &list.arg);
        out.append("}, ");
        out.append(method_0.as_str());
        out.append(", ");
        out.append(shorty.as_str());
        out.append(" // method@");
        push_dec(&mut out, to_u32(b) as u64);
        out.append(", proto@");
        push_dec(&mut out, to_u32(h) as u64);
        Ok(out)
    }

    fn range_method_shorty_strict_text(&self, dex: &DexFile<'_>) -> (r: Result<String, DexError>)
        ensures
            is_named(
                r,
                range_method_shorty_strict(*self, dex.bytes()),
                dex.bytes(),
                dex.spec_location(),
            ),
    {
        proof {
            reveal(range_method_shorty_strict);
        }
        let (first, last) = vreg::range_bounds(self)?;
        let b = vreg::B(self)?;
        let h = vreg::H(self)?;
        let shorty = dex.get_shorty_lossy_at(to_u16(h))?;
        let method_0 = dex.pretty_method_opt_at(to_u32(b), prettify::Method::WithSig)?;
        let mut out = String::from_str(self.name());
        out.append(" {v");
        push_dec(&mut out, first as u64);
        out.append(" .. v");
        push_dec(&mut out, last as u64);
        out.append("}, ");
        out.append(method_0.as_str());
        out.append(", ");
        out.append(shorty.as_str());
        out.append(" // method@");
        push_dec(&mut out, to_u32(b) as u64);
        out.append(", proto@");
        push_dec(&mut out, to_u32(h) as u64);
        Ok(out)
    }

    fn plain_text(&self, dex: &DexFile<'_>) -> (r: Result<String, DexError>)
        ensures
            is_named(
                r,
                lifted(instruction_text(*self, None)),
                dex.bytes(),
                dex.spec_location(),
            ),
    {
        self.to_string(None)
    }

    /// The text of the instruction against a file, with every index
    /// resolved to what it refers to. Where `to_string` puts a placeholder
    /// for an index that cannot be resolved, this is an error. Without a
    /// file the two give the same. The text is never empty.
    pub fn to_string_opt(&self, dex_file: Option<&DexFile<'_>>) -> (r: Result<String, DexError>)
        ensures
            match dex_file {
                Some(dex) => is_named(
                    r,
                    instruction_text_strict(*self, dex.bytes()),
                    dex.bytes(),
                    dex.spec_location(),
                ),
                None => is_text(r, instruction_text(*self, None)),
            },
            r is Ok ==> r->Ok_0@.len() > 0,
    {
        let dex = match dex_file {
            Some(dex) => dex,
            None => {
                return self.to_string(None);
            },
        };
        proof {
            lemma_strict_text_not_empty(*self, dex.bytes());
        }
        let opcode = self.opcode();
        if opcode == Code::NOP {
            return self.plain_text(dex);
        }
        match self.format() {
            Format::k21c => {
                if opcode == Code::CONST_STRING {
                    self.register_string_strict_text(dex)
                } else if is_class_op(opcode) {
                    self.register_type_strict_text(dex)
                } else if is_static_field_op(opcode) {
                    self.register_field_strict_text(dex)
                } else {
                    self.plain_text(dex)
                }
            },
            Format::k22c => {
                if is_instance_field_op(opcode) {
                    self.two_registers_field_strict_text(dex)
                } else if opcode == Code::NEW_ARRAY || opcode == Code::INSTANCE_OF {
                    self.two_registers_type_strict_text(dex)
                } else {
                    self.plain_text(dex)
                }
            },
            Format::k31c => {
                if opcode == Code::CONST_STRING_JUMBO {
                    self.register_wide_string_strict_text(dex)
                } else {
                    self.plain_text(dex)
                }
            },
            Format::k35c => {
                if opcode == Code::FILLED_NEW_ARRAY {
                    self.list_type_strict_text(dex)
                } else if is_invoke_op(opcode) {
                    self.list_method_strict_text(dex)
                } else {
                    self.plain_text(dex)
                }
            },
            Format::k3rc => {
                if is_invoke_range_op(opcode) {
                    self.range_method_strict_text(dex)
                } else {
                    self.plain_text(dex)
                }
            },
            Format::k45cc => self.list_method_shorty_strict_text(dex),
            Format::k4rcc => {
                if opcode == Code::INVOKE_POLYMORPHIC_RANGE {
                    self.range_method_shorty_strict_text(dex)
                } else {
                    self.plain_text(dex)
                }
            },
            _ => self.plain_text(dex),
        }
    }

    /// The text of the instruction, as its format lays it out. With a file
    /// at hand, indices are resolved to what they refer to. The text is
    /// never empty.
    pub fn to_string(&self, dex_file: Option<&DexFile<'_>>) -> (r: Result<String, DexError>)
        ensures
            is_text(r, instruction_text(*self, file_bytes(dex_file))),
            r is Ok ==> r->Ok_0@.len() > 0,
    {
        proof {
            lemma_text_not_empty(*self, file_bytes(dex_file));
        }
        if self.opcode() == Code::NOP {
            let first = self.raw()[0];
            return Ok(
                String::from_str(
                    if first == 0x0300 {
                        "array-data"
                    } else if first == 0x0100 {
                        "packed-switch"
                    } else if first == 0x0200 {
                        "sparse-switch"
                    } else {
                        self.name()
                    },
                ),
            );
        }
        match self.format() {
            Format::k10x => self.plain_name_text(),
            Format::k12x | Format::k22x | Format::k32x => self.two_registers_text(),
            Format::k11n | Format::k21s | Format::k31i => self.register_literal_text(),
            Format::k11x => self.one_register_text(),
            Format::k10t | Format::k20t | Format::k30t => self.branch_text(),
            Format::k21t | Format::k31t => self.register_branch_text(),
            Format::k21h => {
                if self.opcode() == Code::CONST_HIGH16 {
                    self.high16_int_text()
                } else {
                    self.high16_long_text()
                }
            },
            Format::k21c => self.format_21c(dex_file),
            Format::k23x => self.three_registers_text(),
            Format::k22b | Format::k22s => self.two_registers_literal_text(),
            Format::k22t => self.two_registers_branch_text(),
            Format::k22c => self.format_22c(dex_file),
            Format::k31c => self.format_31c(dex_file),
            Format::k35c => self.format_35c(dex_file),
            Format::k3rc => self.format_3rc(dex_file),
            Format::k45cc => self.format_45cc(dex_file),
            Format::k4rcc => self.format_4rcc(dex_file),
            Format::k51l => self.register_wide_literal_text(),
            Format::kInvalidFormat => Ok(String::from_str("<invalid-opcode-format>")),
        }
    }
}

proof fn lemma_plain_name(inst: Instruction)
    ensures
        plain_name(inst) is Ok ==> plain_name(inst)->Ok_0.len() >= inst.spec_name()@.len(),
{
    reveal(plain_name);
}

proof fn lemma_two_registers(inst: Instruction)
    ensures
        two_registers(inst) is Ok ==> two_registers(inst)->Ok_0.len() >= inst.spec_name()@.len(),
{
    reveal(two_registers);
}

proof fn lemma_register_literal(inst: Instruction)
    ensures
        register_literal(inst) is Ok ==> register_literal(inst)->Ok_0.len() >= inst.spec_name()@.len(),
{
    reveal(register_literal);
}

proof fn lemma_one_register(inst: Instruction)
    ensures
        one_register(inst) is Ok ==> one_register(inst)->Ok_0.len() >= inst.spec_name()@.len(),
{
    reveal(one_register);
}

proof fn lemma_branch(inst: Instruction)
    ensures
        branch(inst) is Ok ==> branch(inst)->Ok_0.len() >= inst.spec_name()@.len(),
{
    reveal(branch);
}

proof fn lemma_register_branch(inst: Instruction)
    ensures
        register_branch(inst) is Ok ==> register_branch(inst)->Ok_0.len() >= inst.spec_name()@.len(),
{
    reveal(register_branch);
}

proof fn lemma_high16_int(inst: Instruction)
    ensures
        high16_int(inst) is Ok ==> high16_int(inst)->Ok_0.len() >= inst.spec_name()@.len(),
{
    reveal(high16_int);
}

proof fn lemma_high16_long(inst: Instruction)
    ensures
        high16_long(inst) is Ok ==> high16_long(inst)->Ok_0.len() >= inst.spec_name()@.len(),
{
    reveal(high16_long);
}

proof fn lemma_register_thing(inst: Instruction)
    ensures
        register_thing(inst) is Ok ==> register_thing(inst)->Ok_0.len() >= inst.spec_name()@.len(),
{
    reveal(register_thing);
}

proof fn lemma_three_registers(inst: Instruction)
    ensures
        three_registers(inst) is Ok ==> three_registers(inst)->Ok_0.len() >= inst.spec_name()@.len(),
{
    reveal(three_registers);
}

proof fn lemma_two_registers_literal(inst: Instruction)
    ensures
        two_registers_literal(inst) is Ok ==> two_registers_literal(inst)->Ok_0.len() >= inst.spec_name()@.len(),
{
    reveal(two_registers_literal);
}

proof fn lemma_two_registers_branch(inst: Instruction)
    ensures
        two_registers_branch(inst) is Ok ==> two_registers_branch(inst)->Ok_0.len() >= inst.spec_name()@.len(),
{
    reveal(two_registers_branch);
}

proof fn lemma_two_registers_thing(inst: Instruction)
    ensures
        two_registers_thing(inst) is Ok ==> two_registers_thing(inst)->Ok_0.len() >= inst.spec_name()@.len(),
{
    reveal(two_registers_thing);
}

proof fn lemma_register_wide_thing(inst: Instruction)
    ensures
        register_wide_thing(inst) is Ok ==> register_wide_thing(inst)->Ok_0.len() >= inst.spec_name()@.len(),
{
    reveal(register_wide_thing);
}

proof fn lemma_list_call_site(inst: Instruction)
    ensures
        list_call_site(inst) is Ok ==> list_call_site(inst)->Ok_0.len() >= inst.spec_name()@.len(),
{
    reveal(list_call_site);
}

proof fn lemma_list_thing(inst: Instruction)
    ensures
        list_thing(inst) is Ok ==> list_thing(inst)->Ok_0.len() >= inst.spec_name()@.len(),
{
    reveal(list_thing);
}

proof fn lemma_range_call_site(inst: Instruction)
    ensures
        range_call_site(inst) is Ok ==> range_call_site(inst)->Ok_0.len() >= inst.spec_name()@.len(),
{
    reveal(range_call_site);
}

proof fn lemma_range_thing(inst: Instruction)
    ensures
        range_thing(inst) is Ok ==> range_thing(inst)->Ok_0.len() >= inst.spec_name()@.len(),
{
    reveal(range_thing);
}

proof fn lemma_list_method_proto(inst: Instruction)
    ensures
        list_method_proto(inst) is Ok ==> list_method_proto(inst)->Ok_0.len() >= inst.spec_name()@.len(),
{
    reveal(list_method_proto);
}

proof fn lemma_range_method_proto(inst: Instruction)
    ensures
        range_method_proto(inst) is Ok ==> range_method_proto(inst)->Ok_0.len() >= inst.spec_name()@.len(),
{
    reveal(range_method_proto);
}

proof fn lemma_register_wide_literal(inst: Instruction)
    ensures
        register_wide_literal(inst) is Ok ==> register_wide_literal(inst)->Ok_0.len() >= inst.spec_name()@.len(),
{
    reveal(register_wide_literal);
}

proof fn lemma_register_string(inst: Instruction, bytes: Seq<u8>)
    ensures
        register_string(inst, bytes) is Ok ==> register_string(inst, bytes)->Ok_0.len() >= inst.spec_name()@.len(),
{
    reveal(register_string);
}

proof fn lemma_register_type(inst: Instruction, bytes: Seq<u8>)
    ensures
        register_type(inst, bytes) is Ok ==> register_type(inst, bytes)->Ok_0.len() >= inst.spec_name()@.len(),
{
    reveal(register_type);
}

proof fn lemma_register_field(inst: Instruction, bytes: Seq<u8>)
    ensures
        register_field(inst, bytes) is Ok ==> register_field(inst, bytes)->Ok_0.len() >= inst.spec_name()@.len(),
{
    reveal(register_field);
}

proof fn lemma_two_registers_field(inst: Instruction, bytes: Seq<u8>)
    ensures
        two_registers_field(inst, bytes) is Ok ==> two_registers_field(inst, bytes)->Ok_0.len() >= inst.spec_name()@.len(),
{
    reveal(two_registers_field);
}

proof fn lemma_two_registers_type(inst: Instruction, bytes: Seq<u8>)
    ensures
        two_registers_type(inst, bytes) is Ok ==> two_registers_type(inst, bytes)->Ok_0.len() >= inst.spec_name()@.len(),
{
    reveal(two_registers_type);
}

proof fn lemma_register_wide_string(inst: Instruction, bytes: Seq<u8>)
    ensures
        register_wide_string(inst, bytes) is Ok ==> register_wide_string(inst, bytes)->Ok_0.len() >= inst.spec_name()@.len(),
{
    reveal(register_wide_string);
}

proof fn lemma_list_type(inst: Instruction, bytes: Seq<u8>)
    ensures
        list_type(inst, bytes) is Ok ==> list_type(inst, bytes)->Ok_0.len() >= inst.spec_name()@.len(),
{
    reveal(list_type);
}

proof fn lemma_list_method(inst: Instruction, bytes: Seq<u8>)
    ensures
        list_method(inst, bytes) is Ok ==> list_method(inst, bytes)->Ok_0.len() >= inst.spec_name()@.len(),
{
    reveal(list_method);
}

proof fn lemma_range_method(inst: Instruction, bytes: Seq<u8>)
    ensures
        range_method(inst, bytes) is Ok ==> range_method(inst, bytes)->Ok_0.len() >= inst.spec_name()@.len(),
{
    reveal(range_method);
}

proof fn lemma_list_method_shorty(inst: Instruction, bytes: Seq<u8>)
    ensures
        list_method_shorty(inst, bytes) is Ok ==> list_method_shorty(inst, bytes)->Ok_0.len() >= inst.spec_name()@.len(),
{
    reveal(list_method_shorty);
}

proof fn lemma_range_method_shorty(inst: Instruction, bytes: Seq<u8>)
    ensures
        range_method_shorty(inst, bytes) is Ok ==> range_method_shorty(inst, bytes)->Ok_0.len() >= inst.spec_name()@.len(),
{
    reveal(range_method_shorty);
}

/// The text of an instruction is never empty: it starts with the name of
/// the opcode or of the payload.
#[verifier::rlimit(50)]
pub proof fn lemma_text_not_empty(inst: Instruction, dex: Option<Seq<u8>>)
    ensures
        instruction_text(inst, dex) is Ok ==> instruction_text(inst, dex)->Ok_0.len() > 0,
{
    lemma_names_not_empty((inst@[0] % 256) as u8);
    reveal_strlit("array-data");
    reveal_strlit("packed-switch");
    reveal_strlit("sparse-switch");
    reveal_strlit("<invalid-opcode-format>");
    lemma_plain_name(inst);
    lemma_two_registers(inst);
    lemma_register_literal(inst);
    lemma_one_register(inst);
    lemma_branch(inst);
    lemma_register_branch(inst);
    lemma_high16_int(inst);
    lemma_high16_long(inst);
    lemma_register_thing(inst);
    lemma_three_registers(inst);
    lemma_two_registers_literal(inst);
    lemma_two_registers_branch(inst);
    lemma_two_registers_thing(inst);
    lemma_register_wide_thing(inst);
    lemma_list_call_site(inst);
    lemma_list_thing(inst);
    lemma_range_call_site(inst);
    lemma_range_thing(inst);
    lemma_list_method_proto(inst);
    lemma_range_method_proto(inst);
    lemma_register_wide_literal(inst);
    if dex is Some {
        lemma_register_string(inst, dex->Some_0);
    }
    if dex is Some {
        lemma_register_type(inst, dex->Some_0);
    }
    if dex is Some {
        lemma_register_field(inst, dex->Some_0);
    }
    if dex is Some {
        lemma_two_registers_field(inst, dex->Some_0);
    }
    if dex is Some {
        lemma_two_registers_type(inst, dex->Some_0);
    }
    if dex is Some {
        lemma_register_wide_string(inst, dex->Some_0);
    }
    if dex is Some {
        lemma_list_type(inst, dex->Some_0);
    }
    if dex is Some {
        lemma_list_method(inst, dex->Some_0);
    }
    if dex is Some {
        lemma_range_method(inst, dex->Some_0);
    }
    if dex is Some {
        lemma_list_method_shorty(inst, dex->Some_0);
    }
    if dex is Some {
        lemma_range_method_shorty(inst, dex->Some_0);
    }
}

proof fn lemma_register_string_strict(inst: Instruction, bytes: Seq<u8>)
    ensures
        register_string_strict(inst, bytes) is Ok ==> register_string_strict(inst, bytes)->Ok_0.len() >= inst.spec_name()@.len(),
{
    reveal(register_string_strict);
}

proof fn lemma_register_type_strict(inst: Instruction, bytes: Seq<u8>)
    ensures
        register_type_strict(inst, bytes) is Ok ==> register_type_strict(inst, bytes)->Ok_0.len() >= inst.spec_name()@.len(),
{
    reveal(register_type_strict);
}

proof fn lemma_register_field_strict(inst: Instruction, bytes: Seq<u8>)
    ensures
        register_field_strict(inst, bytes) is Ok ==> register_field_strict(inst, bytes)->Ok_0.len() >= inst.spec_name()@.len(),
{
    reveal(register_field_strict);
}

proof fn lemma_two_registers_field_strict(inst: Instruction, bytes: Seq<u8>)
    ensures
        two_registers_field_strict(inst, bytes) is Ok ==> two_registers_field_strict(inst, bytes)->Ok_0.len() >= inst.spec_name()@.len(),
{
    reveal(two_registers_field_strict);
}

proof fn lemma_two_registers_type_strict(inst: Instruction, bytes: Seq<u8>)
    ensures
        two_registers_type_strict(inst, bytes) is Ok ==> two_registers_type_strict(inst, bytes)->Ok_0.len() >= inst.spec_name()@.len(),
{
    reveal(two_registers_type_strict);
}

proof fn lemma_register_wide_string_strict(inst: Instruction, bytes: Seq<u8>)
    ensures
        register_wide_string_strict(inst, bytes) is Ok ==> register_wide_string_strict(inst, bytes)->Ok_0.len() >= inst.spec_name()@.len(),
{
    reveal(register_wide_string_strict);
}

proof fn lemma_list_type_strict(inst: Instruction, bytes: Seq<u8>)
    ensures
        list_type_strict(inst, bytes) is Ok ==> list_type_strict(inst, bytes)->Ok_0.len() >= inst.spec_name()@.len(),
{
    reveal(list_type_strict);
}

proof fn lemma_list_method_strict(inst: Instruction, bytes: Seq<u8>)
    ensures
        list_method_strict(inst, bytes) is Ok ==> list_method_strict(inst, bytes)->Ok_0.len() >= inst.spec_name()@.len(),
{
    reveal(list_method_strict);
}

proof fn lemma_range_method_strict(inst: Instruction, bytes: Seq<u8>)
    ensures
        range_method_strict(inst, bytes) is Ok ==> range_method_strict(inst, bytes)->Ok_0.len() >= inst.spec_name()@.len(),
{
    reveal(range_method_strict);
}

proof fn lemma_list_method_shorty_strict(inst: Instruction, bytes: Seq<u8>)
    ensures
        list_method_shorty_strict(inst, bytes) is Ok ==> list_method_shorty_strict(inst, bytes)->Ok_0.len() >= inst.spec_name()@.len(),
{
    reveal(list_method_shorty_strict);
}

proof fn lemma_range_method_shorty_strict(inst: Instruction, bytes: Seq<u8>)
    ensures
        range_method_shorty_strict(inst, bytes) is Ok ==> range_method_shorty_strict(inst, bytes)->Ok_0.len() >= inst.spec_name()@.len(),
{
    reveal(range_method_shorty_strict);
}

/// The text of an instruction against a file is never empty either.
#[verifier::rlimit(50)]
pub proof fn lemma_strict_text_not_empty(inst: Instruction, bytes: Seq<u8>)
    ensures
        instruction_text_strict(inst, bytes) is Ok ==> instruction_text_strict(
            inst,
            bytes,
        )->Ok_0.len() > 0,
{
    lemma_text_not_empty(inst, None);
    lemma_names_not_empty((inst@[0] % 256) as u8);
    reveal_strlit("array-data");
    reveal_strlit("packed-switch");
    reveal_strlit("sparse-switch");
    lemma_register_string_strict(inst, bytes);
    lemma_register_type_strict(inst, bytes);
    lemma_register_field_strict(inst, bytes);
    lemma_two_registers_field_strict(inst, bytes);
    lemma_two_registers_type_strict(inst, bytes);
    lemma_register_wide_string_strict(inst, bytes);
    lemma_list_type_strict(inst, bytes);
    lemma_list_method_strict(inst, bytes);
    lemma_range_method_strict(inst, bytes);
    lemma_list_method_shorty_strict(inst, bytes);
    lemma_range_method_shorty_strict(inst, bytes);
}

} // verus!
