//! Access flags and invoke kinds.

use vstd::prelude::*;

verus! {

/// How a method is invoked.
#[derive(Debug, Clone, Copy, PartialEq, Eq, Structural)]
pub enum InvokeType {
    Static,
    Direct,
    Virtual,
    Super,
    Interface,
    Polymorphic,
    Custom,
}

impl Default for InvokeType {
    fn default() -> (r: InvokeType)
        ensures
            r == InvokeType::Custom,
    {
        InvokeType::Custom
    }
}

/// Applies to: class, field, method, ic.
pub const ACC_PUBLIC: u32 = 0x0001;

/// Applies to: field, method, ic.
pub const ACC_PRIVATE: u32 = 0x0002;

/// Applies to: field, method, ic.
pub const ACC_PROTECTED: u32 = 0x0004;

/// Applies to: field, method, ic.
pub const ACC_STATIC: u32 = 0x0008;

/// Applies to: class, field, method, ic.
pub const ACC_FINAL: u32 = 0x0010;

/// Applies to: method (only allowed on natives).
pub const ACC_SYNCHRONIZED: u32 = 0x0020;

/// Applies to: class (not used in dex).
pub const ACC_SUPER: u32 = 0x0020;

/// Applies to: field.
pub const ACC_VOLATILE: u32 = 0x0040;

/// Applies to: method (1.5).
pub const ACC_BRIDGE: u32 = 0x0040;

/// Applies to: field.
pub const ACC_TRANSIENT: u32 = 0x0080;

/// Applies to: method (1.5).
pub const ACC_VARARGS: u32 = 0x0080;

/// Applies to: method.
pub const ACC_NATIVE: u32 = 0x0100;

/// Applies to: class, ic.
pub const ACC_INTERFACE: u32 = 0x0200;

/// Applies to: class, method, ic.
pub const ACC_ABSTRACT: u32 = 0x0400;

/// Applies to: method.
pub const ACC_STRICT: u32 = 0x0800;

/// Applies to: class, field, method, ic.
pub const ACC_SYNTHETIC: u32 = 0x1000;

/// Applies to: class, ic (1.5).
pub const ACC_ANNOTATION: u32 = 0x2000;

/// Applies to: class, field, ic (1.5).
pub const ACC_ENUM: u32 = 0x4000;

/// Applies to: method (dex only) <(cl)init>.
pub const ACC_CONSTRUCTOR: u32 = 0x00010000;

/// Applies to: method (dex only).
pub const ACC_DECLARED_SYNCHRONIZED: u32 = 0x00020000;

/// Applies to: class  (dex only).
pub const ACC_CLASSISPROXY: u32 = 0x00040000;

} // verus!
