//! How much a readable name shows.

use vstd::prelude::*;

verus! {

/// Whether the name of a field shows the field's type.
#[derive(Debug, Clone, Copy, PartialEq, Eq, Structural)]
pub enum Field {
    WithType,
    NoType,
}

/// Whether the name of a method shows the method's signature.
#[derive(Debug, Clone, Copy, PartialEq, Eq, Structural)]
pub enum Method {
    WithSig,
    NoSig,
}

} // verus!
