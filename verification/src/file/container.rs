use vstd::prelude::*;

verus! {

/// Anything that owns the bytes of a DEX file and hands them out unchanged
/// for as long as it lives.
pub trait DexContainer {
    /// The bytes of the file.
    spec fn bytes(&self) -> Seq<u8>;

    /// The bytes of the file.
    fn data(&self) -> (r: &[u8])
        ensures
            r@ == self.bytes(),
    ;

    /// The number of bytes in the file.
    fn file_size(&self) -> (r: usize)
        ensures
            r == self.bytes().len(),
    ;
}

/// A container over bytes that are already in memory.
pub struct InMemoryDexContainer<'a>(&'a [u8]);

impl<'a> InMemoryDexContainer<'a> {
    /// Wraps `data`.
    pub fn new(data: &'a [u8]) -> (r: Self)
        ensures
            r.bytes() == data@,
    {
        Self(data)
    }
}

impl<'a> DexContainer for InMemoryDexContainer<'a> {
    closed spec fn bytes(&self) -> Seq<u8> {
        self.0@
    }

    fn data(&self) -> (r: &[u8]) {
        self.0
    }

    fn file_size(&self) -> (r: usize) {
        self.0.len()
    }
}

impl DexContainer for Vec<u8> {
    open spec fn bytes(&self) -> Seq<u8> {
        self@
    }

    fn data(&self) -> (r: &[u8]) {
        self.as_slice()
    }

    fn file_size(&self) -> (r: usize) {
        self.len()
    }
}

impl<'a> DexContainer for &'a [u8] {
    open spec fn bytes(&self) -> Seq<u8> {
        self@
    }

    fn data(&self) -> (r: &[u8]) {
        *self
    }

    fn file_size(&self) -> (r: usize) {
        self.len()
    }
}

} // verus!
