//! The POSIX-like descriptor shape: a base address and a length in the
//! native word width, as in the `iovec` struct that `readv` and `writev`
//! take.

use vstd::prelude::*;
use vstd::slice::slice_subrange;

verus! {

/// Largest length the POSIX descriptor's length field can hold.
pub const MAX_LENGTH: usize = usize::MAX;

/// A POSIX-shaped vectored-I/O descriptor over borrowed bytes.
///
/// The borrowed region stands for the descriptor's address field, and
/// `len` is the descriptor's explicit length field. The type invariant
/// keeps the length field equal to the region's real length, so no
/// construction can silently truncate the count an OS call would use.
#[derive(Clone, Copy)]
pub struct IoVec<'a> {
    data: &'a [u8],
    len: usize,
}

impl<'a> View for IoVec<'a> {
    type V = Seq<u8>;

    closed spec fn view(&self) -> Seq<u8> {
        self.data@
    }
}

impl<'a> IoVec<'a> {
    /// The value held in the descriptor's length field.
    pub closed spec fn spec_len(&self) -> usize {
        self.len
    }

    #[verifier::type_invariant]
    spec fn wf(&self) -> bool {
        self.len == self.data@.len()
    }

    /// Build a descriptor for a read-only byte region. The adapter does
    /// no bounds validation: every `usize` length is representable here.
    pub fn from_bytes(src: &'a [u8]) -> (r: Self)
        ensures
            r@ == src@,
            r.spec_len() == src@.len(),
    {
        IoVec { data: src, len: src.len() }
    }

    /// Build a descriptor from a mutably borrowed region. The produced
    /// descriptor is the same whether the source borrow was shared or
    /// unique; nothing is ever written back through this shape, so the
    /// region is left as it was.
    pub fn from_bytes_mut(src: &'a mut [u8]) -> (r: Self)
        ensures
            r@ == old(src)@,
            r.spec_len() == old(src)@.len(),
            final(src)@ == old(src)@,
    {
        let len: usize = src.len();
        IoVec { data: src, len }
    }

    /// Reconstruct the byte view the descriptor denotes, from its base
    /// and its stored length field.
    pub fn as_ref(&self) -> (r: &'a [u8])
        ensures
            r@ == self@,
            r@.len() == self.spec_len(),
    {
        proof {
            use_type_invariant(self);
            assert(self.data@.subrange(0, self.len as int) =~= self.data@);
        }
        slice_subrange(self.data, 0, self.len)
    }
}

impl<'a> Default for IoVec<'a> {
    /// The descriptor of the empty region: length field zero.
    fn default() -> (r: Self)
        ensures
            r@ == Seq::<u8>::empty(),
            r.spec_len() == 0,
    {
        let empty: &[u8] = &[];
        IoVec { data: empty, len: 0 }
    }
}

} // verus!
