//! The Windows descriptor shape: a 32-bit length followed by the base
//! address, as in the `WSABUF` struct that `WSASend` and `WSARecv` take.
//! The field order is reversed and the length field is narrower than on
//! POSIX, which is why a span longer than `u32::MAX` bytes cannot be
//! described here and why the narrowing must be shown lossless.

use vstd::prelude::*;
use vstd::slice::slice_subrange;

verus! {

/// Largest length the 32-bit length field can hold (`u32::MAX`).
pub const MAX_LENGTH: usize = 0xffff_ffff;

/// A Windows-shaped vectored-I/O descriptor over borrowed bytes.
///
/// `len` is the descriptor's 32-bit length field; the borrowed region
/// stands for its address field. The type invariant keeps the narrowed
/// length field equal to the region's real length, so construction can
/// never silently truncate the count an OS call would use.
#[derive(Clone, Copy)]
pub struct IoVec<'a> {
    len: u32,
    data: &'a [u8],
}

impl<'a> View for IoVec<'a> {
    type V = Seq<u8>;

    closed spec fn view(&self) -> Seq<u8> {
        self.data@
    }
}

impl<'a> IoVec<'a> {
    /// The value held in the descriptor's 32-bit length field.
    pub closed spec fn spec_len(&self) -> u32 {
        self.len
    }

    #[verifier::type_invariant]
    spec fn wf(&self) -> bool {
        self.len as int == self.data@.len()
    }

    /// Build a descriptor for a read-only byte region. The caller keeps
    /// the region within `MAX_LENGTH`; under that bound the narrowing to
    /// the 32-bit field loses nothing.
    pub fn from_bytes(src: &'a [u8]) -> (r: Self)
        requires
            src@.len() <= MAX_LENGTH,
        ensures
            r@ == src@,
            r.spec_len() as int == src@.len(),
    {
        IoVec { len: src.len() as u32, data: src }
    }

    /// Build a descriptor from a mutably borrowed region. The produced
    /// descriptor is the same whether the source borrow was shared or
    /// unique; nothing is ever written back through this shape, so the
    /// region is left as it was.
    pub fn from_bytes_mut(src: &'a mut [u8]) -> (r: Self)
        requires
            old(src)@.len() <= MAX_LENGTH,
        ensures
            r@ == old(src)@,
            r.spec_len() as int == old(src)@.len(),
            final(src)@ == old(src)@,
    {
        let len: u32 = src.len() as u32;
        IoVec { len, data: src }
    }

    /// Reconstruct the byte view the descriptor denotes, from its base
    /// and its stored 32-bit length field.
    pub fn as_ref(&self) -> (r: &'a [u8])
        ensures
            r@ == self@,
            r@.len() == self.spec_len(),
    {
        proof {
            use_type_invariant(self);
            assert(self.data@.subrange(0, self.len as int) =~= self.data@);
        }
        slice_subrange(self.data, 0, self.len as usize)
    }
}

impl<'a> Default for IoVec<'a> {
    /// The descriptor of the empty region: length field zero.
    fn default() -> (r: Self)
        ensures
            r@ == Seq::<u8>::empty(),
            r.spec_len() == 0,
    {
        let empty: &[u8] = &[];
        IoVec { len: 0, data: empty }
    }
}

} // verus!
