//! Conversions from sequences of spans to the raw platform descriptor
//! sequences that scatter/gather system calls take as their argument
//! array.
//!
//! Each produced descriptor denotes the same bytes as the span it came
//! from, with its length field equal to the span's length, so a
//! `writev`-style call handed the result writes exactly the spans'
//! bytes, in order.

use crate::sys;
use crate::IoVec;
use crate::IoVecMut;
use vstd::prelude::*;

verus! {

/// Convert a sequence of read-only span references to raw platform
/// descriptors: same count, element for element the same bytes, and
/// each length field equal to its span's real length.
pub fn as_os_slice<'a, 'b>(iov: &'b [&'b IoVec<'a>]) -> (r: Vec<sys::IoVec<'a>>)
    ensures
        r@.len() == iov@.len(),
        forall|i: int|
            0 <= i < iov@.len() ==> r@[i]@ == iov@[i]@ && (#[trigger] r@[i]).spec_len()
                == iov@[i]@.len(),
{
    let mut out: Vec<sys::IoVec<'a>> = Vec::new();
    let mut i: usize = 0;
    while i < iov.len()
        invariant
            i <= iov@.len(),
            out@.len() == i,
            forall|j: int|
                0 <= j < i ==> out@[j]@ == iov@[j]@ && (#[trigger] out@[j]).spec_len()
                    == iov@[j]@.len(),
        decreases iov@.len() - i,
    {
        out.push(iov[i].as_sys());
        i = i + 1;
    }
    out
}

/// Convert a sequence of mutable spans to raw platform descriptors:
/// same count, element for element the same bytes, and each length
/// field equal to its span's real length. The descriptors
/// are for a `readv`-style call's argument array; the OS-side write
/// into them is outside this library, which itself leaves the spans
/// unchanged.
pub fn as_os_slice_mut<'a, 'b>(iov: &'b [IoVecMut<'a>]) -> (r: Vec<sys::IoVec<'b>>)
    ensures
        r@.len() == iov@.len(),
        forall|i: int|
            0 <= i < iov@.len() ==> r@[i]@ == iov@[i]@ && (#[trigger] r@[i]).spec_len()
                == iov@[i]@.len(),
{
    let mut out: Vec<sys::IoVec<'b>> = Vec::new();
    let mut i: usize = 0;
    while i < iov.len()
        invariant
            i <= iov@.len(),
            out@.len() == i,
            forall|j: int|
                0 <= j < i ==> out@[j]@ == iov@[j]@ && (#[trigger] out@[j]).spec_len()
                    == iov@[j]@.len(),
        decreases iov@.len() - i,
    {
        out.push(sys::IoVec::from_bytes(iov[i].as_ref()));
        i = i + 1;
    }
    out
}

} // verus!
