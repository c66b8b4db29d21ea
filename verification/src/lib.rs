//! Byte spans for vectored I/O, with verified length and content
//! contracts.
//!
//! An [`IoVec`] is a read-only span of borrowed bytes and an
//! [`IoVecMut`] is a uniquely borrowed one. Each read-only span wraps
//! one platform descriptor from [`sys`], whose in-memory meaning is a
//! base address and an explicit length field as the OS scatter/gather
//! structs hold them; a mutable span keeps the unique borrow itself,
//! since exclusive access could not be re-derived from a descriptor
//! that has erased it. The [`unix`] module turns sequences of spans
//! into sequences of raw platform descriptors for an OS call's
//! argument array.
//!
//! Construction is the one validation point: a span is only built over
//! a region whose length is positive and representable in the
//! platform descriptor's length field, so no descriptor with a
//! truncated or useless length can exist. The default span is the one
//! exception, an empty placeholder that dereferences to zero bytes.

pub mod sys;
pub mod unix;

use vstd::prelude::*;

verus! {

/// Max length of an `IoVec` span: the largest value the platform
/// descriptor's length field can hold.
pub const MAX_LENGTH: usize = sys::MAX_LENGTH;

/// The lengths a span may be constructed from: positive, and
/// representable in the platform descriptor's length field.
pub open spec fn valid_length(len: int) -> bool {
    0 < len <= MAX_LENGTH as int
}

/// A read-only byte span for vectored I/O, wrapping one platform
/// descriptor and borrowing the bytes it denotes.
pub struct IoVec<'a> {
    sys: sys::IoVec<'a>,
}

/// A uniquely borrowed byte span for vectored I/O. It holds the unique
/// borrow of its bytes, so writes through the span are writes to the
/// borrowed region itself. The borrow is a public field so that
/// contracts can speak of the bytes it finally writes back; the type
/// needs no hidden invariant, since every length a `usize` can hold is
/// representable in the platform descriptor selected here.
pub struct IoVecMut<'a> {
    pub data: &'a mut [u8],
}

impl<'a> View for IoVec<'a> {
    type V = Seq<u8>;

    closed spec fn view(&self) -> Seq<u8> {
        self.sys@
    }
}

impl<'a> View for IoVecMut<'a> {
    type V = Seq<u8>;

    open spec fn view(&self) -> Seq<u8> {
        self.data@
    }
}

/// Once a mutable span will no longer be written through, the bytes its
/// borrow finally leaves behind in the borrowed region are exactly the
/// bytes the span last held: dropping the span hands the mutation back
/// to the region it came from.
pub broadcast proof fn lemma_iovec_mut_resolved(v: IoVecMut<'_>)
    ensures
        #[trigger] has_resolved(v) ==> final(v.data)@ == old(v.data)@,
{
}

impl<'a> IoVec<'a> {
    #[verifier::type_invariant]
    spec fn wf(&self) -> bool {
        self.sys.spec_len() == self.sys@.len()
    }

    /// Build a read-only span over `slice`. Callers keep the length
    /// positive and within [`MAX_LENGTH`]; [`IoVec::try_from_bytes`]
    /// checks instead of requiring.
    pub fn from_bytes(slice: &'a [u8]) -> (r: Self)
        requires
            valid_length(slice@.len() as int),
        ensures
            r@ == slice@,
    {
        IoVec { sys: sys::IoVec::from_bytes(slice) }
    }

    /// Build a read-only span over `slice`, rejecting exactly the
    /// zero-length and over-[`MAX_LENGTH`] regions.
    pub fn try_from_bytes(slice: &'a [u8]) -> (r: Option<Self>)
        ensures
            (match r {
                Some(v) => valid_length(slice@.len() as int) && v@ == slice@,
                None => !valid_length(slice@.len() as int),
            }),
    {
        if slice.len() == 0 || slice.len() > MAX_LENGTH {
            None
        } else {
            Some(IoVec::from_bytes(slice))
        }
    }

    /// View a sequence of mutable spans as read-only spans: same count,
    /// and element for element the same bytes, since a shared view is
    /// always permitted while the unique one is held here.
    pub fn from_mut_slice<'b>(slice: &'b [IoVecMut<'a>]) -> (r: Vec<IoVec<'b>>)
        ensures
            r@.len() == slice@.len(),
            forall|i: int| 0 <= i < slice@.len() ==> r@[i]@ == slice@[i]@,
    {
        let mut out: Vec<IoVec<'b>> = Vec::new();
        let mut i: usize = 0;
        while i < slice.len()
            invariant
                i <= slice@.len(),
                out@.len() == i,
                forall|j: int| 0 <= j < i ==> out@[j]@ == slice@[j]@,
            decreases slice@.len() - i,
        {
            out.push(slice[i].borrow());
            i = i + 1;
        }
        out
    }

    /// A read-only span over the same bytes, with a lifetime bound to
    /// `self`.
    pub fn borrow(&self) -> (r: IoVec<'_>)
        ensures
            r@ == self@,
    {
        proof {
            use_type_invariant(self);
        }
        IoVec { sys: self.sys }
    }

    /// The bytes the span denotes.
    pub fn as_ref(&self) -> (r: &'a [u8])
        ensures
            r@ == self@,
    {
        self.sys.as_ref()
    }

    /// The span's platform descriptor, whose length field equals the
    /// span's real length.
    pub(crate) fn as_sys(&self) -> (r: sys::IoVec<'a>)
        ensures
            r@ == self@,
            r.spec_len() == self@.len(),
    {
        proof {
            use_type_invariant(self);
        }
        self.sys
    }
}

impl<'a> Default for IoVec<'a> {
    /// The empty placeholder span: it dereferences to zero bytes.
    fn default() -> (r: Self)
        ensures
            r@ == Seq::<u8>::empty(),
    {
        IoVec { sys: sys::IoVec::default() }
    }
}

impl<'a> IoVecMut<'a> {
    /// Build a mutable span over `slice`, taking over its unique
    /// borrow: the bytes the borrow finally receives are the bytes the
    /// span's borrow finally leaves behind. Callers keep the length
    /// positive and within [`MAX_LENGTH`];
    /// [`IoVecMut::try_from_bytes`] checks instead of requiring.
    pub fn from_bytes(slice: &'a mut [u8]) -> (r: Self)
        requires
            valid_length(old(slice)@.len() as int),
        ensures
            r@ == old(slice)@,
            final(slice)@ == final(r.data)@,
    {
        IoVecMut { data: slice }
    }

    /// Build a mutable span over `slice`, rejecting exactly the
    /// zero-length and over-[`MAX_LENGTH`] regions; a rejected region
    /// is left untouched.
    pub fn try_from_bytes(slice: &'a mut [u8]) -> (r: Option<Self>)
        ensures
            (match r {
                Some(v) => valid_length(old(slice)@.len() as int) && v@ == old(slice)@
                    && final(slice)@ == final(v.data)@,
                None => !valid_length(old(slice)@.len() as int) && final(slice)@ == old(
                    slice,
                )@,
            }),
    {
        if slice.len() == 0 || slice.len() > MAX_LENGTH {
            None
        } else {
            Some(IoVecMut::from_bytes(slice))
        }
    }

    /// A read-only span over the same bytes, with a lifetime bound to
    /// `self`.
    pub fn borrow(&self) -> (r: IoVec<'_>)
        ensures
            r@ == self@,
    {
        IoVec { sys: sys::IoVec::from_bytes(&*self.data) }
    }

    /// A mutable span over the same bytes, with a lifetime bound to
    /// `self`: writes through it come back to `self`, and the final
    /// write-back to the region `self` borrowed is unchanged.
    pub fn borrow_mut(&mut self) -> (r: IoVecMut<'_>)
        ensures
            r@ == old(self)@,
            final(self)@ == final(r.data)@,
            final(old(self).data)@ == final(final(self).data)@,
    {
        IoVecMut { data: &mut *self.data }
    }

    /// The bytes the span currently holds.
    pub fn as_ref(&self) -> (r: &[u8])
        ensures
            r@ == self@,
    {
        self.data
    }

    /// Mutable access to the span's bytes: writes through the result
    /// come back to `self`, and the final write-back to the region
    /// `self` borrowed is unchanged.
    pub fn as_mut(&mut self) -> (r: &mut [u8])
        ensures
            r@ == old(self)@,
            final(self)@ == final(r)@,
            final(old(self).data)@ == final(final(self).data)@,
    {
        self.data
    }
}

impl<'a> Default for IoVecMut<'a> {
    /// The empty placeholder span: it dereferences to zero bytes.
    fn default() -> (r: Self)
        ensures
            r@ == Seq::<u8>::empty(),
    {
        IoVecMut { data: &mut [] }
    }
}

} // verus!
