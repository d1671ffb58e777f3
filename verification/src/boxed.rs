//! Exclusive tagged handles: a `Box` paired with a tagged word, `OBox` with
//! one stolen bit and `BBox` with a stolen byte.

use vstd::prelude::*;

use crate::ointer::Ointer;
use crate::ointer::OinterGet;
use crate::ointer::OinterSet;
use crate::ointer::TagWord;
use crate::ointer::addr_of;
use crate::ointer::tag_fits;
use crate::ointer::tag_of;
use crate::ointer::valid_bits;
use crate::ointer::with_tag;

verus! {

/// An exclusive owning handle with the top `N` bits of its word stolen for a
/// tag.
///
/// Safe code cannot observe the address a `Box` stores, so the handle pairs
/// the owning pointer with the tagged word and keeps the word's address
/// region at its canonical all-zero representation; well-formedness records
/// exactly that, which is what makes clearing the tag recover a word the
/// plain owning handle could have produced.
#[derive(Debug, PartialEq, Eq, PartialOrd, Hash)]
pub struct TaggedBox<T, const N: usize> {
    tw: TagWord<N>,
    ptr: Box<T>,
}

/// `TaggedBox` with one stolen bit: an orientable `Box`.
pub type OBox<T> = TaggedBox<T, 1>;

/// `TaggedBox` with a stolen byte.
pub type BBox<T> = TaggedBox<T, 8>;

impl<T, const N: usize> TaggedBox<T, N> {
    /// The value the handle owns.
    pub closed spec fn pointee(&self) -> T {
        *self.ptr
    }

    /// The owning pointer the handle carries.
    pub closed spec fn pointer(&self) -> Box<T> {
        self.ptr
    }

    /// Allocate a fresh pointee and install it with a cleared tag.
    pub fn new(x: T) -> (r: Self)
        requires
            valid_bits(N),
        ensures
            r.wf(),
            r.word() == 0,
            r.pointee() == x,
    {
        proof {
            crate::ointer::lemma_zero_word(N);
        }
        TaggedBox { tw: TagWord::new(0), ptr: Box::new(x) }
    }

    /// Read the pointee through the handle.
    pub fn deref(&self) -> (r: &T)
        ensures
            *r == self.pointee(),
    {
        &*self.ptr
    }

    /// Mutate the pointee through the handle: the tagged word is untouched.
    pub fn deref_mut(&mut self) -> (r: &mut T)
        ensures
            *r == old(self).pointee(),
            final(self).pointee() == *final(r),
            final(self).word() == old(self).word(),
            final(self).wf() == old(self).wf(),
    {
        &mut *self.ptr
    }

    /// Adopt an already-allocated owning pointer, installing it with a
    /// cleared tag.
    pub fn from_pointer(p: Box<T>) -> (r: Self)
        requires
            valid_bits(N),
        ensures
            r.wf(),
            r.word() == 0,
            r.pointer() == p,
    {
        proof {
            crate::ointer::lemma_zero_word(N);
        }
        let r = TaggedBox { tw: TagWord::new(0), ptr: p };
        r.assert_stealable();
        r
    }

    /// Expose the current tag, read as `TT`, and a reference to the pointee
    /// to `f` in one step.
    pub fn map<TT, R, F: FnOnce(TT, &T) -> R>(&self, f: F) -> (r: R) where
        Self: OinterGet<TT, N>,

        requires
            self.wf(),
            call_requires(
                f,
                (<Self as OinterGet<TT, N>>::decode_tag(tag_of(self.word(), N)), &self.pointee()),
            ),
        ensures
            call_ensures(
                f,
                (<Self as OinterGet<TT, N>>::decode_tag(tag_of(self.word(), N)), &self.pointee()),
                r,
            ),
    {
        let x = self.get_high_bits();
        f(x, &*self.ptr)
    }

    /// Hand the current tag, read as `TT`, and the owning pointer to `f`,
    /// then install the tag and pointer that `f` returns.  Every outcome of
    /// `f` must leave a tag pattern that fits in the stolen bits.
    pub fn map_mut<TT, R, F: FnOnce(TT, Box<T>) -> (TT, Box<T>, R)>(self, f: F) -> (rs: (
        Self,
        R,
    )) where Self: OinterGet<TT, N> + OinterSet<TT, N>,

        requires
            self.wf(),
            call_requires(
                f,
                (<Self as OinterGet<TT, N>>::decode_tag(tag_of(self.word(), N)), self.pointer()),
            ),
            forall|o: (TT, Box<T>, R)|
                #[trigger] call_ensures(
                    f,
                    (
                        <Self as OinterGet<TT, N>>::decode_tag(tag_of(self.word(), N)),
                        self.pointer(),
                    ),
                    o,
                ) ==> tag_fits(<Self as OinterSet<TT, N>>::encode_val(o.0), N),
        ensures
            exists|o: (TT, Box<T>, R)|
                #[trigger] call_ensures(
                    f,
                    (
                        <Self as OinterGet<TT, N>>::decode_tag(tag_of(self.word(), N)),
                        self.pointer(),
                    ),
                    o,
                ) && rs.1 == o.2 && rs.0.pointer() == o.1 && rs.0.word() == with_tag(
                    0,
                    N,
                    <Self as OinterSet<TT, N>>::encode_val(o.0),
                ),
            rs.0.wf(),
    {
        let x = self.get_high_bits();
        let TaggedBox { tw: _, ptr } = self;
        let (x2, p2, r) = f(x, ptr);
        proof {
            assert(call_ensures(
                f,
                (<Self as OinterGet<TT, N>>::decode_tag(tag_of(self.word(), N)), self.pointer()),
                (x2, p2, r),
            ));
            crate::ointer::lemma_zero_word(N);
        }
        let mut s2 = TaggedBox { tw: TagWord::new(0), ptr: p2 };
        proof {
            s2.lemma_word_laws(with_tag(0, N, <Self as OinterSet<TT, N>>::encode_val(x2)));
        }
        s2.set_high_bits_mut(x2);
        (s2, r)
    }
}

impl<T: Clone, const N: usize> Clone for TaggedBox<T, N> {
    /// Duplicate the handle: the tag is copied and the pointee is cloned
    /// into a fresh allocation, so the two handles stay independent.
    fn clone(&self) -> (r: Self)
        ensures
            r.word() == self.word(),
            vstd::pervasive::cloned::<T>(self.pointee(), r.pointee()),
            r.wf() == self.wf(),
    {
        TaggedBox { tw: self.tw, ptr: self.ptr.clone() }
    }
}


/// Law: replacing the tagged word of an exclusive handle touches neither
/// the owning pointer nor the pointee: tag writes and pointee access are
/// independent.
pub proof fn lemma_word_update_keeps_pointee<T, const N: usize>(o: TaggedBox<T, N>, w: u64)
    ensures
        o.with_word(w).pointee() == o.pointee(),
        o.with_word(w).pointer() == o.pointer(),
{
}

impl<T, const N: usize> Ointer<N> for TaggedBox<T, N> {
    type Pointer = Box<T>;

    closed spec fn word(&self) -> u64 {
        self.tw.word()
    }

    closed spec fn with_word(self, w: u64) -> Self {
        TaggedBox { tw: self.tw.with_word(w), ptr: self.ptr }
    }

    /// Beyond a usable width: the address region is all zeros, the canonical
    /// stand-in for an owning pointer's representation, so clearing the tag
    /// leaves a word the plain handle could have produced.
    open spec fn wf(&self) -> bool {
        valid_bits(N) && addr_of(self.word(), N) == 0
    }

    proof fn lemma_word_laws(self, w: u64) {
        self.tw.lemma_word_laws(w);
        assert(self.with_word(w).word() == w);
    }

    fn get_word(&self) -> (w: u64) {
        self.tw.get_word()
    }

    fn put_word(&mut self, w: u64) {
        self.tw.put_word(w);
        proof {
            assert(*self == old(self).with_word(w));
        }
    }
}

} // verus!


