//! Shared tagged handles over a single-threaded reference count: an `Rc`
//! paired with a tagged word, its non-owning `Weak` counterpart, and the
//! downgrade/upgrade pair that carries the tag across the transition.

use vstd::prelude::*;

use std::rc::Rc;
use std::rc::Weak;

use crate::ointer::Ointer;
use crate::ointer::OinterGet;
use crate::ointer::OinterSet;
use crate::ointer::TagWord;
use crate::ointer::addr_of;
use crate::ointer::tag_fits;
use crate::ointer::tag_of;
use crate::ointer::valid_bits;
use crate::ointer::with_tag;

verus! {

/// The non-owning reference of `std::rc`, held opaquely: `std::rc::Weak`
/// itself cannot be declared to the verifier without the unstable allocator
/// parameter, so this carrier hides it, and the trusted calls below are its
/// only users.
#[verifier::external_body]
#[verifier::reject_recursive_types(T)]
pub struct WeakRef<T> {
    w: Weak<T>,
}

/// Relies on `std::rc::Rc::clone`: the duplicate shares the allocation of
/// the original, so it holds the very same value.
#[verifier::external_body]
fn rc_clone<T>(p: &Rc<T>) -> (r: Rc<T>)
    ensures
        r == *p,
{
    Rc::clone(p)
}

/// Relies on `std::rc::Rc::downgrade` to produce a non-owning reference to
/// the allocation; nothing about the result is assumed.
#[verifier::external_body]
fn rc_downgrade<T>(p: &Rc<T>) -> WeakRef<T> {
    WeakRef { w: Rc::downgrade(p) }
}

/// Relies on `std::rc::Weak::upgrade`: the attempt yields an owning handle
/// while the value still lives and nothing once it is gone; neither outcome
/// is assumed here.
#[verifier::external_body]
fn rc_weak_upgrade<T>(w: &WeakRef<T>) -> Option<Rc<T>> {
    w.w.upgrade()
}

/// Relies on `std::rc::Weak::clone` to duplicate the non-owning reference;
/// nothing about the result is assumed.
#[verifier::external_body]
fn rc_weak_clone<T>(w: &WeakRef<T>) -> WeakRef<T> {
    WeakRef { w: w.w.clone() }
}

/// Relies on `std::rc::Rc::strong_count`; the count is a momentary
/// observation, so nothing about it is assumed.
#[verifier::external_body]
fn rc_strong_count<T>(p: &Rc<T>) -> usize {
    Rc::strong_count(p)
}

/// Relies on `std::rc::Rc::weak_count`; the count is a momentary
/// observation, so nothing about it is assumed.
#[verifier::external_body]
fn rc_weak_count<T>(p: &Rc<T>) -> usize {
    Rc::weak_count(p)
}

/// A shared owning handle with the top `N` bits of its word stolen for a
/// tag.  The tag belongs to this handle alone: duplicating the handle copies
/// it, and every copy mutates its own word.
///
/// As with the exclusive handle, safe code cannot observe the address an
/// `Rc` stores, so the word's address region is kept at its canonical
/// all-zero representation, and well-formedness records that.
#[derive(Debug, PartialEq, Eq, PartialOrd, Hash)]
pub struct TaggedRc<T, const N: usize> {
    tw: TagWord<N>,
    ptr: Rc<T>,
}

/// The non-owning counterpart of [`TaggedRc`]: observes the allocation
/// without keeping it alive, and carries its own tag.
#[verifier::reject_recursive_types(T)]
pub struct TaggedRcWeak<T, const N: usize> {
    tw: TagWord<N>,
    ptr: WeakRef<T>,
}

/// `TaggedRc` with one stolen bit: an orientable `Rc`.
pub type ORc<T> = TaggedRc<T, 1>;

/// The weak counterpart of [`ORc`].
pub type OWeak<T> = TaggedRcWeak<T, 1>;

/// `TaggedRc` with a stolen byte.
pub type BRc<T> = TaggedRc<T, 8>;

/// The weak counterpart of [`BRc`].
pub type BWeak<T> = TaggedRcWeak<T, 8>;

impl<T, const N: usize> TaggedRc<T, N> {
    /// The value the handle co-owns.
    pub closed spec fn pointee(&self) -> T {
        *self.ptr
    }

    /// The owning pointer the handle carries.
    pub closed spec fn pointer(&self) -> Rc<T> {
        self.ptr
    }

    /// Allocate a fresh pointee and install it with a cleared tag.
    pub fn new(x: T) -> (r: Self)
        requires
            valid_bits(N),
        ensures
            r.wf(),
            r.word() == 0,
            r.pointee() == x,
    {
        proof {
            crate::ointer::lemma_zero_word(N);
        }
        TaggedRc { tw: TagWord::new(0), ptr: Rc::new(x) }
    }

    /// Adopt an already-allocated shared pointer, installing it with a
    /// cleared tag.
    pub fn from_pointer(p: Rc<T>) -> (r: Self)
        requires
            valid_bits(N),
        ensures
            r.wf(),
            r.word() == 0,
            r.pointer() == p,
    {
        proof {
            crate::ointer::lemma_zero_word(N);
        }
        let r = TaggedRc { tw: TagWord::new(0), ptr: p };
        r.assert_stealable();
        r
    }

    /// Read the pointee through the handle.
    pub fn deref(&self) -> (r: &T)
        ensures
            *r == self.pointee(),
    {
        &*self.ptr
    }

    /// Create a non-owning reference to the same allocation, carrying this
    /// handle's current tag over to it.
    pub fn downgrade(&self) -> (r: TaggedRcWeak<T, N>)
        requires
            self.wf(),
        ensures
            r.wf(),
            tag_of(r.word(), N) == tag_of(self.word(), N),
    {
        proof {
            crate::ointer::lemma_zero_word(N);
            crate::ointer::lemma_tag_bound(self.word(), N);
        }
        let u = self.get_usize();
        let mut r = TaggedRcWeak { tw: TagWord::new(0), ptr: rc_downgrade(&self.ptr) };
        proof {
            r.lemma_word_laws(with_tag(0, N, u));
            crate::ointer::lemma_tag_roundtrip(0, N, u);
        }
        r.set_usize(u);
        r
    }

    /// The number of owning handles currently sharing the allocation; a
    /// momentary observation with no effect.
    pub fn strong_count(&self) -> usize {
        rc_strong_count(&self.ptr)
    }

    /// The number of non-owning references currently watching the
    /// allocation; a momentary observation with no effect.
    pub fn weak_count(&self) -> usize {
        rc_weak_count(&self.ptr)
    }

    /// Expose the current tag, read as `TT`, and a reference to the pointee
    /// to `f` in one step.
    pub fn map<TT, R, F: FnOnce(TT, &T) -> R>(&self, f: F) -> (r: R) where
        Self: OinterGet<TT, N>,

        requires
            self.wf(),
            call_requires(
                f,
                (<Self as OinterGet<TT, N>>::decode_tag(tag_of(self.word(), N)), &self.pointee()),
            ),
        ensures
            call_ensures(
                f,
                (<Self as OinterGet<TT, N>>::decode_tag(tag_of(self.word(), N)), &self.pointee()),
                r,
            ),
    {
        let x = self.get_high_bits();
        f(x, &*self.ptr)
    }

    /// Hand the current tag, read as `TT`, and the shared pointer to `f`,
    /// then install the tag and pointer that `f` returns.  Every outcome of
    /// `f` must leave a tag pattern that fits in the stolen bits.
    pub fn map_mut<TT, R, F: FnOnce(TT, Rc<T>) -> (TT, Rc<T>, R)>(self, f: F) -> (rs: (
        Self,
        R,
    )) where Self: OinterGet<TT, N> + OinterSet<TT, N>,

        requires
            self.wf(),
            call_requires(
                f,
                (<Self as OinterGet<TT, N>>::decode_tag(tag_of(self.word(), N)), self.pointer()),
            ),
            forall|o: (TT, Rc<T>, R)|
                #[trigger] call_ensures(
                    f,
                    (
                        <Self as OinterGet<TT, N>>::decode_tag(tag_of(self.word(), N)),
                        self.pointer(),
                    ),
                    o,
                ) ==> tag_fits(<Self as OinterSet<TT, N>>::encode_val(o.0), N),
        ensures
            exists|o: (TT, Rc<T>, R)|
                #[trigger] call_ensures(
                    f,
                    (
                        <Self as OinterGet<TT, N>>::decode_tag(tag_of(self.word(), N)),
                        self.pointer(),
                    ),
                    o,
                ) && rs.1 == o.2 && rs.0.pointer() == o.1 && rs.0.word() == with_tag(
                    0,
                    N,
                    <Self as OinterSet<TT, N>>::encode_val(o.0),
                ),
            rs.0.wf(),
    {
        let x = self.get_high_bits();
        let TaggedRc { tw: _, ptr } = self;
        let (x2, p2, r) = f(x, ptr);
        proof {
            assert(call_ensures(
                f,
                (<Self as OinterGet<TT, N>>::decode_tag(tag_of(self.word(), N)), self.pointer()),
                (x2, p2, r),
            ));
            crate::ointer::lemma_zero_word(N);
        }
        let mut s2 = TaggedRc { tw: TagWord::new(0), ptr: p2 };
        proof {
            s2.lemma_word_laws(with_tag(0, N, <Self as OinterSet<TT, N>>::encode_val(x2)));
        }
        s2.set_high_bits_mut(x2);
        (s2, r)
    }
}

impl<T, const N: usize> TaggedRcWeak<T, N> {
    /// Try to regrow an owning handle from this non-owning reference.  The
    /// attempt fails once the allocation's payload has been dropped; when it
    /// succeeds, this reference's tag is carried onto the new handle.
    pub fn upgrade(&self) -> (r: Option<TaggedRc<T, N>>)
        requires
            self.wf(),
        ensures
            r matches Some(s) ==> s.wf() && tag_of(s.word(), N) == tag_of(self.word(), N),
    {
        proof {
            crate::ointer::lemma_zero_word(N);
            crate::ointer::lemma_tag_bound(self.word(), N);
        }
        let u = self.get_usize();
        match rc_weak_upgrade(&self.ptr) {
            Some(p) => {
                let mut s = TaggedRc { tw: TagWord::new(0), ptr: p };
                proof {
                    s.lemma_word_laws(with_tag(0, N, u));
                    crate::ointer::lemma_tag_roundtrip(0, N, u);
                }
                s.set_usize(u);
                Some(s)
            },
            None => None,
        }
    }
}

impl<T, const N: usize> Clone for TaggedRc<T, N> {
    /// Duplicate the handle: the new handle shares the allocation, holds the
    /// very same pointee and copies the tag.
    fn clone(&self) -> (r: Self)
        ensures
            r.word() == self.word(),
            r.pointee() == self.pointee(),
            r.wf() == self.wf(),
    {
        TaggedRc { tw: self.tw, ptr: rc_clone(&self.ptr) }
    }
}

impl<T, const N: usize> Clone for TaggedRcWeak<T, N> {
    /// Duplicate the non-owning reference, copying the tag.
    fn clone(&self) -> (r: Self)
        ensures
            r.word() == self.word(),
            r.wf() == self.wf(),
    {
        TaggedRcWeak { tw: self.tw, ptr: rc_weak_clone(&self.ptr) }
    }
}


/// Law: replacing the tagged word of a shared handle touches neither the
/// shared pointer nor the pointee: tag writes and pointee access are
/// independent.
pub proof fn lemma_word_update_keeps_pointee<T, const N: usize>(o: TaggedRc<T, N>, w: u64)
    ensures
        o.with_word(w).pointee() == o.pointee(),
        o.with_word(w).pointer() == o.pointer(),
{
}

impl<T, const N: usize> Ointer<N> for TaggedRc<T, N> {
    type Pointer = Rc<T>;

    closed spec fn word(&self) -> u64 {
        self.tw.word()
    }

    closed spec fn with_word(self, w: u64) -> Self {
        TaggedRc { tw: self.tw.with_word(w), ptr: self.ptr }
    }

    open spec fn wf(&self) -> bool {
        valid_bits(N) && addr_of(self.word(), N) == 0
    }

    proof fn lemma_word_laws(self, w: u64) {
        self.tw.lemma_word_laws(w);
        assert(self.with_word(w).word() == w);
    }

    fn get_word(&self) -> (w: u64) {
        self.tw.get_word()
    }

    fn put_word(&mut self, w: u64) {
        self.tw.put_word(w);
        proof {
            assert(*self == old(self).with_word(w));
        }
    }
}

impl<T, const N: usize> Ointer<N> for TaggedRcWeak<T, N> {
    type Pointer = WeakRef<T>;

    closed spec fn word(&self) -> u64 {
        self.tw.word()
    }

    closed spec fn with_word(self, w: u64) -> Self {
        TaggedRcWeak { tw: self.tw.with_word(w), ptr: self.ptr }
    }

    open spec fn wf(&self) -> bool {
        valid_bits(N) && addr_of(self.word(), N) == 0
    }

    proof fn lemma_word_laws(self, w: u64) {
        self.tw.lemma_word_laws(w);
        assert(self.with_word(w).word() == w);
    }

    fn get_word(&self) -> (w: u64) {
        self.tw.get_word()
    }

    fn put_word(&mut self, w: u64) {
        self.tw.put_word(w);
        proof {
            assert(*self == old(self).with_word(w));
        }
    }
}

} // verus!
