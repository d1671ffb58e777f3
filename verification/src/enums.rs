//! The closed tagged union: one word-backed handle holding exactly one of
//! three owning payload alternatives at a time, keyed by a small integer
//! discriminant kept in the stolen bits.

use vstd::prelude::*;

use crate::ointer::Ointer;
use crate::ointer::TagWord;
use crate::ointer::addr_of;
use crate::ointer::tag_fits;
use crate::ointer::tag_of;
use crate::ointer::valid_bits;
use crate::ointer::with_tag;

verus! {

/// The closed set of payload alternatives of a tagged union: exactly one of
/// them is live at a time.
pub enum EnumPayload<A, B, C> {
    First(A),
    Second(B),
    Third(C),
}

/// A tagged union over a closed set of three owning payload kinds.  The
/// discriminant — `D1` for the first alternative, `D2` for the second, `D3`
/// for the third — lives in the top `N` bits of the word, and dispatch goes
/// by that stored discriminant, never by inspecting the payload; the
/// well-formedness invariant ties the two together.
pub struct EnumOinters<
    A,
    B,
    C,
    const N: usize,
    const D1: usize,
    const D2: usize,
    const D3: usize,
> {
    tw: TagWord<N>,
    payload: EnumPayload<A, B, C>,
}

impl<A, B, C, const N: usize, const D1: usize, const D2: usize, const D3: usize> EnumOinters<
    A,
    B,
    C,
    N,
    D1,
    D2,
    D3,
> {
    /// The registered discriminant codes are pairwise distinct and each fits
    /// in the stolen bits; the width itself is usable.
    pub open spec fn codes_ok() -> bool {
        &&& valid_bits(N)
        &&& D1 != D2
        &&& D1 != D3
        &&& D2 != D3
        &&& tag_fits(D1 as u64, N)
        &&& tag_fits(D2 as u64, N)
        &&& tag_fits(D3 as u64, N)
    }

    /// The discriminant code registered for the live alternative of `p`.
    pub open spec fn payload_code(p: EnumPayload<A, B, C>) -> usize {
        match p {
            EnumPayload::First(_) => D1,
            EnumPayload::Second(_) => D2,
            EnumPayload::Third(_) => D3,
        }
    }

    /// The live payload.
    pub closed spec fn payload(&self) -> EnumPayload<A, B, C> {
        self.payload
    }

    /// The discriminant stored in the stolen bits.
    pub closed spec fn code(&self) -> u64 {
        tag_of(self.tw.word(), N)
    }

    /// Well-formedness: the codes are usable, the address region is at its
    /// canonical all-zero representation, and the stored discriminant is
    /// exactly the code registered for the live alternative.
    pub closed spec fn wf(&self) -> bool {
        &&& Self::codes_ok()
        &&& addr_of(self.tw.word(), N) == 0
        &&& self.code() == Self::payload_code(self.payload) as u64
    }

    /// Construct from a discriminant code and the payload registered for it:
    /// the code goes to the stolen bits and ownership of the payload passes
    /// into the handle.
    pub fn new(u: usize, p: EnumPayload<A, B, C>) -> (r: Self)
        requires
            Self::codes_ok(),
            u == Self::payload_code(p),
        ensures
            r.wf(),
            r.payload() == p,
            r.code() == u as u64,
    {
        proof {
            crate::ointer::lemma_zero_word(N);
        }
        let mut tw: TagWord<N> = TagWord::new(0);
        proof {
            tw.lemma_word_laws(with_tag(0, N, u as u64));
            crate::ointer::lemma_tag_roundtrip(0, N, u as u64);
        }
        tw.set_usize(u as u64);
        EnumOinters { tw, payload: p }
    }

    /// Destroy the live payload and construct in place from a new
    /// discriminant and payload.
    pub fn set_mut(&mut self, u: usize, p: EnumPayload<A, B, C>)
        requires
            Self::codes_ok(),
            u == Self::payload_code(p),
        ensures
            final(self).wf(),
            final(self).payload() == p,
            final(self).code() == u as u64,
    {
        *self = Self::new(u, p);
    }

    /// Dispatch on the stored discriminant, handing the live payload to
    /// exactly the operation registered for it; the other operations are
    /// never run.
    pub fn map<R, F1: FnOnce(&A) -> R, F2: FnOnce(&B) -> R, F3: FnOnce(&C) -> R>(
        &self,
        f1: F1,
        f2: F2,
        f3: F3,
    ) -> (r: R)
        requires
            self.wf(),
            self.payload() matches EnumPayload::First(a) ==> call_requires(f1, (&a,)),
            self.payload() matches EnumPayload::Second(b) ==> call_requires(f2, (&b,)),
            self.payload() matches EnumPayload::Third(c) ==> call_requires(f3, (&c,)),
        ensures
            self.payload() matches EnumPayload::First(a) ==> call_ensures(f1, (&a,), r),
            self.payload() matches EnumPayload::Second(b) ==> call_ensures(f2, (&b,), r),
            self.payload() matches EnumPayload::Third(c) ==> call_ensures(f3, (&c,), r),
    {
        let u = self.tw.get_usize();
        if u == D1 as u64 {
            match &self.payload {
                EnumPayload::First(a) => f1(a),
                _ => vstd::pervasive::unreached(),
            }
        } else if u == D2 as u64 {
            match &self.payload {
                EnumPayload::Second(b) => f2(b),
                _ => vstd::pervasive::unreached(),
            }
        } else {
            match &self.payload {
                EnumPayload::Third(c) => f3(c),
                _ => vstd::pervasive::unreached(),
            }
        }
    }

    /// Dispatch on the stored discriminant, handing the live payload to
    /// exactly the operation registered for it and installing the payload
    /// that the operation returns; the discriminant is unchanged, so the
    /// live alternative stays the same.
    pub fn map_mut<R, F1: FnOnce(A) -> (A, R), F2: FnOnce(B) -> (B, R), F3: FnOnce(C) -> (C, R)>(
        self,
        f1: F1,
        f2: F2,
        f3: F3,
    ) -> (rs: (Self, R))
        requires
            self.wf(),
            self.payload() matches EnumPayload::First(a) ==> call_requires(f1, (a,)),
            self.payload() matches EnumPayload::Second(b) ==> call_requires(f2, (b,)),
            self.payload() matches EnumPayload::Third(c) ==> call_requires(f3, (c,)),
        ensures
            rs.0.wf(),
            rs.0.code() == self.code(),
            self.payload() matches EnumPayload::First(a) ==> exists|o: (A, R)|
                #[trigger] call_ensures(f1, (a,), o) && rs.0.payload() == EnumPayload::<
                    A,
                    B,
                    C,
                >::First(o.0) && rs.1 == o.1,
            self.payload() matches EnumPayload::Second(b) ==> exists|o: (B, R)|
                #[trigger] call_ensures(f2, (b,), o) && rs.0.payload() == EnumPayload::<
                    A,
                    B,
                    C,
                >::Second(o.0) && rs.1 == o.1,
            self.payload() matches EnumPayload::Third(c) ==> exists|o: (C, R)|
                #[trigger] call_ensures(f3, (c,), o) && rs.0.payload() == EnumPayload::<
                    A,
                    B,
                    C,
                >::Third(o.0) && rs.1 == o.1,
    {
        let u = self.tw.get_usize();
        let EnumOinters { tw, payload } = self;
        if u == D1 as u64 {
            match payload {
                EnumPayload::First(a) => {
                    let (a2, r) = f1(a);
                    (EnumOinters { tw, payload: EnumPayload::First(a2) }, r)
                },
                _ => vstd::pervasive::unreached(),
            }
        } else if u == D2 as u64 {
            match payload {
                EnumPayload::Second(b) => {
                    let (b2, r) = f2(b);
                    (EnumOinters { tw, payload: EnumPayload::Second(b2) }, r)
                },
                _ => vstd::pervasive::unreached(),
            }
        } else {
            match payload {
                EnumPayload::Third(c) => {
                    let (c2, r) = f3(c);
                    (EnumOinters { tw, payload: EnumPayload::Third(c2) }, r)
                },
                _ => vstd::pervasive::unreached(),
            }
        }
    }
}

impl<
    A: Clone,
    B: Clone,
    C: Clone,
    const N: usize,
    const D1: usize,
    const D2: usize,
    const D3: usize,
> Clone for EnumOinters<A, B, C, N, D1, D2, D3> {
    /// Duplicate the union: the discriminant is copied and the live payload
    /// is cloned by its own duplication, so the clone is live in the same
    /// alternative.
    fn clone(&self) -> (r: Self)
        ensures
            r.code() == self.code(),
            self.payload() matches EnumPayload::First(a) ==> (r.payload() matches
                EnumPayload::First(a2) && vstd::pervasive::cloned::<A>(a, a2)),
            self.payload() matches EnumPayload::Second(b) ==> (r.payload() matches
                EnumPayload::Second(b2) && vstd::pervasive::cloned::<B>(b, b2)),
            self.payload() matches EnumPayload::Third(c) ==> (r.payload() matches
                EnumPayload::Third(c2) && vstd::pervasive::cloned::<C>(c, c2)),
            self.wf() ==> r.wf(),
    {
        let payload = match &self.payload {
            EnumPayload::First(a) => EnumPayload::First(a.clone()),
            EnumPayload::Second(b) => EnumPayload::Second(b.clone()),
            EnumPayload::Third(c) => EnumPayload::Third(c.clone()),
        };
        EnumOinters { tw: self.tw, payload }
    }
}

} // verus!
