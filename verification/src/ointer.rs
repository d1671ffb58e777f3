//! The bit-accessor core: pure bit arithmetic over a tagged word, the
//! `Ointer` trait that exposes it, and `TagWord`, the bare instantiation.

use vstd::prelude::*;

verus! {

/// A stolen-bit width is usable when at least one bit is stolen and at least
/// one bit of the word is left for the address region.
pub open spec fn valid_bits(n: usize) -> bool {
    1 <= n < 64
}

/// Number of positions the tag region sits above bit zero.
pub open spec fn shift_amt(n: usize) -> u64 {
    (64 - n) as u64
}

/// Mask selecting the address region (the low `64 - n` bits).
pub open spec fn low_mask(n: usize) -> u64 {
    !0u64 >> (n as u64)
}

/// The tag region of `w`: its high `n` bits, shifted down to bit zero.
pub open spec fn tag_of(w: u64, n: usize) -> u64 {
    w >> shift_amt(n)
}

/// The address region of `w`: its low `64 - n` bits, in place.
pub open spec fn addr_of(w: u64, n: usize) -> u64 {
    w & low_mask(n)
}

/// `u` fits in a tag region `n` bits wide.
pub open spec fn tag_fits(u: u64, n: usize) -> bool {
    u >> (n as u64) == 0
}

/// `w` with its tag region overwritten by `u` and its address region kept.
pub open spec fn with_tag(w: u64, n: usize, u: u64) -> u64 {
    addr_of(w, n) | (u << shift_amt(n))
}

/// The all-ones tag pattern, `n` bits wide.
pub open spec fn ones(n: usize) -> u64 {
    ((1u64 << (n as u64)) - 1) as u64
}

/// The largest signed value representable in an `n`-bit tag.
pub open spec fn max_signed(n: usize) -> int {
    (1u64 << ((n - 1) as u64)) - 1
}

/// The smallest signed value representable in an `n`-bit tag.
pub open spec fn min_signed(n: usize) -> int {
    -((1u64 << ((n - 1) as u64)) as int)
}

/// The signed reading of an `n`-bit tag `u`: its top bit is the sign bit.
pub open spec fn signed_of(u: u64, n: usize) -> int {
    if u < (1u64 << ((n - 1) as u64)) {
        u as int
    } else {
        u - (1u64 << (n as u64))
    }
}

/// The `n`-bit pattern that encodes the signed value `i` in two's complement.
pub open spec fn signed_pattern(i: i64, n: usize) -> u64 {
    (if i >= 0 {
        i as int
    } else {
        i + (1u64 << (n as u64))
    }) as u64
}

/// Writing a tag that fits and reading it back returns it exactly, and the
/// address region is unchanged by the write.
pub proof fn lemma_tag_roundtrip(w: u64, n: usize, u: u64)
    requires
        valid_bits(n),
        tag_fits(u, n),
    ensures
        tag_of(with_tag(w, n, u), n) == u,
        addr_of(with_tag(w, n, u), n) == addr_of(w, n),
{
    let s = shift_amt(n);
    assert(((w & (!0u64 >> (n as u64))) | (u << s)) >> s == u && ((w & (!0u64 >> (n as u64))) | (u
        << s)) & (!0u64 >> (n as u64)) == (w & (!0u64 >> (n as u64)))) by (bit_vector)
        requires
            1 <= n < 64,
            s == (64 - n) as u64,
            u >> (n as u64) == 0,
    ;
}

/// A tag region read back from a word always fits in `n` bits.
pub proof fn lemma_tag_bound(w: u64, n: usize)
    requires
        valid_bits(n),
    ensures
        tag_fits(tag_of(w, n), n),
{
    assert((w >> ((64 - n) as u64)) >> (n as u64) == 0) by (bit_vector)
        requires
            1 <= n < 64,
    ;
}

/// The all-zero word has a zero tag and a zero address region.
pub proof fn lemma_zero_word(n: usize)
    requires
        valid_bits(n),
    ensures
        tag_of(0, n) == 0,
        addr_of(0, n) == 0,
{
    assert(0u64 >> ((64 - n) as u64) == 0 && 0u64 & (!0u64 >> (n as u64)) == 0) by (bit_vector);
}

/// Fitting in `n` bits is the same as being below the `n`-th power of two.
pub proof fn lemma_fits_iff_below(u: u64, n: usize)
    requires
        valid_bits(n),
    ensures
        tag_fits(u, n) <==> u < (1u64 << (n as u64)),
{
    assert((u >> (n as u64) == 0) <==> u < (1u64 << (n as u64))) by (bit_vector)
        requires
            1 <= n < 64,
    ;
}

/// The all-ones tag pattern fits in its own width, and is never the zero
/// pattern.
pub proof fn lemma_ones_fits(n: usize)
    requires
        valid_bits(n),
    ensures
        tag_fits(ones(n), n),
        ones(n) != 0,
{
    assert((((1u64 << (n as u64)) - 1) as u64) >> (n as u64) == 0 && ((1u64 << (n as u64)) - 1)
        as u64 != 0) by (bit_vector)
        requires
            1 <= n < 64,
    ;
}

/// Every word is exactly its own address region with its own tag written
/// over it: splitting a word into the two regions loses nothing.
pub proof fn lemma_decompose(w: u64, n: usize)
    requires
        valid_bits(n),
    ensures
        with_tag(w, n, tag_of(w, n)) == w,
{
    assert((w & (!0u64 >> (n as u64))) | ((w >> ((64 - n) as u64)) << ((64 - n) as u64)) == w)
        by (bit_vector)
        requires
            1 <= n < 64,
    ;
}

/// Law: writing a tag value that fits and reading the tag region back
/// returns that value exactly, the address region is unchanged by the
/// write, and a well-formed carrier stays well-formed — so everything else
/// the carrier holds is untouched.
pub proof fn lemma_set_get_roundtrip<const N: usize, O: Ointer<N>>(o: O, u: u64)
    requires
        o.wf(),
        tag_fits(u, N),
    ensures
        ({
            let o2 = o.with_word(with_tag(o.word(), N, u));
            &&& tag_of(o2.word(), N) == u
            &&& addr_of(o2.word(), N) == addr_of(o.word(), N)
            &&& o2.wf()
        }),
{
    o.lemma_word_laws(with_tag(o.word(), N, u));
    lemma_tag_roundtrip(o.word(), N, u);
}

/// Law: the two's-complement pattern of a signed value in the `n`-bit range
/// fits in the tag region and reads back, through the signed reading, as
/// exactly that value; the address region is unchanged by the write.
pub proof fn lemma_signed_roundtrip(w: u64, n: usize, i: i64)
    requires
        valid_bits(n),
        min_signed(n) <= i <= max_signed(n),
    ensures
        tag_fits(signed_pattern(i, n), n),
        signed_of(tag_of(with_tag(w, n, signed_pattern(i, n)), n), n) == i,
        addr_of(with_tag(w, n, signed_pattern(i, n)), n) == addr_of(w, n),
{
    lemma_signed_ranges(n);
    lemma_fits_iff_below(signed_pattern(i, n), n);
    lemma_tag_roundtrip(w, n, signed_pattern(i, n));
}

/// Law: after a boolean write the boolean read returns exactly what was
/// written, whatever tag stood there before, and the address region is
/// unchanged.
pub proof fn lemma_bool_roundtrip(w: u64, n: usize, b: bool)
    requires
        valid_bits(n),
    ensures
        ({
            let w2 = with_tag(
                w,
                n,
                if b {
                    ones(n)
                } else {
                    0u64
                },
            );
            &&& (tag_of(w2, n) != 0) == b
            &&& addr_of(w2, n) == addr_of(w, n)
        }),
{
    lemma_ones_fits(n);
    assert(0u64 >> (n as u64) == 0) by (bit_vector);
    lemma_tag_roundtrip(w, n, if b { ones(n) } else { 0u64 });
}

/// Law: with one stolen bit, toggling the boolean tag twice restores the
/// original word exactly — tag and address region alike.
pub proof fn lemma_toggle_twice(w: u64)
    ensures
        ({
            let w1 = with_tag(
                w,
                1,
                if tag_of(w, 1) != 0 {
                    0u64
                } else {
                    ones(1)
                },
            );
            let w2 = with_tag(
                w1,
                1,
                if tag_of(w1, 1) != 0 {
                    0u64
                } else {
                    ones(1)
                },
            );
            w2 == w
        }),
{
    assert(ones(1) == 1 && (1u64 >> 1u64) == 0 && (0u64 >> 1u64) == 0 && (w >> 63u64 == 0 || w
        >> 63u64 == 1)) by (bit_vector);
    lemma_tag_roundtrip(w, 1, if tag_of(w, 1) != 0 { 0u64 } else { ones(1) });
    lemma_decompose(w, 1);
}

/// Size facts about the halves of an `n`-bit tag region, used when a tag is
/// read or written through its signed interpretation.
pub proof fn lemma_signed_ranges(n: usize)
    requires
        valid_bits(n),
    ensures
        1 <= (1u64 << ((n - 1) as u64)) < (1u64 << (n as u64)),
        (1u64 << (n as u64)) - (1u64 << ((n - 1) as u64)) == (1u64 << ((n - 1) as u64)),
        (1u64 << ((n - 1) as u64)) <= 0x4000_0000_0000_0000u64,
{
    assert(1 <= (1u64 << ((n - 1) as u64)) < (1u64 << (n as u64)) && (1u64 << (n as u64)) - (1u64
        << ((n - 1) as u64)) == (1u64 << ((n - 1) as u64)) && (1u64 << ((n - 1) as u64))
        <= 0x4000_0000_0000_0000u64) by (bit_vector)
        requires
            1 <= n < 64,
    ;
}

/// An accessor for the top `N` bits of a pointer-sized word, stated over an
/// abstract word view so that every wrapper that carries such a word shares
/// one verified set of tag operations.
pub trait Ointer<const N: usize>: Sized {
    /// The owning-pointer kind whose representation the address region stands
    /// for.
    type Pointer;

    /// The tagged word this value carries.
    spec fn word(&self) -> u64;

    /// This value with its tagged word replaced and everything else kept.
    spec fn with_word(self, w: u64) -> Self;

    /// Well-formedness: the stolen-bit width is usable, and whatever the
    /// carrier demands of its address region holds.
    spec fn wf(&self) -> bool;

    /// The laws every carrier must obey: well-formedness forces a usable
    /// width, replacing the word stores exactly that word, and a replacement
    /// that keeps the address region keeps well-formedness.
    proof fn lemma_word_laws(self, w: u64)
        ensures
            self.wf() ==> valid_bits(N),
            self.with_word(w).word() == w,
            self.wf() && addr_of(w, N) == addr_of(self.word(), N) ==> self.with_word(w).wf(),
    ;

    /// Read the whole tagged word.
    fn get_word(&self) -> (w: u64)
        ensures
            w == self.word(),
    ;

    /// Replace the whole tagged word.
    fn put_word(&mut self, w: u64)
        ensures
            *final(self) == old(self).with_word(w),
    ;

    /// Get the high `N` bits as an unsigned integer.
    fn get_usize(&self) -> (r: u64)
        requires
            self.wf(),
        ensures
            r == tag_of(self.word(), N),
    {
        proof {
            self.lemma_word_laws(0);
        }
        let w = self.get_word();
        w >> ((64 - N) as u64)
    }

    /// Set the high `N` bits from an unsigned integer that fits in them.
    fn set_usize(&mut self, u: u64)
        requires
            old(self).wf(),
            tag_fits(u, N),
        ensures
            *final(self) == old(self).with_word(with_tag(old(self).word(), N, u)),
            final(self).wf(),
    {
        proof {
            self.lemma_word_laws(0);
        }
        let w = self.get_word();
        let nw = (w & (!0u64 >> (N as u64))) | (u << ((64 - N) as u64));
        proof {
            lemma_tag_roundtrip(w, N, u);
            self.lemma_word_laws(nw);
        }
        self.put_word(nw);
    }

    /// Get the high `N` bits and report whether any of them is set.
    fn get_bool(&self) -> (r: bool)
        requires
            self.wf(),
        ensures
            r == (tag_of(self.word(), N) != 0),
    {
        self.get_usize() != 0
    }

    /// Get the high `N` bits as a sign-extended signed integer.
    fn get_isize(&self) -> (r: i64)
        requires
            self.wf(),
        ensures
            r == signed_of(tag_of(self.word(), N), N),
    {
        proof {
            self.lemma_word_laws(0);
            lemma_tag_bound(self.word(), N);
            lemma_fits_iff_below(tag_of(self.word(), N), N);
            lemma_signed_ranges(N);
        }
        let u = self.get_usize();
        let half = 1u64 << ((N - 1) as u64);
        if u < half {
            u as i64
        } else {
            -(((1u64 << (N as u64)) - u) as i64)
        }
    }

    /// Set the high `N` bits from a signed integer in the `N`-bit range.
    fn set_isize(&mut self, i: i64)
        requires
            old(self).wf(),
            min_signed(N) <= i <= max_signed(N),
        ensures
            *final(self) == old(self).with_word(
                with_tag(old(self).word(), N, signed_pattern(i, N)),
            ),
            final(self).wf(),
    {
        proof {
            self.lemma_word_laws(0);
            lemma_signed_ranges(N);
        }
        let u: u64 = if i >= 0 {
            i as u64
        } else {
            (1u64 << (N as u64)) - ((-i) as u64)
        };
        proof {
            lemma_fits_iff_below(u, N);
        }
        self.set_usize(u);
    }

    /// Set the high `N` bits all to one if `b` holds, all to zero otherwise.
    fn set_bool(&mut self, b: bool)
        requires
            old(self).wf(),
        ensures
            *final(self) == old(self).with_word(
                with_tag(
                    old(self).word(),
                    N,
                    if b {
                        ones(N)
                    } else {
                        0u64
                    },
                ),
            ),
            final(self).wf(),
    {
        proof {
            self.lemma_word_laws(0);
            lemma_signed_ranges(N);
        }
        self.set_isize(if b { -1 } else { 0 });
    }

    /// Get the address region: the stored pointer representation, unchanged.
    fn get_ptr_as_usize(&self) -> (r: u64)
        requires
            self.wf(),
        ensures
            r == addr_of(self.word(), N),
    {
        proof {
            self.lemma_word_laws(0);
        }
        let w = self.get_word();
        w & (!0u64 >> (N as u64))
    }

    /// Check the claim that the high `N` bits are all zero, so that the word
    /// can have a tag stolen from it without losing address information.
    fn assert_stealable(&self)
        requires
            self.wf(),
            tag_of(self.word(), N) == 0,
    {
    }

}

/// Reading the tag region as a fixed-size copyable value: each supported `T`
/// fixes how a tag pattern is read back as a `T`.
pub trait OinterGet<T, const N: usize>: Ointer<N> {
    /// How an `N`-bit tag pattern is read as a `T`.
    spec fn decode_tag(u: u64) -> T;

    /// Get the high `N` bits read as a value of `T`.
    fn get_high_bits(&self) -> (r: T)
        requires
            self.wf(),
        ensures
            r == Self::decode_tag(tag_of(self.word(), N)),
    ;

    /// Get the high `N` bits read as a value of `T`.
    fn get(&self) -> (r: T)
        requires
            self.wf(),
        ensures
            r == Self::decode_tag(tag_of(self.word(), N)),
    {
        self.get_high_bits()
    }
}

/// Writing the tag region from a fixed-size copyable value: each supported
/// `T` fixes the tag pattern that stands for a given `T`.
pub trait OinterSet<T, const N: usize>: Ointer<N> {
    /// The tag pattern that stands for `x`.
    spec fn encode_val(x: T) -> u64;

    /// Set the high `N` bits from `x`, whose pattern must fit in them.
    fn set_high_bits_mut(&mut self, x: T)
        requires
            old(self).wf(),
            tag_fits(Self::encode_val(x), N),
        ensures
            *final(self) == old(self).with_word(
                with_tag(old(self).word(), N, Self::encode_val(x)),
            ),
            final(self).wf(),
    ;

    /// Set the high `N` bits from a value of `T` whose pattern fits in them.
    fn set_mut(&mut self, x: T)
        requires
            old(self).wf(),
            tag_fits(Self::encode_val(x), N),
        ensures
            *final(self) == old(self).with_word(
                with_tag(old(self).word(), N, Self::encode_val(x)),
            ),
            final(self).wf(),
    {
        self.set_high_bits_mut(x);
    }
}

impl<const N: usize, O: Ointer<N>> OinterGet<bool, N> for O {
    open spec fn decode_tag(u: u64) -> bool {
        u as u8 != 0
    }

    fn get_high_bits(&self) -> (r: bool) {
        self.get_usize() as u8 != 0
    }
}

impl<const N: usize, O: Ointer<N>> OinterSet<bool, N> for O {
    open spec fn encode_val(x: bool) -> u64 {
        if x {
            1u64
        } else {
            0u64
        }
    }

    fn set_high_bits_mut(&mut self, x: bool) {
        self.set_usize(if x { 1 } else { 0 });
    }
}

impl<const N: usize, O: Ointer<N>> OinterGet<u8, N> for O {
    open spec fn decode_tag(u: u64) -> u8 {
        u as u8
    }

    fn get_high_bits(&self) -> (r: u8) {
        self.get_usize() as u8
    }
}

impl<const N: usize, O: Ointer<N>> OinterSet<u8, N> for O {
    open spec fn encode_val(x: u8) -> u64 {
        x as u64
    }

    fn set_high_bits_mut(&mut self, x: u8) {
        self.set_usize(x as u64);
    }
}

impl<const N: usize, O: Ointer<N>> OinterGet<u16, N> for O {
    open spec fn decode_tag(u: u64) -> u16 {
        u as u16
    }

    fn get_high_bits(&self) -> (r: u16) {
        self.get_usize() as u16
    }
}

impl<const N: usize, O: Ointer<N>> OinterSet<u16, N> for O {
    open spec fn encode_val(x: u16) -> u64 {
        x as u64
    }

    fn set_high_bits_mut(&mut self, x: u16) {
        self.set_usize(x as u64);
    }
}

impl<const N: usize, O: Ointer<N>> OinterGet<u32, N> for O {
    open spec fn decode_tag(u: u64) -> u32 {
        u as u32
    }

    fn get_high_bits(&self) -> (r: u32) {
        self.get_usize() as u32
    }
}

impl<const N: usize, O: Ointer<N>> OinterSet<u32, N> for O {
    open spec fn encode_val(x: u32) -> u64 {
        x as u64
    }

    fn set_high_bits_mut(&mut self, x: u32) {
        self.set_usize(x as u64);
    }
}

impl<const N: usize, O: Ointer<N>> OinterGet<u64, N> for O {
    open spec fn decode_tag(u: u64) -> u64 {
        u
    }

    fn get_high_bits(&self) -> (r: u64) {
        self.get_usize()
    }
}

impl<const N: usize, O: Ointer<N>> OinterSet<u64, N> for O {
    open spec fn encode_val(x: u64) -> u64 {
        x
    }

    fn set_high_bits_mut(&mut self, x: u64) {
        self.set_usize(x);
    }
}

impl<const N: usize, O: Ointer<N>> OinterGet<i8, N> for O {
    open spec fn decode_tag(u: u64) -> i8 {
        u as i8
    }

    fn get_high_bits(&self) -> (r: i8) {
        self.get_usize() as i8
    }
}

impl<const N: usize, O: Ointer<N>> OinterSet<i8, N> for O {
    open spec fn encode_val(x: i8) -> u64 {
        (x as u8) as u64
    }

    fn set_high_bits_mut(&mut self, x: i8) {
        self.set_usize((x as u8) as u64);
    }
}

impl<const N: usize, O: Ointer<N>> OinterGet<i16, N> for O {
    open spec fn decode_tag(u: u64) -> i16 {
        u as i16
    }

    fn get_high_bits(&self) -> (r: i16) {
        self.get_usize() as i16
    }
}

impl<const N: usize, O: Ointer<N>> OinterSet<i16, N> for O {
    open spec fn encode_val(x: i16) -> u64 {
        (x as u16) as u64
    }

    fn set_high_bits_mut(&mut self, x: i16) {
        self.set_usize((x as u16) as u64);
    }
}

impl<const N: usize, O: Ointer<N>> OinterGet<i32, N> for O {
    open spec fn decode_tag(u: u64) -> i32 {
        u as i32
    }

    fn get_high_bits(&self) -> (r: i32) {
        self.get_usize() as i32
    }
}

impl<const N: usize, O: Ointer<N>> OinterSet<i32, N> for O {
    open spec fn encode_val(x: i32) -> u64 {
        (x as u32) as u64
    }

    fn set_high_bits_mut(&mut self, x: i32) {
        self.set_usize((x as u32) as u64);
    }
}

impl<const N: usize, O: Ointer<N>> OinterGet<i64, N> for O {
    open spec fn decode_tag(u: u64) -> i64 {
        u as i64
    }

    fn get_high_bits(&self) -> (r: i64) {
        self.get_usize() as i64
    }
}

impl<const N: usize, O: Ointer<N>> OinterSet<i64, N> for O {
    open spec fn encode_val(x: i64) -> u64 {
        x as u64
    }

    fn set_high_bits_mut(&mut self, x: i64) {
        self.set_usize(x as u64);
    }
}

/// A bare tagged word over nothing but a raw pointer representation: the
/// instantiation of the accessor that the tagged union builds on.
#[derive(Clone, Copy, Debug, PartialEq, Eq, PartialOrd, Ord, Hash)]
pub struct TagWord<const N: usize> {
    word: u64,
}

impl<const N: usize> TagWord<N> {
    /// Wrap a raw pointer representation whose top `N` bits are free.
    pub fn new(p: u64) -> (r: Self)
        requires
            valid_bits(N),
            tag_of(p, N) == 0,
        ensures
            r.word() == p,
            r.wf(),
    {
        TagWord { word: p }
    }
}

impl<const N: usize> TagWord<N> {
    /// Expose the current tag, read as `T`, and the stored pointer
    /// representation to `f` in one step.
    pub fn map<T, R, F: FnOnce(T, &u64) -> R>(&self, f: F) -> (r: R) where
        Self: OinterGet<T, N>,

        requires
            self.wf(),
            call_requires(
                f,
                (
                    <Self as OinterGet<T, N>>::decode_tag(tag_of(self.word(), N)),
                    &addr_of(self.word(), N),
                ),
            ),
        ensures
            call_ensures(
                f,
                (
                    <Self as OinterGet<T, N>>::decode_tag(tag_of(self.word(), N)),
                    &addr_of(self.word(), N),
                ),
                r,
            ),
    {
        let x = self.get_high_bits();
        let u = self.get_ptr_as_usize();
        f(x, &u)
    }

    /// Hand the current tag, read as `T`, and the stored pointer
    /// representation to `f`, then store back the tag and pointer that `f`
    /// returns.  Every outcome of `f` must leave a tag pattern that fits and
    /// a pointer representation whose stolen bits are free.
    pub fn map_mut<T, R, F: FnOnce(T, u64) -> (T, u64, R)>(&mut self, f: F) -> (r: R) where
        Self: OinterGet<T, N> + OinterSet<T, N>,

        requires
            old(self).wf(),
            call_requires(
                f,
                (
                    <Self as OinterGet<T, N>>::decode_tag(tag_of(old(self).word(), N)),
                    addr_of(old(self).word(), N),
                ),
            ),
            forall|o: (T, u64, R)|
                #[trigger] call_ensures(
                    f,
                    (
                        <Self as OinterGet<T, N>>::decode_tag(tag_of(old(self).word(), N)),
                        addr_of(old(self).word(), N),
                    ),
                    o,
                ) ==> tag_fits(<Self as OinterSet<T, N>>::encode_val(o.0), N) && tag_of(o.1, N)
                    == 0,
        ensures
            exists|o: (T, u64, R)|
                call_ensures(
                    f,
                    (
                        <Self as OinterGet<T, N>>::decode_tag(tag_of(old(self).word(), N)),
                        addr_of(old(self).word(), N),
                    ),
                    o,
                ) && r == o.2 && *final(self) == old(self).with_word(
                    with_tag(o.1, N, <Self as OinterSet<T, N>>::encode_val(o.0)),
                ),
            final(self).wf(),
    {
        let x = self.get_high_bits();
        let u = self.get_ptr_as_usize();
        let (x2, mut u2, ret) = f(x, u);
        proof {
            assert(call_ensures(
                f,
                (
                    <Self as OinterGet<T, N>>::decode_tag(tag_of(old(self).word(), N)),
                    addr_of(old(self).word(), N),
                ),
                (x2, u2, ret),
            ));
            assert(tag_of(u2, N) == 0);
        }
        self.set_ptr(&mut u2);
        self.set_high_bits_mut(x2);
        ret
    }

    /// Store a fresh pointer representation, whose stolen bits must be free,
    /// as the whole word: the tag comes out cleared.
    pub fn set_ptr(&mut self, p: &mut u64)
        requires
            old(self).wf(),
            tag_of(*old(p), N) == 0,
        ensures
            *final(self) == old(self).with_word(*old(p)),
            *final(p) == *old(p),
            final(self).wf(),
    {
        proof {
            self.lemma_word_laws(*p);
        }
        let w = *p;
        self.put_word(w);
        self.assert_stealable();
    }
}

impl<const N: usize> Ointer<N> for TagWord<N> {
    type Pointer = u64;

    closed spec fn word(&self) -> u64 {
        self.word
    }

    closed spec fn with_word(self, w: u64) -> Self {
        TagWord { word: w }
    }

    open spec fn wf(&self) -> bool {
        valid_bits(N)
    }

    proof fn lemma_word_laws(self, w: u64) {
        assert(self.with_word(w).word() == w);
    }

    fn get_word(&self) -> (w: u64) {
        self.word
    }

    fn put_word(&mut self, w: u64) {
        self.word = w;
    }
}

} // verus!
