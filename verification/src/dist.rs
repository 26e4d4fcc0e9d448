//! Sampling primitives built on a word source: the debiased multiply-shift
//! bounded sampler, a uniform slice pick, and the in-place shuffle.

use vstd::prelude::*;

use crate::RngError;
use crate::WordSource;
use crate::words::lemma_u64_split;
use vstd::arithmetic::div_mod::lemma_fundamental_div_mod;
use vstd::arithmetic::div_mod::lemma_fundamental_div_mod_converse;
use vstd::arithmetic::div_mod::lemma_mod_division_less_than_divisor;
use vstd::arithmetic::div_mod::lemma_mod_sub_multiples_vanish;
use vstd::arithmetic::div_mod::lemma_multiply_divide_lt;
use vstd::arithmetic::div_mod::lemma_small_mod;
use vstd::arithmetic::mul::lemma_mul_inequality;
use vstd::arithmetic::mul::lemma_mul_strict_inequality;
use vstd::seq_lib::to_multiset_update;

verus! {

/// How many consecutive below-threshold words a draw tolerates before it
/// substitutes the word 2^32 - 1, which every bound accepts. Each redraw
/// happens with probability below one half, so the substitution is reached
/// with probability below 2^-64.
pub const REDRAW_LIMIT: u32 = 64;

/// The high 32 bits of the 64-bit product of a source word and the bound:
/// the candidate result of one multiply-shift step.
pub open spec fn mul_shift_hi(x: u32, ub: u32) -> int {
    (x * ub) / 0x1_0000_0000
}

/// The low 32 bits of the 64-bit product of a source word and the bound.
pub open spec fn mul_shift_lo(x: u32, ub: u32) -> int {
    (x * ub) % 0x1_0000_0000
}

/// The rejection threshold for a bound: 2^32 mod the bound. Source words
/// whose low product bits fall below it are redrawn; this debiases the
/// multiply-shift step exactly.
pub open spec fn rejection_threshold(ub: u32) -> int
    recommends
        ub >= 1,
{
    0x1_0000_0000int % (ub as int)
}

/// Whether one source word is accepted (not redrawn) at the given bound.
pub open spec fn lemire_accepts(x: u32, ub: u32) -> bool
    recommends
        ub >= 1,
{
    mul_shift_lo(x, ub) >= rejection_threshold(ub)
}

/// The source words accepted at bound `ub` whose candidate result is `r`.
pub open spec fn accepted_words_for(ub: u32, r: int) -> Set<int> {
    Set::new(
        |x: int|
            0 <= x < 0x1_0000_0000 && lemire_accepts(x as u32, ub) && mul_shift_hi(x as u32, ub)
                == r,
    )
}

/// The least source word accepted at bound `ub` with candidate result `r`.
pub open spec fn accept_lo(ub: u32, r: int) -> int
    recommends
        ub >= 1,
{
    (r * 0x1_0000_0000 + rejection_threshold(ub) + ub - 1) / (ub as int)
}

proof fn lemma_words_per_result_pos(ub: u32)
    requires
        1 <= ub,
    ensures
        1 <= 0x1_0000_0000int / (ub as int),
        (ub as int) * (0x1_0000_0000int / (ub as int)) + rejection_threshold(ub)
            == 0x1_0000_0000int,
        0 <= rejection_threshold(ub) < ub,
{
    let p = 0x1_0000_0000int;
    let u = ub as int;
    lemma_fundamental_div_mod(p, u);
    lemma_mod_division_less_than_divisor(p, u);
    vstd::arithmetic::div_mod::lemma_div_pos_is_pos(p, u);
    if p / u == 0 {
        assert(false);
    }
}

/// A word is an accepted preimage of result `r` exactly when it lies in a
/// half-open interval of length 2^32 / ub starting at `accept_lo(ub, r)`.
proof fn lemma_accept_iff_interval(ub: u32, r: int, x: int)
    requires
        1 <= ub,
        0 <= r < ub,
    ensures
        accepted_words_for(ub, r).contains(x) <==> (accept_lo(ub, r) <= x < accept_lo(ub, r)
            + 0x1_0000_0000int / (ub as int)),
{
    let p = 0x1_0000_0000int;
    let u = ub as int;
    let t = rejection_threshold(ub);
    let q = p / u;
    let a = r * p + t;
    let b = (r + 1) * p;
    let l = accept_lo(ub, r);
    lemma_words_per_result_pos(ub);
    assert(b == a + u * q) by {
        assert(r * p + p == (r + 1) * p) by (nonlinear_arith);
    }
    // ceiling bounds: a <= l * u <= a + u - 1
    lemma_fundamental_div_mod(a + u - 1, u);
    lemma_mod_division_less_than_divisor(a + u - 1, u);
    assert(u * l == l * u) by (nonlinear_arith);
    assert(a <= l * u <= a + u - 1);
    assert(0 <= l) by {
        vstd::arithmetic::div_mod::lemma_div_pos_is_pos(a + u - 1, u);
    }
    if l <= x < l + q {
        // x * u lands in [a, b), so the candidate result is r and the low
        // bits clear the threshold.
        lemma_mul_inequality(l, x, u);
        lemma_mul_inequality(x, l + q - 1, u);
        assert((l + q - 1) * u == l * u + q * u - u) by (nonlinear_arith);
        assert(u * q == q * u) by (nonlinear_arith);
        assert(a <= x * u < b);
        lemma_fundamental_div_mod_converse(x * u, p, r, x * u - r * p);
        assert(r + 1 <= u);
        lemma_mul_inequality(r + 1, u, p);
        assert(x * u < u * p) by {
            assert(u * p == p * u) by (nonlinear_arith);
        }
        vstd::arithmetic::mul::lemma_mul_strict_inequality_converse(x, p, u);
        assert(0 <= x < p);
        assert((x as u32) * ub == x * u);
        assert(mul_shift_hi(x as u32, ub) == r);
        assert(lemire_accepts(x as u32, ub));
    }
    if accepted_words_for(ub, r).contains(x) {
        // the candidate result pins x * u into [r * p, b); acceptance
        // raises the lower end to a; the interval bounds follow.
        assert((x as u32) * ub == x * u);
        lemma_fundamental_div_mod(x * u, p);
        lemma_mod_division_less_than_divisor(x * u, p);
        assert(p * r == r * p) by (nonlinear_arith);
        assert(a <= x * u < b);
        if x <= l - 1 {
            lemma_mul_inequality(x, l - 1, u);
            assert((l - 1) * u == l * u - u) by (nonlinear_arith);
            assert(false);
        }
        if x >= l + q {
            lemma_mul_inequality(l + q, x, u);
            assert((l + q) * u == l * u + q * u) by (nonlinear_arith);
            assert(u * q == q * u) by (nonlinear_arith);
            assert(false);
        }
    }
}

/// Debiasing law of the bounded sampler: at every bound, each result value
/// in `[0, ub)` is the candidate of exactly the same number of accepted
/// source words — 2^32 / ub of them (integer division) — so a uniform
/// source word yields an exactly uniform result.
pub proof fn lemma_draw_uniform(ub: u32, r: int)
    requires
        1 <= ub,
        0 <= r < ub,
    ensures
        accepted_words_for(ub, r).finite(),
        accepted_words_for(ub, r).len() == 0x1_0000_0000int / (ub as int),
{
    let l = accept_lo(ub, r);
    let q = 0x1_0000_0000int / (ub as int);
    lemma_words_per_result_pos(ub);
    assert forall|x: int|
        accepted_words_for(ub, r).contains(x) <==> vstd::set_lib::set_int_range(
            l,
            l + q,
        ).contains(x) by {
        lemma_accept_iff_interval(ub, r, x);
    }
    assert(accepted_words_for(ub, r) =~= vstd::set_lib::set_int_range(l, l + q));
    vstd::set_lib::lemma_int_range(l, l + q);
}

/// A bounded sampler: the current upper bound and the cached rejection
/// threshold, recomputed lazily after a bound change.
#[derive(Clone, Copy, Debug)]
pub struct FastRangeU32 {
    pub ub: u32,
    pub cut: u32,
}

impl Default for FastRangeU32 {
    /// The cleared sampler: bound zero, no cached threshold.
    fn default() -> (r: FastRangeU32)
        ensures
            r.ub == 0,
            r.cut == 0,
            r.wf(),
    {
        FastRangeU32 { ub: 0, cut: 0 }
    }
}

impl FastRangeU32 {
    /// The cached threshold is either the sentinel (equal to the bound,
    /// meaning "not yet computed") or exactly 2^32 mod the bound.
    pub open spec fn wf(&self) -> bool {
        self.cut == self.ub || (self.ub >= 1 && self.cut == rejection_threshold(self.ub))
    }

    /// A sampler for the half-open range `[0, ub)`; the threshold cache
    /// starts out unset.
    pub fn new(ub: u32) -> (r: FastRangeU32)
        requires
            ub >= 1,
        ensures
            r.ub == ub,
            r.cut == ub,
            r.wf(),
    {
        FastRangeU32 { ub, cut: ub }
    }

    /// As `new`, but a zero bound is reported as `InvalidBound` instead of
    /// being excluded by precondition.
    pub fn try_new(ub: u32) -> (r: Result<FastRangeU32, RngError>)
        ensures
            ub >= 1 ==> r is Ok && r->Ok_0.ub == ub && r->Ok_0.cut == ub && r->Ok_0.wf(),
            ub == 0 ==> r == Err::<FastRangeU32, RngError>(RngError::InvalidBound),
    {
        if ub == 0 {
            Err(RngError::InvalidBound)
        } else {
            Ok(FastRangeU32::new(ub))
        }
    }

    /// The current upper bound.
    pub fn upper_bound(&self) -> (r: u32)
        ensures
            r == self.ub,
    {
        self.ub
    }

    /// Clears the sampler to bound zero, invalidating the cache.
    pub fn clear(&mut self)
        ensures
            final(self).ub == 0,
            final(self).cut == 0,
            final(self).wf(),
    {
        self.ub = 0;
        self.cut = 0;
    }

    /// Changes the bound: a different bound invalidates the cached
    /// threshold, while resetting to the current bound keeps the cache.
    pub fn reset(&mut self, ub: u32)
        requires
            ub >= 1,
            old(self).wf(),
        ensures
            final(self).ub == ub,
            final(self).wf(),
            old(self).ub == ub ==> *final(self) == *old(self),
            old(self).ub != ub ==> final(self).cut == ub,
    {
        if self.ub != ub {
            self.ub = ub;
            self.cut = ub;
        }
    }

    /// Draws a uniform integer in `[0, ub)`: the result is the high half of
    /// the product of an accepted source word with the bound. A bound of 1
    /// yields 0 without consuming any randomness; otherwise words whose low
    /// product bits fall below the rejection threshold (2^32 mod bound,
    /// computed lazily and cached) are redrawn, which makes every result
    /// value the image of equally many source words. Redraws stop after
    /// `REDRAW_LIMIT` consecutive misses — reached with probability below
    /// 2^-64 — whereupon the draw proceeds as if the source had produced
    /// the always-accepted word 2^32 - 1.
    pub fn draw<S: WordSource>(&mut self, rng: &mut S) -> (r: u32)
        requires
            old(self).wf(),
            old(self).ub >= 1,
            old(rng).ready(),
        ensures
            final(rng).ready(),
            final(self).wf(),
            final(self).ub == old(self).ub,
            r < old(self).ub,
            exists|x: u32| #[trigger]
                lemire_accepts(x, old(self).ub) && r == mul_shift_hi(x, old(self).ub),
            old(self).cut == rejection_threshold(old(self).ub) ==> *final(self) == *old(self),
            old(self).ub == 1 ==> r == 0 && *final(rng) == *old(rng) && *final(self) == *old(self),
    {
        let s = self.ub;
        if s == 1 {
            proof {
                lemma_small_mod(0nat, 1nat);
                assert(rejection_threshold(1u32) == 0);
                assert(mul_shift_lo(0u32, 1u32) == 0 && mul_shift_hi(0u32, 1u32) == 0);
                assert(lemire_accepts(0u32, 1u32));
            }
            return 0;
        }
        let mut x = rng.next_word();
        let step = mul_shift(x, s);
        let mut hi = step.0;
        let mut lo = step.1;
        proof {
            lemma_mod_division_less_than_divisor(0x1_0000_0000, s as int);
        }
        if lo < s {
            let t = if self.cut == s {
                let cut = (0u32.wrapping_sub(s)) % s;
                proof {
                    lemma_mod_sub_multiples_vanish(0x1_0000_0000, s as int);
                }
                self.cut = cut;
                cut
            } else {
                self.cut
            };
            let mut tries: u32 = REDRAW_LIMIT;
            while lo < t && tries > 0
                invariant
                    2 <= s,
                    self.ub == s,
                    self.wf(),
                    rng.ready(),
                    t == rejection_threshold(s),
                    t < s,
                    hi == mul_shift_hi(x, s),
                    lo == mul_shift_lo(x, s),
                    hi < s,
                decreases tries,
            {
                x = rng.next_word();
                let redrawn = mul_shift(x, s);
                hi = redrawn.0;
                lo = redrawn.1;
                tries = tries - 1;
            }
            if lo < t {
                x = u32::MAX;
                let fallback = mul_shift(x, s);
                hi = fallback.0;
                lo = fallback.1;
                proof {
                    lemma_max_word_accepted(s);
                }
            }
        }
        proof {
            assert(lemire_accepts(x, s) && hi == mul_shift_hi(x, s));
        }
        hi
    }
}

/// One multiply-shift step: the candidate result (the high 32 bits of the
/// 64-bit product of the source word and the bound) and the low 32 bits
/// that the rejection test inspects.
pub fn mul_shift(x: u32, ub: u32) -> (r: (u32, u32))
    ensures
        r.0 == mul_shift_hi(x, ub),
        r.1 == mul_shift_lo(x, ub),
        ub >= 1 ==> r.0 < ub,
{
    let m: u64 = (x as u64).wrapping_mul(ub as u64);
    proof {
        lemma_product_fits(x, ub);
        lemma_u64_split(m);
        if ub >= 1 {
            lemma_mul_inequality(x as int, 0xffff_ffff, ub as int);
            lemma_mul_strict_inequality(0xffff_ffff, 0x1_0000_0000, ub as int);
            lemma_multiply_divide_lt(m as int, 0x1_0000_0000, ub as int);
        }
    }
    ((m >> 32) as u32, (m % 0x1_0000_0000) as u32)
}

/// The word 2^32 - 1 is accepted at every bound: its low product bits are
/// 2^32 - ub, which no rejection threshold exceeds, and its candidate
/// result is ub - 1.
proof fn lemma_max_word_accepted(s: u32)
    requires
        s >= 1,
    ensures
        lemire_accepts(u32::MAX, s),
        mul_shift_hi(u32::MAX, s) == s - 1,
{
    let p = 0x1_0000_0000int;
    assert(0xffff_ffffu32 * s == (s - 1) * 0x1_0000_0000int + (0x1_0000_0000int - s))
        by (nonlinear_arith);
    lemma_fundamental_div_mod_converse(0xffff_ffffu32 * s, p, s - 1, p - s);
    assert(mul_shift_lo(u32::MAX, s) == p - s);
    lemma_fundamental_div_mod(p, s as int);
    lemma_mod_division_less_than_divisor(p, s as int);
    vstd::arithmetic::div_mod::lemma_div_pos_is_pos(p, s as int);
    let q = p / (s as int);
    if q == 0 {
        vstd::arithmetic::mul::lemma_mul_by_zero_is_zero(s as int);
        assert(p == (s as int) * q + p % (s as int));
        assert(false);
    }
    lemma_mul_inequality(1, q, s as int);
    assert(rejection_threshold(s) <= p - s);
}

proof fn lemma_product_fits(x: u32, s: u32)
    ensures
        x * s <= 0xffff_ffff * 0xffff_ffff,
        vstd::wrapping::u64_specs::wrapping_mul(x as u64, s as u64) == x * s,
        (x * s) % 0x1_0000_0000 == mul_shift_lo(x, s),
{
    vstd::arithmetic::mul::lemma_mul_upper_bound(x as int, 0xffff_ffff, s as int, 0xffff_ffff);
    lemma_small_mod((x * s) as nat, 0x1_0000_0000_0000_0000);
}

/// Relies on the slice method `swap` of std: it exchanges the elements at
/// the two indices and touches nothing else.
pub assume_specification<Elem>[ <[Elem]>::swap ](s: &mut [Elem], a: usize, b: usize)
    requires
        a < old(s)@.len(),
        b < old(s)@.len(),
    ensures
        final(s)@ == old(s)@.update(a as int, old(s)@[b as int]).update(
            b as int,
            old(s)@[a as int],
        ),
;

/// In-place Fisher-Yates shuffle driven by one bounded sampler that is
/// reset to each suffix length in turn. The result always holds exactly the
/// elements of the input (as a multiset); a sequence of length 0 or 1 is
/// returned unchanged without consuming any randomness.
pub fn shuffle<T, S: WordSource>(buf: &mut Vec<T>, rng: &mut S)
    requires
        old(rng).ready(),
        old(buf)@.len() <= u32::MAX,
    ensures
        final(rng).ready(),
        final(buf)@.len() == old(buf)@.len(),
        final(buf)@.to_multiset() == old(buf)@.to_multiset(),
        old(buf)@.len() <= 1 ==> final(buf)@ == old(buf)@ && *final(rng) == *old(rng),
{
    if buf.len() <= 1 {
        return ;
    }
    let len: u32 = buf.len() as u32;
    let mut r = FastRangeU32::default();
    let mut off: u32 = 0;
    while off < len - 1
        invariant
            2 <= len <= u32::MAX,
            buf@.len() == len,
            buf@.len() == old(buf)@.len(),
            off <= len - 1,
            rng.ready(),
            r.wf(),
            buf@.to_multiset() == old(buf)@.to_multiset(),
        decreases len - off,
    {
        r.reset(len - off);
        let i = r.draw(rng);
        if i != 0 {
            let ghost s0 = buf@;
            let a = off as usize;
            let b = (off + i) as usize;
            let sl = buf.as_mut_slice();
            sl.swap(a, b);
            proof {
                let va = s0[a as int];
                let vb = s0[b as int];
                to_multiset_update(s0, a as int, vb);
                to_multiset_update(s0.update(a as int, vb), b as int, va);
                s0.to_multiset_ensures();
                assert(s0[a as int] == va && s0.contains(va));
                assert(s0.update(a as int, vb)[b as int] == vb);
                assert(buf@.to_multiset() =~= s0.to_multiset());
            }
        }
        off = off + 1;
    }
}

/// A value drawn whole from a word source; for a library type this is the
/// way to give it a seeded random constructor.
pub trait DrawNew: Sized {
    /// Draws a fresh value off the source.
    fn draw_new<S: WordSource>(rng: &mut S) -> (r: Self)
        requires
            old(rng).ready(),
        ensures
            final(rng).ready(),
    ;
}

/// A distribution-like value consumed by drawing one item off a word
/// source.
pub trait Draw: Sized {
    type Item;

    /// Whether the value is fit to draw from.
    spec fn draw_ok(&self) -> bool;

    /// What may come out of a draw: each impl pins its results here.
    spec fn draw_result(&self, r: Self::Item) -> bool;

    /// Draws one item off the source.
    fn draw<S: WordSource>(self, rng: &mut S) -> (r: Self::Item)
        requires
            old(rng).ready(),
            self.draw_ok(),
        ensures
            final(rng).ready(),
            self.draw_result(r),
    ;
}

impl<'a, T: Copy> Draw for &'a [T] {
    type Item = T;

    /// Drawable when a uniform index fits the bounded sampler: non-empty
    /// and no longer than 2^32 - 1.
    open spec fn draw_ok(&self) -> bool {
        1 <= self@.len() <= u32::MAX
    }

    /// The result is an element of the slice.
    open spec fn draw_result(&self, r: T) -> bool {
        exists|i: int| 0 <= i < self@.len() && r == self@[i]
    }

    /// The element at an index drawn uniformly in `[0, len)`.
    fn draw<S: WordSource>(self, rng: &mut S) -> (r: T) {
        let mut fr = FastRangeU32::new(self.len() as u32);
        let i = fr.draw(rng);
        let r = self[i as usize];
        proof {
            assert(0 <= (i as int) && (i as int) < self@.len() && r == self@[i as int]);
        }
        r
    }
}

/// `RangeTo` of std, so that a draw can be bounded by it. Relies only on
/// the type's shape: one public field `end`.
#[verifier::external_type_specification]
#[verifier::reject_recursive_types(Idx)]
pub struct ExRangeTo<Idx>(core::ops::RangeTo<Idx>);

/// `RangeToInclusive` of std, so that a draw can be bounded by it. Relies
/// only on the type's shape: one public field `end`.
#[verifier::external_type_specification]
#[verifier::reject_recursive_types(Idx)]
pub struct ExRangeToInclusive<Idx>(core::ops::RangeToInclusive<Idx>);

impl Draw for core::ops::Range<u8> {
    type Item = u8;

    /// Drawable when non-empty.
    open spec fn draw_ok(&self) -> bool {
        self.start < self.end
    }

    /// The result lies in the range.
    open spec fn draw_result(&self, r: u8) -> bool {
        self.start <= r < self.end
    }

    /// A uniform value in `[start, end)`.
    fn draw<S: WordSource>(self, rng: &mut S) -> (r: u8) {
        let mut fr = FastRangeU32::new((self.end - self.start) as u32);
        let i = fr.draw(rng);
        self.start + i as u8
    }
}

impl Draw for core::ops::Range<u16> {
    type Item = u16;

    /// Drawable when non-empty.
    open spec fn draw_ok(&self) -> bool {
        self.start < self.end
    }

    /// The result lies in the range.
    open spec fn draw_result(&self, r: u16) -> bool {
        self.start <= r < self.end
    }

    /// A uniform value in `[start, end)`.
    fn draw<S: WordSource>(self, rng: &mut S) -> (r: u16) {
        let mut fr = FastRangeU32::new((self.end - self.start) as u32);
        let i = fr.draw(rng);
        self.start + i as u16
    }
}

impl Draw for core::ops::Range<u32> {
    type Item = u32;

    /// Drawable when non-empty.
    open spec fn draw_ok(&self) -> bool {
        self.start < self.end
    }

    /// The result lies in the range.
    open spec fn draw_result(&self, r: u32) -> bool {
        self.start <= r < self.end
    }

    /// A uniform value in `[start, end)`.
    fn draw<S: WordSource>(self, rng: &mut S) -> (r: u32) {
        let mut fr = FastRangeU32::new(self.end - self.start);
        let i = fr.draw(rng);
        self.start + i
    }
}

impl Draw for core::ops::RangeTo<u8> {
    type Item = u8;

    /// Drawable when non-empty.
    open spec fn draw_ok(&self) -> bool {
        self.end > 0
    }

    /// The result lies below the bound.
    open spec fn draw_result(&self, r: u8) -> bool {
        r < self.end
    }

    /// A uniform value in `[0, end)`.
    fn draw<S: WordSource>(self, rng: &mut S) -> (r: u8) {
        let mut fr = FastRangeU32::new(self.end as u32);
        let i = fr.draw(rng);
        i as u8
    }
}

impl Draw for core::ops::RangeTo<u16> {
    type Item = u16;

    /// Drawable when non-empty.
    open spec fn draw_ok(&self) -> bool {
        self.end > 0
    }

    /// The result lies below the bound.
    open spec fn draw_result(&self, r: u16) -> bool {
        r < self.end
    }

    /// A uniform value in `[0, end)`.
    fn draw<S: WordSource>(self, rng: &mut S) -> (r: u16) {
        let mut fr = FastRangeU32::new(self.end as u32);
        let i = fr.draw(rng);
        i as u16
    }
}

impl Draw for core::ops::RangeTo<u32> {
    type Item = u32;

    /// Drawable when non-empty.
    open spec fn draw_ok(&self) -> bool {
        self.end > 0
    }

    /// The result lies below the bound.
    open spec fn draw_result(&self, r: u32) -> bool {
        r < self.end
    }

    /// A uniform value in `[0, end)`.
    fn draw<S: WordSource>(self, rng: &mut S) -> (r: u32) {
        let mut fr = FastRangeU32::new(self.end);
        let i = fr.draw(rng);
        i
    }
}

impl Draw for core::ops::RangeToInclusive<u8> {
    type Item = u8;

    /// Drawable when the successor of `end` fits the type.
    open spec fn draw_ok(&self) -> bool {
        self.end < u8::MAX
    }

    /// The result does not exceed the bound.
    open spec fn draw_result(&self, r: u8) -> bool {
        r <= self.end
    }

    /// A uniform value in `[0, end]`.
    fn draw<S: WordSource>(self, rng: &mut S) -> (r: u8) {
        let mut fr = FastRangeU32::new((self.end + 1) as u32);
        let i = fr.draw(rng);
        i as u8
    }
}

impl Draw for core::ops::RangeToInclusive<u16> {
    type Item = u16;

    /// Drawable when the successor of `end` fits the type.
    open spec fn draw_ok(&self) -> bool {
        self.end < u16::MAX
    }

    /// The result does not exceed the bound.
    open spec fn draw_result(&self, r: u16) -> bool {
        r <= self.end
    }

    /// A uniform value in `[0, end]`.
    fn draw<S: WordSource>(self, rng: &mut S) -> (r: u16) {
        let mut fr = FastRangeU32::new((self.end + 1) as u32);
        let i = fr.draw(rng);
        i as u16
    }
}

impl Draw for core::ops::RangeToInclusive<u32> {
    type Item = u32;

    /// Drawable when the successor of `end` fits the type.
    open spec fn draw_ok(&self) -> bool {
        self.end < u32::MAX
    }

    /// The result does not exceed the bound.
    open spec fn draw_result(&self, r: u32) -> bool {
        r <= self.end
    }

    /// A uniform value in `[0, end]`.
    fn draw<S: WordSource>(self, rng: &mut S) -> (r: u32) {
        let mut fr = FastRangeU32::new(self.end + 1);
        let i = fr.draw(rng);
        i
    }
}

} // verus!
