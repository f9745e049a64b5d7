//! The deterministic weighted selector.
//!
//! A selector owns the state of a `pcg32` generator. Each draw maps the
//! generator's 32-bit output `raw` to the fraction `raw / u32::MAX` and
//! returns the outcome whose interval holds that fraction. All comparisons
//! of fractions are made exactly, by cross-multiplying integers.

use rand_core::{Rng, SeedableRng};
use rand_pcg::Pcg32;
use vstd::prelude::*;

verus! {

/// The seed every selector starts from.
pub const SELECTOR_SEED: u64 = 42;

/// State and stream of the `pcg32` generator that `seed_from_u64` builds
/// from a 64-bit seed.
pub uninterp spec fn pcg32_seeded(seed: u64) -> (u64, u64);

/// Output of a `pcg32` generator in the given state and stream, paired with
/// the state that the generator is left in.
pub uninterp spec fn pcg32_step(state: u64, stream: u64) -> (u32, u64);

/// Calls `Pcg32::seed_from_u64` and reads the generator back with `state`
/// and `stream`. The contract claims only that the outcome is a function of
/// the seed.
#[verifier::external_body]
fn pcg32_seed_from_u64(seed: u64) -> (r: (u64, u64))
    ensures
        r == pcg32_seeded(seed),
{
    let rng = Pcg32::seed_from_u64(seed);
    (rng.state(), rng.stream())
}

/// Restores a generator with `Pcg32::from_state`, calls `next_u32` on it
/// once and reads the new state with `state`. The contract claims only that
/// output and new state are a function of the old state and the stream.
#[verifier::external_body]
fn pcg32_next_u32(state: u64, stream: u64) -> (r: (u32, u64))
    ensures
        r == pcg32_step(state, stream),
{
    let mut rng = Pcg32::from_state(state, stream);
    let raw: u32 = rng.next_u32();
    (raw, rng.state())
}

/// The selector's state: a `pcg32` generator, held as its state and stream.
#[derive(Clone, Copy, Debug, PartialEq, Eq)]
pub struct Selector {
    state: u64,
    stream: u64,
}

impl Selector {
    /// The generator's current state.
    pub closed spec fn spec_state(&self) -> u64 {
        self.state
    }

    /// The generator's stream, which no draw changes.
    pub closed spec fn spec_stream(&self) -> u64 {
        self.stream
    }

    /// The raw value that the next draw will produce.
    pub open spec fn next_raw(&self) -> u32 {
        pcg32_step(self.spec_state(), self.spec_stream()).0
    }

    /// The selector after one draw.
    pub open spec fn advanced(&self) -> Selector {
        Selector::at(pcg32_step(self.spec_state(), self.spec_stream()).1, self.spec_stream())
    }

    /// The selector with the given state and stream.
    pub closed spec fn at(state: u64, stream: u64) -> Selector {
        Selector { state, stream }
    }

    /// The selector as it is when freshly seeded.
    pub open spec fn fresh() -> Selector {
        Selector::at(pcg32_seeded(SELECTOR_SEED).0, pcg32_seeded(SELECTOR_SEED).1)
    }

    /// The generator's current state.
    pub fn state(&self) -> (v: u64)
        ensures
            v == self.spec_state(),
    {
        self.state
    }

    /// The generator's stream.
    pub fn stream(&self) -> (v: u64)
        ensures
            v == self.spec_stream(),
    {
        self.stream
    }

    /// A selector seeded with the fixed seed.
    pub fn new() -> (s: Selector)
        ensures
            s == Selector::fresh(),
    {
        let seeded = pcg32_seed_from_u64(SELECTOR_SEED);
        Selector { state: seeded.0, stream: seeded.1 }
    }

    /// Draws the generator's next raw value, advancing the state once.
    pub fn next_u32(&mut self) -> (raw: u32)
        ensures
            raw == old(self).next_raw(),
            *final(self) == old(self).advanced(),
    {
        let step = pcg32_next_u32(self.state, self.stream);
        self.state = step.1;
        step.0
    }

    /// Draws once and returns the outcome that the draw selects among the
    /// weighted outcomes. Where the weights describe no distribution the
    /// call fails and draws nothing.
    pub fn next_choice<T: Copy>(&mut self, weights: &[(T, u32)]) -> (r: Result<T, SelectorError>)
        ensures
            r is Err <==> !valid_weights(weights@),
            r is Err ==> r == Err::<T, SelectorError>(SelectorError::InvalidArgument)
                && *final(self) == *old(self),
            r is Ok ==> *final(self) == old(self).advanced() && exists|i: int|
                #[trigger] selects(old(self).next_raw(), weights@, i) && weights@[i].0 == r->Ok_0,
    {
        if !has_valid_weights(weights) {
            return Err(SelectorError::InvalidArgument);
        }
        let raw = self.next_u32();
        choose_weighted(raw, weights)
    }

    /// Draws once and returns 1, 2 or 3, each for a third of the
    /// generator's range.
    pub fn generate_weighted_random_value(&mut self) -> (v: u8)
        ensures
            v == uniform_three(old(self).next_raw()),
            *final(self) == old(self).advanced(),
    {
        let raw = self.next_u32();
        uniform_three_way(raw)
    }

    /// Draws once and returns 0 with probability `p`, else 1. Where `p` is
    /// no probability the call fails and draws nothing.
    pub fn generate_weighted_random_bit(&mut self, p: Probability) -> (r: Result<u8, SelectorError>)
        ensures
            r is Err <==> !p.valid(),
            r is Err ==> r == Err::<u8, SelectorError>(SelectorError::InvalidArgument)
                && *final(self) == *old(self),
            r is Ok ==> r == Ok::<u8, SelectorError>(weighted_bit(old(self).next_raw(), p))
                && *final(self) == old(self).advanced(),
    {
        if !p.is_valid() {
            return Err(SelectorError::InvalidArgument);
        }
        let raw = self.next_u32();
        weighted_two_way(raw, p)
    }
}

/// Why a selection could not be made.
#[derive(Clone, Copy, Debug, PartialEq, Eq)]
pub enum SelectorError {
    /// The weights or the probability handed in describe no distribution.
    InvalidArgument,
}

/// A probability, held exactly as the fraction `numerator / denominator`.
#[derive(Clone, Copy, Debug, PartialEq, Eq)]
pub struct Probability {
    pub numerator: u32,
    pub denominator: u32,
}

impl Probability {
    /// The fraction is defined and lies in `[0, 1]`.
    pub open spec fn valid(&self) -> bool {
        0 < self.denominator && self.numerator <= self.denominator
    }

    /// Whether the fraction is defined and lies in `[0, 1]`.
    pub fn is_valid(&self) -> (b: bool)
        ensures
            b == self.valid(),
    {
        0 < self.denominator && self.numerator <= self.denominator
    }
}

/// Sum of the first `k` weights.
pub open spec fn prefix_weight<T>(weights: Seq<(T, u32)>, k: int) -> int
    decreases k,
{
    if k <= 0 {
        0
    } else {
        prefix_weight(weights, k - 1) + weights[k - 1].1
    }
}

/// Sum of all weights.
pub open spec fn total_weight<T>(weights: Seq<(T, u32)>) -> int {
    prefix_weight(weights, weights.len() as int)
}

/// The weights describe a distribution: there is an outcome, and not every
/// weight is zero.
pub open spec fn valid_weights<T>(weights: Seq<(T, u32)>) -> bool {
    0 < weights.len() && 0 < total_weight(weights)
}

/// The fraction `raw / u32::MAX` lies below the share of the first `k`
/// weights in the total.
pub open spec fn below_prefix<T>(raw: u32, weights: Seq<(T, u32)>, k: int) -> bool {
    raw * total_weight(weights) < u32::MAX * prefix_weight(weights, k)
}

/// Entry `i` is the one that the raw value `raw` selects: the fraction
/// `raw / u32::MAX` is at or above the share of the weights before `i`, and
/// below the share of the weights up to and including `i`. The last entry
/// also takes the fraction 1, which lies in no interval.
pub open spec fn selects<T>(raw: u32, weights: Seq<(T, u32)>, i: int) -> bool {
    &&& 0 <= i < weights.len()
    &&& !below_prefix(raw, weights, i)
    &&& (below_prefix(raw, weights, i + 1) || i == weights.len() - 1)
}

/// The outcome of the uniform three-way split for the raw value `raw`:
/// 1 where `raw / u32::MAX < 1/3`, 2 where it is below `2/3`, else 3.
pub open spec fn uniform_three(raw: u32) -> u8 {
    if 3 * raw < u32::MAX {
        1
    } else if 3 * raw < 2 * u32::MAX {
        2
    } else {
        3
    }
}

/// The outcome of the weighted two-way split for the raw value `raw`:
/// 0 where `raw / u32::MAX < p`, else 1.
pub open spec fn weighted_bit(raw: u32, p: Probability) -> u8 {
    if raw * p.denominator < u32::MAX * p.numerator {
        0
    } else {
        1
    }
}

/// Prefix sums grow with the prefix and stay within `k` full weights.
pub proof fn lemma_prefix_weight_bounds<T>(weights: Seq<(T, u32)>, j: int, k: int)
    requires
        0 <= j <= k <= weights.len(),
    ensures
        0 <= prefix_weight(weights, j) <= prefix_weight(weights, k) <= k * u32::MAX,
    decreases k,
{
    if k > 0 {
        lemma_prefix_weight_bounds(weights, if j < k { j } else { k - 1 }, k - 1);
        assert((k - 1) * u32::MAX + u32::MAX == k * u32::MAX) by (nonlinear_arith);
    }
}

/// At most one entry is selected by a raw value.
pub proof fn lemma_selects_unique<T>(raw: u32, weights: Seq<(T, u32)>, i: int, k: int)
    requires
        selects(raw, weights, i),
        selects(raw, weights, k),
    ensures
        i == k,
{
    if i < k {
        lemma_prefix_weight_bounds(weights, i + 1, k);
        assert(u32::MAX * prefix_weight(weights, i + 1) <= u32::MAX * prefix_weight(weights, k))
            by (nonlinear_arith)
            requires
                prefix_weight(weights, i + 1) <= prefix_weight(weights, k),
        ;
    } else if k < i {
        lemma_prefix_weight_bounds(weights, k + 1, i);
        assert(u32::MAX * prefix_weight(weights, k + 1) <= u32::MAX * prefix_weight(weights, i))
            by (nonlinear_arith)
            requires
                prefix_weight(weights, k + 1) <= prefix_weight(weights, i),
        ;
    }
}

/// Every raw value selects an entry of a list that has one.
pub proof fn lemma_selects_some<T>(raw: u32, weights: Seq<(T, u32)>)
    requires
        0 < weights.len(),
    ensures
        exists|i: int| selects(raw, weights, i),
{
    lemma_prefix_weight_bounds(weights, 0, weights.len() as int);
    assert(0 <= raw * total_weight(weights)) by (nonlinear_arith)
        requires
            0 <= raw,
            0 <= total_weight(weights),
    ;
    lemma_selects_from(raw, weights, 0);
}

/// A raw value whose fraction is not below the share of the first `from`
/// weights selects an entry at or after `from`.
proof fn lemma_selects_from<T>(raw: u32, weights: Seq<(T, u32)>, from: int)
    requires
        0 <= from < weights.len(),
        !below_prefix(raw, weights, from),
    ensures
        exists|i: int| selects(raw, weights, i),
    decreases weights.len() - from,
{
    if from == weights.len() - 1 || below_prefix(raw, weights, from + 1) {
        assert(selects(raw, weights, from));
    } else {
        lemma_selects_from(raw, weights, from + 1);
    }
}

/// Whether the weights describe a distribution.
pub fn has_valid_weights<T>(weights: &[(T, u32)]) -> (b: bool)
    ensures
        b == valid_weights(weights@),
{
    let n: usize = weights.len();
    let mut k: usize = 0;
    while k < n
        invariant
            n == weights@.len(),
            0 <= k <= n,
            prefix_weight(weights@, k as int) == 0,
        decreases n - k,
    {
        if weights[k].1 != 0 {
            proof {
                lemma_prefix_weight_bounds(weights@, k as int + 1, n as int);
            }
            return true;
        }
        k = k + 1;
    }
    false
}

/// The outcome that the raw value `raw` selects among weighted outcomes, or
/// `InvalidArgument` where the weights describe no distribution.
pub fn choose_weighted<T: Copy>(raw: u32, weights: &[(T, u32)]) -> (r: Result<T, SelectorError>)
    ensures
        r is Err <==> !valid_weights(weights@),
        r is Err ==> r == Err::<T, SelectorError>(SelectorError::InvalidArgument),
        r is Ok ==> exists|i: int| #[trigger] selects(raw, weights@, i) && weights@[i].0 == r->Ok_0,
{
    let n: usize = weights.len();
    let mut total: u128 = 0;
    let mut k: usize = 0;
    while k < n
        invariant
            n == weights@.len(),
            0 <= k <= n,
            total == prefix_weight(weights@, k as int),
        decreases n - k,
    {
        proof {
            lemma_prefix_weight_bounds(weights@, k as int, k as int);
            lemma_prefix_weight_bounds(weights@, k as int + 1, k as int + 1);
            lemma_weight_fits(k as int + 1);
        }
        total = total + weights[k].1 as u128;
        k = k + 1;
    }
    if n == 0 || total == 0 {
        return Err(SelectorError::InvalidArgument);
    }
    proof {
        lemma_prefix_weight_bounds(weights@, n as int, n as int);
        lemma_weight_fits(n as int);
        lemma_product_fits(raw, total as int);
    }
    let scaled: u128 = raw as u128 * total;
    let mut seen: u128 = 0;
    let mut i: usize = 0;
    while i < n - 1
        invariant
            n == weights@.len(),
            0 < n,
            0 <= i <= n - 1,
            total == total_weight(weights@),
            scaled == raw * total_weight(weights@),
            seen == prefix_weight(weights@, i as int),
            !below_prefix(raw, weights@, i as int),
        decreases n - i,
    {
        proof {
            lemma_prefix_weight_bounds(weights@, i as int + 1, n as int);
            lemma_weight_fits(n as int);
            lemma_product_fits(u32::MAX, prefix_weight(weights@, i as int + 1));
        }
        let upto: u128 = seen + weights[i].1 as u128;
        if scaled < u32::MAX as u128 * upto {
            assert(selects(raw, weights@, i as int));
            return Ok(weights[i].0);
        }
        seen = upto;
        i = i + 1;
    }
    assert(selects(raw, weights@, i as int));
    Ok(weights[i].0)
}

/// A sum of `k` weights, for any `k` that a length can take, fits 96 bits.
proof fn lemma_weight_fits(k: int)
    requires
        0 <= k <= usize::MAX,
    ensures
        k * u32::MAX < 0x1_0000_0000_0000_0000_0000_0000,
{
    assert(k * u32::MAX < 0x1_0000_0000_0000_0000_0000_0000) by (nonlinear_arith)
        requires
            0 <= k <= 0xffff_ffff_ffff_ffff,
            u32::MAX == 0xffff_ffff,
    ;
}

/// A 32-bit value times a 96-bit value fits 128 bits.
proof fn lemma_product_fits(a: u32, b: int)
    requires
        0 <= b < 0x1_0000_0000_0000_0000_0000_0000,
    ensures
        0 <= a * b <= u128::MAX,
{
    assert(0 <= a * b <= 0xffff_ffff * 0xffff_ffff_ffff_ffff_ffff_ffff) by (nonlinear_arith)
        requires
            0 <= a <= 0xffff_ffff,
            0 <= b <= 0xffff_ffff_ffff_ffff_ffff_ffff,
    ;
}

/// The uniform three-way split of a raw value: 1, 2 or 3.
pub fn uniform_three_way(raw: u32) -> (v: u8)
    ensures
        v == uniform_three(raw),
{
    if raw < 1431655765 {
        1
    } else if raw < 2863311530 {
        2
    } else {
        3
    }
}

/// The weighted two-way split of a raw value: 0 with probability `p`, else 1.
pub fn weighted_two_way(raw: u32, p: Probability) -> (r: Result<u8, SelectorError>)
    ensures
        r is Err <==> !p.valid(),
        r is Err ==> r == Err::<u8, SelectorError>(SelectorError::InvalidArgument),
        r is Ok ==> r == Ok::<u8, SelectorError>(weighted_bit(raw, p)),
{
    if !p.is_valid() {
        return Err(SelectorError::InvalidArgument);
    }
    assert(raw * p.denominator <= u64::MAX && u32::MAX * p.numerator <= u64::MAX) by (nonlinear_arith)
        requires
            0 <= raw <= 0xffff_ffff,
            0 <= p.denominator <= 0xffff_ffff,
            0 <= p.numerator <= 0xffff_ffff,
            u32::MAX == 0xffff_ffff,
    ;
    let scaled: u64 = raw as u64 * p.denominator as u64;
    let bound: u64 = u32::MAX as u64 * p.numerator as u64;
    if scaled < bound {
        Ok(0)
    } else {
        Ok(1)
    }
}

/// The uniform three-way split is the weighted choice among three
/// outcomes of equal weight.
pub proof fn lemma_uniform_three_selects(raw: u32)
    ensures
        selects(raw, seq![(1u8, 1u32), (2u8, 1u32), (3u8, 1u32)], uniform_three(raw) - 1),
{
    let weights = seq![(1u8, 1u32), (2u8, 1u32), (3u8, 1u32)];
    reveal_with_fuel(prefix_weight, 4);
    assert(total_weight(weights) == 3);
    assert(prefix_weight(weights, 1) == 1);
    assert(prefix_weight(weights, 2) == 2);
}

/// The weighted two-way split with probability `p` is the weighted choice
/// between two outcomes whose weights are the numerator of `p` and what
/// the numerator leaves of the denominator.
pub proof fn lemma_weighted_bit_selects(raw: u32, p: Probability)
    requires
        p.valid(),
    ensures
        selects(
            raw,
            seq![(0u8, p.numerator), (1u8, (p.denominator - p.numerator) as u32)],
            weighted_bit(raw, p) as int,
        ),
{
    let weights = seq![(0u8, p.numerator), (1u8, (p.denominator - p.numerator) as u32)];
    reveal_with_fuel(prefix_weight, 3);
    assert(prefix_weight(weights, 1) == p.numerator);
    assert(total_weight(weights) == p.denominator);
}

/// The thresholds of the two splits in whole numbers: the three-way split
/// changes its outcome at a third and at two thirds of `u32::MAX`, the
/// even two-way split at half of `u32::MAX`.
pub proof fn lemma_split_thresholds(raw: u32)
    ensures
        uniform_three(raw) == 1 <==> raw < 1431655765,
        uniform_three(raw) == 2 <==> 1431655765 <= raw < 2863311530,
        uniform_three(raw) == 3 <==> 2863311530 <= raw,
        weighted_bit(raw, Probability { numerator: 1, denominator: 2 }) == 0 <==> raw
            <= 2147483647,
{
}

} // verus!
