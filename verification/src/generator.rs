//! Weighted random pickers: the asteroid size sampler and the asteroid
//! subtype sampler.
//!
//! Both are fixed discrete inverse-CDF samplers: a table of cumulative
//! integer weights is precomputed once, one uniform draw selects the first
//! bucket whose cumulative weight exceeds it. No memory of past draws.

use vstd::prelude::*;
use crate::asteroid::AsteroidType;
use crate::rng::rand_u32_below;
use crate::rng::rand_u64_below;

verus! {

/// Resolution of one unscaled weight in the size sampler's table.
pub const WEIGHT_UNIT: u64 = 1000000;

/// The probability mass of one bucket of a cumulative table: the step
/// from its predecessor.
pub open spec fn spec_bucket_width(cumulative: Seq<u64>, i: int) -> int {
    if i == 0 {
        cumulative[0] as int
    } else {
        cumulative[i] - cumulative[i - 1]
    }
}

/// Inverse-CDF sampler over an inclusive integer range, where the value
/// `min_size + i` has relative weight `base_probability * rarity^(-i)`
/// (rarity and base probability in thousandths): each step up in size
/// divides the weight by the rarity factor.
pub struct AsteroidSizeGenerator {
    pub min_size: u32,
    /// Strictly positive cumulative weights, one entry per size.
    pub cumulative: Vec<u64>,
}

impl AsteroidSizeGenerator {
    /// A usable table: one bucket per size, weights accumulate without
    /// ever flattening to nothing, and the total stays well below
    /// overflow.
    pub open spec fn wf(self) -> bool {
        &&& 1 <= self.cumulative.len() <= 64
        &&& self.min_size + self.cumulative.len() <= u32::MAX
        &&& (forall|i: int|
            0 <= i < self.cumulative.len() - 1 ==> #[trigger] self.cumulative@[i]
                <= self.cumulative@[i + 1])
        &&& self.cumulative@[self.cumulative.len() - 1] > 0
    }

    /// Builds the cumulative table for sizes `min_size..=max_size` with
    /// the given rarity factor and base probability, both in thousandths.
    /// A rarity factor of at least one makes each size rarer than the one
    /// below it.
    #[verifier::rlimit(60)]
    pub fn new(
        min_size: u32,
        max_size: u32,
        rarity_factor_permille: u32,
        base_probability_permille: u32,
    ) -> (r: AsteroidSizeGenerator)
        requires
            min_size <= max_size,
            max_size - min_size < 64,
            max_size < u32::MAX,
            1000 <= rarity_factor_permille <= 1000000,
            0 < base_probability_permille <= 1000000,
        ensures
            r.min_size == min_size,
            r.cumulative.len() == max_size - min_size + 1,
            r.wf(),
            // monotone rarity: each size carries no more probability mass
            // than the size below it
            forall|i: int|
                1 <= i < r.cumulative@.len() ==> #[trigger] spec_bucket_width(r.cumulative@, i)
                    <= spec_bucket_width(r.cumulative@, i - 1),
    {
        let range: u32 = max_size - min_size + 1;
        let mut cumulative: Vec<u64> = Vec::new();
        // weight of the current size; divided by the rarity factor per step
        let mut weight: u64 = WEIGHT_UNIT * base_probability_permille as u64;
        let mut total: u64 = 0;
        let mut i: u32 = 0;
        while i < range
            invariant
                0 <= i <= range,
                1 <= range <= 64,
                1000 <= rarity_factor_permille <= 1000000,
                cumulative.len() == i,
                1 <= weight <= 1000000000000u64,
                total == if i == 0 {
                    0int
                } else {
                    cumulative@[i as int - 1] as int
                },
                total <= i as int * 1000000000000int,
                forall|j: int|
                    0 <= j < i as int - 1 ==> #[trigger] cumulative@[j] <= cumulative@[j + 1],
                forall|j: int| 0 <= j < i ==> #[trigger] cumulative@[j] >= weight,
                i > 0 ==> cumulative@[0] > 0,
                i > 0 ==> weight <= spec_bucket_width(cumulative@, i as int - 1),
                forall|j: int|
                    1 <= j < i ==> #[trigger] spec_bucket_width(cumulative@, j)
                        <= spec_bucket_width(cumulative@, j - 1),
            decreases range - i,
        {
            proof {
                assert(total + weight <= 65int * 1000000000000int);
            }
            let ghost prev = cumulative@;
            total = total + weight;
            cumulative.push(total);
            proof {
                assert(forall|j: int| 0 <= j < prev.len() ==> #[trigger] cumulative@[j]
                    == prev[j]);
                assert(cumulative@[i as int] == total);
                assert(spec_bucket_width(cumulative@, i as int) == weight);
                assert forall|j: int|
                    1 <= j < i as int + 1 implies #[trigger] spec_bucket_width(cumulative@, j)
                    <= spec_bucket_width(cumulative@, j - 1) by {
                    if j < i as int {
                        assert(spec_bucket_width(cumulative@, j) == spec_bucket_width(prev, j));
                        assert(spec_bucket_width(cumulative@, j - 1) == spec_bucket_width(
                            prev, j - 1));
                    } else {
                        assert(spec_bucket_width(cumulative@, j - 1) == spec_bucket_width(
                            prev, j - 1));
                    }
                }
            }
            let next: u64 = weight * 1000 / rarity_factor_permille as u64;
            proof {
                assert((weight * 1000) as int / (rarity_factor_permille as u64) as int
                    <= weight as int) by (nonlinear_arith)
                    requires
                        1 <= weight,
                        1000 <= rarity_factor_permille,
                ;
            }
            weight = if next >= 1 {
                next
            } else {
                1
            };
            i = i + 1;
        }
        AsteroidSizeGenerator { min_size, cumulative }
    }

    /// The first bucket whose cumulative weight exceeds `roll`; the last
    /// bucket when rounding leaves none (the fallback the sampler's
    /// contract promises).
    pub fn pick_bucket(&self, roll: u64) -> (r: usize)
        requires
            self.cumulative.len() >= 1,
        ensures
            r < self.cumulative.len(),
            (exists|i: int|
                0 <= i < self.cumulative.len() && self.cumulative@[i] > roll) ==> {
                &&& self.cumulative@[r as int] > roll
                &&& forall|j: int| 0 <= j < r ==> self.cumulative@[j] <= roll
            },
            (forall|i: int|
                0 <= i < self.cumulative.len() ==> self.cumulative@[i] <= roll) ==> r
                == self.cumulative.len() - 1,
    {
        let mut i: usize = 0;
        while i < self.cumulative.len()
            invariant
                0 <= i <= self.cumulative.len(),
                forall|j: int| 0 <= j < i ==> self.cumulative@[j] <= roll,
            decreases self.cumulative.len() - i,
        {
            if self.cumulative[i] > roll {
                return i;
            }
            i = i + 1;
        }
        self.cumulative.len() - 1
    }

    /// Draws one size: a uniform draw below the table's total weight,
    /// resolved by `pick_bucket`, whose contract pins the selection rule
    /// for every draw. Whatever the draw, the result stays inside the
    /// sampler's inclusive range.
    pub fn generate(&self) -> (r: u32)
        requires
            self.wf(),
        ensures
            self.min_size <= r < self.min_size + self.cumulative.len(),
    {
        let total = self.cumulative[self.cumulative.len() - 1];
        let roll = rand_u64_below(total);
        let bucket = self.pick_bucket(roll);
        self.min_size + bucket as u32
    }
}

impl Default for AsteroidSizeGenerator {
    /// The stock sampler: sizes 1 to 10, rarity factor 2.1, base
    /// probability 0.35 (both in thousandths).
    fn default() -> (r: AsteroidSizeGenerator)
        ensures
            r.min_size == 1,
            r.cumulative.len() == 10,
            r.wf(),
    {
        AsteroidSizeGenerator::new(1, 10, 2100, 350)
    }
}

/// The subtype picked by walking `weights` with a roll in thousandths: the
/// first bucket whose cumulative weight exceeds the roll, with plain rock
/// as the fallback.
pub open spec fn spec_pick_type(weights: Seq<(AsteroidType, u32)>, roll: int) -> AsteroidType
    decreases weights.len(),
{
    if weights.len() == 0 {
        AsteroidType::Normal
    } else if roll < weights[0].1 {
        weights[0].0
    } else {
        spec_pick_type(weights.drop_first(), roll - weights[0].1)
    }
}

/// Inverse-CDF sampler over a small fixed list of (subtype, weight) pairs,
/// weights in thousandths.
pub struct AsteroidTypeGenerator {
    pub weights: Vec<(AsteroidType, u32)>,
}

impl AsteroidTypeGenerator {
    /// The stock distribution: 60% normal, 25% ice, 12% metal, 3% crystal.
    pub fn new() -> (r: AsteroidTypeGenerator)
        ensures
            r.weights@.len() == 4,
            r.weights@[0] == (AsteroidType::Normal, 600u32),
            r.weights@[1] == (AsteroidType::Ice, 250u32),
            r.weights@[2] == (AsteroidType::Metal, 120u32),
            r.weights@[3] == (AsteroidType::Crystal, 30u32),
    {
        let mut weights: Vec<(AsteroidType, u32)> = Vec::new();
        weights.push((AsteroidType::Normal, 600));
        weights.push((AsteroidType::Ice, 250));
        weights.push((AsteroidType::Metal, 120));
        weights.push((AsteroidType::Crystal, 30));
        AsteroidTypeGenerator { weights }
    }

    /// The subtype a given roll in `0..1000` selects (see
    /// `spec_pick_type`).
    pub fn pick_type(&self, roll: u32) -> (r: AsteroidType)
        requires
            self.weights@.len() <= 1000,
            forall|i: int| 0 <= i < self.weights@.len() ==> (#[trigger] self.weights@[i]).1
                <= 1000,
        ensures
            r == spec_pick_type(self.weights@, roll as int),
    {
        let mut i: usize = 0;
        let mut cumulative: u32 = 0;
        proof {
            assert(self.weights@.skip(0) =~= self.weights@);
        }
        while i < self.weights.len()
            invariant
                0 <= i <= self.weights@.len(),
                self.weights@.len() <= 1000,
                cumulative <= i * 1000,
                forall|j: int| 0 <= j < self.weights@.len() ==> (#[trigger] self.weights@[j]).1
                    <= 1000,
                spec_pick_type(self.weights@, roll as int) == spec_pick_type(
                    self.weights@.skip(i as int), roll as int - cumulative as int),
                roll >= cumulative || i == 0,
            decreases self.weights@.len() - i,
        {
            proof {
                assert(self.weights@.skip(i as int)[0] == self.weights@[i as int]);
                assert(self.weights@.skip(i as int).drop_first() =~= self.weights@.skip(
                    i as int + 1));
            }
            let w = self.weights[i].1;
            if roll < cumulative + w {
                return self.weights[i].0;
            }
            cumulative = cumulative + w;
            i = i + 1;
        }
        AsteroidType::Normal
    }

    /// Draws one subtype. Every outcome is a subtype from the table, or
    /// plain rock as the fallback.
    pub fn generate(&self) -> (r: AsteroidType)
        requires
            self.weights@.len() <= 1000,
            forall|i: int| 0 <= i < self.weights@.len() ==> (#[trigger] self.weights@[i]).1
                <= 1000,
        ensures
            r == AsteroidType::Normal || (exists|i: int|
                0 <= i < self.weights@.len() && (#[trigger] self.weights@[i]).0 == r),
    {
        let roll = rand_u32_below(1000);
        let picked = self.pick_type(roll);
        proof {
            lemma_pick_type_listed(self.weights@, roll as int);
        }
        picked
    }
}

impl Default for AsteroidTypeGenerator {
    /// The stock distribution (see `new`).
    fn default() -> (r: AsteroidTypeGenerator)
        ensures
            r.weights@.len() == 4,
            r.weights@[0] == (AsteroidType::Normal, 600u32),
            r.weights@[1] == (AsteroidType::Ice, 250u32),
            r.weights@[2] == (AsteroidType::Metal, 120u32),
            r.weights@[3] == (AsteroidType::Crystal, 30u32),
    {
        AsteroidTypeGenerator::new()
    }
}

/// Whatever the roll, the pick is a listed subtype or the fallback.
proof fn lemma_pick_type_listed(weights: Seq<(AsteroidType, u32)>, roll: int)
    ensures
        spec_pick_type(weights, roll) == AsteroidType::Normal || (exists|i: int|
            0 <= i < weights.len() && (#[trigger] weights[i]).0 == spec_pick_type(weights,
                roll)),
    decreases weights.len(),
{
    if weights.len() > 0 {
        if roll < weights[0].1 {
            assert(weights[0].0 == spec_pick_type(weights, roll));
        } else {
            lemma_pick_type_listed(weights.drop_first(), roll - weights[0].1);
            let r = spec_pick_type(weights, roll);
            if r != AsteroidType::Normal {
                let i = choose|i: int|
                    0 <= i < weights.drop_first().len() && (#[trigger] weights.drop_first()[
                    i]).0 == r;
                assert(weights[i + 1].0 == r);
            }
        }
    }
}

} // verus!
