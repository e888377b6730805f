use vstd::prelude::*;

use crate::geometry::{floor_sqrt, isqrt, lemma_floor_sqrt_exists, lemma_floor_sqrt_monotone, DistanceCalculator, Position};

verus! {

/// Full weight, in fixed point: weights run from 0 to `WEIGHT_ONE`.
pub const WEIGHT_ONE: u32 = 0x1_0000;

/// Shapes the weight across the falloff band. It is given how near a
/// position is to the fully weighted core, from 0 at the outer edge of the
/// band to `WEIGHT_ONE` on the core, and returns the weight there.
pub trait FalloffFn {
    spec fn spec_apply(&self, t: int) -> nat;

    fn apply(&self, t: u32) -> (r: u32)
        requires
            t <= WEIGHT_ONE,
        ensures
            r == self.spec_apply(t as int),
    ;
}

/// Weight falls linearly across the band.
#[derive(Clone, Copy, Debug, PartialEq, Eq, Structural)]
pub struct Linear;

impl FalloffFn for Linear {
    open spec fn spec_apply(&self, t: int) -> nat {
        t as nat
    }

    fn apply(&self, t: u32) -> (r: u32) {
        t
    }
}

/// A weight for every position.
pub trait WeightFn {
    spec fn spec_weight(&self, p: Position) -> nat;

    fn weight(&self, p: Position) -> (w: u32)
        ensures
            w == self.spec_weight(p),
    ;
}

/// The weight of a brush centred on `center`: full within `radius`, shaped
/// by `falloff_func` over the next `falloff` units, and zero beyond.
#[derive(Clone, Copy, Debug)]
pub struct SphereWeight<D, F> {
    pub center: Position,
    pub radius: u32,
    pub falloff: u32,
    pub falloff_func: F,
    pub metric_squared: D,
}

impl<D: DistanceCalculator, F: FalloffFn> SphereWeight<D, F> {
    pub open spec fn outer(&self) -> int {
        self.radius + self.falloff
    }

    /// How near a position at distance `d` is to the core, in fixed point.
    pub open spec fn closeness(&self, d: int) -> int {
        if d <= self.radius {
            WEIGHT_ONE as int
        } else {
            ((self.outer() - d) * WEIGHT_ONE) / (self.falloff as int)
        }
    }

    pub open spec fn weight_at_distance_squared(&self, ds: int) -> nat {
        if ds >= self.outer() * self.outer() {
            0
        } else {
            self.falloff_func.spec_apply(self.closeness(floor_sqrt(ds)))
        }
    }

    pub proof fn lemma_closeness_range(&self, d: int)
        requires
            0 <= d < self.outer(),
        ensures
            0 <= self.closeness(d) <= WEIGHT_ONE,
    {
        if d > self.radius {
            let f = self.falloff as int;
            let k = self.outer() - d;
            assert(0 <= k * 0x1_0000 <= f * 0x1_0000) by (nonlinear_arith)
                requires 0 < k <= f;
            vstd::arithmetic::div_mod::lemma_div_is_ordered(k * 0x1_0000, f * 0x1_0000, f);
            vstd::arithmetic::div_mod::lemma_div_is_ordered(0, k * 0x1_0000, f);
            vstd::arithmetic::div_mod::lemma_div_by_multiple(0x1_0000, f);
            assert((f * 0x1_0000) / f == 0x1_0000) by (nonlinear_arith)
                requires (0x1_0000 * f) / f == 0x1_0000;
        }
    }
}

impl<D: DistanceCalculator, F: FalloffFn> WeightFn for SphereWeight<D, F> {
    open spec fn spec_weight(&self, p: Position) -> nat {
        self.weight_at_distance_squared(self.metric_squared.spec_distance_squared(p, self.center) as int)
    }

    fn weight(&self, p: Position) -> (w: u32) {
        let ds = self.metric_squared.distance_squared(p, self.center);
        let outer: u64 = self.radius as u64 + self.falloff as u64;
        assert(outer * outer <= 0x2_0000_0000 * 0x2_0000_0000) by (nonlinear_arith)
            requires outer <= 0x2_0000_0000;
        let outer_sq: u128 = outer as u128 * outer as u128;
        if ds >= outer_sq {
            return 0;
        }
        let d = isqrt(ds);
        assert(d < outer) by (nonlinear_arith)
            requires d * d <= ds, ds < outer * outer, 0 <= d, 0 <= outer;
        proof {
            self.lemma_closeness_range(d as int);
        }
        if d <= self.radius as u64 {
            self.falloff_func.apply(WEIGHT_ONE)
        } else {
            let t: u64 = ((outer - d) * WEIGHT_ONE as u64) / self.falloff as u64;
            self.falloff_func.apply(t as u32)
        }
    }
}

/// Within `radius` of the centre (and short of the outer edge) a position
/// gets the falloff function's value on the core; at `radius + falloff` or
/// beyond it gets zero.
pub proof fn lemma_weight_core_and_outside<D: DistanceCalculator, F: FalloffFn>(
    w: SphereWeight<D, F>,
    p: Position,
)
    ensures
        ({
            let ds = w.metric_squared.spec_distance_squared(p, w.center) as int;
            &&& ds <= w.radius * w.radius && ds < w.outer() * w.outer() ==> w.spec_weight(p)
                == w.falloff_func.spec_apply(WEIGHT_ONE as int)
            &&& ds >= w.outer() * w.outer() ==> w.spec_weight(p) == 0
        }),
{
    let ds = w.metric_squared.spec_distance_squared(p, w.center) as int;
    let r = w.radius as int;
    lemma_floor_sqrt_exists(ds);
    let d = floor_sqrt(ds);
    if ds <= r * r && d > r {
        assert(d * d > r * r) by (nonlinear_arith)
            requires d > r, r >= 0;
    }
}

/// With a falloff function that never decreases towards the core, a position
/// no farther from the centre than another never gets a smaller weight.
pub proof fn lemma_weight_monotone<D: DistanceCalculator, F: FalloffFn>(
    w: SphereWeight<D, F>,
    p1: Position,
    p2: Position,
)
    requires
        forall|t1: int, t2: int|
            0 <= t1 <= t2 <= WEIGHT_ONE ==> #[trigger] w.falloff_func.spec_apply(t1)
                <= #[trigger] w.falloff_func.spec_apply(t2),
        w.metric_squared.spec_distance_squared(p1, w.center) <= w.metric_squared.spec_distance_squared(
            p2,
            w.center,
        ),
    ensures
        w.spec_weight(p1) >= w.spec_weight(p2),
{
    let ds1 = w.metric_squared.spec_distance_squared(p1, w.center) as int;
    let ds2 = w.metric_squared.spec_distance_squared(p2, w.center) as int;
    let o = w.outer();
    if ds2 < o * o {
        lemma_floor_sqrt_exists(ds1);
        lemma_floor_sqrt_exists(ds2);
        lemma_floor_sqrt_monotone(ds1, ds2);
        let d1 = floor_sqrt(ds1);
        let d2 = floor_sqrt(ds2);
        assert(d2 < o) by (nonlinear_arith)
            requires d2 * d2 <= ds2, ds2 < o * o, 0 <= d2, 0 <= o;
        w.lemma_closeness_range(d1);
        w.lemma_closeness_range(d2);
        if d1 > w.radius {
            let f = w.falloff as int;
            assert((o - d2) * 0x1_0000 <= (o - d1) * 0x1_0000) by (nonlinear_arith)
                requires d1 <= d2;
            vstd::arithmetic::div_mod::lemma_div_is_ordered(
                (o - d2) * 0x1_0000,
                (o - d1) * 0x1_0000,
                f,
            );
        }
        assert(w.closeness(d2) <= w.closeness(d1));
        assert(w.falloff_func.spec_apply(w.closeness(d2)) <= w.falloff_func.spec_apply(
            w.closeness(d1),
        ));
    }
}

} // verus!
