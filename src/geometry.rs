use vstd::prelude::*;

verus! {

/// A point in mesh-local space, in fixed-point mesh units.
#[derive(Clone, Copy, Debug, PartialEq, Eq, Structural)]
pub struct Position {
    pub x: i32,
    pub y: i32,
    pub z: i32,
}

impl Position {
    pub fn new(x: i32, y: i32, z: i32) -> (r: Position)
        ensures
            r.x == x && r.y == y && r.z == z,
    {
        Position { x, y, z }
    }
}

/// `r` is the integer square root of `n`, rounded down.
pub open spec fn is_floor_sqrt(r: int, n: int) -> bool {
    0 <= r && r * r <= n && n < (r + 1) * (r + 1)
}

/// The integer square root of `n`, rounded down.
pub open spec fn floor_sqrt(n: int) -> int {
    choose|r: int| is_floor_sqrt(r, n)
}

/// Squared Euclidean distance between two positions.
pub open spec fn euclid_sq(a: Position, b: Position) -> nat {
    let dx = a.x - b.x;
    let dy = a.y - b.y;
    let dz = a.z - b.z;
    (dx * dx + dy * dy + dz * dz) as nat
}

pub proof fn lemma_floor_sqrt_unique(r1: int, r2: int, n: int)
    requires
        is_floor_sqrt(r1, n),
        is_floor_sqrt(r2, n),
    ensures
        r1 == r2,
{
    if r1 < r2 {
        assert((r1 + 1) * (r1 + 1) <= r2 * r2) by (nonlinear_arith)
            requires 0 <= r1 + 1 <= r2;
    } else if r2 < r1 {
        assert((r2 + 1) * (r2 + 1) <= r1 * r1) by (nonlinear_arith)
            requires 0 <= r2 + 1 <= r1;
    }
}

pub proof fn lemma_floor_sqrt_exists(n: int)
    requires
        0 <= n,
    ensures
        is_floor_sqrt(floor_sqrt(n), n),
    decreases n,
{
    if n == 0 {
        assert(is_floor_sqrt(0, 0));
    } else {
        lemma_floor_sqrt_exists(n - 1);
        let r = floor_sqrt(n - 1);
        if (r + 1) * (r + 1) <= n {
            assert(n < (r + 2) * (r + 2)) by (nonlinear_arith)
                requires n - 1 < (r + 1) * (r + 1), (r + 1) * (r + 1) <= n, 0 <= r;
            assert(is_floor_sqrt(r + 1, n));
        } else {
            assert(is_floor_sqrt(r, n));
        }
    }
}

/// The rounded-down square root never decreases as its argument grows.
pub proof fn lemma_floor_sqrt_monotone(n1: int, n2: int)
    requires
        0 <= n1 <= n2,
    ensures
        floor_sqrt(n1) <= floor_sqrt(n2),
{
    lemma_floor_sqrt_exists(n1);
    lemma_floor_sqrt_exists(n2);
    let r1 = floor_sqrt(n1);
    let r2 = floor_sqrt(n2);
    if r1 > r2 {
        assert((r2 + 1) * (r2 + 1) <= r1 * r1) by (nonlinear_arith)
            requires 0 <= r2 + 1 <= r1;
    }
}

/// Integer square root, rounded down.
pub fn isqrt(n: u128) -> (r: u64)
    ensures
        r == floor_sqrt(n as int),
        is_floor_sqrt(r as int, n as int),
{
    let mut lo: u128 = 0;
    let mut hi: u128 = 0x1_0000_0000_0000_0000;
    assert(n < hi * hi);
    while hi - lo > 1
        invariant
            lo < hi <= 0x1_0000_0000_0000_0000,
            lo * lo <= n,
            n < hi * hi,
        decreases hi - lo,
    {
        let mid: u128 = lo + (hi - lo) / 2;
        assert(mid * mid <= 0xffff_ffff_ffff_ffff * 0xffff_ffff_ffff_ffff) by (nonlinear_arith)
            requires mid <= 0xffff_ffff_ffff_ffff;
        if mid * mid <= n {
            lo = mid;
        } else {
            hi = mid;
        }
    }
    proof {
        assert(hi == lo + 1);
        lemma_floor_sqrt_exists(n as int);
        lemma_floor_sqrt_unique(lo as int, floor_sqrt(n as int), n as int);
    }
    lo as u64
}

/// A way of measuring how far apart two positions are, as a squared distance.
///
/// Implementations are expected to be symmetric and non-negative, zero only
/// on equal positions, and to grow with separation along the metric's axes:
/// selection thresholds on the returned value.
pub trait DistanceCalculator {
    spec fn spec_distance_squared(&self, a: Position, b: Position) -> nat;

    fn distance_squared(&self, a: Position, b: Position) -> (r: u128)
        ensures
            r == self.spec_distance_squared(a, b),
    ;
}

/// Plain squared Euclidean distance.
#[derive(Clone, Copy, Debug, PartialEq, Eq, Structural)]
pub struct L2;

impl DistanceCalculator for L2 {
    open spec fn spec_distance_squared(&self, a: Position, b: Position) -> nat {
        euclid_sq(a, b)
    }

    fn distance_squared(&self, a: Position, b: Position) -> (r: u128) {
        let dx: i128 = a.x as i128 - b.x as i128;
        let dy: i128 = a.y as i128 - b.y as i128;
        let dz: i128 = a.z as i128 - b.z as i128;
        assert(dx * dx <= 0x1_0000_0000 * 0x1_0000_0000) by (nonlinear_arith)
            requires -0x1_0000_0000 <= dx <= 0x1_0000_0000;
        assert(dy * dy <= 0x1_0000_0000 * 0x1_0000_0000) by (nonlinear_arith)
            requires -0x1_0000_0000 <= dy <= 0x1_0000_0000;
        assert(dz * dz <= 0x1_0000_0000 * 0x1_0000_0000) by (nonlinear_arith)
            requires -0x1_0000_0000 <= dz <= 0x1_0000_0000;
        assert(0 <= dx * dx && 0 <= dy * dy && 0 <= dz * dz) by (nonlinear_arith);
        (dx * dx + dy * dy + dz * dz) as u128
    }
}

/// An axis-aligned box, bounds included.
#[derive(Clone, Copy, Debug, PartialEq, Eq, Structural)]
pub struct Aabb {
    pub min_x: i64,
    pub min_y: i64,
    pub min_z: i64,
    pub max_x: i64,
    pub max_y: i64,
    pub max_z: i64,
}

impl Aabb {
    /// The box centred on `center` that reaches `half_extent` along every axis.
    pub fn from_half_extents(center: Position, half_extent: u64) -> (r: Aabb)
        requires
            half_extent <= 0x4000_0000_0000_0000,
        ensures
            r.min_x == center.x - half_extent && r.max_x == center.x + half_extent,
            r.min_y == center.y - half_extent && r.max_y == center.y + half_extent,
            r.min_z == center.z - half_extent && r.max_z == center.z + half_extent,
    {
        let h: i64 = half_extent as i64;
        Aabb {
            min_x: center.x as i64 - h,
            min_y: center.y as i64 - h,
            min_z: center.z as i64 - h,
            max_x: center.x as i64 + h,
            max_y: center.y as i64 + h,
            max_z: center.z as i64 + h,
        }
    }

    pub open spec fn spec_intersects(self, o: Aabb) -> bool {
        &&& self.min_x <= o.max_x && o.min_x <= self.max_x
        &&& self.min_y <= o.max_y && o.min_y <= self.max_y
        &&& self.min_z <= o.max_z && o.min_z <= self.max_z
    }

    /// Whether the two boxes share at least one point.
    pub fn intersects(&self, o: &Aabb) -> (r: bool)
        ensures
            r == self.spec_intersects(*o),
    {
        self.min_x <= o.max_x && o.min_x <= self.max_x && self.min_y <= o.max_y && o.min_y
            <= self.max_y && self.min_z <= o.max_z && o.min_z <= self.max_z
    }
}

} // verus!
