//! Integer geometry for the combat rules: positions in whole millimetres,
//! distances by integer square root, and the linear impulse falloff of an
//! explosion.

use vstd::prelude::*;

verus! {

/// Every coordinate of the playfield stays within 10 km of the origin;
/// the ground itself is only 2 km across.
pub const COORD_LIMIT_MM: i64 = 10_000_000;

/// A point of the world, in millimetres.
#[derive(Clone, Copy, Debug, PartialEq, Eq, Structural)]
pub struct PosMm {
    pub x: i64,
    pub y: i64,
    pub z: i64,
}

impl PosMm {
    /// The point lies on the playfield.
    pub open spec fn wf(self) -> bool {
        &&& -COORD_LIMIT_MM <= self.x <= COORD_LIMIT_MM
        &&& -COORD_LIMIT_MM <= self.y <= COORD_LIMIT_MM
        &&& -COORD_LIMIT_MM <= self.z <= COORD_LIMIT_MM
    }
}

/// The squared distance between two points, in square millimetres.
pub open spec fn dist_sq(a: PosMm, b: PosMm) -> int {
    (a.x - b.x) * (a.x - b.x) + (a.y - b.y) * (a.y - b.y) + (a.z - b.z) * (a.z - b.z)
}

/// `r` is the integer square root of `n`.
pub open spec fn is_isqrt(n: int, r: int) -> bool {
    r * r <= n < (r + 1) * (r + 1)
}

/// The integer square root of `n`, as a value: the unique nonnegative `r`
/// with `r * r <= n < (r + 1) * (r + 1)`.
pub open spec fn sqrt_floor(n: int) -> int {
    choose|r: int| 0 <= r && is_isqrt(n, r)
}

/// The integer square root is unique, so any witness is `sqrt_floor`.
pub proof fn lemma_sqrt_floor_unique(n: int, r: int)
    requires
        0 <= r,
        is_isqrt(n, r),
    ensures
        sqrt_floor(n) == r,
{
    assert(exists|x: int| 0 <= x && is_isqrt(n, x));
    let s = sqrt_floor(n);
    assert(0 <= s && is_isqrt(n, s));
    assert(s == r) by (nonlinear_arith)
        requires
            0 <= s,
            0 <= r,
            s * s <= n < (s + 1) * (s + 1),
            r * r <= n < (r + 1) * (r + 1),
    ;
}

/// The integer square root: the largest `r` with `r * r <= n`.
pub fn isqrt(n: u64) -> (r: u64)
    ensures
        is_isqrt(n as int, r as int),
        r == sqrt_floor(n as int),
{
    let mut lo: u64 = 0;
    let mut hi: u64 = 4294967296;
    proof {
        assert((4294967296int) * 4294967296 > u64::MAX);
    }
    while lo + 1 < hi
        invariant
            lo < hi,
            hi <= 4294967296,
            lo * lo <= n,
            n < hi * hi,
        decreases hi - lo,
    {
        let mid = lo + (hi - lo) / 2;
        proof {
            assert(mid <= 4294967295);
            assert(mid * mid <= 4294967295int * 4294967295) by (nonlinear_arith)
                requires
                    mid <= 4294967295,
            ;
        }
        if mid * mid <= n {
            lo = mid;
        } else {
            hi = mid;
        }
    }
    proof {
        lemma_sqrt_floor_unique(n as int, lo as int);
    }
    lo
}

/// The distance between two points of the playfield, rounded down to
/// whole millimetres.
pub fn dist_mm(a: PosMm, b: PosMm) -> (r: u64)
    requires
        a.wf(),
        b.wf(),
    ensures
        is_isqrt(dist_sq(a, b), r as int),
        r == sqrt_floor(dist_sq(a, b)),
{
    let dx = a.x - b.x;
    let dy = a.y - b.y;
    let dz = a.z - b.z;
    proof {
        assert(dx * dx <= 20_000_000int * 20_000_000 && dx * dx >= 0) by (nonlinear_arith)
            requires
                -20_000_000 <= dx <= 20_000_000,
        ;
        assert(dy * dy <= 20_000_000int * 20_000_000 && dy * dy >= 0) by (nonlinear_arith)
            requires
                -20_000_000 <= dy <= 20_000_000,
        ;
        assert(dz * dz <= 20_000_000int * 20_000_000 && dz * dz >= 0) by (nonlinear_arith)
            requires
                -20_000_000 <= dz <= 20_000_000,
        ;
    }
    let sq = (dx * dx + dy * dy + dz * dz) as u64;
    isqrt(sq)
}

/// Decides whether two points of the playfield lie within `radius_mm` of
/// each other, comparing squared distances, so exactly.
pub fn within_mm(a: PosMm, b: PosMm, radius_mm: u64) -> (r: bool)
    requires
        a.wf(),
        b.wf(),
        radius_mm <= 100_000_000,
    ensures
        r == (dist_sq(a, b) <= radius_mm * radius_mm),
{
    let dx = a.x - b.x;
    let dy = a.y - b.y;
    let dz = a.z - b.z;
    proof {
        assert(dx * dx <= 20_000_000int * 20_000_000 && dx * dx >= 0) by (nonlinear_arith)
            requires
                -20_000_000 <= dx <= 20_000_000,
        ;
        assert(dy * dy <= 20_000_000int * 20_000_000 && dy * dy >= 0) by (nonlinear_arith)
            requires
                -20_000_000 <= dy <= 20_000_000,
        ;
        assert(dz * dz <= 20_000_000int * 20_000_000 && dz * dz >= 0) by (nonlinear_arith)
            requires
                -20_000_000 <= dz <= 20_000_000,
        ;
        assert(radius_mm * radius_mm <= 100_000_000int * 100_000_000) by (nonlinear_arith)
            requires
                radius_mm <= 100_000_000,
        ;
    }
    let sq = dx * dx + dy * dy + dz * dz;
    let rsq = (radius_mm * radius_mm) as i64;
    sq <= rsq
}

/// The impulse an explosion imparts at `dist_mm` from its centre, in
/// thousandths of the full strength of 20: full at the centre, fading
/// linearly to nothing at the edge of the affected zone.
pub open spec fn falloff_milli(dist_mm: int, affected_mm: int) -> int {
    if dist_mm >= affected_mm {
        0
    } else {
        20_000 * (affected_mm - dist_mm) / affected_mm
    }
}

/// Computes the explosion impulse at a given distance.
pub fn impulse_milli(dist_mm: u64, affected_mm: u64) -> (r: u64)
    requires
        0 < affected_mm <= 100_000_000,
    ensures
        r == falloff_milli(dist_mm as int, affected_mm as int),
        r <= 20_000,
{
    if dist_mm >= affected_mm {
        0
    } else {
        let scaled = 20_000 * (affected_mm - dist_mm);
        let r = scaled / affected_mm;
        proof {
            assert(20_000 * (affected_mm - dist_mm) / (affected_mm as int) <= 20_000)
                by (nonlinear_arith)
                requires
                    0 < affected_mm,
                    dist_mm < affected_mm,
            ;
        }
        r
    }
}

} // verus!
