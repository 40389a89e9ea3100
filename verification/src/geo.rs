//! Projection of GPS fixes onto a local plane, in whole numbers.
//!
//! Angles are in units of 1e-7 degree, lengths in millimetres.  The plane
//! touches the globe at a reference fix: north is `(lat - lat0) * 111319.5 m`
//! per degree, east the same times the cosine of the *reference* latitude.
//! The cosine is a fixed-point polynomial, in parts per 1e9.

use crate::fixed::div_toward_zero;
use vstd::prelude::*;

verus! {

/// Millimetres per unit of angle along a meridian, times
/// [`METRE_SCALE_DIVISOR`]: a degree of latitude is 111 319.5 m.
pub const MILLIMETRES_PER_UNIT_NUMERATOR: u64 = 1_113_195;

/// The divisor that goes with [`MILLIMETRES_PER_UNIT_NUMERATOR`].
pub const METRE_SCALE_DIVISOR: u64 = 100_000;

/// One, in the fixed-point scale of [`cos_ppb`].
pub const COS_ONE: u64 = 1_000_000_000;

/// A right angle, in units of 1e-7 degree.
pub const RIGHT_ANGLE: u64 = 900_000_000;

/// Nanoradians per unit of angle, times 1e9: `pi / 180 * 100`.
pub const NANORADIANS_PER_UNIT_NUMERATOR: u64 = 1_745_329_252;

/// `r` is the whole part of the square root of `n`.
pub open spec fn is_isqrt(n: nat, r: nat) -> bool {
    r * r <= n && n < (r + 1) * (r + 1)
}

/// The whole part of the square root of `n`.
pub open spec fn isqrt(n: nat) -> nat {
    choose|r: nat| is_isqrt(n, r)
}

/// There is one whole square root only.
pub proof fn lemma_isqrt_unique(n: nat, r: nat)
    requires
        is_isqrt(n, r),
    ensures
        isqrt(n) == r,
{
    let c = isqrt(n);
    assert(is_isqrt(n, c));
    if c < r {
        assert((c + 1) * (c + 1) <= r * r) by (nonlinear_arith)
            requires
                c + 1 <= r,
        ;
    }
    if r < c {
        assert((r + 1) * (r + 1) <= c * c) by (nonlinear_arith)
            requires
                r + 1 <= c,
        ;
    }
}

/// The whole part of the square root of `n`.
pub fn integer_sqrt(n: u128) -> (r: u64)
    ensures
        r == isqrt(n as nat),
        is_isqrt(n as nat, r as nat),
{
    let mut lo: u128 = 0;
    let mut hi: u128 = 0x1_0000_0000_0000_0000u128;
    assert(n < hi * hi) by (nonlinear_arith)
        requires
            hi == 0x1_0000_0000_0000_0000u128,
            n <= u128::MAX,
    ;
    while hi - lo > 1
        invariant
            lo < hi <= 0x1_0000_0000_0000_0000u128,
            lo * lo <= n,
            n < hi * hi,
        decreases hi - lo,
    {
        let mid: u128 = lo + (hi - lo) / 2;
        assert(mid * mid <= 0xffff_ffff_ffff_ffffu128 * 0xffff_ffff_ffff_ffffu128)
            by (nonlinear_arith)
            requires
                mid <= 0xffff_ffff_ffff_ffffu128,
        ;
        if mid * mid <= n {
            lo = mid;
        } else {
            hi = mid;
        }
    }
    proof {
        lemma_isqrt_unique(n as nat, lo as nat);
    }
    lo as u64
}

/// One step of the cosine polynomial: `1 - u * t / k`, in parts per 1e9,
/// never below zero.
pub open spec fn cos_step(u: nat, t: nat, k: nat) -> nat {
    let q = (u * t) / (k * COS_ONE as nat);
    if q >= COS_ONE {
        0
    } else {
        (COS_ONE - q) as nat
    }
}

/// The square of an angle in radians, times 1e9.  Angles beyond a right
/// angle count as a right angle.
pub open spec fn squared_angle(latitude: int) -> nat {
    let a: nat = if latitude < 0 {
        (-latitude) as nat
    } else {
        latitude as nat
    };
    let a: nat = if a > RIGHT_ANGLE {
        RIGHT_ANGLE as nat
    } else {
        a
    };
    let x = a * NANORADIANS_PER_UNIT_NUMERATOR as nat / 1_000_000_000;
    x * x / 1_000_000_000
}

/// The cosine of a latitude given in units of 1e-7 degree, in parts per 1e9:
/// the series `1 - x^2/2! + x^4/4! - ... + x^12/12!`, evaluated from the
/// inside out with every quotient rounded down.
pub open spec fn spec_cos_ppb(latitude: int) -> nat {
    let u = squared_angle(latitude);
    let t = cos_step(u, COS_ONE as nat, 132);
    let t = cos_step(u, t, 90);
    let t = cos_step(u, t, 56);
    let t = cos_step(u, t, 30);
    let t = cos_step(u, t, 12);
    cos_step(u, t, 2)
}

fn cos_term(u: u64, t: u64, k: u64) -> (next: u64)
    requires
        u <= 2_467_401_100,
        t <= COS_ONE,
        2 <= k <= 132,
    ensures
        next == cos_step(u as nat, t as nat, k as nat),
        next <= COS_ONE,
{
    assert(u * t <= 2_467_401_100 * 1_000_000_000) by (nonlinear_arith)
        requires
            u <= 2_467_401_100,
            t <= 1_000_000_000,
    ;
    let q = (u * t) / (k * COS_ONE);
    if q >= COS_ONE {
        0
    } else {
        COS_ONE - q
    }
}

/// The cosine of a latitude given in units of 1e-7 degree, in parts per 1e9.
pub fn cos_ppb(latitude: i32) -> (c: u64)
    ensures
        c == spec_cos_ppb(latitude as int),
        c <= COS_ONE,
{
    let a: u64 = if latitude < 0 {
        (-(latitude as i64)) as u64
    } else {
        latitude as u64
    };
    let a: u64 = if a > RIGHT_ANGLE {
        RIGHT_ANGLE
    } else {
        a
    };
    let x: u64 = a * NANORADIANS_PER_UNIT_NUMERATOR / 1_000_000_000;
    assert(x * x <= 1_570_796_326 * 1_570_796_326) by (nonlinear_arith)
        requires
            x <= 1_570_796_326,
    ;
    let u: u64 = x * x / 1_000_000_000;
    let t = cos_term(u, COS_ONE, 132);
    let t = cos_term(u, t, 90);
    let t = cos_term(u, t, 56);
    let t = cos_term(u, t, 30);
    let t = cos_term(u, t, 12);
    cos_term(u, t, 2)
}

/// The cosine is one on the equator, and the same north and south of it.
pub proof fn lemma_cos_symmetric(latitude: int)
    ensures
        spec_cos_ppb(-latitude) == spec_cos_ppb(latitude),
        spec_cos_ppb(0) == COS_ONE,
{
    assert(squared_angle(-latitude) == squared_angle(latitude));
    assert(squared_angle(0) == 0) by {
        let x = 0nat * NANORADIANS_PER_UNIT_NUMERATOR as nat / 1_000_000_000;
        assert(x == 0);
        assert(x * x == 0) by (nonlinear_arith)
            requires
                x == 0,
        ;
    }
    assert forall|t: nat, k: nat| 0 < k implies #[trigger] cos_step(0, t, k) == COS_ONE by {
        assert(0 * t == 0) by (nonlinear_arith);
        assert(0nat / (k * COS_ONE as nat) == 0) by (nonlinear_arith)
            requires
                0 < k,
        ;
    }
}

/// Offset to the north, in millimetres, of latitude `latitude` from `origin`.
pub open spec fn north_offset(latitude: i32, origin: i32) -> int {
    div_toward_zero(
        (latitude - origin) * MILLIMETRES_PER_UNIT_NUMERATOR as int,
        METRE_SCALE_DIVISOR as int,
    )
}

/// Offset to the east, in millimetres, of longitude `longitude` from
/// `origin`, on the parallel of `origin_latitude`.
pub open spec fn east_offset(longitude: i32, origin: i32, origin_latitude: i32) -> int {
    div_toward_zero(
        (longitude - origin) * MILLIMETRES_PER_UNIT_NUMERATOR as int * spec_cos_ppb(
            origin_latitude as int,
        ),
        METRE_SCALE_DIVISOR as int * COS_ONE as int,
    )
}

/// The straight distance, in millimetres and rounded down, between two
/// points of the plane.
pub open spec fn plane_distance(north_a: int, east_a: int, north_b: int, east_b: int) -> nat {
    isqrt(((north_b - north_a) * (north_b - north_a) + (east_b - east_a) * (east_b - east_a)) as nat)
}

/// Offsets are within this many millimetres of the origin.
pub const MAX_OFFSET: i64 = 47_811_400_000;

/// The cosine never exceeds one.
pub proof fn lemma_cos_at_most_one(latitude: int)
    ensures
        spec_cos_ppb(latitude) <= COS_ONE,
{
}

/// No fix is further than [`MAX_OFFSET`] from any reference, on either axis.
pub proof fn lemma_offsets_within_reach(
    latitude: i32,
    longitude: i32,
    origin_latitude: i32,
    origin_longitude: i32,
)
    ensures
        -MAX_OFFSET <= north_offset(latitude, origin_latitude) <= MAX_OFFSET,
        -MAX_OFFSET <= east_offset(longitude, origin_longitude, origin_latitude) <= MAX_OFFSET,
{
    let c = spec_cos_ppb(origin_latitude as int) as int;
    lemma_cos_at_most_one(origin_latitude as int);
    let a = (longitude - origin_longitude) * MILLIMETRES_PER_UNIT_NUMERATOR as int;
    assert(-(0xffff_ffff * 1_113_195) * 1_000_000_000 <= a * c <= (0xffff_ffff * 1_113_195)
        * 1_000_000_000) by (nonlinear_arith)
        requires
            -(0xffff_ffff * 1_113_195) <= a <= 0xffff_ffff * 1_113_195,
            0 <= c <= 1_000_000_000,
    ;
}

fn scaled_offset(diff: i64, factor: u64, divisor: u64) -> (offset: i64)
    requires
        -0xffff_ffff <= diff <= 0xffff_ffff,
        divisor > 0,
        factor <= 1_113_195 * 1_000_000_000,
        factor * 100_000 <= divisor * 1_113_195,
    ensures
        offset == div_toward_zero(diff * factor, divisor as int),
        -MAX_OFFSET <= offset <= MAX_OFFSET,
{
    let magnitude: u128 = if diff < 0 {
        (-diff) as u128
    } else {
        diff as u128
    };
    assert(magnitude * factor <= 0xffff_ffff * (1_113_195 * 1_000_000_000)) by (nonlinear_arith)
        requires
            magnitude <= 0xffff_ffff,
            factor <= 1_113_195 * 1_000_000_000,
    ;
    let q: u128 = magnitude * (factor as u128) / (divisor as u128);
    assert(q * 100_000 <= 0xffff_ffff * 1_113_195) by (nonlinear_arith)
        requires
            q == (magnitude * factor) / (divisor as int),
            magnitude <= 0xffff_ffff,
            divisor > 0,
            factor * 100_000 <= divisor * 1_113_195,
    ;
    if diff < 0 {
        assert((-diff) * factor == -(diff * factor)) by (nonlinear_arith);
        assert(diff * factor <= 0) by (nonlinear_arith)
            requires
                diff < 0,
                factor >= 0,
        ;
        -(q as i64)
    } else {
        assert(diff * factor >= 0) by (nonlinear_arith)
            requires
                diff >= 0,
                factor >= 0,
        ;
        q as i64
    }
}

/// Offset to the north, in millimetres, of latitude `latitude` from `origin`.
pub fn north_of(latitude: i32, origin: i32) -> (north: i64)
    ensures
        north == north_offset(latitude, origin),
        -MAX_OFFSET <= north <= MAX_OFFSET,
{
    scaled_offset(latitude as i64 - origin as i64, MILLIMETRES_PER_UNIT_NUMERATOR, METRE_SCALE_DIVISOR)
}

/// Offset to the east, in millimetres, of longitude `longitude` from
/// `origin`, on the parallel of `origin_latitude`.
pub fn east_of(longitude: i32, origin: i32, origin_latitude: i32) -> (east: i64)
    ensures
        east == east_offset(longitude, origin, origin_latitude),
        -MAX_OFFSET <= east <= MAX_OFFSET,
{
    let c = cos_ppb(origin_latitude);
    assert(MILLIMETRES_PER_UNIT_NUMERATOR * c <= 1_113_195 * 1_000_000_000) by (nonlinear_arith)
        requires
            c <= 1_000_000_000,
    ;
    let diff = longitude as i64 - origin as i64;
    assert(diff * MILLIMETRES_PER_UNIT_NUMERATOR as int * c == diff * (MILLIMETRES_PER_UNIT_NUMERATOR
        * c)) by (nonlinear_arith);
    scaled_offset(diff, MILLIMETRES_PER_UNIT_NUMERATOR * c, METRE_SCALE_DIVISOR * COS_ONE)
}

/// The straight distance, in millimetres and rounded down, between two
/// points of the plane.
pub fn distance_between(north_a: i64, east_a: i64, north_b: i64, east_b: i64) -> (d: u64)
    requires
        -MAX_OFFSET <= north_a <= MAX_OFFSET,
        -MAX_OFFSET <= east_a <= MAX_OFFSET,
        -MAX_OFFSET <= north_b <= MAX_OFFSET,
        -MAX_OFFSET <= east_b <= MAX_OFFSET,
    ensures
        d == plane_distance(north_a as int, east_a as int, north_b as int, east_b as int),
{
    let dn: i128 = north_b as i128 - north_a as i128;
    let de: i128 = east_b as i128 - east_a as i128;
    assert(0 <= dn * dn <= 4 * MAX_OFFSET * MAX_OFFSET) by (nonlinear_arith)
        requires
            -2 * MAX_OFFSET <= dn <= 2 * MAX_OFFSET,
    ;
    assert(0 <= de * de <= 4 * MAX_OFFSET * MAX_OFFSET) by (nonlinear_arith)
        requires
            -2 * MAX_OFFSET <= de <= 2 * MAX_OFFSET,
    ;
    let sum: i128 = dn * dn + de * de;
    integer_sqrt(sum as u128)
}

} // verus!
