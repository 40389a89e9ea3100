//! The transition curve of the compositing pass: three animated channels,
//! each the quadratic through three control values.
//!
//! A channel is given by its value at the start, at half time and at the
//! end.  Control values and results are whole numbers of one scale, which is
//! the caller's choice; times are in milliseconds.  Between the control
//! points the value is rounded toward zero.

use crate::fixed::{div_toward_zero, lemma_div_toward_zero_of_multiple};
use vstd::prelude::*;

verus! {

/// The coefficients `(a, b, c)` of the one quadratic `a t^2 + b t + c` that
/// is `first` at `t = 0`, `middle` at `t = 1/2` and `last` at `t = 1`.
pub open spec fn quadratic_through(first: int, middle: int, last: int) -> (int, int, int) {
    (2 * first - 4 * middle + 2 * last, -3 * first + 4 * middle - last, first)
}

/// The value of the quadratic with coefficients `coef` after `elapsed` of
/// `duration`: at `t = elapsed / duration`, and from the end of the
/// duration on at `t = 1`.
pub open spec fn curve_value(coef: (int, int, int), elapsed: nat, duration: nat) -> int {
    if elapsed >= duration {
        coef.0 + coef.1 + coef.2
    } else {
        div_toward_zero(
            coef.0 * elapsed * elapsed + coef.1 * elapsed * duration + coef.2 * duration
                * duration,
            (duration * duration) as int,
        )
    }
}

/// The coefficients of one channel.
#[derive(Clone, Copy, Debug, PartialEq, Eq, Structural)]
pub struct Quadratic {
    pub a: i64,
    pub b: i64,
    pub c: i64,
}

impl Quadratic {
    /// The coefficients as a triple.
    pub open spec fn coef(self) -> (int, int, int) {
        (self.a as int, self.b as int, self.c as int)
    }

    /// Whether the coefficients are those of a quadratic through control
    /// values of 32 bits.
    pub open spec fn bounded(self) -> bool {
        &&& -0x4_0000_0000 <= self.a <= 0x4_0000_0000
        &&& -0x4_0000_0000 <= self.b <= 0x4_0000_0000
        &&& -0x8000_0000 <= self.c <= 0x8000_0000
    }

    /// The quadratic that is `start` at the start, `middle` at half time
    /// and `end` at the end.
    pub fn through(start: i32, middle: i32, end: i32) -> (q: Quadratic)
        ensures
            q.coef() == quadratic_through(start as int, middle as int, end as int),
            q.bounded(),
    {
        let first = start as i64;
        let middle = middle as i64;
        let last = end as i64;
        Quadratic { a: 2 * first - 4 * middle + 2 * last, b: 4 * middle - 3 * first - last, c: first }
    }

    /// The value after `elapsed` of `duration`.
    pub fn value_at(&self, elapsed: u64, duration: u32) -> (v: i64)
        requires
            self.bounded(),
        ensures
            v == curve_value(self.coef(), elapsed as nat, duration as nat),
    {
        if elapsed >= duration as u64 {
            self.a + self.b + self.c
        } else {
            let e = elapsed as i128;
            let d = duration as i128;
            let a = self.a as i128;
            let b = self.b as i128;
            let c = self.c as i128;
            assert(0 <= e * e <= d * d && 0 <= e * d <= d * d && 0 < d * d <= 0xffff_ffff
                * 0xffff_ffff) by (nonlinear_arith)
                requires
                    0 <= e < d <= 0xffff_ffff,
            ;
            let ee = e * e;
            let ed = e * d;
            let dd = d * d;
            assert(-0x4_0000_0000 * dd <= a * ee <= 0x4_0000_0000 * dd) by (nonlinear_arith)
                requires
                    -0x4_0000_0000 <= a <= 0x4_0000_0000,
                    0 <= ee <= dd,
            ;
            assert(-0x4_0000_0000 * dd <= b * ed <= 0x4_0000_0000 * dd) by (nonlinear_arith)
                requires
                    -0x4_0000_0000 <= b <= 0x4_0000_0000,
                    0 <= ed <= dd,
            ;
            assert(-0x4_0000_0000 * dd <= c * dd <= 0x4_0000_0000 * dd) by (nonlinear_arith)
                requires
                    -0x4_0000_0000 <= c <= 0x4_0000_0000,
                    0 <= dd,
            ;
            let n: i128 = a * ee + b * ed + c * dd;
            assert(n == self.a * elapsed * elapsed + self.b * elapsed * duration + self.c
                * duration * duration) by (nonlinear_arith)
                requires
                    n == a * ee + b * ed + c * dd,
                    ee == e * e,
                    ed == e * d,
                    dd == d * d,
                    a == self.a,
                    b == self.b,
                    c == self.c,
                    e == elapsed,
                    d == duration,
            ;
            let magnitude: u128 = if n < 0 {
                (-n) as u128
            } else {
                n as u128
            };
            let q: u128 = magnitude / (dd as u128);
            assert(q <= 0xc_0000_0000) by (nonlinear_arith)
                requires
                    q == magnitude / (dd as u128),
                    magnitude <= 0xc_0000_0000 * dd,
                    dd > 0,
            ;
            if n < 0 {
                -(q as i128) as i64
            } else {
                q as i64
            }
        }
    }
}

/// Time from `from` to `to`; none if `to` is the earlier.
pub open spec fn elapsed_between(from: u64, to: u64) -> nat {
    if to >= from {
        (to - from) as nat
    } else {
        0
    }
}

/// An animation of three channels over a fixed duration: the two
/// coordinates of a circle's centre, and its radius.
pub struct CircleAnimation {
    coefs: [Quadratic; 3],
    duration: u32,
    start: u64,
}

impl CircleAnimation {
    #[verifier::type_invariant]
    spec fn inv(self) -> bool {
        forall|i: int| 0 <= i < 3 ==> (#[trigger] self.coefs@[i]).bounded()
    }

    /// The coefficients of channel `i`, for `i` from 0 to 2.
    pub closed spec fn channel(&self, i: int) -> (int, int, int) {
        self.coefs@[i].coef()
    }

    /// The duration, in milliseconds.
    pub closed spec fn duration(&self) -> nat {
        self.duration as nat
    }

    /// The clock reading at which the animation was started last.
    pub closed spec fn started(&self) -> u64 {
        self.start
    }

    /// The values of the three channels after `elapsed` milliseconds.
    pub open spec fn values_after(&self, elapsed: nat) -> (int, int, int) {
        (
            curve_value(self.channel(0), elapsed, self.duration()),
            curve_value(self.channel(1), elapsed, self.duration()),
            curve_value(self.channel(2), elapsed, self.duration()),
        )
    }

    /// An animation over `duration` milliseconds that starts at clock
    /// reading `now`.  Each of `points` holds the control values of one
    /// channel: at the start, at half time, at the end.
    pub fn new(duration: u32, points: [(i32, i32, i32); 3], now: u64) -> (anim: CircleAnimation)
        ensures
            anim.duration() == duration,
            anim.started() == now,
            forall|i: int|
                0 <= i < 3 ==> anim.channel(i) == quadratic_through(
                    points@[i].0 as int,
                    points@[i].1 as int,
                    points@[i].2 as int,
                ),
    {
        let x = Quadratic::through(points[0].0, points[0].1, points[0].2);
        let y = Quadratic::through(points[1].0, points[1].1, points[1].2);
        let r = Quadratic::through(points[2].0, points[2].1, points[2].2);
        CircleAnimation { coefs: [x, y, r], duration, start: now }
    }

    /// Starts the animation anew at clock reading `now`.
    pub fn start(&mut self, now: u64)
        ensures
            final(self).started() == now,
            final(self).duration() == old(self).duration(),
            forall|i: int| 0 <= i < 3 ==> final(self).channel(i) == old(self).channel(i),
    {
        proof {
            use_type_invariant(&*self);
        }
        self.start = now;
    }

    /// The values of the three channels `elapsed` milliseconds after the start.
    pub fn value_at(&self, elapsed: u64) -> (v: (i64, i64, i64))
        ensures
            (v.0 as int, v.1 as int, v.2 as int) == self.values_after(elapsed as nat),
    {
        proof {
            use_type_invariant(self);
        }
        (
            self.coefs[0].value_at(elapsed, self.duration),
            self.coefs[1].value_at(elapsed, self.duration),
            self.coefs[2].value_at(elapsed, self.duration),
        )
    }

    /// The values of the three channels at clock reading `now`.
    pub fn cur(&self, now: u64) -> (v: (i64, i64, i64))
        ensures
            (v.0 as int, v.1 as int, v.2 as int) == self.values_after(
                elapsed_between(self.started(), now),
            ),
    {
        let elapsed = if now >= self.start {
            now - self.start
        } else {
            0
        };
        self.value_at(elapsed)
    }
}

/// A curve is at its first control value at the start, at its middle one
/// at half time wherever the duration has a half, and at its last one from
/// the end of the duration on, exactly.
pub proof fn lemma_curve_hits_control_values(
    first: int,
    middle: int,
    last: int,
    duration: nat,
    elapsed: nat,
)
    ensures
        duration > 0 ==> curve_value(quadratic_through(first, middle, last), 0, duration) == first,
        duration > 0 ==> curve_value(quadratic_through(first, middle, last), duration, 2 * duration)
            == middle,
        elapsed >= duration ==> curve_value(quadratic_through(first, middle, last), elapsed, duration)
            == last,
{
    let coef = quadratic_through(first, middle, last);
    if duration > 0 {
        let d = duration as int;
        assert(coef.0 * 0 * 0 + coef.1 * 0 * d + coef.2 * d * d == first * (d * d))
            by (nonlinear_arith)
            requires
                coef.2 == first,
        ;
        assert(d * d > 0) by (nonlinear_arith)
            requires
                d > 0,
        ;
        lemma_div_toward_zero_of_multiple(first, d * d);
        let w = 2 * d;
        assert(coef.0 * d * d + coef.1 * d * w + coef.2 * w * w == middle * (w * w))
            by (nonlinear_arith)
            requires
                w == 2 * d,
                coef.0 == 2 * first - 4 * middle + 2 * last,
                coef.1 == -3 * first + 4 * middle - last,
                coef.2 == first,
        ;
        assert(w * w > 0) by (nonlinear_arith)
            requires
                w > 0,
        ;
        lemma_div_toward_zero_of_multiple(middle, w * w);
        assert((2 * duration) * (2 * duration) == w * w);
    }
}

/// An animation shows the first control value of every channel when no
/// time has passed, and the last one from the end of its duration on.
pub proof fn lemma_animation_hits_control_values(
    anim: CircleAnimation,
    points: Seq<(i32, i32, i32)>,
    elapsed: nat,
)
    requires
        points.len() == 3,
        forall|i: int|
            0 <= i < 3 ==> anim.channel(i) == quadratic_through(
                points[i].0 as int,
                points[i].1 as int,
                points[i].2 as int,
            ),
    ensures
        anim.duration() > 0 ==> anim.values_after(0) == (
            points[0].0 as int,
            points[1].0 as int,
            points[2].0 as int,
        ),
        elapsed >= anim.duration() ==> anim.values_after(elapsed) == (
            points[0].2 as int,
            points[1].2 as int,
            points[2].2 as int,
        ),
{
    lemma_curve_hits_control_values(
        points[0].0 as int,
        points[0].1 as int,
        points[0].2 as int,
        anim.duration(),
        elapsed,
    );
    lemma_curve_hits_control_values(
        points[1].0 as int,
        points[1].1 as int,
        points[1].2 as int,
        anim.duration(),
        elapsed,
    );
    lemma_curve_hits_control_values(
        points[2].0 as int,
        points[2].1 as int,
        points[2].2 as int,
        anim.duration(),
        elapsed,
    );
}

} // verus!
