//! The frame counter of an animated image: which frame of a cycle is shown,
//! stepping on by one whenever the frame period has passed.

use vstd::prelude::*;

verus! {

/// What a frame counter holds.
pub struct FrameView {
    /// Frames in the cycle.
    pub count: nat,
    /// Time that a frame is shown, in milliseconds.
    pub period: u64,
    /// The clock reading at which the counter stepped last.
    pub stepped_at: u64,
    /// The frame that is shown.
    pub frame: nat,
}

impl FrameView {
    /// Whether a frame has been shown for longer than its period at `now`.
    pub open spec fn due(self, now: u64) -> bool {
        now > self.stepped_at && now - self.stepped_at > self.period
    }

    /// The counter after a look at the clock at `now`: where a frame is
    /// due, the next frame of the cycle is shown from `now` on.
    pub open spec fn ticked(self, now: u64) -> FrameView {
        if self.due(now) {
            FrameView { stepped_at: now, frame: (self.frame + 1) % self.count, ..self }
        } else {
            self
        }
    }
}

/// The frame counter of one animated image.
pub struct FrameCycle {
    count: usize,
    period: u64,
    stepped_at: u64,
    frame: usize,
}

impl View for FrameCycle {
    type V = FrameView;

    closed spec fn view(&self) -> FrameView {
        FrameView {
            count: self.count as nat,
            period: self.period,
            stepped_at: self.stepped_at,
            frame: self.frame as nat,
        }
    }
}

impl FrameCycle {
    #[verifier::type_invariant]
    spec fn inv(self) -> bool {
        self.frame < self.count
    }

    /// A counter over `count` frames that shows the first of them from
    /// clock reading `now` on, each frame for `period` milliseconds.
    pub fn new(count: usize, period: u64, now: u64) -> (cycle: FrameCycle)
        requires
            count > 0,
        ensures
            cycle@ == (FrameView { count: count as nat, period, stepped_at: now, frame: 0 }),
    {
        FrameCycle { count, period, stepped_at: now, frame: 0 }
    }

    /// Shows each frame for `period` milliseconds from now on.
    pub fn set_speed(&mut self, period: u64)
        ensures
            final(self)@ == (FrameView { period, ..old(self)@ }),
    {
        proof {
            use_type_invariant(&*self);
        }
        self.period = period;
    }

    /// Looks at the clock at `now`, steps on if a frame is due, and says
    /// which frame is shown.
    pub fn tick(&mut self, now: u64) -> (frame: usize)
        ensures
            final(self)@ == old(self)@.ticked(now),
            frame == final(self)@.frame,
            frame < final(self)@.count,
    {
        proof {
            use_type_invariant(&*self);
        }
        if now > self.stepped_at && now - self.stepped_at > self.period {
            let next = if self.frame + 1 == self.count {
                0
            } else {
                self.frame + 1
            };
            assert(next == (self.frame + 1) % (self.count as int)) by {
                if self.frame + 1 == self.count {
                    assert((self.count as int) % (self.count as int) == 0) by (nonlinear_arith)
                        requires
                            self.count > 0,
                    ;
                } else {
                    assert(((self.frame + 1) as int) % (self.count as int) == self.frame + 1)
                        by (nonlinear_arith)
                        requires
                            0 <= self.frame + 1 < self.count,
                    ;
                }
            }
            self.stepped_at = now;
            self.frame = next;
        }
        self.frame
    }

    /// The frame that is shown.
    pub fn frame(&self) -> (frame: usize)
        ensures
            frame == self@.frame,
            frame < self@.count,
    {
        proof {
            use_type_invariant(self);
        }
        self.frame
    }
}

/// A counter that is looked at often enough shows the frames of its cycle
/// in order and starts over after the last: one step moves it on by
/// exactly one frame.
pub proof fn lemma_tick_moves_by_one(cycle: FrameView, now: u64)
    requires
        cycle.frame < cycle.count,
    ensures
        cycle.ticked(now).frame < cycle.count,
        cycle.due(now) ==> cycle.ticked(now).frame == (if cycle.frame + 1 == cycle.count {
            0
        } else {
            cycle.frame + 1
        }),
        !cycle.due(now) ==> cycle.ticked(now) == cycle,
        !cycle.ticked(now).due(now),
{
    let c = cycle.count as int;
    let f = cycle.frame as int;
    if f + 1 == c {
        assert(c % c == 0) by (nonlinear_arith)
            requires
                c > 0,
        ;
    } else {
        assert((f + 1) % c == f + 1) by (nonlinear_arith)
            requires
                0 <= f + 1 < c,
        ;
    }
}

} // verus!
