//! The GPS track accumulator: turns a stream of fixes into distance covered,
//! time spent and average speed.
//!
//! All quantities are whole numbers: angles in units of 1e-7 degree,
//! accuracy and distance in millimetres, times in milliseconds, speed in
//! millimetres per second.  The clock is the caller's: every call that needs
//! the time takes a reading of a monotonic clock, in milliseconds.

use crate::fixed::{add_saturating, saturating_sum};
use crate::geo::{
    distance_between, east_of, east_offset, lemma_offsets_within_reach, north_of, north_offset,
    plane_distance, MAX_OFFSET,
};
use vstd::prelude::*;

verus! {

/// Fixes that arrive sooner than this after the signal became available are
/// not accumulated.
pub const WARM_UP: u64 = 10_000;

/// Fixes less accurate than this are not accumulated.
pub const MAX_ACCURACY: u32 = 5_500;

/// A raw GPS fix.
#[derive(Clone, Copy, Debug, PartialEq, Eq, Structural)]
pub struct LocationMetric {
    /// Latitude, in units of 1e-7 degree.
    pub latitude: i32,
    /// Longitude, in units of 1e-7 degree.
    pub longitude: i32,
    /// Radius of uncertainty, in millimetres.
    pub accuracy: u32,
    /// Time of the fix, in milliseconds.
    pub timestamp: u64,
}

/// A fix projected onto the plane of the session's reference fix.
#[derive(Clone, Copy, Debug, PartialEq, Eq, Structural)]
pub struct TrackPoint {
    /// Offset to the north of the reference, in millimetres.
    pub north: i64,
    /// Offset to the east of the reference, in millimetres.
    pub east: i64,
    /// Radius of uncertainty of the fix, in millimetres.
    pub accuracy: u32,
    /// Time of the fix, in milliseconds.
    pub timestamp: u64,
}

/// `sample` as seen from `origin`.
pub open spec fn projected(sample: LocationMetric, origin: LocationMetric) -> TrackPoint {
    TrackPoint {
        north: north_offset(sample.latitude, origin.latitude) as i64,
        east: east_offset(sample.longitude, origin.longitude, origin.latitude) as i64,
        accuracy: sample.accuracy,
        timestamp: sample.timestamp,
    }
}

/// Time from `from` to `to`; none if `to` is the earlier.
pub open spec fn time_between(from: u64, to: u64) -> u64 {
    if to >= from {
        (to - from) as u64
    } else {
        0
    }
}

/// Millimetres per second over `distance` millimetres in `time`
/// milliseconds; zero where no time has passed.
pub open spec fn speed_of(distance: u64, time: u64) -> u64 {
    if time == 0 {
        0
    } else if distance * 1000 / (time as int) > u64::MAX {
        u64::MAX
    } else {
        (distance * 1000 / (time as int)) as u64
    }
}

/// How a training stands, for the status line.
#[derive(Clone, Copy, Debug, PartialEq, Eq, Structural)]
pub enum GpsStatus {
    /// There is no signal.
    Offline,
    /// There is a signal, but no fix has been good enough to start from.
    Waiting,
    /// The training runs.
    Training,
    /// The training runs, but the last fix was not accurate enough.
    TrainingBadAccuracy,
}

/// A time span as a clock shows it.
#[derive(Clone, Copy, Debug, PartialEq, Eq, Structural)]
pub struct Clock {
    /// Whole minutes.
    pub minutes: u64,
    /// The whole seconds beyond them, below 60.
    pub seconds: u64,
}

/// What the training screen shows of an accumulator.  What is `None` is
/// left as it was shown before.
#[derive(Clone, Copy, Debug, PartialEq, Eq, Structural)]
pub struct Readout {
    /// The status line.
    pub status: GpsStatus,
    /// Distance covered, in millimetres: while the training runs on
    /// accurate fixes.
    pub distance: Option<u64>,
    /// Time spent: while the training runs.
    pub clock: Option<Clock>,
    /// Accuracy of the last fix, in millimetres: while there is a signal
    /// and a fix has arrived.
    pub accuracy: Option<u32>,
    /// Whether that accuracy is good enough.
    pub accuracy_good: bool,
}

/// What an accumulator holds.
#[verifier::ext_equal]
pub struct GpsView {
    /// Clock reading at which the signal became available, if it is.
    pub available_since: Option<u64>,
    /// Whether the last fix that was looked at was accurate enough.
    pub accuracy_good: bool,
    /// Accuracy of the last fix that arrived.
    pub last_known_accuracy: Option<u32>,
    /// The reference fix of the running session.
    pub initial_metric: Option<LocationMetric>,
    /// The accumulated fixes of the running session, projected.
    pub track: Seq<TrackPoint>,
    /// Time spent, over all sessions.
    pub total_time: u64,
    /// Distance covered, over all sessions.
    pub total_distance: u64,
    /// Whether fixes are ignored.
    pub paused: bool,
}

impl GpsView {
    /// The accumulator before any fix.
    pub open spec fn fresh() -> GpsView {
        GpsView {
            available_since: None,
            accuracy_good: false,
            last_known_accuracy: None,
            initial_metric: None,
            track: Seq::empty(),
            total_time: 0,
            total_distance: 0,
            paused: false,
        }
    }

    /// The clock reading from which the warm-up of a fix at `now` counts.
    pub open spec fn signal_start(self, now: u64) -> u64 {
        match self.available_since {
            Some(t) => t,
            None => now,
        }
    }

    /// Whether a fix that arrives at `now` falls into the warm-up.
    pub open spec fn warming_up(self, now: u64) -> bool {
        time_between(self.signal_start(now), now) < WARM_UP
    }

    /// Whether a fix that arrives at `now` is accumulated.
    pub open spec fn accepts(self, now: u64, sample: LocationMetric) -> bool {
        !self.paused && !self.warming_up(now) && sample.accuracy <= MAX_ACCURACY
    }

    /// The accumulator after an accepted fix.
    pub open spec fn accumulate(self, sample: LocationMetric) -> GpsView {
        match self.initial_metric {
            None => GpsView { accuracy_good: true, initial_metric: Some(sample), ..self },
            Some(origin) => {
                let point = projected(sample, origin);
                if self.track.len() > 0 {
                    let last = self.track.last();
                    GpsView {
                        accuracy_good: true,
                        track: self.track.push(point),
                        total_distance: saturating_sum(
                            self.total_distance,
                            plane_distance(
                                last.north as int,
                                last.east as int,
                                point.north as int,
                                point.east as int,
                            ) as u64,
                        ),
                        total_time: saturating_sum(
                            self.total_time,
                            time_between(last.timestamp, sample.timestamp),
                        ),
                        ..self
                    }
                } else {
                    GpsView { accuracy_good: true, track: self.track.push(point), ..self }
                }
            },
        }
    }

    /// The accumulator after a fix that arrived at clock reading `now`.
    pub open spec fn step(self, now: u64, sample: LocationMetric) -> GpsView {
        if self.paused {
            self
        } else {
            let seen = GpsView {
                available_since: Some(self.signal_start(now)),
                last_known_accuracy: Some(sample.accuracy),
                ..self
            };
            if self.warming_up(now) {
                seen
            } else if sample.accuracy > MAX_ACCURACY {
                GpsView { accuracy_good: false, ..seen }
            } else {
                seen.accumulate(sample)
            }
        }
    }

    /// The accumulator after a pause: the session is over, the totals stay.
    pub open spec fn pause(self) -> GpsView {
        GpsView {
            paused: true,
            initial_metric: None,
            track: Seq::empty(),
            last_known_accuracy: None,
            available_since: None,
            ..self
        }
    }

    /// The accumulator after the pause has ended.
    pub open spec fn resume(self) -> GpsView {
        GpsView { paused: false, ..self }
    }

    /// The accumulator after the fixes of `samples`, each with the clock
    /// reading at which it arrived, one after the other.
    pub open spec fn feed(self, samples: Seq<(u64, LocationMetric)>) -> GpsView
        decreases samples.len(),
    {
        if samples.len() == 0 {
            self
        } else {
            self.feed(samples.drop_last()).step(samples.last().0, samples.last().1)
        }
    }

    /// What the training screen shows of the accumulator.
    pub open spec fn readout(self) -> Readout {
        let online = self.available_since is Some;
        let running = online && self.initial_metric is Some;
        Readout {
            status: if !online {
                GpsStatus::Offline
            } else if !running {
                GpsStatus::Waiting
            } else if self.accuracy_good {
                GpsStatus::Training
            } else {
                GpsStatus::TrainingBadAccuracy
            },
            distance: if running && self.accuracy_good {
                Some(self.total_distance)
            } else {
                None
            },
            clock: if running {
                Some(
                    Clock {
                        minutes: (self.total_time / 1000 / 60) as u64,
                        seconds: (self.total_time / 1000 % 60) as u64,
                    },
                )
            } else {
                None
            },
            accuracy: if online {
                self.last_known_accuracy
            } else {
                None
            },
            accuracy_good: self.accuracy_good,
        }
    }

    /// Every projected fix lies within reach of the reference.
    pub open spec fn within_reach(self) -> bool {
        forall|i: int|
            0 <= i < self.track.len() ==> {
                &&& -MAX_OFFSET <= (#[trigger] self.track[i]).north <= MAX_OFFSET
                &&& -MAX_OFFSET <= self.track[i].east <= MAX_OFFSET
            }
    }
}

/// The accumulator.
pub struct GpsData {
    available_since: Option<u64>,
    gps_acc_good: bool,
    last_known_acc: Option<u32>,
    initial_metric: Option<LocationMetric>,
    all_metrics: Vec<TrackPoint>,
    total_time: u64,
    total_distance: u64,
    paused: bool,
}

impl View for GpsData {
    type V = GpsView;

    closed spec fn view(&self) -> GpsView {
        GpsView {
            available_since: self.available_since,
            accuracy_good: self.gps_acc_good,
            last_known_accuracy: self.last_known_acc,
            initial_metric: self.initial_metric,
            track: self.all_metrics@,
            total_time: self.total_time,
            total_distance: self.total_distance,
            paused: self.paused,
        }
    }
}

/// `sample` as seen from `origin`.
pub fn project(sample: &LocationMetric, origin: &LocationMetric) -> (point: TrackPoint)
    ensures
        point == projected(*sample, *origin),
        -MAX_OFFSET <= point.north <= MAX_OFFSET,
        -MAX_OFFSET <= point.east <= MAX_OFFSET,
{
    TrackPoint {
        north: north_of(sample.latitude, origin.latitude),
        east: east_of(sample.longitude, origin.longitude, origin.latitude),
        accuracy: sample.accuracy,
        timestamp: sample.timestamp,
    }
}

impl GpsData {
    #[verifier::type_invariant]
    spec fn inv(self) -> bool {
        self@.within_reach()
    }

    /// An accumulator that has seen no fix.
    pub fn new() -> (data: GpsData)
        ensures
            data@ == GpsView::fresh(),
    {
        GpsData {
            available_since: None,
            initial_metric: None,
            gps_acc_good: false,
            last_known_acc: None,
            all_metrics: Vec::new(),
            total_time: 0,
            total_distance: 0,
            paused: false,
        }
    }

    /// Takes in one fix that arrived at clock reading `now`.
    ///
    /// While paused nothing changes.  Otherwise the signal counts as
    /// available from the first fix on, and the accuracy of every fix is
    /// remembered; the fix is accumulated unless it falls into the warm-up or
    /// is not accurate enough.  The first accumulated fix of a session
    /// becomes its reference; each later one is projected, and from the
    /// second projected fix on the step from the one before adds to distance
    /// and time.
    pub fn update_location(
        &mut self,
        now: u64,
        latitude: i32,
        longitude: i32,
        accuracy: u32,
        timestamp: u64,
    )
        ensures
            final(self)@ == old(self)@.step(
                now,
                LocationMetric { latitude, longitude, accuracy, timestamp },
            ),
    {
        proof {
            use_type_invariant(&*self);
        }
        if self.paused {
            return ;
        }
        let metric = LocationMetric { latitude, longitude, accuracy, timestamp };
        let since = match self.available_since {
            Some(t) => t,
            None => now,
        };
        self.available_since = Some(since);
        self.last_known_acc = Some(accuracy);
        let elapsed = if now >= since {
            now - since
        } else {
            0
        };
        if elapsed < WARM_UP {
            return ;
        }
        if accuracy > MAX_ACCURACY {
            self.gps_acc_good = false;
            return ;
        }
        self.gps_acc_good = true;
        match self.initial_metric {
            None => {
                self.initial_metric = Some(metric);
            },
            Some(origin) => {
                let point = project(&metric, &origin);
                let n = self.all_metrics.len();
                if n > 0 {
                    let last = self.all_metrics[n - 1];
                    assert(last == self@.track[n - 1]);
                    let d = distance_between(last.north, last.east, point.north, point.east);
                    self.total_distance = add_saturating(self.total_distance, d);
                    let dt = if timestamp >= last.timestamp {
                        timestamp - last.timestamp
                    } else {
                        0
                    };
                    self.total_time = add_saturating(self.total_time, dt);
                }
                let mut track: Vec<TrackPoint> = Vec::new();
                core::mem::swap(&mut self.all_metrics, &mut track);
                track.push(point);
                self.all_metrics = track;
            },
        }
    }

    /// The signal became available at clock reading `now`.
    pub fn provider_enabled(&mut self, now: u64)
        ensures
            final(self)@ == (GpsView { available_since: Some(now), ..old(self)@ }),
    {
        proof {
            use_type_invariant(&*self);
        }
        self.available_since = Some(now);
    }

    /// The signal is gone.
    pub fn provider_disabled(&mut self)
        ensures
            final(self)@ == (GpsView { available_since: None, ..old(self)@ }),
    {
        proof {
            use_type_invariant(&*self);
        }
        self.available_since = None;
    }

    /// Whether the running session has its reference fix.
    pub fn has_initial_metric(&self) -> (b: bool)
        ensures
            b == self@.initial_metric.is_some(),
    {
        self.initial_metric.is_some()
    }

    /// Whether the signal is available.
    pub fn gps_online(&self) -> (b: bool)
        ensures
            b == self@.available_since.is_some(),
    {
        self.available_since.is_some()
    }

    /// Whether the last fix that was looked at was accurate enough.
    pub fn is_good_accuracy(&self) -> (b: bool)
        ensures
            b == self@.accuracy_good,
    {
        self.gps_acc_good
    }

    /// Whether fixes are ignored.
    pub fn is_paused(&self) -> (b: bool)
        ensures
            b == self@.paused,
    {
        self.paused
    }

    /// Average speed over all sessions, in millimetres per second.
    pub fn avg_speed(&self) -> (speed: u64)
        ensures
            speed == speed_of(self@.total_distance, self@.total_time),
    {
        average_speed(self.total_distance, self.total_time)
    }

    /// Time spent over all sessions, in milliseconds.
    pub fn total_time(&self) -> (t: u64)
        ensures
            t == self@.total_time,
    {
        self.total_time
    }

    /// Distance covered over all sessions, in millimetres.
    pub fn total_distance(&self) -> (d: u64)
        ensures
            d == self@.total_distance,
    {
        self.total_distance
    }

    /// Accuracy of the last fix that arrived, in millimetres.
    pub fn get_last_known_acc(&self) -> (accuracy: Option<u32>)
        ensures
            accuracy == self@.last_known_accuracy,
    {
        self.last_known_acc
    }

    /// The reference fix of the running session.
    pub fn initial_metric(&self) -> (origin: Option<LocationMetric>)
        ensures
            origin == self@.initial_metric,
    {
        self.initial_metric
    }

    /// How many fixes of the running session have been projected.
    pub fn track_len(&self) -> (n: usize)
        ensures
            n == self@.track.len(),
    {
        self.all_metrics.len()
    }

    /// The `i`-th projected fix of the running session.
    pub fn track_point(&self, i: usize) -> (point: Option<TrackPoint>)
        ensures
            point == (if i < self@.track.len() {
                Some(self@.track[i as int])
            } else {
                None
            }),
    {
        if i < self.all_metrics.len() {
            Some(self.all_metrics[i])
        } else {
            None
        }
    }

    /// What the training screen shows of the accumulator.
    pub fn readout(&self) -> (shown: Readout)
        ensures
            shown == self@.readout(),
    {
        let online = self.available_since.is_some();
        let running = online && self.initial_metric.is_some();
        let seconds = self.total_time / 1000;
        Readout {
            status: if !online {
                GpsStatus::Offline
            } else if !running {
                GpsStatus::Waiting
            } else if self.gps_acc_good {
                GpsStatus::Training
            } else {
                GpsStatus::TrainingBadAccuracy
            },
            distance: if running && self.gps_acc_good {
                Some(self.total_distance)
            } else {
                None
            },
            clock: if running {
                Some(Clock { minutes: seconds / 60, seconds: seconds % 60 })
            } else {
                None
            },
            accuracy: if online {
                self.last_known_acc
            } else {
                None
            },
            accuracy_good: self.gps_acc_good,
        }
    }

    /// Ends the session and ignores fixes from now on.  The totals stay.
    pub fn pause(&mut self)
        ensures
            final(self)@ == old(self)@.pause(),
    {
        self.all_metrics = Vec::new();
        self.paused = true;
        self.initial_metric = None;
        self.last_known_acc = None;
        self.available_since = None;
    }

    /// Takes fixes in again; the next accepted one starts a new session.
    pub fn resume(&mut self)
        ensures
            final(self)@ == old(self)@.resume(),
    {
        proof {
            use_type_invariant(&*self);
        }
        self.paused = false;
    }
}

/// Millimetres per second over `distance` millimetres in `time`
/// milliseconds; zero where no time has passed.
pub fn average_speed(distance: u64, time: u64) -> (speed: u64)
    ensures
        speed == speed_of(distance, time),
{
    if time == 0 {
        0
    } else {
        let q: u128 = (distance as u128 * 1000) / (time as u128);
        if q > u64::MAX as u128 {
            u64::MAX
        } else {
            q as u64
        }
    }
}

/// While paused, a fix changes nothing at all.
pub proof fn lemma_paused_ignores_fixes(s: GpsView, now: u64, sample: LocationMetric)
    requires
        s.paused,
    ensures
        s.step(now, sample) == s,
{
}

/// Distance and time never shrink, whatever fix arrives.
pub proof fn lemma_totals_never_shrink(s: GpsView, now: u64, sample: LocationMetric)
    ensures
        s.step(now, sample).total_distance >= s.total_distance,
        s.step(now, sample).total_time >= s.total_time,
{
}

/// A session has one reference fix: once it is set, no fix replaces it.
pub proof fn lemma_reference_set_once(s: GpsView, now: u64, sample: LocationMetric)
    requires
        s.initial_metric is Some,
    ensures
        s.step(now, sample).initial_metric == s.initial_metric,
{
}

/// A fix that is not accepted leaves the session and the totals as they
/// were.  What it may change is the remembered accuracy, the accuracy flag
/// and the start of the signal.
pub proof fn lemma_rejected_fix_keeps_totals(s: GpsView, now: u64, sample: LocationMetric)
    requires
        !s.accepts(now, sample),
    ensures
        s.step(now, sample).total_distance == s.total_distance,
        s.step(now, sample).total_time == s.total_time,
        s.step(now, sample).track == s.track,
        s.step(now, sample).initial_metric == s.initial_metric,
        s.step(now, sample).paused == s.paused,
{
}

/// However many fixes arrive, and whenever: if none of them is accurate
/// enough, distance and time stay as they were.
pub proof fn lemma_low_accuracy_keeps_totals(s: GpsView, samples: Seq<(u64, LocationMetric)>)
    requires
        forall|i: int| 0 <= i < samples.len() ==> (#[trigger] samples[i]).1.accuracy > MAX_ACCURACY,
    ensures
        s.feed(samples).total_distance == s.total_distance,
        s.feed(samples).total_time == s.total_time,
        s.feed(samples).track == s.track,
        s.feed(samples).initial_metric == s.initial_metric,
    decreases samples.len(),
{
    if samples.len() > 0 {
        let before = samples.drop_last();
        assert forall|i: int| 0 <= i < before.len() implies (#[trigger] before[i]).1.accuracy
            > MAX_ACCURACY by {
            assert(before[i] == samples[i]);
        }
        lemma_low_accuracy_keeps_totals(s, before);
        assert(samples.last() == samples[samples.len() - 1]);
        lemma_rejected_fix_keeps_totals(s.feed(before), samples.last().0, samples.last().1);
    }
}

/// However many fixes arrive, and however accurate: as long as all of them
/// arrive within the warm-up that the first of them starts, or that was
/// running already, distance and time stay as they were.
pub proof fn lemma_warm_up_keeps_totals(s: GpsView, samples: Seq<(u64, LocationMetric)>)
    requires
        forall|i: int|
            0 <= i < samples.len() ==> time_between(
                s.signal_start(samples[0].0),
                (#[trigger] samples[i]).0,
            ) < WARM_UP,
    ensures
        s.feed(samples).total_distance == s.total_distance,
        s.feed(samples).total_time == s.total_time,
        s.feed(samples).track == s.track,
        s.feed(samples).initial_metric == s.initial_metric,
        s.feed(samples).paused == s.paused,
        samples.len() > 0 && !s.paused ==> s.feed(samples).available_since == Some(
            s.signal_start(samples[0].0),
        ),
    decreases samples.len(),
{
    if samples.len() > 0 {
        let before = samples.drop_last();
        assert forall|i: int| 0 <= i < before.len() implies time_between(
            s.signal_start(before[0].0),
            (#[trigger] before[i]).0,
        ) < WARM_UP by {
            assert(before[i] == samples[i]);
            assert(before[0] == samples[0]);
        }
        lemma_warm_up_keeps_totals(s, before);
        assert(samples.last() == samples[samples.len() - 1]);
        if before.len() > 0 {
            assert(before[0] == samples[0]);
        }
        lemma_rejected_fix_keeps_totals(s.feed(before), samples.last().0, samples.last().1);
    }
}

/// A pause ends the session and keeps the totals; the end of the pause
/// leaves an accumulator that waits for a new signal and a new reference.
pub proof fn lemma_pause_keeps_totals(s: GpsView)
    ensures
        s.pause().total_distance == s.total_distance,
        s.pause().total_time == s.total_time,
        s.pause().paused,
        s.pause().resume() == (GpsView {
            available_since: None,
            last_known_accuracy: None,
            initial_metric: None,
            track: Seq::empty(),
            paused: false,
            ..s
        }),
{
}

/// As long as a session has no reference fix, nothing has been added to the
/// totals.
pub proof fn lemma_no_reference_no_progress(s: GpsView, samples: Seq<(u64, LocationMetric)>)
    requires
        s.feed(samples).initial_metric is None,
    ensures
        s.initial_metric is None,
        s.feed(samples).total_distance == s.total_distance,
        s.feed(samples).total_time == s.total_time,
        s.feed(samples).track == s.track,
        s.feed(samples).paused == s.paused,
    decreases samples.len(),
{
    if samples.len() > 0 {
        let before = samples.drop_last();
        let held = s.feed(before);
        if held.initial_metric is Some {
            lemma_reference_set_once(held, samples.last().0, samples.last().1);
        }
        lemma_no_reference_no_progress(s, before);
    }
}

/// After a pause and its end, the first fix that is accepted, however many
/// fixes were turned down before it, becomes the reference of a new session
/// and adds nothing: distance and time are what they were before the pause.
pub proof fn lemma_new_session_after_resume(
    s: GpsView,
    turned_down: Seq<(u64, LocationMetric)>,
    now: u64,
    sample: LocationMetric,
)
    requires
        s.pause().resume().feed(turned_down).initial_metric is None,
        s.pause().resume().feed(turned_down).accepts(now, sample),
    ensures
        s.pause().resume().feed(turned_down).step(now, sample).initial_metric == Some(sample),
        s.pause().resume().feed(turned_down).step(now, sample).total_distance == s.total_distance,
        s.pause().resume().feed(turned_down).step(now, sample).total_time == s.total_time,
        s.pause().resume().feed(turned_down).step(now, sample).track.len() == 0,
{
    lemma_no_reference_no_progress(s.pause().resume(), turned_down);
}

/// The very first fix after a pause has ended is never accepted: it starts
/// the warm-up.
pub proof fn lemma_first_fix_after_resume_warms_up(s: GpsView, now: u64, sample: LocationMetric)
    ensures
        !s.pause().resume().accepts(now, sample),
        s.pause().resume().step(now, sample).available_since == Some(now),
{
}

/// Every projected fix of an accumulator lies within reach of its reference.
pub proof fn lemma_step_within_reach(s: GpsView, now: u64, sample: LocationMetric)
    requires
        s.within_reach(),
    ensures
        s.step(now, sample).within_reach(),
{
    let r = s.step(now, sample);
    if r.track != s.track {
        let origin = s.initial_metric->0;
        let point = projected(sample, origin);
        lemma_offsets_within_reach(
            sample.latitude,
            sample.longitude,
            origin.latitude,
            origin.longitude,
        );
        assert(r.track == s.track.push(point));
        assert forall|i: int| 0 <= i < r.track.len() implies {
            &&& -MAX_OFFSET <= (#[trigger] r.track[i]).north <= MAX_OFFSET
            &&& -MAX_OFFSET <= r.track[i].east <= MAX_OFFSET
        } by {
            if i < s.track.len() {
                assert(r.track[i] == s.track[i]);
            }
        }
    }
}

} // verus!
