//! The record store: one record per finished training session, and running
//! totals over all of them.
//!
//! Times are in milliseconds, distances in millimetres, speeds in
//! millimetres per second.  The stored average speed is always the one that
//! the totals give.

use crate::fixed::{add_saturating, saturating_sum};
use crate::track::{average_speed, speed_of, GpsData, GpsView};
use vstd::prelude::*;

verus! {

/// One finished training session.
#[derive(Clone, Copy, Debug, PartialEq, Eq, Structural)]
pub struct Record {
    /// When the session was finished, in milliseconds since the epoch.
    pub timestamp: u64,
    /// Distance covered.
    pub distance: u64,
    /// Time spent.
    pub time: u64,
    /// Average speed.
    pub speed: u64,
}

/// What a record store holds.
#[verifier::ext_equal]
pub struct RecordsView {
    /// The sessions, oldest first.
    pub records: Seq<Record>,
    /// Distance covered over all sessions.
    pub total_distance: u64,
    /// Time spent over all sessions.
    pub total_time: u64,
    /// Average speed over all sessions.
    pub avg_speed: u64,
}

impl RecordsView {
    /// A store without sessions.
    pub open spec fn empty() -> RecordsView {
        RecordsView { records: Seq::empty(), total_distance: 0, total_time: 0, avg_speed: 0 }
    }

    /// The store that holds `records` and the given totals.
    pub open spec fn of(records: Seq<Record>, total_distance: u64, total_time: u64) -> RecordsView {
        RecordsView {
            records,
            total_distance,
            total_time,
            avg_speed: speed_of(total_distance, total_time),
        }
    }

    /// Whether the stored average speed is the one that the totals give.
    pub open spec fn consistent(self) -> bool {
        self.avg_speed == speed_of(self.total_distance, self.total_time)
    }

    /// The store after `record` was appended.
    pub open spec fn with(self, record: Record) -> RecordsView {
        RecordsView::of(
            self.records.push(record),
            saturating_sum(self.total_distance, record.distance),
            saturating_sum(self.total_time, record.time),
        )
    }
}

/// The record of the training that `gps` has accumulated, finished at `now`.
pub open spec fn record_of(gps: GpsView, now: u64) -> Record {
    Record {
        timestamp: now,
        distance: gps.total_distance,
        time: gps.total_time,
        speed: speed_of(gps.total_distance, gps.total_time),
    }
}

/// The record store.
pub struct Records {
    records: Vec<Record>,
    total_distance: u64,
    total_time: u64,
    avg_speed: u64,
}

impl View for Records {
    type V = RecordsView;

    closed spec fn view(&self) -> RecordsView {
        RecordsView {
            records: self.records@,
            total_distance: self.total_distance,
            total_time: self.total_time,
            avg_speed: self.avg_speed,
        }
    }
}

impl Records {
    #[verifier::type_invariant]
    spec fn inv(self) -> bool {
        self@.consistent()
    }

    /// A store without sessions.
    pub fn new() -> (store: Records)
        ensures
            store@ == RecordsView::empty(),
    {
        Records { records: Vec::new(), total_distance: 0, total_time: 0, avg_speed: 0 }
    }

    /// The store that holds `records` and the given totals; the average
    /// speed is the one that the totals give.
    pub fn from_parts(records: Vec<Record>, total_distance: u64, total_time: u64) -> (store:
        Records)
        ensures
            store@ == RecordsView::of(records@, total_distance, total_time),
    {
        Records {
            records,
            total_distance,
            total_time,
            avg_speed: average_speed(total_distance, total_time),
        }
    }

    /// Appends `record` and adds it to the totals.
    pub fn push(&mut self, record: Record)
        ensures
            final(self)@ == old(self)@.with(record),
    {
        proof {
            use_type_invariant(&*self);
        }
        let mut records: Vec<Record> = Vec::new();
        core::mem::swap(&mut self.records, &mut records);
        records.push(record);
        let total_distance = add_saturating(self.total_distance, record.distance);
        let total_time = add_saturating(self.total_time, record.time);
        *self = Records {
            records,
            total_distance,
            total_time,
            avg_speed: average_speed(total_distance, total_time),
        };
    }

    /// How many sessions are stored.
    pub fn len(&self) -> (n: usize)
        ensures
            n == self@.records.len(),
    {
        self.records.len()
    }

    /// The `i`-th session, oldest first.
    pub fn get(&self, i: usize) -> (record: Option<Record>)
        ensures
            record == (if i < self@.records.len() {
                Some(self@.records[i as int])
            } else {
                None
            }),
    {
        if i < self.records.len() {
            Some(self.records[i])
        } else {
            None
        }
    }

    /// Distance covered over all sessions.
    pub fn total_distance(&self) -> (d: u64)
        ensures
            d == self@.total_distance,
    {
        self.total_distance
    }

    /// Time spent over all sessions.
    pub fn total_time(&self) -> (t: u64)
        ensures
            t == self@.total_time,
    {
        self.total_time
    }

    /// Average speed over all sessions: what the totals give.
    pub fn avg_speed(&self) -> (s: u64)
        ensures
            s == self@.avg_speed,
            s == speed_of(self@.total_distance, self@.total_time),
    {
        proof {
            use_type_invariant(self);
        }
        self.avg_speed
    }
}

/// Stores the training that `gps_data` has accumulated as a session that
/// was finished at `now`, in milliseconds since the epoch.
pub fn push_new_record(records: &mut Records, gps_data: &GpsData, now: u64)
    ensures
        final(records)@ == old(records)@.with(record_of(gps_data@, now)),
{
    let record = Record {
        timestamp: now,
        distance: gps_data.total_distance(),
        time: gps_data.total_time(),
        speed: gps_data.avg_speed(),
    };
    records.push(record);
}

/// Appending a session keeps the store consistent, adds exactly that
/// session at the end, and never lowers a total.
pub proof fn lemma_push_keeps_store_consistent(store: RecordsView, record: Record)
    ensures
        store.with(record).consistent(),
        store.with(record).records.len() == store.records.len() + 1,
        store.with(record).records.last() == record,
        store.with(record).records.drop_last() == store.records,
        store.with(record).total_distance >= store.total_distance,
        store.with(record).total_time >= store.total_time,
{
    assert(store.records.push(record).drop_last() =~= store.records);
}

/// A consistent store is rebuilt from its sessions and its two totals
/// alone: the average speed need not be kept, it is recomputed.
pub proof fn lemma_store_rebuilt_from_parts(store: RecordsView)
    requires
        store.consistent(),
    ensures
        RecordsView::of(store.records, store.total_distance, store.total_time) == store,
{
}

/// The average speed is zero where no time has passed, and distance over
/// time, rounded down, otherwise.
pub proof fn lemma_speed_of(distance: u64, time: u64)
    ensures
        time == 0 ==> speed_of(distance, time) == 0,
        time > 0 && distance * 1000 / (time as int) <= u64::MAX ==> speed_of(distance, time)
            == distance * 1000 / (time as int),
{
}

} // verus!
