//! The types the whole app agrees on: a Gauge is one usage-limit reading, a
//! Snapshot is everything the Popover draws for one frame.

use vstd::prelude::*;

verus! {

/// One percentage point, in the fixed-point unit every utilization is held in:
/// a utilization of `26 * PERCENT` is 26% used.
pub const PERCENT: i64 = 1_000_000;

/// How agitated the Eye is, a pure function of the Driving Gauge's utilization.
#[derive(Clone, Copy, Debug, PartialEq, Eq, Structural)]
pub enum Mood {
    Calm,
    Nervous,
    Paranoid,
    Frantic,
    Shattered,
}

/// Which usage limit a Gauge measures.
#[derive(Clone, Copy, Debug, PartialEq, Eq, Structural)]
pub enum GaugeKind {
    Session,
    WeeklyAll,
    WeeklyScoped,
}

/// One usage-limit reading: its label, which limit it measures, how much of it
/// is used (in units of [`PERCENT`]), and the raw ISO-8601 instant its window
/// resets at.
#[derive(Clone, Debug, PartialEq)]
pub struct Gauge {
    pub name: String,
    pub kind: GaugeKind,
    pub utilization: i64,
    pub resets_at: String,
}

/// The mathematical content of a Gauge: its strings as character sequences.
pub struct GaugeView {
    pub name: Seq<char>,
    pub kind: GaugeKind,
    pub utilization: i64,
    pub resets_at: Seq<char>,
}

impl View for Gauge {
    type V = GaugeView;

    open spec fn view(&self) -> GaugeView {
        GaugeView {
            name: self.name@,
            kind: self.kind,
            utilization: self.utilization,
            resets_at: self.resets_at@,
        }
    }
}

/// Health of the reading behind a Snapshot.
#[derive(Clone, Copy, Debug, PartialEq, Eq, Structural)]
pub enum Status {
    Normal,
    Stale,
    Blind,
    Asleep,
}

/// Everything the Popover needs to draw one frame. Holds no secret.
#[derive(Clone, Debug)]
pub struct Snapshot {
    /// Plan label (e.g. "Max"), or `None` when unknown.
    pub plan: Option<String>,
    pub gauges: Vec<Gauge>,
    /// Index into `gauges` of the Driving Gauge, or `None`.
    pub driving_idx: Option<usize>,
    pub mood: Option<Mood>,
    pub status: Status,
    /// Human reason for a non-Normal status, `None` when Normal.
    pub status_note: Option<String>,
    /// Epoch millis when a rate-limited retry is allowed.
    pub retry_at: Option<i64>,
    /// Epoch millis of the last successful fetch.
    pub fetched_at: Option<i64>,
}

/// The mathematical content of a Snapshot: its strings as character sequences.
#[verifier::ext_equal]
pub struct SnapshotView {
    pub plan: Option<Seq<char>>,
    pub gauges: Seq<Gauge>,
    pub driving_idx: Option<usize>,
    pub mood: Option<Mood>,
    pub status: Status,
    pub status_note: Option<Seq<char>>,
    pub retry_at: Option<i64>,
    pub fetched_at: Option<i64>,
}

/// The characters of an optional string.
pub open spec fn opt_text(s: Option<String>) -> Option<Seq<char>> {
    match s {
        Some(t) => Some(t@),
        None => None,
    }
}

impl View for Snapshot {
    type V = SnapshotView;

    open spec fn view(&self) -> SnapshotView {
        SnapshotView {
            plan: opt_text(self.plan),
            gauges: self.gauges@,
            driving_idx: self.driving_idx,
            mood: self.mood,
            status: self.status,
            status_note: opt_text(self.status_note),
            retry_at: self.retry_at,
            fetched_at: self.fetched_at,
        }
    }
}

impl Snapshot {
    /// The startup state: the Eye is asleep until the first successful fetch.
    pub fn asleep() -> (snapshot: Snapshot)
        ensures
            snapshot@ == (SnapshotView {
                plan: None,
                gauges: Seq::empty(),
                driving_idx: None,
                mood: None,
                status: Status::Asleep,
                status_note: None,
                retry_at: None,
                fetched_at: None,
            }),
    {
        Snapshot {
            plan: None,
            gauges: Vec::new(),
            driving_idx: None,
            mood: None,
            status: Status::Asleep,
            status_note: None,
            retry_at: None,
            fetched_at: None,
        }
    }
}

} // verus!
