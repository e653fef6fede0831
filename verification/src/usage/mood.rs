//! Mood bands and Driving-Gauge selection.

use vstd::prelude::*;

use crate::text::same_text;
use crate::usage::types::{Gauge, GaugeKind, Mood, PERCENT};

verus! {

/// The Mood band a utilization (in units of [`PERCENT`]) falls in:
/// `<50%` Calm, `<80%` Nervous, `<95%` Paranoid, `<100%` Frantic, else Shattered.
pub open spec fn mood_band(pct: int) -> Mood {
    if pct < 50 * PERCENT {
        Mood::Calm
    } else if pct < 80 * PERCENT {
        Mood::Nervous
    } else if pct < 95 * PERCENT {
        Mood::Paranoid
    } else if pct < 100 * PERCENT {
        Mood::Frantic
    } else {
        Mood::Shattered
    }
}

/// Where a Mood stands in the escalation order, calm first.
pub open spec fn mood_rank(mood: Mood) -> int {
    match mood {
        Mood::Calm => 0,
        Mood::Nervous => 1,
        Mood::Paranoid => 2,
        Mood::Frantic => 3,
        Mood::Shattered => 4,
    }
}

/// Map a Driving Gauge utilization to its discrete Mood band.
pub fn mood_for(pct: i64) -> (mood: Mood)
    ensures
        mood == mood_band(pct as int),
{
    if pct < 50 * PERCENT {
        Mood::Calm
    } else if pct < 80 * PERCENT {
        Mood::Nervous
    } else if pct < 95 * PERCENT {
        Mood::Paranoid
    } else if pct < 100 * PERCENT {
        Mood::Frantic
    } else {
        Mood::Shattered
    }
}

/// Agitation only ever rises with utilization: a higher reading never gives a
/// calmer Mood.
pub proof fn lemma_mood_monotone(low: int, high: int)
    requires
        low <= high,
    ensures
        mood_rank(mood_band(low)) <= mood_rank(mood_band(high)),
{
}


/// The index of the first of the first `n` gauges named `name`.
pub open spec fn first_named(gauges: Seq<Gauge>, name: Seq<char>, n: int) -> Option<int>
    decreases n,
{
    if n <= 0 {
        None
    } else {
        match first_named(gauges, name, n - 1) {
            Some(i) => Some(i),
            None => if gauges[n - 1].name@ == name {
                Some(n - 1)
            } else {
                None
            },
        }
    }
}

/// The index of the first of the first `n` gauges of kind `kind`.
pub open spec fn first_of_kind(gauges: Seq<Gauge>, kind: GaugeKind, n: int) -> Option<int>
    decreases n,
{
    if n <= 0 {
        None
    } else {
        match first_of_kind(gauges, kind, n - 1) {
            Some(i) => Some(i),
            None => if gauges[n - 1].kind == kind {
                Some(n - 1)
            } else {
                None
            },
        }
    }
}

/// The index of the most-used of the first `n` gauges; among equally used
/// gauges the last one wins.
pub open spec fn last_max(gauges: Seq<Gauge>, n: int) -> Option<int>
    decreases n,
{
    if n <= 0 {
        None
    } else {
        match last_max(gauges, n - 1) {
            None => Some(n - 1),
            Some(k) => if gauges[n - 1].utilization >= gauges[k].utilization {
                Some(n - 1)
            } else {
                Some(k)
            },
        }
    }
}

/// The Driving Gauge rule: a selected name that is present wins; otherwise the
/// first Session Gauge; otherwise the most-used Gauge; `None` when empty.
pub open spec fn driving_index(gauges: Seq<Gauge>, selected: Option<Seq<char>>) -> Option<int> {
    let len = gauges.len() as int;
    let chosen = match selected {
        Some(name) => first_named(gauges, name, len),
        None => None,
    };
    match chosen {
        Some(i) => Some(i),
        None => match first_of_kind(gauges, GaugeKind::Session, len) {
            Some(i) => Some(i),
            None => last_max(gauges, len),
        },
    }
}

/// The characters of an optional string slice.
pub open spec fn opt_str(s: Option<&str>) -> Option<Seq<char>> {
    match s {
        Some(t) => Some(t@),
        None => None,
    }
}

/// The spec result of an index search, as the `usize` the code returns.
pub open spec fn as_index(r: Option<int>) -> Option<usize> {
    match r {
        Some(i) => Some(i as usize),
        None => None,
    }
}

proof fn lemma_first_named_stable(gauges: Seq<Gauge>, name: Seq<char>, m: int, n: int)
    requires
        m <= n,
        first_named(gauges, name, m) is Some,
    ensures
        first_named(gauges, name, n) == first_named(gauges, name, m),
    decreases n - m,
{
    if m < n {
        lemma_first_named_stable(gauges, name, m, n - 1);
    }
}

proof fn lemma_first_of_kind_stable(gauges: Seq<Gauge>, kind: GaugeKind, m: int, n: int)
    requires
        m <= n,
        first_of_kind(gauges, kind, m) is Some,
    ensures
        first_of_kind(gauges, kind, n) == first_of_kind(gauges, kind, m),
    decreases n - m,
{
    if m < n {
        lemma_first_of_kind_stable(gauges, kind, m, n - 1);
    }
}

proof fn lemma_last_max_bounds(gauges: Seq<Gauge>, n: int)
    ensures
        match last_max(gauges, n) {
            Some(k) => 0 <= k < n,
            None => n <= 0,
        },
    decreases n,
{
    if n > 0 {
        lemma_last_max_bounds(gauges, n - 1);
    }
}

proof fn lemma_first_named_bounds(gauges: Seq<Gauge>, name: Seq<char>, n: int)
    ensures
        first_named(gauges, name, n) matches Some(i) ==> 0 <= i < n,
    decreases n,
{
    if n > 0 {
        lemma_first_named_bounds(gauges, name, n - 1);
    }
}

proof fn lemma_first_of_kind_bounds(gauges: Seq<Gauge>, kind: GaugeKind, n: int)
    ensures
        first_of_kind(gauges, kind, n) matches Some(i) ==> 0 <= i < n,
    decreases n,
{
    if n > 0 {
        lemma_first_of_kind_bounds(gauges, kind, n - 1);
    }
}

/// A Driving Gauge, when there is one, is one of the gauges; there is one
/// whenever there are gauges.
pub proof fn lemma_driving_index_bounds(gauges: Seq<Gauge>, selected: Option<Seq<char>>)
    ensures
        match driving_index(gauges, selected) {
            Some(i) => 0 <= i < gauges.len(),
            None => gauges.len() == 0,
        },
{
    let len = gauges.len() as int;
    if let Some(name) = selected {
        lemma_first_named_bounds(gauges, name, len);
    }
    lemma_first_of_kind_bounds(gauges, GaugeKind::Session, len);
    lemma_last_max_bounds(gauges, len);
}

/// The Mood the Driving Gauge sets, or none without a Driving Gauge.
pub open spec fn driving_mood(gauges: Seq<Gauge>, idx: Option<int>) -> Option<Mood> {
    match idx {
        Some(i) => Some(mood_band(gauges[i].utilization as int)),
        None => None,
    }
}

/// The Mood of the Gauge at `idx`, if any.
pub fn mood_at(gauges: &[Gauge], idx: Option<usize>) -> (mood: Option<Mood>)
    requires
        idx matches Some(i) ==> i < gauges@.len(),
    ensures
        mood == driving_mood(gauges@, match idx { Some(i) => Some(i as int), None => None }),
{
    match idx {
        Some(i) => Some(mood_for(gauges[i].utilization)),
        None => None,
    }
}

proof fn lemma_first_named_meaning(gauges: Seq<Gauge>, name: Seq<char>, n: int)
    requires
        0 <= n <= gauges.len(),
    ensures
        match first_named(gauges, name, n) {
            Some(i) => 0 <= i < n && gauges[i].name@ == name && forall|j: int|
                0 <= j < i ==> (#[trigger] gauges[j]).name@ != name,
            None => forall|j: int| 0 <= j < n ==> (#[trigger] gauges[j]).name@ != name,
        },
    decreases n,
{
    if n > 0 {
        lemma_first_named_meaning(gauges, name, n - 1);
    }
}

proof fn lemma_first_of_kind_meaning(gauges: Seq<Gauge>, kind: GaugeKind, n: int)
    requires
        0 <= n <= gauges.len(),
    ensures
        match first_of_kind(gauges, kind, n) {
            Some(i) => 0 <= i < n && gauges[i].kind == kind && forall|j: int|
                0 <= j < i ==> (#[trigger] gauges[j]).kind != kind,
            None => forall|j: int| 0 <= j < n ==> (#[trigger] gauges[j]).kind != kind,
        },
    decreases n,
{
    if n > 0 {
        lemma_first_of_kind_meaning(gauges, kind, n - 1);
    }
}

proof fn lemma_last_max_meaning(gauges: Seq<Gauge>, n: int)
    requires
        0 < n <= gauges.len(),
    ensures
        last_max(gauges, n) matches Some(i) && 0 <= i < n && (forall|j: int|
            0 <= j < n ==> (#[trigger] gauges[j]).utilization <= gauges[i].utilization) && (
        forall|j: int| i < j < n ==> (#[trigger] gauges[j]).utilization < gauges[i].utilization),
    decreases n,
{
    assert(last_max(gauges, 0) is None);
    if n > 1 {
        lemma_last_max_meaning(gauges, n - 1);
    }
}

/// Whether some Gauge carries the selected name.
pub open spec fn selection_present(gauges: Seq<Gauge>, selected: Option<Seq<char>>) -> bool {
    match selected {
        Some(name) => exists|k: int| 0 <= k < gauges.len() && (#[trigger] gauges[k]).name@ == name,
        None => false,
    }
}

/// Whether some Gauge is a Session Gauge.
pub open spec fn session_present(gauges: Seq<Gauge>) -> bool {
    exists|k: int| 0 <= k < gauges.len() && (#[trigger] gauges[k]).kind == GaugeKind::Session
}

/// Whether `i` is the first Gauge named `name`.
pub open spec fn first_with_name(gauges: Seq<Gauge>, name: Seq<char>, i: int) -> bool {
    &&& 0 <= i < gauges.len()
    &&& gauges[i].name@ == name
    &&& forall|j: int| 0 <= j < i ==> (#[trigger] gauges[j]).name@ != name
}

/// Whether `i` is the first Session Gauge.
pub open spec fn first_session(gauges: Seq<Gauge>, i: int) -> bool {
    &&& 0 <= i < gauges.len()
    &&& gauges[i].kind == GaugeKind::Session
    &&& forall|j: int| 0 <= j < i ==> (#[trigger] gauges[j]).kind != GaugeKind::Session
}

/// Whether `i` is the most used Gauge, the last among equals.
pub open spec fn last_most_used(gauges: Seq<Gauge>, i: int) -> bool {
    &&& 0 <= i < gauges.len()
    &&& forall|j: int|
        0 <= j < gauges.len() ==> (#[trigger] gauges[j]).utilization <= gauges[i].utilization
    &&& forall|j: int| i < j < gauges.len() ==> (#[trigger] gauges[j]).utilization < gauges[i].utilization
}

/// The Driving-Gauge rule. A selected name that some Gauge carries picks the
/// first Gauge with that name, even when it is not the most used. Without a
/// present selection the first Session Gauge drives. With neither, the most
/// used Gauge drives, the last of equals. There is no Driving Gauge exactly
/// when there are no Gauges.
pub proof fn lemma_driving_gauge_rule(gauges: Seq<Gauge>, selected: Option<Seq<char>>)
    ensures
        selection_present(gauges, selected) ==> (driving_index(gauges, selected) matches Some(i)
            && first_with_name(gauges, selected->0, i)),
        !selection_present(gauges, selected) && session_present(gauges) ==> (driving_index(
            gauges,
            selected,
        ) matches Some(i) && first_session(gauges, i)),
        !selection_present(gauges, selected) && !session_present(gauges) && gauges.len() > 0
            ==> (driving_index(gauges, selected) matches Some(i) && last_most_used(gauges, i)),
        driving_index(gauges, selected) is None <==> gauges.len() == 0,
{
    let len = gauges.len() as int;
    if let Some(name) = selected {
        lemma_first_named_meaning(gauges, name, len);
    }
    lemma_first_of_kind_meaning(gauges, GaugeKind::Session, len);
    if len > 0 {
        lemma_last_max_meaning(gauges, len);
    }
    lemma_driving_index_bounds(gauges, selected);
}

fn find_named(gauges: &[Gauge], name: &str) -> (found: Option<usize>)
    ensures
        found == as_index(first_named(gauges@, name@, gauges@.len() as int)),
{
    let mut i: usize = 0;
    while i < gauges.len()
        invariant
            i <= gauges@.len(),
            first_named(gauges@, name@, i as int) is None,
        decreases gauges@.len() - i,
    {
        if same_text(gauges[i].name.as_str(), name) {
            proof {
                lemma_first_named_stable(gauges@, name@, i + 1, gauges@.len() as int);
            }
            return Some(i);
        }
        i += 1;
    }
    None
}

fn find_kind(gauges: &[Gauge], kind: GaugeKind) -> (found: Option<usize>)
    ensures
        found == as_index(first_of_kind(gauges@, kind, gauges@.len() as int)),
{
    let mut i: usize = 0;
    while i < gauges.len()
        invariant
            i <= gauges@.len(),
            first_of_kind(gauges@, kind, i as int) is None,
        decreases gauges@.len() - i,
    {
        if gauges[i].kind == kind {
            proof {
                lemma_first_of_kind_stable(gauges@, kind, i + 1, gauges@.len() as int);
            }
            return Some(i);
        }
        i += 1;
    }
    None
}

fn find_max(gauges: &[Gauge]) -> (found: Option<usize>)
    ensures
        found == as_index(last_max(gauges@, gauges@.len() as int)),
{
    let mut best: Option<usize> = None;
    let mut i: usize = 0;
    while i < gauges.len()
        invariant
            i <= gauges@.len(),
            best == as_index(last_max(gauges@, i as int)),
            best matches Some(k) ==> k < i,
        decreases gauges@.len() - i,
    {
        proof {
            lemma_last_max_bounds(gauges@, i as int);
        }
        best = match best {
            None => Some(i),
            Some(k) => if gauges[i].utilization >= gauges[k].utilization {
                Some(i)
            } else {
                Some(k)
            },
        };
        i += 1;
    }
    best
}

/// Pick the index of the Gauge that drives the Eye: a selected name that is
/// present wins, else the Session Gauge, else the most-used Gauge (the last of
/// equals); `None` for no gauges.
pub fn driving_gauge(gauges: &[Gauge], selected: Option<&str>) -> (idx: Option<usize>)
    ensures
        idx == as_index(driving_index(gauges@, opt_str(selected))),
{
    if let Some(name) = selected {
        if let Some(idx) = find_named(gauges, name) {
            return Some(idx);
        }
    }
    if let Some(idx) = find_kind(gauges, GaugeKind::Session) {
        return Some(idx);
    }
    find_max(gauges)
}

} // verus!
