//! One poll tick as a fold over the previous Snapshot, the Driving-Gauge
//! reselection, the rate-limit back-off delay and the labels they show.

use vstd::prelude::*;
use vstd::string::*;

use crate::clock::{duration_millis, since_unix_epoch, system_now};
use crate::text::{decimal, decimal_text, same_text, title, title_case};
use crate::usage::client::FetchError;
use crate::usage::mood::{
    as_index, driving_gauge, driving_index, driving_mood, lemma_driving_index_bounds, mood_at,
    mood_band, opt_str,
};
use crate::usage::types::{opt_text, Gauge, Snapshot, SnapshotView, Status};

verus! {

/// Consecutive auth failures before the Eye goes Blind.
pub const BLIND_AFTER_FAILURES: u32 = 3;

/// The normal wait between polls, in milliseconds.
pub const POLL_INTERVAL_MS: u64 = 180_000;

/// What one poll tick read from the outside world.
pub enum Reading {
    /// No credentials could be read from the Keychain.
    NoCredentials,
    /// The credentials were read (with their subscription type) and the usage
    /// endpoint answered with `result`.
    Fetched { subscription_type: Option<String>, result: Result<Vec<Gauge>, FetchError> },
}

/// The Stale-warning phrase for a transient fetch failure.
pub open spec fn transient_text(error: FetchError) -> Seq<char> {
    match error {
        FetchError::RateLimited(_) => "rate limited"@,
        FetchError::Http(code) => "server error ("@ + decimal(code as nat) + ")"@,
        FetchError::Network(_) => "offline"@,
        FetchError::Parse(_) => "unreadable response"@,
        FetchError::Unauthorized => "session expired"@,
    }
}

/// The Stale-warning phrase for a transient fetch failure, shown in the
/// Popover.
pub fn transient_note(error: &FetchError) -> (note: String)
    ensures
        note@ == transient_text(*error),
{
    match error {
        FetchError::RateLimited(_) => String::from_str("rate limited"),
        FetchError::Http(code) => {
            let digits = decimal_text(*code);
            String::from_str("server error (").concat(digits.as_str()).concat(")")
        },
        FetchError::Network(_) => String::from_str("offline"),
        FetchError::Parse(_) => String::from_str("unreadable response"),
        FetchError::Unauthorized => String::from_str("session expired"),
    }
}

/// The Plan label for a Keychain `subscriptionType`.
pub open spec fn plan_text(raw: Seq<char>) -> Seq<char> {
    if raw == "max"@ {
        "Max"@
    } else if raw == "pro"@ {
        "Pro"@
    } else if raw == "team"@ {
        "Team"@
    } else if raw == "enterprise"@ {
        "Enterprise"@
    } else {
        title(raw)
    }
}

/// The optional Plan label for an optional subscription type.
pub open spec fn plan_of(raw: Option<Seq<char>>) -> Option<Seq<char>> {
    match raw {
        Some(r) => Some(plan_text(r)),
        None => None,
    }
}

/// Map the Keychain `subscriptionType` to the Popover's Plan label: the known
/// tiers by name, anything else title-cased.
pub fn plan_label(subscription_type: Option<&str>) -> (label: Option<String>)
    ensures
        opt_text(label) == plan_of(opt_str(subscription_type)),
{
    match subscription_type {
        None => None,
        Some(raw) => {
            let label = if same_text(raw, "max") {
                String::from_str("Max")
            } else if same_text(raw, "pro") {
                String::from_str("Pro")
            } else if same_text(raw, "team") {
                String::from_str("Team")
            } else if same_text(raw, "enterprise") {
                String::from_str("Enterprise")
            } else {
                title_case(raw)
            };
            Some(label)
        },
    }
}

/// The Snapshot after one poll tick, and the new count of consecutive auth
/// failures, from the previous Snapshot `last`, the count `fail`, the Driving
/// selection and what the tick read at time `now`.
pub open spec fn polled(
    last: SnapshotView,
    fail: int,
    selected: Option<Seq<char>>,
    reading: Reading,
    now: int,
) -> (SnapshotView, int) {
    match reading {
        Reading::NoCredentials => (
            SnapshotView {
                mood: None,
                status: Status::Blind,
                status_note: Some("no credentials"@),
                retry_at: None,
                ..last
            },
            fail + 1,
        ),
        Reading::Fetched { subscription_type, result } => match result {
            Ok(gauges) => {
                let idx = driving_index(gauges@, selected);
                (
                    SnapshotView {
                        plan: plan_of(opt_text(subscription_type)),
                        gauges: gauges@,
                        driving_idx: as_index(idx),
                        mood: driving_mood(gauges@, idx),
                        status: Status::Normal,
                        status_note: None,
                        retry_at: None,
                        fetched_at: Some(now as i64),
                    },
                    0,
                )
            },
            Err(FetchError::Unauthorized) => {
                let blind = fail + 1 >= BLIND_AFTER_FAILURES;
                (
                    SnapshotView {
                        mood: if blind {
                            None
                        } else {
                            last.mood
                        },
                        status: if blind {
                            Status::Blind
                        } else {
                            Status::Stale
                        },
                        status_note: Some("session expired"@),
                        retry_at: None,
                        ..last
                    },
                    fail + 1,
                )
            },
            Err(error) => (
                SnapshotView {
                    status: Status::Stale,
                    status_note: Some(transient_text(error)),
                    retry_at: match error {
                        FetchError::RateLimited(Some(secs)) => Some((now + secs * 1000) as i64),
                        _ => None,
                    },
                    ..last
                },
                fail,
            ),
        },
    }
}

/// Whether a reading counts toward the auth-failure count: no credentials, or
/// a 401 from the endpoint.
pub open spec fn counts_failure(reading: Reading) -> bool {
    ||| reading is NoCredentials
    ||| reading matches Reading::Fetched { result: Err(FetchError::Unauthorized), .. }
}

/// Whether the time arithmetic of a tick stays within `i64`: a rate-limit
/// retry time `now + secs * 1000` must fit.
pub open spec fn retry_fits(reading: Reading, now: int) -> bool {
    match reading {
        Reading::Fetched { result: Err(FetchError::RateLimited(Some(secs))), .. } => secs * 1000
            <= i64::MAX && now + secs * 1000 <= i64::MAX,
        _ => true,
    }
}

fn copy_gauges(gauges: &Vec<Gauge>) -> (copy: Vec<Gauge>)
    ensures
        copy@ == gauges@,
{
    let mut copy: Vec<Gauge> = Vec::new();
    let mut i: usize = 0;
    while i < gauges.len()
        invariant
            i <= gauges@.len(),
            copy@ == gauges@.take(i as int),
        decreases gauges@.len() - i,
    {
        let g = &gauges[i];
        copy.push(
            Gauge {
                name: g.name.clone(),
                kind: g.kind,
                utilization: g.utilization,
                resets_at: g.resets_at.clone(),
            },
        );
        i += 1;
        assert(copy@ =~= gauges@.take(i as int));
    }
    assert(gauges@.take(gauges@.len() as int) =~= gauges@);
    copy
}

fn copy_text(s: &Option<String>) -> (copy: Option<String>)
    ensures
        copy == *s,
{
    match s {
        Some(t) => Some(t.clone()),
        None => None,
    }
}

/// One poll tick as a fold over the previous Snapshot: a successful fetch
/// gives a Normal Snapshot of the new Gauges and resets the failure count; no
/// credentials is Blind at once; an auth failure is Stale until the third in a
/// row, then Blind; any other failure keeps the last Gauges and Mood as Stale
/// and leaves the failure count alone.
pub fn poll_once(
    last: &Snapshot,
    fail_count: &mut u32,
    selected: Option<&str>,
    reading: Reading,
    now_ms: i64,
) -> (next: Snapshot)
    requires
        counts_failure(reading) ==> *old(fail_count) < u32::MAX,
        retry_fits(reading, now_ms as int),
    ensures
        next@ == polled(last@, *old(fail_count) as int, opt_str(selected), reading, now_ms as int).0,
        *final(fail_count) as int == polled(
            last@,
            *old(fail_count) as int,
            opt_str(selected),
            reading,
            now_ms as int,
        ).1,
{
    match reading {
        Reading::NoCredentials => {
            *fail_count = *fail_count + 1;
            Snapshot {
                plan: copy_text(&last.plan),
                gauges: copy_gauges(&last.gauges),
                driving_idx: last.driving_idx,
                mood: None,
                status: Status::Blind,
                status_note: Some(String::from_str("no credentials")),
                retry_at: None,
                fetched_at: last.fetched_at,
            }
        },
        Reading::Fetched { subscription_type, result } => match result {
            Ok(gauges) => {
                *fail_count = 0;
                let driving_idx = driving_gauge(gauges.as_slice(), selected);
                let count = gauges.len();
                proof {
                    lemma_driving_index_bounds(gauges@, opt_str(selected));
                    assert(count == gauges@.len());
                    assert(match driving_idx {
                        Some(i) => Some(i as int),
                        None => None,
                    } == driving_index(gauges@, opt_str(selected)));
                }
                let mood = mood_at(gauges.as_slice(), driving_idx);
                let plan = match &subscription_type {
                    Some(raw) => plan_label(Some(raw.as_str())),
                    None => None,
                };
                Snapshot {
                    plan,
                    gauges,
                    driving_idx,
                    mood,
                    status: Status::Normal,
                    status_note: None,
                    retry_at: None,
                    fetched_at: Some(now_ms),
                }
            },
            Err(FetchError::Unauthorized) => {
                *fail_count = *fail_count + 1;
                let blind = *fail_count >= BLIND_AFTER_FAILURES;
                Snapshot {
                    plan: copy_text(&last.plan),
                    gauges: copy_gauges(&last.gauges),
                    driving_idx: last.driving_idx,
                    mood: if blind {
                        None
                    } else {
                        last.mood
                    },
                    status: if blind {
                        Status::Blind
                    } else {
                        Status::Stale
                    },
                    status_note: Some(String::from_str("session expired")),
                    retry_at: None,
                    fetched_at: last.fetched_at,
                }
            },
            Err(error) => {
                let retry_at = match &error {
                    FetchError::RateLimited(Some(secs)) => Some(now_ms + (*secs as i64) * 1000),
                    _ => None,
                };
                Snapshot {
                    plan: copy_text(&last.plan),
                    gauges: copy_gauges(&last.gauges),
                    driving_idx: last.driving_idx,
                    mood: last.mood,
                    status: Status::Stale,
                    status_note: Some(transient_note(&error)),
                    retry_at,
                    fetched_at: last.fetched_at,
                }
            },
        },
    }
}


/// The Snapshot `snapshot` becomes when the Driving selection changes to
/// `selected`: the same Gauges, the Driving Gauge and Mood recomputed from
/// them, everything else untouched.
pub open spec fn reselected(snapshot: SnapshotView, selected: Option<Seq<char>>) -> SnapshotView {
    let idx = driving_index(snapshot.gauges, selected);
    SnapshotView {
        driving_idx: as_index(idx),
        mood: driving_mood(snapshot.gauges, idx),
        ..snapshot
    }
}

/// Make `name` (or, with `None`, the default) drive the Eye: recompute the
/// Snapshot's Driving Gauge and Mood from its existing Gauges, with no fetch.
pub fn set_driver(snapshot: &mut Snapshot, name: Option<&str>)
    ensures
        final(snapshot)@ == reselected(old(snapshot)@, opt_str(name)),
{
    let driving_idx = driving_gauge(snapshot.gauges.as_slice(), name);
    let count = snapshot.gauges.len();
    proof {
        lemma_driving_index_bounds(snapshot.gauges@, opt_str(name));
        assert(count == snapshot.gauges@.len());
    }
    let mood = mood_at(snapshot.gauges.as_slice(), driving_idx);
    snapshot.driving_idx = driving_idx;
    snapshot.mood = mood;
}

/// The shortest wait after a rate limit, in milliseconds.
pub const MIN_BACKOFF_MS: u64 = 5_000;

/// The longest wait after a rate limit, in milliseconds.
pub const MAX_BACKOFF_MS: u64 = 3_600_000;

/// The margin added past a rate limit's retry time, in milliseconds.
pub const RETRY_MARGIN_MS: u64 = 2_000;

/// How long to wait before the next automatic poll: the normal interval, or,
/// after a rate limit with a retry time, until that time plus the margin,
/// kept between the shortest and longest back-off.
pub open spec fn poll_delay(retry_at: Option<i64>, now: int) -> int {
    match retry_at {
        Some(r) => {
            let remaining = if r - now > 0 {
                r - now
            } else {
                0
            };
            let wait = remaining + RETRY_MARGIN_MS;
            if wait < MIN_BACKOFF_MS {
                MIN_BACKOFF_MS as int
            } else if wait > MAX_BACKOFF_MS {
                MAX_BACKOFF_MS as int
            } else {
                wait
            }
        },
        None => POLL_INTERVAL_MS as int,
    }
}

/// How long to wait before the next automatic poll, in milliseconds. Any
/// retry time, however far off or long past, lands within the back-off
/// bounds.
pub fn next_poll_delay(retry_at: Option<i64>, now_ms: i64) -> (delay_ms: u64)
    ensures
        delay_ms == poll_delay(retry_at, now_ms as int),
        MIN_BACKOFF_MS <= delay_ms <= POLL_INTERVAL_MS || retry_at is Some,
        retry_at is Some ==> MIN_BACKOFF_MS <= delay_ms <= MAX_BACKOFF_MS,
{
    match retry_at {
        Some(r) => {
            let diff = r as i128 - now_ms as i128;
            let remaining: i128 = if diff > 0 {
                diff
            } else {
                0
            };
            let wait = remaining + RETRY_MARGIN_MS as i128;
            if wait < MIN_BACKOFF_MS as i128 {
                MIN_BACKOFF_MS
            } else if wait > MAX_BACKOFF_MS as i128 {
                MAX_BACKOFF_MS
            } else {
                wait as u64
            }
        },
        None => POLL_INTERVAL_MS,
    }
}

/// Changing the Driving selection, whatever the Snapshot's status, makes the
/// Driving Gauge the one the rule picks from the Snapshot's own Gauges and the
/// Mood that Gauge's band; nothing else in the Snapshot changes.
pub proof fn lemma_set_driver_any_status(snapshot: SnapshotView, selected: Option<Seq<char>>)
    ensures
        ({
            let next = reselected(snapshot, selected);
            let idx = driving_index(snapshot.gauges, selected);
            &&& next.driving_idx == as_index(idx)
            &&& next.mood == match idx {
                Some(i) => Some(mood_band(snapshot.gauges[i].utilization as int)),
                None => None,
            }
            &&& next.gauges == snapshot.gauges
            &&& next.status == snapshot.status
            &&& next.status_note == snapshot.status_note
            &&& next.plan == snapshot.plan
            &&& next.retry_at == snapshot.retry_at
            &&& next.fetched_at == snapshot.fetched_at
        }),
{
}

/// A retry time is set only by a rate limit that named its delay: after such
/// a tick it is `now` plus the delay, and after any other reading (success,
/// no credentials, 401, server error, network, unreadable body, or a rate
/// limit without a delay) there is none.
pub proof fn lemma_retry_time_only_from_rate_limit(
    last: SnapshotView,
    fail: int,
    selected: Option<Seq<char>>,
    reading: Reading,
    now: int,
)
    ensures
        ({
            let next = polled(last, fail, selected, reading, now).0;
            match reading {
                Reading::Fetched { result: Err(FetchError::RateLimited(Some(secs))), .. } => next.retry_at
                    == Some((now + secs * 1000) as i64),
                _ => next.retry_at is None,
            }
        }),
{
}

/// A server error, a network error, an unreadable body or a rate limit with
/// no delay leaves no retry time, so the next poll waits the normal interval.
pub proof fn lemma_transient_without_delay_polls_normally(
    last: SnapshotView,
    fail: int,
    selected: Option<Seq<char>>,
    subscription_type: Option<String>,
    error: FetchError,
    now: int,
)
    requires
        !(error is Unauthorized),
        !(error matches FetchError::RateLimited(Some(_))),
    ensures
        ({
            let next = polled(
                last,
                fail,
                selected,
                Reading::Fetched { subscription_type, result: Err(error) },
                now,
            ).0;
            &&& next.retry_at is None
            &&& next.status == Status::Stale
            &&& poll_delay(next.retry_at, now) == POLL_INTERVAL_MS
        }),
{
}

/// Whether a Snapshot's Driving index, when set, points at one of its Gauges.
pub open spec fn driving_idx_valid(snapshot: SnapshotView) -> bool {
    snapshot.driving_idx matches Some(i) ==> i < snapshot.gauges.len()
}

/// Every poll tick keeps the Driving index pointing at one of the Snapshot's
/// Gauges.
pub proof fn lemma_poll_keeps_driving_valid(
    last: SnapshotView,
    fail: int,
    selected: Option<Seq<char>>,
    reading: Reading,
    now: int,
)
    requires
        driving_idx_valid(last),
    ensures
        driving_idx_valid(polled(last, fail, selected, reading, now).0),
{
    if let Reading::Fetched { result: Ok(gauges), .. } = reading {
        lemma_driving_index_bounds(gauges@, selected);
    }
}

/// A successful fetch shows the new Gauges as Normal, with the Driving Gauge
/// the rule picks and the Mood its utilization sets, stamps the fetch time and
/// resets the auth-failure count.
pub proof fn lemma_success_is_normal(
    last: SnapshotView,
    fail: int,
    selected: Option<Seq<char>>,
    subscription_type: Option<String>,
    gauges: Vec<Gauge>,
    now: int,
)
    ensures
        ({
            let (next, count) = polled(
                last,
                fail,
                selected,
                Reading::Fetched { subscription_type, result: Ok(gauges) },
                now,
            );
            let idx = driving_index(gauges@, selected);
            &&& next.status == Status::Normal
            &&& next.gauges == gauges@
            &&& next.driving_idx == as_index(idx)
            &&& next.mood == driving_mood(gauges@, idx)
            &&& next.status_note is None
            &&& next.retry_at is None
            &&& next.fetched_at == Some(now as i64)
            &&& count == 0
        }),
{
}

/// No credentials turns the Eye Blind at once, keeping the last Gauges on show.
pub proof fn lemma_no_credentials_is_blind(
    last: SnapshotView,
    fail: int,
    selected: Option<Seq<char>>,
    now: int,
)
    ensures
        ({
            let (next, count) = polled(last, fail, selected, Reading::NoCredentials, now);
            &&& next.status == Status::Blind
            &&& next.mood is None
            &&& next.gauges == last.gauges
            &&& next.status_note == Some("no credentials"@)
            &&& count == fail + 1
        }),
{
}

/// A transient failure (rate limit, server error, network, unreadable body)
/// never blinds the Eye: the last Gauges, Driving Gauge, Mood, Plan and fetch
/// time stay on show as Stale, and the auth-failure count is untouched.
pub proof fn lemma_transient_failure_is_stale(
    last: SnapshotView,
    fail: int,
    selected: Option<Seq<char>>,
    subscription_type: Option<String>,
    error: FetchError,
    now: int,
)
    requires
        !(error is Unauthorized),
    ensures
        ({
            let (next, count) = polled(
                last,
                fail,
                selected,
                Reading::Fetched { subscription_type, result: Err(error) },
                now,
            );
            &&& next.status == Status::Stale
            &&& next.gauges == last.gauges
            &&& next.driving_idx == last.driving_idx
            &&& next.mood == last.mood
            &&& next.plan == last.plan
            &&& next.fetched_at == last.fetched_at
            &&& next.status_note == Some(transient_text(error))
            &&& count == fail
        }),
{
}

/// An auth failure keeps the last reading as Stale with its Mood until the
/// count of consecutive auth failures reaches the threshold, and is Blind from
/// then on.
pub proof fn lemma_auth_failure_threshold(
    last: SnapshotView,
    fail: int,
    selected: Option<Seq<char>>,
    subscription_type: Option<String>,
    now: int,
)
    ensures
        ({
            let (next, count) = polled(
                last,
                fail,
                selected,
                Reading::Fetched { subscription_type, result: Err(FetchError::Unauthorized) },
                now,
            );
            &&& count == fail + 1
            &&& next.gauges == last.gauges
            &&& next.status_note == Some("session expired"@)
            &&& if count >= BLIND_AFTER_FAILURES {
                next.status == Status::Blind && next.mood is None
            } else {
                next.status == Status::Stale && next.mood == last.mood
            }
        }),
{
}

/// From a fresh count, two auth failures in a row keep the Eye Stale with its
/// last Mood; the third in a row turns it Blind.
pub proof fn lemma_blind_on_third_auth_failure(
    last: SnapshotView,
    selected: Option<Seq<char>>,
    subscription_type: Option<String>,
    now1: int,
    now2: int,
    now3: int,
)
    ensures
        ({
            let failed = Reading::Fetched {
                subscription_type,
                result: Err(FetchError::Unauthorized),
            };
            let (s1, f1) = polled(last, 0, selected, failed, now1);
            let (s2, f2) = polled(s1, f1, selected, failed, now2);
            let (s3, f3) = polled(s2, f2, selected, failed, now3);
            &&& s1.status == Status::Stale && s1.mood == last.mood
            &&& s2.status == Status::Stale && s2.mood == last.mood
            &&& s3.status == Status::Blind && s3.mood is None
            &&& f3 == 3
        }),
{
}

/// A success between auth failures starts the count over: an auth failure
/// right after a successful fetch is Stale, whatever came before.
pub proof fn lemma_success_resets_auth_count(
    last: SnapshotView,
    fail: int,
    selected: Option<Seq<char>>,
    subscription_type: Option<String>,
    gauges: Vec<Gauge>,
    now1: int,
    now2: int,
)
    ensures
        ({
            let ok = Reading::Fetched { subscription_type, result: Ok(gauges) };
            let failed = Reading::Fetched {
                subscription_type,
                result: Err(FetchError::Unauthorized),
            };
            let (s1, f1) = polled(last, fail, selected, ok, now1);
            let (s2, f2) = polled(s1, f1, selected, failed, now2);
            &&& s2.status == Status::Stale
            &&& s2.mood == s1.mood
            &&& s2.gauges == gauges@
            &&& f2 == 1
        }),
{
}

/// Changing the Driving selection recomputes exactly what a successful fetch
/// with that selection would have shown, and choosing the same selection again
/// changes nothing.
pub proof fn lemma_set_driver_matches_refresh(
    last: SnapshotView,
    fail: int,
    first: Option<Seq<char>>,
    second: Option<Seq<char>>,
    subscription_type: Option<String>,
    gauges: Vec<Gauge>,
    now: int,
)
    ensures
        ({
            let ok = Reading::Fetched { subscription_type, result: Ok(gauges) };
            reselected(polled(last, fail, first, ok, now).0, second) == polled(
                last,
                fail,
                second,
                ok,
                now,
            ).0
        }),
        reselected(reselected(last, second), second) == reselected(last, second),
{
}

/// Every tick's Snapshot has a consistent shape: a Blind Eye has no Mood, a
/// Normal reading is exactly one without a status note, and only a Stale
/// reading carries a retry time.
pub proof fn lemma_poll_snapshot_shape(
    last: SnapshotView,
    fail: int,
    selected: Option<Seq<char>>,
    reading: Reading,
    now: int,
)
    ensures
        ({
            let next = polled(last, fail, selected, reading, now).0;
            &&& next.status == Status::Blind ==> next.mood is None
            &&& next.status == Status::Normal <==> next.status_note is None
            &&& next.retry_at is Some ==> next.status == Status::Stale
        }),
{
}

/// Whether a Snapshot's Mood, when it has one, is the band of its Driving
/// Gauge.
pub open spec fn mood_follows_driver(snapshot: SnapshotView) -> bool {
    snapshot.mood matches Some(m) ==> (snapshot.driving_idx matches Some(i) && i
        < snapshot.gauges.len() && m == mood_band(
        snapshot.gauges[i as int].utilization as int,
    ))
}

/// The Eye's Mood is always the band of the Driving Gauge it shows: every
/// poll tick and every change of selection keeps it so.
pub proof fn lemma_mood_follows_driver(
    last: SnapshotView,
    fail: int,
    selected: Option<Seq<char>>,
    reading: Reading,
    now: int,
)
    requires
        mood_follows_driver(last),
        last.gauges.len() <= usize::MAX,
        reading matches Reading::Fetched { result: Ok(gauges), .. } ==> gauges@.len()
            <= usize::MAX,
    ensures
        mood_follows_driver(polled(last, fail, selected, reading, now).0),
        mood_follows_driver(reselected(last, selected)),
{
    lemma_driving_index_bounds(last.gauges, selected);
    if let Reading::Fetched { result: Ok(gauges), .. } = reading {
        lemma_driving_index_bounds(gauges@, selected);
    }
}

/// After a rate limit that named a retry time, the next automatic poll waits
/// until that time plus the margin, kept between the shortest and longest
/// back-off.
pub proof fn lemma_rate_limit_backoff(
    last: SnapshotView,
    fail: int,
    selected: Option<Seq<char>>,
    subscription_type: Option<String>,
    secs: u64,
    now: i64,
)
    requires
        secs * 1000 <= i64::MAX,
        now + secs * 1000 <= i64::MAX,
    ensures
        ({
            let next = polled(
                last,
                fail,
                selected,
                Reading::Fetched {
                    subscription_type,
                    result: Err(FetchError::RateLimited(Some(secs))),
                },
                now as int,
            ).0;
            let wait = secs * 1000 + RETRY_MARGIN_MS;
            &&& next.retry_at == Some((now + secs * 1000) as i64)
            &&& poll_delay(next.retry_at, now as int) == if wait < MIN_BACKOFF_MS {
                MIN_BACKOFF_MS as int
            } else if wait > MAX_BACKOFF_MS {
                MAX_BACKOFF_MS as int
            } else {
                wait
            }
        }),
{
}

/// The epoch milliseconds a clock reading gives, as an `i64` (the whole
/// milliseconds cast, wrapping as `as` does), or 0 without a reading.
pub open spec fn millis_of(ms: Option<u128>) -> i64 {
    match ms {
        Some(m) => m as i64,
        None => 0,
    }
}

/// The epoch milliseconds for a clock reading: the whole milliseconds as an
/// `i64`, or 0 when the clock read before the epoch.
pub fn epoch_millis(ms: Option<u128>) -> (millis: i64)
    ensures
        millis == millis_of(ms),
{
    match ms {
        Some(m) => m as i64,
        None => 0,
    }
}

/// Current time as epoch milliseconds, for `fetched_at` and `retry_at`; zero
/// when the clock reads before the epoch. The reading itself is the machine's.
pub fn now_millis() -> i64 {
    let reading = match since_unix_epoch(&system_now()) {
        Ok(elapsed) => Some(duration_millis(&elapsed)),
        Err(_) => None,
    };
    epoch_millis(reading)
}

} // verus!
