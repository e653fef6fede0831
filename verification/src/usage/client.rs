//! The usage endpoint's data: the response shape, how its limits become
//! Gauges (with the legacy per-window fallback), and how an HTTP status is
//! classified before the body is read.

use vstd::prelude::*;
use vstd::string::*;

use crate::text::{chars_of, parse_u64, same_text, trim_chars, trimmed, u64_of_text};
use crate::usage::mood::opt_str;
use crate::usage::types::{Gauge, GaugeKind, GaugeView, PERCENT};

verus! {

/// Why a usage fetch failed.
#[derive(Debug)]
pub enum FetchError {
    /// 401: the stored token is expired or invalid; it is never refreshed.
    Unauthorized,
    /// 429: rate limited, with the `Retry-After` delta-seconds when the server
    /// sent a readable one.
    RateLimited(Option<u64>),
    /// Any other non-2xx status.
    Http(u16),
    /// Transport or IO error reaching the endpoint.
    Network(String),
    /// The body was not the JSON shape expected.
    Parse(String),
}

/// The relevant slice of the endpoint response. `limits` is the current
/// shape; the four windows are the older shape, read only when `limits` is
/// empty.
pub struct UsageResponse {
    pub limits: Vec<LimitEntry>,
    pub five_hour: Option<Window>,
    pub seven_day: Option<Window>,
    pub seven_day_opus: Option<Window>,
    pub seven_day_sonnet: Option<Window>,
}

/// One entry of `limits[]`. `percent` is already a percentage, in units of
/// [`PERCENT`].
pub struct LimitEntry {
    pub kind: String,
    pub percent: i64,
    pub resets_at: String,
    pub scope: Option<Scope>,
}

/// The `scope` of a `weekly_scoped` limit.
pub struct Scope {
    pub model: Option<ScopeModel>,
}

/// The model a scoped limit applies to.
pub struct ScopeModel {
    pub display_name: Option<String>,
}

/// A window of the older response shape. `utilization` is the raw number in
/// units of [`PERCENT`]: a value of at most one whole unit (`PERCENT`) is a
/// 0..1 fraction and is scaled by 100.
pub struct Window {
    pub utilization: i64,
    pub resets_at: String,
}

/// The model label of a scoped limit: `scope.model.display_name`, else "model".
pub open spec fn scoped_model(limit: LimitEntry) -> Seq<char> {
    match limit.scope {
        Some(scope) => match scope.model {
            Some(model) => match model.display_name {
                Some(name) => name@,
                None => "model"@,
            },
            None => "model"@,
        },
        None => "model"@,
    }
}

/// The Gauge a `limits[]` entry maps to, or `None` for an unknown kind.
pub open spec fn limit_gauge(limit: LimitEntry) -> Option<GaugeView> {
    let label_kind = if limit.kind@ == "session"@ {
        Some(("Session"@, GaugeKind::Session))
    } else if limit.kind@ == "weekly_all"@ {
        Some(("Weekly · all models"@, GaugeKind::WeeklyAll))
    } else if limit.kind@ == "weekly_scoped"@ {
        Some(("Weekly · "@ + scoped_model(limit), GaugeKind::WeeklyScoped))
    } else {
        None
    };
    match label_kind {
        Some((name, kind)) => Some(
            GaugeView { name, kind, utilization: limit.percent, resets_at: limit.resets_at@ },
        ),
        None => None,
    }
}

/// The Gauges of a `limits[]` array: each known entry in order, unknown kinds
/// skipped.
pub open spec fn limits_gauges(limits: Seq<LimitEntry>) -> Seq<GaugeView>
    decreases limits.len(),
{
    if limits.len() == 0 {
        Seq::empty()
    } else {
        let rest = limits_gauges(limits.drop_last());
        match limit_gauge(limits.last()) {
            Some(g) => rest.push(g),
            None => rest,
        }
    }
}

/// Mapping `limits[]` preserves order piecewise: the Gauges of two runs of
/// entries are the Gauges of the first run followed by those of the second.
pub proof fn lemma_limits_gauges_concat(first: Seq<LimitEntry>, second: Seq<LimitEntry>)
    ensures
        limits_gauges(first + second) == limits_gauges(first) + limits_gauges(second),
    decreases second.len(),
{
    if second.len() == 0 {
        assert(first + second =~= first);
        assert(limits_gauges(first) + limits_gauges(second) =~= limits_gauges(first));
    } else {
        lemma_limits_gauges_concat(first, second.drop_last());
        assert((first + second).drop_last() =~= first + second.drop_last());
        assert((first + second).last() == second.last());
        match limit_gauge(second.last()) {
            Some(g) => {
                assert(limits_gauges(first) + limits_gauges(second) =~= (limits_gauges(first)
                    + limits_gauges(second.drop_last())).push(g));
            },
            None => {},
        }
    }
}

/// An entry of an unknown kind adds no Gauge, and one of a known kind adds
/// exactly its own: no entry ever fails the whole mapping.
pub proof fn lemma_limit_entry_contribution(limits: Seq<LimitEntry>, entry: LimitEntry)
    ensures
        limit_gauge(entry) is None ==> limits_gauges(limits.push(entry)) == limits_gauges(limits),
        limit_gauge(entry) matches Some(g) ==> limits_gauges(limits.push(entry)) == limits_gauges(
            limits,
        ).push(g),
{
    assert(limits.push(entry).drop_last() =~= limits);
}

/// A legacy window's utilization as a percentage: a 0..1 fraction (at most
/// one whole unit) is scaled by 100, saturating at the bottom of the range.
pub open spec fn window_percent(raw: i64) -> i64 {
    if raw <= PERCENT {
        if raw * 100 < i64::MIN {
            i64::MIN
        } else {
            (raw * 100) as i64
        }
    } else {
        raw
    }
}

/// The Gauge a legacy window maps to.
pub open spec fn window_gauge(name: Seq<char>, kind: GaugeKind, window: Window) -> GaugeView {
    GaugeView {
        name,
        kind,
        utilization: window_percent(window.utilization),
        resets_at: window.resets_at@,
    }
}

/// A present window's Gauge appended to `gauges`.
pub open spec fn push_window(
    gauges: Seq<GaugeView>,
    name: Seq<char>,
    kind: GaugeKind,
    window: Option<Window>,
) -> Seq<GaugeView> {
    match window {
        Some(w) => gauges.push(window_gauge(name, kind, w)),
        None => gauges,
    }
}

/// The Gauges of the older response shape, in the fixed order Session,
/// Weekly · all models, Weekly · Fable, Weekly · Sonnet, absent windows skipped.
pub open spec fn legacy_gauges(response: UsageResponse) -> Seq<GaugeView> {
    let g0 = push_window(Seq::empty(), "Session"@, GaugeKind::Session, response.five_hour);
    let g1 = push_window(g0, "Weekly · all models"@, GaugeKind::WeeklyAll, response.seven_day);
    let g2 = push_window(g1, "Weekly · Fable"@, GaugeKind::WeeklyScoped, response.seven_day_opus);
    push_window(g2, "Weekly · Sonnet"@, GaugeKind::WeeklyScoped, response.seven_day_sonnet)
}

/// The Gauges of a response: its limits when there are any, else the legacy
/// windows.
pub open spec fn response_gauges(response: UsageResponse) -> Seq<GaugeView> {
    if response.limits@.len() == 0 {
        legacy_gauges(response)
    } else {
        limits_gauges(response.limits@)
    }
}

/// The views of a list of Gauges.
pub open spec fn gauge_views(gauges: Seq<Gauge>) -> Seq<GaugeView> {
    gauges.map_values(|g: Gauge| g@)
}

/// The model label of a scoped limit.
fn scoped_model_name(limit: &LimitEntry) -> (name: String)
    ensures
        name@ == scoped_model(*limit),
{
    if let Some(scope) = &limit.scope {
        if let Some(model) = &scope.model {
            if let Some(display_name) = &model.display_name {
                return display_name.clone();
            }
        }
    }
    String::from_str("model")
}

/// Map one `limits[]` entry to a Gauge, or `None` for an unrecognized kind.
/// `percent` is used verbatim.
pub fn gauge_from_limit(limit: &LimitEntry) -> (gauge: Option<Gauge>)
    ensures
        match gauge {
            Some(g) => limit_gauge(*limit) == Some(g@),
            None => limit_gauge(*limit) is None,
        },
{
    let kind = limit.kind.as_str();
    let named = if same_text(kind, "session") {
        Some((String::from_str("Session"), GaugeKind::Session))
    } else if same_text(kind, "weekly_all") {
        Some((String::from_str("Weekly · all models"), GaugeKind::WeeklyAll))
    } else if same_text(kind, "weekly_scoped") {
        let model = scoped_model_name(limit);
        Some((String::from_str("Weekly · ").concat(model.as_str()), GaugeKind::WeeklyScoped))
    } else {
        None
    };
    match named {
        Some((name, kind)) => Some(
            Gauge {
                name,
                kind,
                utilization: limit.percent,
                resets_at: limit.resets_at.clone(),
            },
        ),
        None => None,
    }
}

/// A legacy window's utilization as a percentage (the ×100 scale guard).
pub fn legacy_percent(raw: i64) -> (pct: i64)
    ensures
        pct == window_percent(raw),
{
    if raw <= PERCENT {
        if raw < i64::MIN / 100 {
            i64::MIN
        } else {
            raw * 100
        }
    } else {
        raw
    }
}

/// The scale guard: a legacy reading of at most one whole unit is a 0..1
/// fraction and becomes a hundred times larger (26% from 0.26); a larger
/// reading is already a percentage and is kept. A negative fraction scales
/// too, down to the bottom of the range.
pub proof fn lemma_scale_guard(raw: i64)
    ensures
        0 <= raw <= PERCENT ==> window_percent(raw) == raw * 100,
        raw > PERCENT ==> window_percent(raw) == raw,
        raw < 0 && raw * 100 >= i64::MIN ==> window_percent(raw) == raw * 100,
        raw * 100 < i64::MIN ==> window_percent(raw) == i64::MIN,
{
}

/// The legacy five-hour window, when present, is the first Gauge: the Session
/// Gauge, its utilization scaled by the guard (a hundred times the fraction
/// for a reading of at most one whole unit).
pub proof fn lemma_legacy_session_first(response: UsageResponse)
    requires
        response.limits@.len() == 0,
        response.five_hour is Some,
    ensures
        ({
            let w = response.five_hour->0;
            let g = response_gauges(response)[0];
            &&& response_gauges(response).len() >= 1
            &&& g.name == "Session"@
            &&& g.kind == GaugeKind::Session
            &&& g.resets_at == w.resets_at@
            &&& (0 <= w.utilization <= PERCENT ==> g.utilization == w.utilization * 100)
            &&& (w.utilization > PERCENT ==> g.utilization == w.utilization)
        }),
{
    let g0 = push_window(Seq::empty(), "Session"@, GaugeKind::Session, response.five_hour);
    let g1 = push_window(g0, "Weekly · all models"@, GaugeKind::WeeklyAll, response.seven_day);
    let g2 = push_window(g1, "Weekly · Fable"@, GaugeKind::WeeklyScoped, response.seven_day_opus);
    let g3 = push_window(g2, "Weekly · Sonnet"@, GaugeKind::WeeklyScoped, response.seven_day_sonnet);
    assert(g0.len() == 1);
    assert(g1[0] == g0[0]);
    assert(g2[0] == g0[0]);
    assert(g3[0] == g0[0]);
}

/// Build a Gauge from a legacy window, applying the ×100 scale guard.
pub fn gauge_from_window(name: &str, kind: GaugeKind, window: &Window) -> (gauge: Gauge)
    ensures
        gauge@ == window_gauge(name@, kind, *window),
{
    Gauge {
        name: String::from_str(name),
        kind,
        utilization: legacy_percent(window.utilization),
        resets_at: window.resets_at.clone(),
    }
}

fn push_window_gauge(
    gauges: &mut Vec<Gauge>,
    name: &str,
    kind: GaugeKind,
    window: &Option<Window>,
)
    ensures
        gauge_views(final(gauges)@) == push_window(gauge_views(old(gauges)@), name@, kind, *window),
{
    if let Some(w) = window {
        let g = gauge_from_window(name, kind, w);
        gauges.push(g);
        assert(gauge_views(gauges@) =~= gauge_views(old(gauges)@).push(g@));
    }
}

/// The legacy path: the older top-level windows as Gauges in their fixed
/// order, absent windows skipped.
pub fn gauges_from_legacy(response: &UsageResponse) -> (gauges: Vec<Gauge>)
    ensures
        gauge_views(gauges@) == legacy_gauges(*response),
{
    let mut gauges: Vec<Gauge> = Vec::new();
    assert(gauge_views(gauges@) =~= Seq::empty());
    push_window_gauge(&mut gauges, "Session", GaugeKind::Session, &response.five_hour);
    push_window_gauge(&mut gauges, "Weekly · all models", GaugeKind::WeeklyAll, &response.seven_day);
    push_window_gauge(&mut gauges, "Weekly · Fable", GaugeKind::WeeklyScoped, &response.seven_day_opus);
    push_window_gauge(&mut gauges, "Weekly · Sonnet", GaugeKind::WeeklyScoped, &response.seven_day_sonnet);
    gauges
}

/// The Gauges of an endpoint response: every known `limits[]` entry in order
/// (unknown kinds skipped), or, when `limits` is empty, the legacy windows.
/// An empty response gives no Gauges, never an error.
pub fn usage_gauges(response: &UsageResponse) -> (gauges: Vec<Gauge>)
    ensures
        gauge_views(gauges@) == response_gauges(*response),
{
    if response.limits.len() == 0 {
        return gauges_from_legacy(response);
    }
    let limits = &response.limits;
    let mut gauges: Vec<Gauge> = Vec::new();
    let mut i: usize = 0;
    while i < limits.len()
        invariant
            i <= limits@.len(),
            gauge_views(gauges@) == limits_gauges(limits@.take(i as int)),
        decreases limits@.len() - i,
    {
        assert(limits@.take(i + 1).drop_last() =~= limits@.take(i as int));
        let ghost before = gauges@;
        if let Some(g) = gauge_from_limit(&limits[i]) {
            gauges.push(g);
            assert(gauge_views(gauges@) =~= gauge_views(before).push(g@));
        }
        i += 1;
    }
    assert(limits@.take(limits@.len() as int) =~= limits@);
    gauges
}


/// The delta-seconds a `Retry-After` header value carries: the number its
/// trimmed text spells, if any.
pub open spec fn retry_seconds(raw: Option<Seq<char>>) -> Option<u64> {
    match raw {
        Some(text) => u64_of_text(trimmed(text)),
        None => None,
    }
}

/// The error an HTTP status means before the body is read: 401 is
/// Unauthorized, 429 is RateLimited with the `Retry-After` seconds, any other
/// status outside 200..300 is Http; a 2xx status is no error.
pub open spec fn status_error(status: u16, retry_after: Option<Seq<char>>) -> Option<FetchError> {
    if status == 401 {
        Some(FetchError::Unauthorized)
    } else if status == 429 {
        Some(FetchError::RateLimited(retry_seconds(retry_after)))
    } else if !(200 <= status < 300) {
        Some(FetchError::Http(status))
    } else {
        None
    }
}

/// Status classification: only a 401 is Unauthorized and only a 429 is a rate
/// limit; every other status outside 200..300 (a 403 among them) is an Http
/// error carrying that status; a 2xx status is no error.
pub proof fn lemma_status_classes(status: u16, retry_after: Option<Seq<char>>)
    ensures
        (status_error(status, retry_after) == Some(FetchError::Unauthorized)) <==> status == 401,
        (status_error(status, retry_after) matches Some(FetchError::RateLimited(_)))
            <==> status == 429,
        status != 401 && status != 429 && !(200 <= status < 300) ==> status_error(
            status,
            retry_after,
        ) == Some(FetchError::Http(status)),
        status_error(status, retry_after) matches Some(FetchError::Http(code)) ==> code == status,
        (status_error(status, retry_after) is None) <==> 200 <= status < 300,
{
}

/// Read a `Retry-After` value as delta-seconds: trimmed, then an unsigned
/// decimal; a date form or anything unreadable gives `None`.
pub fn parse_retry_after(raw: &str) -> (secs: Option<u64>)
    ensures
        secs == u64_of_text(trimmed(raw@)),
{
    let chars = chars_of(raw);
    let inner = trim_chars(&chars);
    parse_u64(&inner)
}

/// Classify a response status, reading the `Retry-After` value of a 429.
pub fn error_for_status(status: u16, retry_after: Option<&str>) -> (error: Option<FetchError>)
    ensures
        error == status_error(status, opt_str(retry_after)),
{
    if status == 401 {
        Some(FetchError::Unauthorized)
    } else if status == 429 {
        let retry = match retry_after {
            Some(raw) => parse_retry_after(raw),
            None => None,
        };
        Some(FetchError::RateLimited(retry))
    } else if !(200 <= status && status < 300) {
        Some(FetchError::Http(status))
    } else {
        None
    }
}

} // verus!
