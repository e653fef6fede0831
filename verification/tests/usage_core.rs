use mad_eye::usage::client::{
    error_for_status, gauge_from_limit, parse_retry_after, usage_gauges, FetchError, LimitEntry,
    Scope, ScopeModel, UsageResponse, Window,
};
use mad_eye::usage::mood::{driving_gauge, mood_for};
use mad_eye::usage::types::{Gauge, GaugeKind, Mood, PERCENT};

/// A percentage as the library's fixed-point utilization.
fn pct(p: f64) -> i64 {
    (p * PERCENT as f64) as i64
}

fn gauge(kind: GaugeKind, utilization: f64) -> Gauge {
    Gauge {
        name: "placeholder".to_string(),
        kind,
        utilization: pct(utilization),
        resets_at: "2026-07-28T00:00:00.000000Z".to_string(),
    }
}

fn named(name: &str, kind: GaugeKind, utilization: f64) -> Gauge {
    Gauge {
        name: name.to_string(),
        kind,
        utilization: pct(utilization),
        resets_at: "2026-07-28T00:00:00.000000Z".to_string(),
    }
}

#[test]
fn calm_below_fifty() {
    assert_eq!(mood_for(pct(0.0)), Mood::Calm);
    assert_eq!(mood_for(pct(49.0)), Mood::Calm);
    assert_eq!(mood_for(pct(49.9)), Mood::Calm);
}

#[test]
fn nervous_from_fifty_to_eighty() {
    assert_eq!(mood_for(pct(50.0)), Mood::Nervous);
    assert_eq!(mood_for(pct(79.0)), Mood::Nervous);
}

#[test]
fn paranoid_from_eighty_to_ninetyfive() {
    assert_eq!(mood_for(pct(80.0)), Mood::Paranoid);
    assert_eq!(mood_for(pct(94.0)), Mood::Paranoid);
}

#[test]
fn frantic_from_ninetyfive_to_hundred() {
    assert_eq!(mood_for(pct(95.0)), Mood::Frantic);
    assert_eq!(mood_for(pct(99.0)), Mood::Frantic);
    assert_eq!(mood_for(pct(99.9)), Mood::Frantic);
}

#[test]
fn shattered_at_hundred_and_clamped_above() {
    assert_eq!(mood_for(pct(100.0)), Mood::Shattered);
    assert_eq!(mood_for(pct(150.0)), Mood::Shattered);
}

#[test]
fn mood_band_edges_in_fixed_point() {
    assert_eq!(mood_for(50 * PERCENT - 1), Mood::Calm);
    assert_eq!(mood_for(80 * PERCENT - 1), Mood::Nervous);
    assert_eq!(mood_for(95 * PERCENT - 1), Mood::Paranoid);
    assert_eq!(mood_for(100 * PERCENT - 1), Mood::Frantic);
    assert_eq!(mood_for(i64::MIN), Mood::Calm);
    assert_eq!(mood_for(i64::MAX), Mood::Shattered);
}

#[test]
fn mood_never_calms_as_usage_rises() {
    let rank = |m: Mood| match m {
        Mood::Calm => 0,
        Mood::Nervous => 1,
        Mood::Paranoid => 2,
        Mood::Frantic => 3,
        Mood::Shattered => 4,
    };
    let mut previous = rank(mood_for(pct(0.0)));
    for p in 0..=120 {
        let now = rank(mood_for(pct(p as f64)));
        assert!(now >= previous);
        previous = now;
    }
}

#[test]
fn selected_name_present_wins_even_when_not_the_max() {
    let gauges = vec![
        named("Session", GaugeKind::Session, 90.0),
        named("Weekly · all models", GaugeKind::WeeklyAll, 40.0),
        named("Weekly · Fable", GaugeKind::WeeklyScoped, 9.0),
    ];
    assert_eq!(driving_gauge(&gauges, Some("Weekly · Fable")), Some(2));
}

#[test]
fn no_selection_defaults_to_the_session_gauge() {
    let gauges = vec![
        gauge(GaugeKind::WeeklyScoped, 30.0),
        gauge(GaugeKind::Session, 20.0),
        gauge(GaugeKind::WeeklyAll, 88.0),
    ];
    assert_eq!(driving_gauge(&gauges, None), Some(1));
}

#[test]
fn no_selection_and_no_session_falls_back_to_max() {
    let gauges = vec![
        gauge(GaugeKind::WeeklyScoped, 40.0),
        gauge(GaugeKind::WeeklyAll, 88.0),
    ];
    assert_eq!(driving_gauge(&gauges, None), Some(1));
}

#[test]
fn selected_name_absent_falls_back_to_session() {
    let gauges = vec![
        gauge(GaugeKind::Session, 12.0),
        gauge(GaugeKind::WeeklyAll, 95.0),
    ];
    assert_eq!(driving_gauge(&gauges, Some("Weekly · Sonnet")), Some(0));
}

#[test]
fn none_when_empty() {
    let gauges: Vec<Gauge> = Vec::new();
    assert_eq!(driving_gauge(&gauges, None), None);
    assert_eq!(driving_gauge(&gauges, Some("Session")), None);
}

#[test]
fn max_fallback_prefers_the_last_of_equals() {
    let gauges = vec![
        gauge(GaugeKind::WeeklyScoped, 40.0),
        gauge(GaugeKind::WeeklyAll, 40.0),
        gauge(GaugeKind::WeeklyScoped, 12.0),
    ];
    assert_eq!(driving_gauge(&gauges, None), Some(1));
}

#[test]
fn first_of_two_same_named_gauges_drives() {
    let gauges = vec![
        named("Weekly · Fable", GaugeKind::WeeklyScoped, 10.0),
        named("Session", GaugeKind::Session, 50.0),
        named("Weekly · Fable", GaugeKind::WeeklyScoped, 70.0),
    ];
    assert_eq!(driving_gauge(&gauges, Some("Weekly · Fable")), Some(0));
}

fn limit(kind: &str, percent: f64, resets_at: &str, model: Option<&str>) -> LimitEntry {
    LimitEntry {
        kind: kind.to_string(),
        percent: pct(percent),
        resets_at: resets_at.to_string(),
        scope: model.map(|name| Scope {
            model: Some(ScopeModel { display_name: Some(name.to_string()) }),
        }),
    }
}

fn response(limits: Vec<LimitEntry>) -> UsageResponse {
    UsageResponse {
        limits,
        five_hour: None,
        seven_day: None,
        seven_day_opus: None,
        seven_day_sonnet: None,
    }
}

#[test]
fn maps_the_three_real_limits_to_named_gauges() {
    let gauges = usage_gauges(&response(vec![
        limit("session", 26.0, "2026-07-22T09:29:59.572828+00:00", None),
        limit("weekly_all", 13.0, "2026-07-28T21:59:59.572851+00:00", None),
        limit("weekly_scoped", 9.0, "2026-07-28T21:59:59.573090+00:00", Some("Fable")),
    ]));
    let expected = vec![
        Gauge {
            name: "Session".to_string(),
            kind: GaugeKind::Session,
            utilization: 26 * PERCENT,
            resets_at: "2026-07-22T09:29:59.572828+00:00".to_string(),
        },
        Gauge {
            name: "Weekly · all models".to_string(),
            kind: GaugeKind::WeeklyAll,
            utilization: 13 * PERCENT,
            resets_at: "2026-07-28T21:59:59.572851+00:00".to_string(),
        },
        Gauge {
            name: "Weekly · Fable".to_string(),
            kind: GaugeKind::WeeklyScoped,
            utilization: 9 * PERCENT,
            resets_at: "2026-07-28T21:59:59.573090+00:00".to_string(),
        },
    ];
    assert_eq!(gauges, expected);
}

#[test]
fn preserves_order_and_skips_unknown_kinds() {
    let gauges = usage_gauges(&response(vec![
        limit("weekly_scoped", 9.0, "2026-07-28T21:59:59Z", Some("Fable")),
        limit("future_kind", 50.0, "2026-07-28T21:59:59Z", None),
        limit("session", 26.0, "2026-07-22T09:29:59Z", None),
    ]));
    let kinds: Vec<GaugeKind> = gauges.iter().map(|g| g.kind).collect();
    assert_eq!(kinds, vec![GaugeKind::WeeklyScoped, GaugeKind::Session]);
}

#[test]
fn scoped_name_uses_model_display_name_else_falls_back() {
    let gauges = usage_gauges(&response(vec![
        limit("weekly_scoped", 9.0, "2026-07-28T21:59:59Z", Some("Fable")),
        limit("weekly_scoped", 5.0, "2026-07-28T21:59:59Z", None),
    ]));
    let names: Vec<&str> = gauges.iter().map(|g| g.name.as_str()).collect();
    assert_eq!(names, vec!["Weekly · Fable", "Weekly · model"]);
    assert!(gauges.iter().all(|g| g.kind == GaugeKind::WeeklyScoped));
}

#[test]
fn scoped_name_without_display_name_is_model() {
    let no_name = LimitEntry {
        kind: "weekly_scoped".to_string(),
        percent: pct(4.0),
        resets_at: "2026-07-28T21:59:59Z".to_string(),
        scope: Some(Scope { model: Some(ScopeModel { display_name: None }) }),
    };
    let no_model = LimitEntry {
        kind: "weekly_scoped".to_string(),
        percent: pct(4.0),
        resets_at: "2026-07-28T21:59:59Z".to_string(),
        scope: Some(Scope { model: None }),
    };
    let gauges = usage_gauges(&response(vec![no_name, no_model]));
    let names: Vec<&str> = gauges.iter().map(|g| g.name.as_str()).collect();
    assert_eq!(names, vec!["Weekly · model", "Weekly · model"]);
}

#[test]
fn percent_is_used_verbatim_no_scale_guard() {
    let utils: Vec<i64> = usage_gauges(&response(vec![limit("session", 9.0, "2026-07-22T09:29:59Z", None)]))
        .iter()
        .map(|g| g.utilization)
        .collect();
    assert_eq!(utils, vec![pct(9.0)]);
}

#[test]
fn fractional_limit_percent_is_not_scaled() {
    let gauges = usage_gauges(&response(vec![limit("session", 0.5, "x", None)]));
    assert_eq!(gauges[0].utilization, PERCENT / 2);
    assert!(gauge_from_limit(&limit("nope", 1.0, "x", None)).is_none());
}

#[test]
fn empty_limits_with_no_legacy_windows_is_empty() {
    assert_eq!(usage_gauges(&response(Vec::new())), Vec::new());
}

#[test]
fn absent_limits_falls_back_to_legacy_windows() {
    let legacy = UsageResponse {
        limits: Vec::new(),
        five_hour: Some(Window { utilization: pct(0.5), resets_at: "2026-07-22T09:29:59Z".to_string() }),
        seven_day: Some(Window { utilization: pct(13.0), resets_at: "2026-07-28T21:59:59Z".to_string() }),
        seven_day_opus: Some(Window { utilization: pct(9.0), resets_at: "2026-07-28T21:59:59Z".to_string() }),
        seven_day_sonnet: None,
    };
    let gauges = usage_gauges(&legacy);
    let summary: Vec<(&str, &GaugeKind, i64)> = gauges
        .iter()
        .map(|g| (g.name.as_str(), &g.kind, g.utilization))
        .collect();
    assert_eq!(
        summary,
        vec![
            ("Session", &GaugeKind::Session, pct(50.0)),
            ("Weekly · all models", &GaugeKind::WeeklyAll, pct(13.0)),
            ("Weekly · Fable", &GaugeKind::WeeklyScoped, pct(9.0)),
        ]
    );
}

#[test]
fn legacy_windows_ignored_when_limits_present() {
    let mixed = UsageResponse {
        limits: vec![limit("weekly_all", 3.0, "z", None)],
        five_hour: Some(Window { utilization: pct(0.5), resets_at: "a".to_string() }),
        seven_day: None,
        seven_day_opus: None,
        seven_day_sonnet: Some(Window { utilization: pct(1.0), resets_at: "s".to_string() }),
    };
    let gauges = usage_gauges(&mixed);
    assert_eq!(gauges.len(), 1);
    assert_eq!(gauges[0].name, "Weekly · all models");
}

#[test]
fn legacy_sonnet_window_and_scale_guard_edges() {
    let legacy = UsageResponse {
        limits: Vec::new(),
        five_hour: None,
        seven_day: None,
        seven_day_opus: None,
        seven_day_sonnet: Some(Window { utilization: pct(1.0), resets_at: "s".to_string() }),
    };
    let gauges = usage_gauges(&legacy);
    assert_eq!(gauges.len(), 1);
    assert_eq!(gauges[0].name, "Weekly · Sonnet");
    assert_eq!(gauges[0].kind, GaugeKind::WeeklyScoped);
    assert_eq!(gauges[0].utilization, 100 * PERCENT);
    let just_over = UsageResponse {
        limits: Vec::new(),
        five_hour: Some(Window { utilization: PERCENT + 1, resets_at: "t".to_string() }),
        seven_day: None,
        seven_day_opus: None,
        seven_day_sonnet: None,
    };
    assert_eq!(usage_gauges(&just_over)[0].utilization, PERCENT + 1);
}

#[test]
fn statuses_classify_before_the_body() {
    assert!(matches!(error_for_status(401, None), Some(FetchError::Unauthorized)));
    assert!(matches!(error_for_status(429, Some(" 120 ")), Some(FetchError::RateLimited(Some(120)))));
    assert!(matches!(
        error_for_status(429, Some("Wed, 21 Oct 2015 07:28:00 GMT")),
        Some(FetchError::RateLimited(None))
    ));
    assert!(matches!(error_for_status(429, None), Some(FetchError::RateLimited(None))));
    assert!(matches!(error_for_status(503, Some("5")), Some(FetchError::Http(503))));
    assert!(matches!(error_for_status(302, None), Some(FetchError::Http(302))));
    assert!(matches!(error_for_status(199, None), Some(FetchError::Http(199))));
    assert!(error_for_status(200, None).is_none());
    assert!(error_for_status(299, None).is_none());
}

#[test]
fn retry_after_reads_delta_seconds_only() {
    assert_eq!(parse_retry_after("30"), Some(30));
    assert_eq!(parse_retry_after("\t+7\u{3000}"), Some(7));
    assert_eq!(parse_retry_after("007"), Some(7));
    assert_eq!(parse_retry_after("18446744073709551615"), Some(u64::MAX));
    assert_eq!(parse_retry_after("18446744073709551616"), None);
    assert_eq!(parse_retry_after(""), None);
    assert_eq!(parse_retry_after("   "), None);
    assert_eq!(parse_retry_after("+"), None);
    assert_eq!(parse_retry_after("-1"), None);
    assert_eq!(parse_retry_after("1.5"), None);
    assert_eq!(parse_retry_after("1 2"), None);
}
