use mad_eye::keychain::read::{map_keychain_error, KeychainError, ERR_SEC_ITEM_NOT_FOUND};
use mad_eye::poll::{
    epoch_millis, next_poll_delay, now_millis, plan_label, poll_once, set_driver, transient_note, Reading,
};
use mad_eye::usage::client::FetchError;
use mad_eye::usage::mood::mood_for;
use mad_eye::usage::types::{Gauge, GaugeKind, Mood, Snapshot, Status, PERCENT};

fn gauge(name: &str, kind: GaugeKind, pct: i64) -> Gauge {
    Gauge {
        name: name.to_string(),
        kind,
        utilization: pct * PERCENT,
        resets_at: "2026-07-28T21:59:59Z".to_string(),
    }
}

fn reading() -> Vec<Gauge> {
    vec![
        gauge("Session", GaugeKind::Session, 26),
        gauge("Weekly · all models", GaugeKind::WeeklyAll, 85),
        gauge("Weekly · Fable", GaugeKind::WeeklyScoped, 97),
    ]
}

fn fetched(result: Result<Vec<Gauge>, FetchError>) -> Reading {
    Reading::Fetched { subscription_type: Some("max".to_string()), result }
}

fn normal_snapshot() -> Snapshot {
    let mut fails = 0;
    poll_once(&Snapshot::asleep(), &mut fails, None, fetched(Ok(reading())), 1_000)
}

#[test]
fn asleep_snapshot_is_empty() {
    let s = Snapshot::asleep();
    assert_eq!(s.status, Status::Asleep);
    assert!(s.gauges.is_empty());
    assert!(s.mood.is_none() && s.driving_idx.is_none() && s.plan.is_none());
    assert!(s.status_note.is_none() && s.retry_at.is_none() && s.fetched_at.is_none());
}

#[test]
fn success_is_normal_and_resets_the_count() {
    let mut fails = 2;
    let s = poll_once(&Snapshot::asleep(), &mut fails, None, fetched(Ok(reading())), 1_234);
    assert_eq!(fails, 0);
    assert_eq!(s.status, Status::Normal);
    assert_eq!(s.driving_idx, Some(0));
    assert_eq!(s.mood, Some(Mood::Calm));
    assert_eq!(s.plan.as_deref(), Some("Max"));
    assert_eq!(s.gauges, reading());
    assert_eq!(s.fetched_at, Some(1_234));
    assert!(s.status_note.is_none() && s.retry_at.is_none());
}

#[test]
fn success_follows_the_selection() {
    let mut fails = 0;
    let s = poll_once(
        &Snapshot::asleep(),
        &mut fails,
        Some("Weekly · Fable"),
        fetched(Ok(reading())),
        5,
    );
    assert_eq!(s.driving_idx, Some(2));
    assert_eq!(s.mood, Some(Mood::Frantic));
}

#[test]
fn success_with_no_gauges_has_no_mood() {
    let mut fails = 0;
    let s = poll_once(&Snapshot::asleep(), &mut fails, None, fetched(Ok(Vec::new())), 5);
    assert_eq!(s.status, Status::Normal);
    assert!(s.driving_idx.is_none() && s.mood.is_none());
}

#[test]
fn no_credentials_is_blind_at_once() {
    let last = normal_snapshot();
    let mut fails = 0;
    let s = poll_once(&last, &mut fails, None, Reading::NoCredentials, 9_999);
    assert_eq!(fails, 1);
    assert_eq!(s.status, Status::Blind);
    assert!(s.mood.is_none());
    assert_eq!(s.status_note.as_deref(), Some("no credentials"));
    assert_eq!(s.gauges, last.gauges);
    assert_eq!(s.fetched_at, last.fetched_at);
}

#[test]
fn third_auth_failure_in_a_row_goes_blind() {
    let mut s = normal_snapshot();
    let mut fails = 0;
    for round in 1..=3u32 {
        s = poll_once(&s, &mut fails, None, fetched(Err(FetchError::Unauthorized)), 2_000);
        assert_eq!(fails, round);
        assert_eq!(s.status_note.as_deref(), Some("session expired"));
        if round < 3 {
            assert_eq!(s.status, Status::Stale);
            assert_eq!(s.mood, Some(Mood::Calm));
        } else {
            assert_eq!(s.status, Status::Blind);
            assert!(s.mood.is_none());
        }
    }
    assert_eq!(s.gauges, reading());
    assert_eq!(s.fetched_at, Some(1_000));
}

#[test]
fn success_between_auth_failures_starts_over() {
    let mut fails = 2;
    let s = poll_once(&Snapshot::asleep(), &mut fails, None, fetched(Ok(reading())), 1);
    let s = poll_once(&s, &mut fails, None, fetched(Err(FetchError::Unauthorized)), 2);
    assert_eq!(fails, 1);
    assert_eq!(s.status, Status::Stale);
}

#[test]
fn rate_limit_is_stale_with_a_retry_time() {
    let last = normal_snapshot();
    let mut fails = 1;
    let s = poll_once(&last, &mut fails, None, fetched(Err(FetchError::RateLimited(Some(30)))), 50_000);
    assert_eq!(fails, 1);
    assert_eq!(s.status, Status::Stale);
    assert_eq!(s.retry_at, Some(80_000));
    assert_eq!(s.mood, last.mood);
    assert_eq!(s.driving_idx, last.driving_idx);
    assert_eq!(s.status_note.as_deref(), Some("rate limited"));
    let s = poll_once(&last, &mut fails, None, fetched(Err(FetchError::RateLimited(None))), 50_000);
    assert!(s.retry_at.is_none());
}

#[test]
fn transient_failures_never_blind() {
    let last = normal_snapshot();
    let mut fails = 2;
    for error in [
        FetchError::Http(503),
        FetchError::Network("reset".to_string()),
        FetchError::Parse("eof".to_string()),
        FetchError::RateLimited(None),
    ] {
        let s = poll_once(&last, &mut fails, None, fetched(Err(error)), 7);
        assert_eq!(s.status, Status::Stale);
        assert_eq!(s.mood, Some(Mood::Calm));
        assert_eq!(fails, 2);
    }
}

#[test]
fn transient_notes_name_the_reason() {
    assert_eq!(transient_note(&FetchError::RateLimited(Some(3))), "rate limited");
    assert_eq!(transient_note(&FetchError::Http(502)), "server error (502)");
    assert_eq!(transient_note(&FetchError::Http(7)), "server error (7)");
    assert_eq!(transient_note(&FetchError::Http(65535)), "server error (65535)");
    assert_eq!(transient_note(&FetchError::Network("x".to_string())), "offline");
    assert_eq!(transient_note(&FetchError::Parse("x".to_string())), "unreadable response");
    assert_eq!(transient_note(&FetchError::Unauthorized), "session expired");
}

#[test]
fn plan_labels() {
    assert_eq!(plan_label(Some("max")).as_deref(), Some("Max"));
    assert_eq!(plan_label(Some("pro")).as_deref(), Some("Pro"));
    assert_eq!(plan_label(Some("team")).as_deref(), Some("Team"));
    assert_eq!(plan_label(Some("enterprise")).as_deref(), Some("Enterprise"));
    assert_eq!(plan_label(Some("free")).as_deref(), Some("Free"));
    assert_eq!(plan_label(Some("straße")).as_deref(), Some("Straße"));
    assert_eq!(plan_label(Some("ßig")).as_deref(), Some("SSig"));
    assert_eq!(plan_label(Some("")).as_deref(), Some(""));
    assert_eq!(plan_label(None), None);
}

#[test]
fn set_driver_recomputes_without_fetching() {
    let mut s = normal_snapshot();
    let before = s.clone();
    set_driver(&mut s, Some("Weekly · all models"));
    assert_eq!(s.driving_idx, Some(1));
    assert_eq!(s.mood, Some(Mood::Paranoid));
    assert_eq!(s.gauges, before.gauges);
    assert_eq!(s.fetched_at, before.fetched_at);
    assert_eq!(s.status, before.status);
    set_driver(&mut s, Some("Weekly · all models"));
    assert_eq!(s.driving_idx, Some(1));
    set_driver(&mut s, None);
    assert_eq!(s.driving_idx, Some(0));
    assert_eq!(s.mood, Some(Mood::Calm));
    set_driver(&mut s, Some("gone"));
    assert_eq!(s.driving_idx, Some(0));
}

#[test]
fn poll_delay_backs_off_within_bounds() {
    assert_eq!(next_poll_delay(None, 0), 180_000);
    assert_eq!(next_poll_delay(Some(10_000), 0), 12_000);
    assert_eq!(next_poll_delay(Some(0), 10_000), 5_000);
    assert_eq!(next_poll_delay(Some(1_000), 0), 5_000);
    assert_eq!(next_poll_delay(Some(i64::MAX), 0), 3_600_000);
    assert_eq!(next_poll_delay(Some(3_598_000), 0), 3_600_000);
}

#[test]
fn clock_reads_after_the_epoch() {
    assert!(now_millis() > 1_600_000_000_000);
}

#[test]
fn keychain_status_codes() {
    assert!(matches!(map_keychain_error(ERR_SEC_ITEM_NOT_FOUND), KeychainError::NotFound));
    assert!(matches!(map_keychain_error(-128), KeychainError::Denied));
    assert!(matches!(map_keychain_error(-25293), KeychainError::Denied));
}

#[test]
fn rate_limit_backs_off_until_the_retry_time() {
    let last = normal_snapshot();
    let mut fails = 0;
    let now = 1_700_000_000_000;
    let s = poll_once(&last, &mut fails, None, fetched(Err(FetchError::RateLimited(Some(90)))), now);
    assert_eq!(next_poll_delay(s.retry_at, now), 92_000);
    let s = poll_once(&last, &mut fails, None, fetched(Err(FetchError::RateLimited(Some(1)))), now);
    assert_eq!(next_poll_delay(s.retry_at, now), 5_000);
    let s = poll_once(&last, &mut fails, None, fetched(Err(FetchError::RateLimited(Some(7200)))), now);
    assert_eq!(next_poll_delay(s.retry_at, now), 3_600_000);
}

#[test]
fn mood_always_follows_the_driving_gauge() {
    let check = |s: &Snapshot| {
        if let Some(m) = s.mood {
            let i = s.driving_idx.expect("a Mood comes with a Driving Gauge");
            assert_eq!(m, mood_for(s.gauges[i].utilization));
        }
    };
    let mut fails = 0;
    let mut s = Snapshot::asleep();
    check(&s);
    s = poll_once(&s, &mut fails, Some("Weekly · Fable"), fetched(Ok(reading())), 1);
    check(&s);
    set_driver(&mut s, Some("Weekly · all models"));
    check(&s);
    s = poll_once(&s, &mut fails, None, fetched(Err(FetchError::Unauthorized)), 2);
    check(&s);
    s = poll_once(&s, &mut fails, None, fetched(Err(FetchError::Http(500))), 3);
    check(&s);
    s = poll_once(&s, &mut fails, None, Reading::NoCredentials, 4);
    check(&s);
    set_driver(&mut s, None);
    check(&s);
}

#[test]
fn full_count_is_fine_when_nothing_increments_it() {
    let last = normal_snapshot();
    let mut fails = u32::MAX;
    let s = poll_once(&last, &mut fails, None, fetched(Err(FetchError::Http(500))), 3);
    assert_eq!(fails, u32::MAX);
    assert_eq!(s.status, Status::Stale);
    let s = poll_once(&last, &mut fails, None, fetched(Ok(reading())), 4);
    assert_eq!(fails, 0);
    assert_eq!(s.status, Status::Normal);
}

#[test]
fn any_retry_time_is_clamped() {
    assert_eq!(next_poll_delay(Some(i64::MAX), i64::MIN), 3_600_000);
    assert_eq!(next_poll_delay(Some(i64::MIN), i64::MAX), 5_000);
    assert_eq!(next_poll_delay(Some(-5), i64::MAX), 5_000);
}

#[test]
fn epoch_millis_from_a_reading() {
    assert_eq!(epoch_millis(Some(1_700_000_000_123)), 1_700_000_000_123);
    assert_eq!(epoch_millis(None), 0);
    assert_eq!(epoch_millis(Some(1u128 << 64)), 0);
}

#[test]
fn ascii_plan_is_capitalized() {
    assert_eq!(plan_label(Some("ultra")).as_deref(), Some("Ultra"));
    assert_eq!(plan_label(Some("Ultra")).as_deref(), Some("Ultra"));
    assert_eq!(plan_label(Some("1x")).as_deref(), Some("1x"));
}
