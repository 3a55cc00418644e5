use chrono::TimeZone;
use departure_board::departure::{Departure, RawDeparture, RenderVariant, TimeStyle};
use departure_board::pipeline::{normalize_departures, FetchError};
use departure_board::refresh::{
    RefreshAction, RefreshEvent, RefreshPhase, ResultStore, REFRESH_INTERVAL_MS,
};
use departure_board::time::{LocalTime, MAX_TIMESTAMP_MS};

const MINUTE_MS: u64 = 60_000;
// 2024-03-01 10:00:00 UTC
const TEN_O_CLOCK_MS: u64 = 1_709_287_200_000;

fn raw(planned: u64, real: u64, realtime: bool, delay: u16, cancelled: bool, label: &str) -> RawDeparture {
    RawDeparture {
        planned_departure_time_ms: planned,
        is_real_time: realtime,
        delay_minutes: delay,
        real_departure_time_ms: real,
        vehicle_label: label.to_string(),
        destination: format!("to {}", label),
        cancelled,
    }
}

fn at(minutes: u64) -> u64 {
    TEN_O_CLOCK_MS + minutes * MINUTE_MS
}

#[test]
fn no_realtime_means_no_delay() {
    let d = Departure::from_raw(&raw(at(0), at(7), false, 7, false, "S1"));
    assert_eq!(d.delay_minutes, None);
    assert_eq!(d.time_style(), TimeStyle::Unconfirmed);
}

#[test]
fn realtime_zero_delay_is_kept() {
    let d = Departure::from_raw(&raw(at(0), at(0), true, 0, false, "S1"));
    assert_eq!(d.delay_minutes, Some(0));
    assert_eq!(d.time_style(), TimeStyle::WithDelay(0));
}

#[test]
fn conversion_copies_fields() {
    let d = Departure::from_raw(&raw(at(1), at(3), true, 2, false, "U6"));
    assert_eq!(d.planned_time.epoch_ms, at(1) as i64);
    assert_eq!(d.actual_time.epoch_ms, at(3) as i64);
    assert_eq!(d.delay_minutes, Some(2));
    assert_eq!(d.vehicle_label, "U6");
    assert_eq!(d.destination, "to U6");
    assert!(!d.cancelled);
}

#[test]
fn cancelled_departure_displays_planned_time() {
    let d = Departure::from_raw(&raw(at(1), at(4), true, 3, true, "S1"));
    assert_eq!(d.displayed_time().epoch_ms, at(1) as i64);
    assert_eq!(d.displayed_epoch_ms(), at(1) as i64);
    assert_eq!(d.render_variant(), RenderVariant::Struck);
}

#[test]
fn running_departure_displays_actual_time() {
    let d = Departure::from_raw(&raw(at(1), at(4), true, 3, false, "S1"));
    assert_eq!(d.displayed_time().epoch_ms, at(4) as i64);
    assert_eq!(d.render_variant(), RenderVariant::Plain);
}

#[test]
fn cancelled_without_realtime_is_bare() {
    let d = Departure::from_raw(&raw(at(1), at(1), false, 0, true, "S1"));
    assert_eq!(d.time_style(), TimeStyle::Bare);
}

#[test]
fn sort_is_ascending_and_stable() {
    let raws = vec![
        raw(at(5), at(5), true, 0, false, "first"),
        raw(at(2), at(2), true, 0, false, "early"),
        raw(at(1), at(5), true, 4, false, "second"),
    ];
    let ds = normalize_departures(&raws).unwrap();
    let labels: Vec<&str> = ds.iter().map(|d| d.vehicle_label.as_str()).collect();
    assert_eq!(labels, vec!["early", "first", "second"]);
    let times: Vec<i64> = ds.iter().map(|d| d.displayed_epoch_ms()).collect();
    assert_eq!(times, vec![at(2) as i64, at(5) as i64, at(5) as i64]);
}

#[test]
fn cancelled_departure_sorts_by_planned_time() {
    let raws = vec![
        raw(at(3), at(3), true, 0, false, "running"),
        raw(at(1), at(9), true, 8, true, "cancelled"),
    ];
    let ds = normalize_departures(&raws).unwrap();
    assert_eq!(ds[0].vehicle_label, "cancelled");
    assert_eq!(ds[1].vehicle_label, "running");
}

#[test]
fn empty_response_gives_empty_list() {
    let ds = normalize_departures(&Vec::new()).unwrap();
    assert!(ds.is_empty());
}

#[test]
fn out_of_range_timestamp_is_decode_error() {
    let raws = vec![
        raw(at(1), at(1), true, 0, false, "S1"),
        raw(MAX_TIMESTAMP_MS + 1, at(1), true, 0, false, "S2"),
    ];
    match normalize_departures(&raws) {
        Err(FetchError::Decode(_)) => {}
        other => panic!("expected a decode error, got {:?}", other),
    }
}

#[test]
fn largest_timestamp_converts() {
    let t = LocalTime::from_epoch_ms(MAX_TIMESTAMP_MS);
    assert_eq!(t.epoch_ms, MAX_TIMESTAMP_MS as i64);
}

#[test]
fn epoch_zero_converts() {
    let t = LocalTime::from_epoch_ms(0);
    assert_eq!(t.epoch_ms, 0);
    let expected = chrono::Local.timestamp_millis_opt(0).unwrap();
    assert_eq!(t.offset_secs, expected.offset().local_minus_utc());
}

#[test]
fn offset_is_the_local_zone_offset() {
    let t = LocalTime::from_epoch_ms(TEN_O_CLOCK_MS);
    let expected = chrono::Local.timestamp_millis_opt(TEN_O_CLOCK_MS as i64).unwrap();
    assert_eq!(t.offset_secs, expected.offset().local_minus_utc());
    assert!(t.offset_secs > -86_400 && t.offset_secs < 86_400);
}

#[test]
fn fetch_error_message() {
    let e = FetchError::Transport("connection refused".to_string());
    assert_eq!(e.message(), "connection refused");
    let e = FetchError::Decode("bad body".to_string());
    assert_eq!(e.message(), "bad body");
}

fn store() -> ResultStore {
    ResultStore::new(LocalTime::from_epoch_ms(TEN_O_CLOCK_MS))
}

#[test]
fn first_tick_starts_fetch() {
    let mut s = store();
    assert!(s.latest_result.is_none());
    assert_eq!(s.phase(), RefreshPhase::Idle);
    assert_eq!(s.refresh_step(RefreshEvent::IntervalElapsed), RefreshAction::StartFetch);
    assert!(s.in_flight);
    assert_eq!(s.phase(), RefreshPhase::Fetching);
}

#[test]
fn ticks_during_slow_fetch_start_nothing() {
    let mut s = store();
    assert_eq!(s.refresh_step(RefreshEvent::IntervalElapsed), RefreshAction::StartFetch);
    for _ in 0..5 {
        assert_eq!(s.refresh_step(RefreshEvent::IntervalElapsed), RefreshAction::Nothing);
        assert!(s.in_flight);
    }
    let done = s.refresh_step(RefreshEvent::FetchFinished(Ok(Vec::new())));
    assert_eq!(done, RefreshAction::Wait(REFRESH_INTERVAL_MS));
    assert!(!s.in_flight);
    assert_eq!(s.refresh_step(RefreshEvent::IntervalElapsed), RefreshAction::StartFetch);
}

#[test]
fn failure_replaces_previous_result() {
    let mut s = store();
    s.refresh_step(RefreshEvent::IntervalElapsed);
    let ok = normalize_departures(&vec![raw(at(1), at(1), true, 0, false, "S1")]);
    s.refresh_step(RefreshEvent::FetchFinished(ok));
    assert_eq!(s.latest_result.as_ref().unwrap().as_ref().unwrap().len(), 1);
    s.refresh_step(RefreshEvent::IntervalElapsed);
    s.refresh_step(RefreshEvent::FetchFinished(Err(FetchError::Decode("not a list".to_string()))));
    match &s.latest_result {
        Some(Err(e)) => assert_eq!(e.message(), "not a list"),
        other => panic!("expected the failure to be published, got {:?}", other),
    }
}

#[test]
fn empty_success_is_not_absence() {
    let mut s = store();
    s.refresh_step(RefreshEvent::IntervalElapsed);
    s.refresh_step(RefreshEvent::FetchFinished(Ok(Vec::new())));
    match &s.latest_result {
        Some(Ok(ds)) => assert!(ds.is_empty()),
        other => panic!("expected an empty success, got {:?}", other),
    }
}

#[test]
fn finish_while_idle_is_ignored() {
    let mut s = store();
    assert_eq!(
        s.refresh_step(RefreshEvent::FetchFinished(Ok(Vec::new()))),
        RefreshAction::Nothing
    );
    assert!(s.latest_result.is_none());
    assert!(!s.in_flight);
}

#[test]
fn clock_writes_only_the_time() {
    let mut s = store();
    s.refresh_step(RefreshEvent::IntervalElapsed);
    s.set_current_time(LocalTime::from_epoch_ms(at(1)));
    assert_eq!(s.current_time.epoch_ms, at(1) as i64);
    assert!(s.in_flight);
    assert!(s.latest_result.is_none());
}
