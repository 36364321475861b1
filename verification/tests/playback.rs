//! Playback outcome classification and the session heartbeat clock.

use puddler::TICKS_PER_SECOND;
use puddler::reports::stop_report_plan;
use puddler::session::HeartbeatAction;
use puddler::session::SessionClock;
use puddler::session::StopClass;
use puddler::session::classify_stop;
use puddler::session::plan_stop;

fn secs(n: u64) -> u64 {
    n * TICKS_PER_SECOND
}

#[test]
fn fully_played_near_the_end() {
    // One hour long, stopped 200 seconds short of the end: fully played,
    // watched, marked played, and the position report omitted.
    let plan = plan_stop(secs(3600 - 200), 0, false, secs(3600));
    assert!(plan.watched);
    assert!(plan.mark_played);
    assert!(!plan.send_stopped);
    assert_eq!(plan.report_position_ticks, None);
}

#[test]
fn resumable_at_half() {
    // Stopped at 1800 of 3600 seconds: resumable, stopped report carries
    // the position in ticks, not watched.
    let plan = plan_stop(secs(1800), 0, false, secs(3600));
    assert!(!plan.watched);
    assert!(!plan.mark_played);
    assert!(plan.send_stopped);
    assert_eq!(plan.report_position_ticks, Some(1800 * TICKS_PER_SECOND));
}

#[test]
fn unwatched_after_a_minute() {
    // Stopped at 60 of 3600 seconds: unwatched, the stopped report omits
    // the position, not watched.
    let plan = plan_stop(secs(60), 0, false, secs(3600));
    assert!(!plan.watched);
    assert!(!plan.mark_played);
    assert!(plan.send_stopped);
    assert_eq!(plan.report_position_ticks, None);
}

#[test]
fn classification_cutoffs_both_sides() {
    let total = secs(100);
    // Exactly 15 percent remaining is not yet fully played.
    assert_eq!(classify_stop(secs(85), total), StopClass::Resumable);
    // Below 15 percent remaining is fully played.
    assert_eq!(classify_stop(secs(86), total), StopClass::FullyPlayed);
    // Exactly 85 percent remaining is unwatched.
    assert_eq!(classify_stop(secs(15), total), StopClass::Unwatched);
    // Below 85 percent remaining is resumable.
    assert_eq!(classify_stop(secs(16), total), StopClass::Resumable);
}

#[test]
fn position_past_the_end_is_fully_played() {
    assert_eq!(classify_stop(secs(4000), secs(3600)), StopClass::FullyPlayed);
}

#[test]
fn transcoded_stop_adds_resume_offset_back() {
    // The player clock says 400 seconds, but the transcode started at
    // 3000 seconds: the absolute position 3400 of 3600 is fully played.
    let plan = plan_stop(secs(400), secs(3000), true, secs(3600));
    assert!(plan.watched);
    // The same player clock in a direct session is unwatched.
    let direct = plan_stop(secs(400), secs(3000), false, secs(3600));
    assert!(!direct.watched);
    assert_eq!(direct.report_position_ticks, None);
}

#[test]
fn stop_report_plan_carries_session_identity() {
    let plan = stop_report_plan(
        "item1".to_string(),
        "sess1".to_string(),
        "media1".to_string(),
        "play1".to_string(),
        secs(1800),
        0,
        false,
        secs(3600),
    );
    assert!(!plan.watched);
    let report = plan.stop_report.expect("a resumable stop owes a report");
    assert_eq!(report.ItemId, "item1");
    assert_eq!(report.SessionId, "sess1");
    assert_eq!(report.MediaSourceId, "media1");
    assert_eq!(report.PlaySessionId, "play1");
    assert_eq!(report.PositionTicks, Some(1800 * TICKS_PER_SECOND));
    assert!(!report.Failed);
}

#[test]
fn fully_played_stop_sends_no_report() {
    let plan = stop_report_plan(
        "item1".to_string(),
        "sess1".to_string(),
        "media1".to_string(),
        "play1".to_string(),
        secs(3500),
        0,
        false,
        secs(3600),
    );
    assert!(plan.watched);
    assert!(plan.mark_played);
    assert!(plan.stop_report.is_none());
}

#[test]
fn heartbeat_after_interval_only() {
    let mut clock = SessionClock::new();
    // Half a second in, the initial report goes out.
    assert_eq!(clock.poll(500), HeartbeatAction::ReportProgress);
    // Nothing new within the interval.
    assert_eq!(clock.poll(10_000), HeartbeatAction::NoReport);
    // Past the fifteen-second interval the next report goes out.
    assert_eq!(clock.poll(15_600), HeartbeatAction::ReportProgress);
}

#[test]
fn repeated_position_is_an_implicit_pause() {
    let mut clock = SessionClock::new();
    assert_eq!(clock.poll(500), HeartbeatAction::ReportProgress);
    assert_eq!(clock.poll(5_000), HeartbeatAction::NoReport);
    // The same position twice in a row, away from the baseline, counts
    // as a pause and is reported once.
    assert_eq!(clock.poll(5_000), HeartbeatAction::ReportPause);
    assert!(clock.paused);
}

#[test]
fn seek_rewinds_the_baseline() {
    let mut clock = SessionClock::new();
    assert_eq!(clock.poll(500), HeartbeatAction::ReportProgress);
    clock.note_seek();
    // The baseline moved 16 seconds back, so the next poll reports even
    // though little time passed.
    assert_eq!(clock.poll(600), HeartbeatAction::ReportProgress);
}
