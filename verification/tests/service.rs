use echo_service::indicator::{IndicatorState, Level};
use echo_service::join::{JoinCredentials, JoinResult};
use echo_service::service::{Directive, ServiceEvent, ServiceLoop, ServicePhase};
use echo_service::session::ReadOutcome;
use echo_service::LINE_HEIGHT;

fn fresh_service() -> ServiceLoop {
    ServiceLoop::new(JoinCredentials {
        network_id: String::from("appliance-net"),
        passphrase: String::from("not-a-real-passphrase"),
    })
}

fn joined_and_listening() -> ServiceLoop {
    let mut svc = fresh_service();
    let out = svc.handle_event(ServiceEvent::JoinAttempted(JoinResult::Joined));
    assert_eq!(out.next, Directive::Accept);
    svc
}

#[test]
fn starts_awaiting_join_with_idle_outputs() {
    let svc = fresh_service();
    assert_eq!(svc.phase, ServicePhase::AwaitJoin);
    assert!(svc.session.is_none());
    assert_eq!(svc.indicators.output_a, Level::Low);
    assert_eq!(svc.indicators.output_b, Level::Low);
}

#[test]
fn join_failures_retry_until_success_then_never_again() {
    let mut svc = fresh_service();
    for reason in [11u32, 12, 13] {
        let out = svc.handle_event(ServiceEvent::JoinAttempted(JoinResult::Failed(reason)));
        assert_eq!(out.next, Directive::AttemptJoin);
        assert_eq!(svc.phase, ServicePhase::AwaitJoin);
    }
    let out = svc.handle_event(ServiceEvent::JoinAttempted(JoinResult::Joined));
    assert_eq!(out.next, Directive::Accept);
    assert_eq!(out.indicator, Some(IndicatorState::Listening));
    assert_eq!(svc.phase, ServicePhase::Listening);
    assert_eq!(svc.join.attempts, 4);
    assert!(!svc.join.should_retry());
}

#[test]
fn accept_timeout_keeps_listening() {
    let mut svc = joined_and_listening();
    let out = svc.handle_event(ServiceEvent::AcceptFailed);
    assert_eq!(out.next, Directive::Accept);
    assert_eq!(out.indicator, Some(IndicatorState::Listening));
    assert_eq!(svc.phase, ServicePhase::Listening);
}

#[test]
fn peer_sends_hi_and_gets_hi_back() {
    let mut svc = joined_and_listening();

    let out = svc.handle_event(ServiceEvent::Accepted);
    assert_eq!(out.indicator, Some(IndicatorState::Connected));
    assert_eq!(svc.indicators.output_a, Level::High);
    assert_eq!(svc.indicators.output_b, Level::Low);
    assert_eq!(out.next, Directive::Read);

    let cursor_before = svc.display.cursor;
    let out = svc.handle_event(ServiceEvent::ReadFinished(ReadOutcome::Received(
        b"hi".to_vec(),
    )));
    // the two bytes are drawn as text at the current cursor line ...
    let drawn = out.draw.expect("text should be drawn");
    assert_eq!(drawn.text, "hi");
    assert_eq!(drawn.line, cursor_before);
    assert!(!drawn.cleared);
    // ... the cursor advances by one line height ...
    assert_eq!(svc.display.cursor, cursor_before + LINE_HEIGHT);
    // ... and exactly the two bytes are echoed back
    assert_eq!(out.next, Directive::Write(b"hi".to_vec()));
    assert_eq!(out.indicator, Some(IndicatorState::Receiving));
    assert_eq!(svc.indicators.output_a, Level::Low);
    assert_eq!(svc.indicators.output_b, Level::High);

    let out = svc.handle_event(ServiceEvent::WriteFinished(true));
    assert_eq!(out.next, Directive::Read);
}

#[test]
fn idle_session_times_out_into_listening() {
    let mut svc = joined_and_listening();
    svc.handle_event(ServiceEvent::Accepted);
    let out = svc.handle_event(ServiceEvent::ReadFinished(ReadOutcome::TimedOut));
    assert_eq!(svc.phase, ServicePhase::Listening);
    assert!(svc.session.is_none());
    assert!(out.draw.is_none());
    assert_eq!(out.next, Directive::Accept);
}

#[test]
fn sessions_run_strictly_one_after_another() {
    let mut svc = joined_and_listening();

    // first session: reads once, then its write fails, ending it
    svc.handle_event(ServiceEvent::Accepted);
    svc.handle_event(ServiceEvent::ReadFinished(ReadOutcome::Received(b"a".to_vec())));
    let out = svc.handle_event(ServiceEvent::WriteFinished(false));
    // only after the terminal state is a new accept asked for
    assert!(svc.session.is_none());
    assert_eq!(out.next, Directive::Accept);

    // the next accepted connection starts a fresh session
    svc.handle_event(ServiceEvent::Accepted);
    let session = svc.session.expect("a session should be live");
    assert!(!session.echoed_any);
}

#[test]
fn malformed_bytes_are_echoed_but_not_drawn() {
    let mut svc = joined_and_listening();
    svc.handle_event(ServiceEvent::Accepted);
    let raw = vec![0xf0, 0x28, 0x8c, 0x28];
    let out = svc.handle_event(ServiceEvent::ReadFinished(ReadOutcome::Received(raw.clone())));
    assert!(out.draw.is_none());
    assert_eq!(out.next, Directive::Write(raw));
    // the service survives: the session is still being served
    assert_eq!(svc.phase, ServicePhase::Serving);
}

#[test]
fn display_wraps_across_sessions() {
    let mut svc = joined_and_listening();
    svc.handle_event(ServiceEvent::Accepted);
    for n in 0..15u32 {
        let out = svc.handle_event(ServiceEvent::ReadFinished(ReadOutcome::Received(
            b"line".to_vec(),
        )));
        let drawn = out.draw.expect("text should be drawn");
        assert!(!drawn.cleared);
        assert_eq!(drawn.line, n * LINE_HEIGHT);
        svc.handle_event(ServiceEvent::WriteFinished(true));
    }
    // the sixteenth line clears the screen first and draws at the top
    let out = svc.handle_event(ServiceEvent::ReadFinished(ReadOutcome::Received(
        b"line".to_vec(),
    )));
    let drawn = out.draw.expect("text should be drawn");
    assert!(drawn.cleared);
    assert_eq!(drawn.line, 0);
}
