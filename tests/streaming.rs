use dockium::relay::{LogRelay, RelayAction, RelayEvent, RelayPhase};
use dockium::session::{TelemetryAction, TelemetryEvent, TelemetryPhase, TelemetrySession, TELEMETRY_INTERVAL_SECS};

fn sent(a: &RelayAction) -> Option<String> {
    match a {
        RelayAction::Send(t) => Some(t.clone()),
        _ => None,
    }
}

#[test]
fn finite_log_stream_delivers_exactly_its_lines() {
    let lines: Vec<String> = (0..5).map(|i| format!("line {i}")).collect();
    let mut relay = LogRelay::new();
    let mut frames = Vec::new();
    for l in &lines {
        let a = relay.step(RelayEvent::Line(l.clone()));
        frames.push(sent(&a).expect("a line is sent"));
        assert!(matches!(relay.step(RelayEvent::Delivered), RelayAction::Poll));
    }
    assert!(matches!(relay.step(RelayEvent::SourceEnded), RelayAction::Release));
    assert!(relay.is_closed());
    assert_eq!(frames, lines);
}

#[test]
fn empty_log_stream_sends_nothing() {
    let mut relay = LogRelay::new();
    assert!(matches!(relay.step(RelayEvent::SourceEnded), RelayAction::Release));
    assert_eq!(relay.phase, RelayPhase::Closed);
}

#[test]
fn disconnect_stops_forwarding_and_releases_the_stream() {
    let mut relay = LogRelay::new();
    assert!(sent(&relay.step(RelayEvent::Line("a".to_string()))).is_some());
    assert!(matches!(relay.step(RelayEvent::SendFailed), RelayAction::Release));
    assert!(relay.is_closed());
    for ev in [RelayEvent::Line("b".to_string()), RelayEvent::Delivered, RelayEvent::SourceEnded] {
        assert!(matches!(relay.step(ev), RelayAction::Release));
    }
    assert!(relay.is_closed());
}

#[test]
fn failed_first_read_is_reported_in_an_error_frame() {
    let mut relay = LogRelay::new();
    assert_eq!(relay.phase, RelayPhase::Opening);
    match relay.step(RelayEvent::SourceFailed("No such container: abc".to_string())) {
        RelayAction::Report(f) => assert_eq!(f, "Error: No such container: abc"),
        _ => panic!("the failure is reported"),
    }
    assert!(relay.is_closed());
}

#[test]
fn log_stream_error_after_the_first_line_ends_the_session() {
    let mut relay = LogRelay::new();
    assert!(sent(&relay.step(RelayEvent::Line("a".to_string()))).is_some());
    assert!(matches!(relay.step(RelayEvent::Delivered), RelayAction::Poll));
    assert!(matches!(relay.step(RelayEvent::SourceFailed("gone".to_string())), RelayAction::Release));
    assert!(relay.is_closed());
}

#[test]
fn failed_open_sends_an_error_frame() {
    assert_eq!(LogRelay::open_failure("No such container: abc"), "Error: No such container: abc");
}

#[test]
fn telemetry_frames_arrive_in_sampling_order() {
    let s1 = r#"{"memory_total":8,"uptime":1}"#.to_string();
    let s2 = r#"{"memory_total":8,"uptime":3}"#.to_string();
    let (mut session, first) = TelemetrySession::new();
    assert!(matches!(first, TelemetryAction::Sample));
    let mut frames = Vec::new();
    for s in [&s1, &s2] {
        match session.step(TelemetryEvent::Sampled(s.clone())) {
            TelemetryAction::Send(f) => frames.push(f),
            _ => panic!("a sample is sent"),
        }
        assert!(matches!(session.step(TelemetryEvent::Delivered), TelemetryAction::Sleep(2)));
        assert!(matches!(session.step(TelemetryEvent::Elapsed), TelemetryAction::Sample));
    }
    assert_eq!(frames, vec![s1, s2]);
    assert_eq!(TELEMETRY_INTERVAL_SECS, 2);
}

#[test]
fn telemetry_stops_when_the_client_goes_away() {
    let (mut session, _) = TelemetrySession::new();
    assert!(matches!(session.step(TelemetryEvent::Sampled("{}".to_string())), TelemetryAction::Send(_)));
    assert!(matches!(session.step(TelemetryEvent::SendFailed), TelemetryAction::Stop));
    assert_eq!(session.phase, TelemetryPhase::Closed);
    assert!(session.is_closed());
    assert!(matches!(session.step(TelemetryEvent::Elapsed), TelemetryAction::Stop));
}

#[test]
fn log_chunks_become_text_lines() {
    match RelayEvent::from_chunk(b"hello\n") {
        RelayEvent::Line(t) => assert_eq!(t, "hello\n"),
        _ => panic!("a chunk is a line"),
    }
    match RelayEvent::from_chunk(&[b'o', b'k', 0xc3]) {
        RelayEvent::Line(t) => assert_eq!(t, "ok\u{fffd}"),
        _ => panic!("a chunk is a line"),
    }
}
