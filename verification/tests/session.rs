use code_marshal::log_msg::LogMsg;
use code_marshal::orchestrator::{
    begin_streaming, run_events, step, Directive, SessionEvent, SessionState,
};

#[test]
fn spawning_enters_streaming_exactly_once() {
    let s = begin_streaming(SessionState::Spawning);
    assert!(matches!(s, SessionState::Streaming));
    let s = begin_streaming(s);
    assert!(matches!(s, SessionState::Streaming));
    let s = begin_streaming(SessionState::Terminated);
    assert!(matches!(s, SessionState::Terminated));
}

#[test]
fn no_event_is_processed_while_spawning() {
    let (state, directive) = step(SessionState::Spawning, SessionEvent::ProcessExited);
    assert!(matches!(state, SessionState::Spawning));
    assert!(matches!(directive, Directive::Skip));
}

#[test]
fn exit_backstop_appends_finished_and_terminates() {
    let (state, directive) = step(SessionState::Streaming, SessionEvent::ProcessExited);
    assert!(matches!(state, SessionState::Terminated));
    assert!(matches!(directive, Directive::AppendFinished));
}

#[test]
fn stream_end_also_terminates_with_backstop() {
    let (state, directive) = step(SessionState::Streaming, SessionEvent::StreamClosed);
    assert!(matches!(state, SessionState::Terminated));
    assert!(matches!(directive, Directive::AppendFinished));
}

#[test]
fn delivered_finished_terminates_after_emitting() {
    let (state, directive) = step(
        SessionState::Streaming,
        SessionEvent::Delivered(LogMsg::Finished),
    );
    assert!(matches!(state, SessionState::Terminated));
    assert!(matches!(directive, Directive::Emit(LogMsg::Finished)));
}

#[test]
fn ordinary_message_keeps_streaming() {
    let (state, directive) = step(
        SessionState::Streaming,
        SessionEvent::Delivered(LogMsg::Ready),
    );
    assert!(matches!(state, SessionState::Streaming));
    assert!(matches!(directive, Directive::Emit(LogMsg::Ready)));
}

#[test]
fn delivery_error_is_skipped_and_racing_continues() {
    let (state, directive) = step(SessionState::Streaming, SessionEvent::DeliveryFailed);
    assert!(matches!(state, SessionState::Streaming));
    assert!(matches!(directive, Directive::Skip));
}

#[test]
fn nothing_is_processed_after_termination() {
    let (state, directive) = step(
        SessionState::Terminated,
        SessionEvent::Delivered(LogMsg::Finished),
    );
    assert!(matches!(state, SessionState::Terminated));
    assert!(matches!(directive, Directive::Skip));
}

#[test]
fn run_stops_at_first_terminating_event() {
    let events = vec![
        SessionEvent::Delivered(LogMsg::Ready),
        SessionEvent::DeliveryFailed,
        SessionEvent::ProcessExited,
        SessionEvent::Delivered(LogMsg::Stdout(String::from("never seen"))),
    ];
    let (directives, state) = run_events(SessionState::Streaming, &events);
    assert!(matches!(state, SessionState::Terminated));
    assert_eq!(directives.len(), 3);
    assert!(matches!(directives[0], Directive::Emit(LogMsg::Ready)));
    assert!(matches!(directives[1], Directive::Skip));
    assert!(matches!(directives[2], Directive::AppendFinished));
}

#[test]
fn exit_before_any_finished_yields_exactly_one_backstop() {
    let events = vec![
        SessionEvent::ProcessExited,
        SessionEvent::ProcessExited,
        SessionEvent::Delivered(LogMsg::Finished),
    ];
    let (directives, state) = run_events(SessionState::Streaming, &events);
    assert!(matches!(state, SessionState::Terminated));
    assert_eq!(directives.len(), 1);
    assert!(matches!(directives[0], Directive::AppendFinished));
}

#[test]
fn double_finished_delivery_emits_one_terminal_transition() {
    let events = vec![
        SessionEvent::Delivered(LogMsg::Finished),
        SessionEvent::Delivered(LogMsg::Finished),
    ];
    let (directives, state) = run_events(SessionState::Streaming, &events);
    assert!(matches!(state, SessionState::Terminated));
    assert_eq!(directives.len(), 1);
    assert!(matches!(directives[0], Directive::Emit(LogMsg::Finished)));
}
