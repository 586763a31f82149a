use code_marshal::ingest::ingest_chunk;
use code_marshal::log_msg::{
    LogMsg, NormalizedEntry, NormalizedEntryType, PatchEntry, PatchOp, PatchValue, RawChannel,
};
use code_marshal::msg_store::MsgStore;
use code_marshal::orchestrator::{begin_streaming, step, Directive, SessionEvent, SessionState};
use code_marshal::projector::{pretty_lines, should_display};

/// A whole session in miniature: pumps and a normalizer fill the store, a
/// consumer replays it through the orchestrator with raw messages suppressed,
/// and the first terminal marker ends consumption.
#[test]
fn session_flow_from_pumps_to_display() {
    let mut store = MsgStore::new();

    ingest_chunk(&mut store, RawChannel::Stdout, b"compiling...\n");
    store.append(LogMsg::SessionId(String::from("sess-1")));
    store.append(LogMsg::JsonPatch(vec![PatchEntry {
        op: PatchOp::Add,
        path: String::from("/entries/0"),
        value: Some(PatchValue::NormalizedEntry(NormalizedEntry {
            entry_type: NormalizedEntryType::AssistantMessage,
            content: String::from("Done!\n"),
        })),
    }]));
    store.push_finished();
    store.push_stdout(String::from("appended after the terminal marker"));

    let mut sub = store.subscribe_from_start();
    let mut lines: Vec<String> = Vec::new();
    let mut state = begin_streaming(SessionState::Spawning);
    while let Some(m) = store.next(&mut sub) {
        let (next_state, directive) = step(state, SessionEvent::Delivered(m));
        if let Directive::Emit(msg) = directive {
            if should_display(&msg, false) {
                lines.extend(pretty_lines(&msg));
            }
        }
        state = next_state;
        if matches!(state, SessionState::Terminated) {
            break;
        }
    }

    assert!(matches!(state, SessionState::Terminated));
    assert_eq!(
        lines,
        vec![
            String::from("[EVENT][session] sess-1"),
            String::from("[EVENT][assistant][add] Done!"),
            String::from("[EVENT][finished]"),
        ]
    );
}
