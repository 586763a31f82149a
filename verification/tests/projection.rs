use code_marshal::log_msg::{
    LogMsg, NormalizedEntry, NormalizedEntryType, PatchEntry, PatchOp, PatchValue, ToolStatus,
};
use code_marshal::projector::{pretty_lines, project_entry, should_display};

fn entry(op: PatchOp, path: &str, value: Option<PatchValue>) -> PatchEntry {
    PatchEntry { op, path: String::from(path), value }
}

fn normalized(entry_type: NormalizedEntryType, content: &str) -> Option<PatchValue> {
    Some(PatchValue::NormalizedEntry(NormalizedEntry {
        entry_type,
        content: String::from(content),
    }))
}

#[test]
fn assistant_add_projects_with_trailing_newline_stripped() {
    let e = entry(
        PatchOp::Add,
        "/entries/0",
        normalized(NormalizedEntryType::AssistantMessage, "Hello\n"),
    );
    assert_eq!(project_entry(&e), "[EVENT][assistant][add] Hello");
}

#[test]
fn system_thinking_and_error_have_their_tags() {
    let e = entry(
        PatchOp::Replace,
        "/e/1",
        normalized(NormalizedEntryType::SystemMessage, "boot  \t"),
    );
    assert_eq!(project_entry(&e), "[EVENT][system][replace] boot");

    let e = entry(
        PatchOp::Add,
        "/e/2",
        normalized(NormalizedEntryType::Thinking, "hmm"),
    );
    assert_eq!(project_entry(&e), "[EVENT][thinking][add] hmm");

    let e = entry(
        PatchOp::Add,
        "/e/3",
        normalized(NormalizedEntryType::ErrorMessage, "bad\r\n"),
    );
    assert_eq!(project_entry(&e), "[EVENT][error][add] bad");
}

#[test]
fn tool_use_prints_name_status_and_content() {
    let e = entry(
        PatchOp::Add,
        "/e/4",
        normalized(
            NormalizedEntryType::ToolUse {
                tool_name: String::from("bash"),
                status: ToolStatus::Success,
            },
            "ls -la\n",
        ),
    );
    assert_eq!(project_entry(&e), "[EVENT][tool][add] bash (Success) :: ls -la");
}

#[test]
fn other_category_carries_its_label() {
    let e = entry(
        PatchOp::Add,
        "/e/5",
        normalized(
            NormalizedEntryType::Other { label: String::from("TodoList") },
            "items",
        ),
    );
    assert_eq!(project_entry(&e), "[EVENT][entry:TodoList][add] items");
}

#[test]
fn stdout_and_stderr_payloads_inside_patches() {
    let e = entry(
        PatchOp::Add,
        "/e/6",
        Some(PatchValue::Stdout(String::from("chunk \n"))),
    );
    assert_eq!(project_entry(&e), "[EVENT][stdout][add] chunk");

    let e = entry(
        PatchOp::Replace,
        "/e/7",
        Some(PatchValue::Stderr(String::from("oops"))),
    );
    assert_eq!(project_entry(&e), "[EVENT][stderr][replace] oops");
}

#[test]
fn diff_prints_only_the_path() {
    let e = entry(
        PatchOp::Add,
        "/e/8",
        Some(PatchValue::Diff(String::from("secret diff body"))),
    );
    assert_eq!(project_entry(&e), "[EVENT][diff][add] path=/e/8");
}

#[test]
fn remove_without_value_prints_path_and_marker() {
    let e = entry(PatchOp::Remove, "/e/9", None);
    assert_eq!(project_entry(&e), "[EVENT][patch][remove] path=/e/9 (no value)");
}

#[test]
fn pretty_lines_for_simple_messages() {
    assert_eq!(
        pretty_lines(&LogMsg::SessionId(String::from("s-1"))),
        vec![String::from("[EVENT][session] s-1")]
    );
    assert_eq!(
        pretty_lines(&LogMsg::MessageId(String::from("m-1"))),
        vec![String::from("[EVENT][message_id] m-1")]
    );
    assert_eq!(pretty_lines(&LogMsg::Ready), vec![String::from("[EVENT][ready]")]);
    assert_eq!(pretty_lines(&LogMsg::Finished), vec![String::from("[EVENT][finished]")]);
    assert_eq!(
        pretty_lines(&LogMsg::Stdout(String::from("raw \n"))),
        vec![String::from("[EVENT][stdout] raw")]
    );
    assert_eq!(
        pretty_lines(&LogMsg::Stderr(String::from("err"))),
        vec![String::from("[EVENT][stderr] err")]
    );
}

#[test]
fn pretty_lines_for_a_patch_is_one_line_per_entry() {
    let patch = LogMsg::JsonPatch(vec![
        entry(
            PatchOp::Add,
            "/e/0",
            normalized(NormalizedEntryType::AssistantMessage, "Hi\n"),
        ),
        entry(PatchOp::Remove, "/e/1", None),
    ]);
    assert_eq!(
        pretty_lines(&patch),
        vec![
            String::from("[EVENT][assistant][add] Hi"),
            String::from("[EVENT][patch][remove] path=/e/1 (no value)"),
        ]
    );
}

#[test]
fn raw_messages_are_suppressed_unless_raw_mode() {
    let raw = LogMsg::Stdout(String::from("partial chunk"));
    assert!(!should_display(&raw, false));
    assert!(should_display(&raw, true));

    let err = LogMsg::Stderr(String::from("e"));
    assert!(!should_display(&err, false));
    assert!(should_display(&err, true));

    let normal = LogMsg::Ready;
    assert!(should_display(&normal, false));
    assert!(should_display(&normal, true));
}
