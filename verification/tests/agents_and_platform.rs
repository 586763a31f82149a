use code_marshal::agent::{agent_name_str, all_agent_kinds, parse_agent, AgentKind};
use code_marshal::platform::{wsl2_detected, wsl2_in_version_text};
use code_marshal::text::{str_contains, str_eq, str_eq_nocase, trim_end_str};

#[test]
fn agent_names_round_trip_through_parse() {
    for kind in all_agent_kinds() {
        let name = agent_name_str(kind);
        assert_eq!(parse_agent(name), Some(kind));
    }
}

#[test]
fn agent_parse_ignores_ascii_case() {
    assert_eq!(parse_agent("claude_code"), Some(AgentKind::ClaudeCode));
    assert_eq!(parse_agent("Cursor_Agent"), Some(AgentKind::CursorAgent));
    assert_eq!(parse_agent("codex"), Some(AgentKind::Codex));
    assert_eq!(parse_agent("gemini"), Some(AgentKind::Gemini));
    assert_eq!(parse_agent("droid"), Some(AgentKind::Droid));
}

#[test]
fn unknown_agent_name_parses_to_none() {
    assert_eq!(parse_agent("HAL9000"), None);
    assert_eq!(parse_agent(""), None);
    assert_eq!(parse_agent("QWEN-CODE"), None);
}

#[test]
fn all_kinds_are_listed_in_order() {
    let kinds = all_agent_kinds();
    assert_eq!(kinds.len(), 9);
    assert_eq!(kinds[0], AgentKind::ClaudeCode);
    assert_eq!(kinds[8], AgentKind::Droid);
}

#[test]
fn wsl2_signature_in_version_text() {
    assert!(wsl2_in_version_text(
        "Linux version 5.15.90.1-microsoft-standard-WSL2"
    ));
    assert!(wsl2_in_version_text("built for microsoft hosts"));
    assert!(!wsl2_in_version_text("Linux version 6.1.0-generic"));
}

#[test]
fn wsl2_verdict_over_evidence() {
    assert!(wsl2_detected(true, None));
    let v = String::from("5.15-microsoft-standard");
    assert!(wsl2_detected(false, Some(&v)));
    let plain = String::from("6.1.0-generic");
    assert!(!wsl2_detected(false, Some(&plain)));
    assert!(!wsl2_detected(false, None));
}

#[test]
fn text_helpers_behave() {
    assert!(str_eq("abc", "abc"));
    assert!(!str_eq("abc", "abd"));
    assert!(!str_eq("abc", "abcd"));
    assert!(str_eq_nocase("AbC", "aBc"));
    assert!(!str_eq_nocase("ab", "abc"));
    assert!(str_contains("haystack", "stack"));
    assert!(str_contains("haystack", ""));
    assert!(!str_contains("hay", "haystack"));
    assert_eq!(trim_end_str("hello \n\t"), "hello");
    assert_eq!(trim_end_str("  keep leading  "), "  keep leading");
    assert_eq!(trim_end_str("\n"), "");
    assert_eq!(trim_end_str(""), "");
}
