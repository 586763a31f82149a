use code_marshal::cli::{parse_args, CliCommand, CliError, CliFlag};

fn args(list: &[&str]) -> Vec<String> {
    let mut v = vec![String::from("code-marshal")];
    for a in list {
        v.push(String::from(*a));
    }
    v
}

#[test]
fn no_arguments_shows_usage() {
    let r = parse_args(&args(&[]));
    assert!(matches!(r, Ok(CliCommand::ShowUsage)));
}

#[test]
fn bare_help_word_shows_usage() {
    assert!(matches!(parse_args(&args(&["help"])), Ok(CliCommand::ShowUsage)));
    assert!(matches!(parse_args(&args(&["--help"])), Ok(CliCommand::ShowUsage)));
    assert!(matches!(parse_args(&args(&["-h"])), Ok(CliCommand::ShowUsage)));
}

#[test]
fn help_flag_wins_anywhere() {
    let r = parse_args(&args(&["do things", "--help"]));
    assert!(matches!(r, Ok(CliCommand::ShowUsage)));
}

#[test]
fn list_and_check_commands() {
    assert!(matches!(parse_args(&args(&["--list-agents"])), Ok(CliCommand::ListAgents)));
    assert!(matches!(parse_args(&args(&["-l"])), Ok(CliCommand::ListAgents)));
    assert!(matches!(
        parse_args(&args(&["--check-installed"])),
        Ok(CliCommand::CheckInstalled)
    ));
    assert!(matches!(parse_args(&args(&["-c"])), Ok(CliCommand::CheckInstalled)));
}

#[test]
fn full_run_configuration() {
    let r = parse_args(&args(&[
        "-a",
        "claude_code",
        "--follow-up",
        "sess-9",
        "--reset-to",
        "msg-3",
        "--raw",
        "--pretty",
        "fix the bug",
    ]));
    match r {
        Ok(CliCommand::Run(cfg)) => {
            assert_eq!(cfg.agent.as_deref(), Some("claude_code"));
            assert_eq!(cfg.follow_up.as_deref(), Some("sess-9"));
            assert_eq!(cfg.reset_to.as_deref(), Some("msg-3"));
            assert!(cfg.include_raw);
            assert!(cfg.pretty);
            assert_eq!(cfg.prompt, "fix the bug");
        }
        _ => panic!("expected a run command"),
    }
}

#[test]
fn later_positional_replaces_earlier_prompt() {
    let r = parse_args(&args(&["first", "second"]));
    match r {
        Ok(CliCommand::Run(cfg)) => assert_eq!(cfg.prompt, "second"),
        _ => panic!("expected a run command"),
    }
}

#[test]
fn flags_without_prompt_fall_back_to_usage() {
    let r = parse_args(&args(&["--raw", "--pretty"]));
    assert!(matches!(r, Ok(CliCommand::ShowUsage)));
}

#[test]
fn missing_values_are_reported_per_flag() {
    assert!(matches!(
        parse_args(&args(&["--agent"])),
        Err(CliError::MissingValue(CliFlag::Agent))
    ));
    assert!(matches!(
        parse_args(&args(&["x", "-f"])),
        Err(CliError::MissingValue(CliFlag::FollowUp))
    ));
    assert!(matches!(
        parse_args(&args(&["x", "--reset-to"])),
        Err(CliError::MissingValue(CliFlag::ResetTo))
    ));
}

#[test]
fn unknown_dash_argument_is_an_error() {
    match parse_args(&args(&["--frobnicate", "p"])) {
        Err(CliError::UnknownArgument(a)) => assert_eq!(a, "--frobnicate"),
        _ => panic!("expected an unknown-argument error"),
    }
}

#[test]
fn error_messages_match_the_cli_surface() {
    assert_eq!(
        CliError::MissingValue(CliFlag::Agent).message(),
        "Missing value for --agent"
    );
    assert_eq!(
        CliError::MissingValue(CliFlag::FollowUp).message(),
        "Missing value for --follow-up <SESSION_ID>"
    );
    assert_eq!(
        CliError::MissingValue(CliFlag::ResetTo).message(),
        "Missing value for --reset-to <MESSAGE_ID>"
    );
    assert_eq!(
        CliError::UnknownArgument(String::from("-z")).message(),
        "Unknown argument: -z"
    );
}
