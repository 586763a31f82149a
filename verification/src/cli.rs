//! Command-line surface: parsing the argument list into a command. The
//! grammar is deliberately small: a handful of flags, three of which take a
//! value, and a positional prompt (a later positional replaces an earlier
//! one). Help, listing and install-check commands short-circuit; a run with
//! an empty prompt falls back to usage.

use vstd::prelude::*;
use vstd::string::*;

use crate::text::str_eq;

verus! {

/// Settings of one agent run.
pub struct RunConfig {
    /// Requested agent name, exactly as given; none means "first installed".
    pub agent: Option<String>,
    /// Session identifier to resume, for a follow-up run.
    pub follow_up: Option<String>,
    /// Optional reset point for a follow-up.
    pub reset_to: Option<String>,
    /// Also display raw-channel messages.
    pub include_raw: bool,
    /// Pretty-print events instead of emitting structured records.
    pub pretty: bool,
    /// The prompt handed to the agent.
    pub prompt: String,
}

/// Mathematical model of `RunConfig`.
pub struct RunConfigView {
    pub agent: Option<Seq<char>>,
    pub follow_up: Option<Seq<char>>,
    pub reset_to: Option<Seq<char>>,
    pub include_raw: bool,
    pub pretty: bool,
    pub prompt: Seq<char>,
}

impl View for RunConfig {
    type V = RunConfigView;

    open spec fn view(&self) -> RunConfigView {
        RunConfigView {
            agent: match &self.agent {
                Option::Some(s) => Option::Some(s@),
                Option::None => Option::None,
            },
            follow_up: match &self.follow_up {
                Option::Some(s) => Option::Some(s@),
                Option::None => Option::None,
            },
            reset_to: match &self.reset_to {
                Option::Some(s) => Option::Some(s@),
                Option::None => Option::None,
            },
            include_raw: self.include_raw,
            pretty: self.pretty,
            prompt: self.prompt@,
        }
    }
}

/// A flag that takes a value.
#[derive(Clone, Copy, PartialEq, Eq, Structural, Debug)]
pub enum CliFlag {
    Agent,
    FollowUp,
    ResetTo,
}

/// What the argument list asks for.
pub enum CliCommand {
    /// Print usage (also the fallback when no prompt was given).
    ShowUsage,
    /// List the supported agent kinds.
    ListAgents,
    /// Report which agents are installed.
    CheckInstalled,
    /// Run a session with these settings.
    Run(RunConfig),
}

/// Mathematical model of `CliCommand`.
pub enum CliCommandView {
    ShowUsage,
    ListAgents,
    CheckInstalled,
    Run(RunConfigView),
}

impl View for CliCommand {
    type V = CliCommandView;

    open spec fn view(&self) -> CliCommandView {
        match self {
            CliCommand::ShowUsage => CliCommandView::ShowUsage,
            CliCommand::ListAgents => CliCommandView::ListAgents,
            CliCommand::CheckInstalled => CliCommandView::CheckInstalled,
            CliCommand::Run(cfg) => CliCommandView::Run(cfg@),
        }
    }
}

/// A malformed argument list.
pub enum CliError {
    /// A flag that takes a value stood last.
    MissingValue(CliFlag),
    /// A dash-led argument that is no known flag.
    UnknownArgument(String),
}

/// Mathematical model of `CliError`.
pub enum CliErrorView {
    MissingValue(CliFlag),
    UnknownArgument(Seq<char>),
}

impl View for CliError {
    type V = CliErrorView;

    open spec fn view(&self) -> CliErrorView {
        match self {
            CliError::MissingValue(f) => CliErrorView::MissingValue(*f),
            CliError::UnknownArgument(a) => CliErrorView::UnknownArgument(a@),
        }
    }
}

/// The settings before any argument is read.
pub open spec fn initial_config() -> RunConfigView {
    RunConfigView {
        agent: Option::None,
        follow_up: Option::None,
        reset_to: Option::None,
        include_raw: false,
        pretty: false,
        prompt: Seq::<char>::empty(),
    }
}

/// The parse of the arguments from position `i` on, with `acc` holding what
/// earlier arguments established. At the end, an empty prompt falls back to
/// usage.
pub open spec fn spec_parse_from(
    args: Seq<Seq<char>>,
    i: int,
    acc: RunConfigView,
) -> Result<CliCommandView, CliErrorView>
    decreases args.len() - i,
{
    if i < 0 || i >= args.len() {
        if acc.prompt.len() == 0 {
            Result::Ok(CliCommandView::ShowUsage)
        } else {
            Result::Ok(CliCommandView::Run(acc))
        }
    } else {
        let a = args[i];
        if a == "--help"@ || a == "-h"@ {
            Result::Ok(CliCommandView::ShowUsage)
        } else if a == "--list-agents"@ || a == "-l"@ {
            Result::Ok(CliCommandView::ListAgents)
        } else if a == "--check-installed"@ || a == "-c"@ {
            Result::Ok(CliCommandView::CheckInstalled)
        } else if a == "--agent"@ || a == "-a"@ {
            if i + 1 < args.len() {
                spec_parse_from(args, i + 2, RunConfigView { agent: Option::Some(args[i + 1]), ..acc })
            } else {
                Result::Err(CliErrorView::MissingValue(CliFlag::Agent))
            }
        } else if a == "--follow-up"@ || a == "-f"@ {
            if i + 1 < args.len() {
                spec_parse_from(
                    args,
                    i + 2,
                    RunConfigView { follow_up: Option::Some(args[i + 1]), ..acc },
                )
            } else {
                Result::Err(CliErrorView::MissingValue(CliFlag::FollowUp))
            }
        } else if a == "--reset-to"@ {
            if i + 1 < args.len() {
                spec_parse_from(
                    args,
                    i + 2,
                    RunConfigView { reset_to: Option::Some(args[i + 1]), ..acc },
                )
            } else {
                Result::Err(CliErrorView::MissingValue(CliFlag::ResetTo))
            }
        } else if a == "--raw"@ {
            spec_parse_from(args, i + 1, RunConfigView { include_raw: true, ..acc })
        } else if a == "--pretty"@ {
            spec_parse_from(args, i + 1, RunConfigView { pretty: true, ..acc })
        } else if a.len() > 0 && a[0] == '-' {
            Result::Err(CliErrorView::UnknownArgument(a))
        } else {
            spec_parse_from(args, i + 1, RunConfigView { prompt: a, ..acc })
        }
    }
}

/// The parse of a whole argument list (the first element is the program
/// name). Fewer than two arguments, or a lone `help` in any of its spellings,
/// shows usage.
pub open spec fn spec_parse(args: Seq<Seq<char>>) -> Result<CliCommandView, CliErrorView> {
    if args.len() < 2 {
        Result::Ok(CliCommandView::ShowUsage)
    } else if args.len() == 2 && (args[1] == "help"@ || args[1] == "--help"@ || args[1] == "-h"@) {
        Result::Ok(CliCommandView::ShowUsage)
    } else {
        spec_parse_from(args, 1, initial_config())
    }
}

/// Parses the argument list into a command.
pub fn parse_args(args: &Vec<String>) -> (r: Result<CliCommand, CliError>)
    ensures
        (match r {
            Result::Ok(c) => Result::<CliCommandView, CliErrorView>::Ok(c@),
            Result::Err(e) => Result::<CliCommandView, CliErrorView>::Err(e@),
        }) == spec_parse(args@.map_values(|s: String| s@)),
{
    let ghost argv = args@.map_values(|s: String| s@);
    if args.len() < 2 {
        return Result::Ok(CliCommand::ShowUsage);
    }
    if args.len() == 2 {
        let a1 = args[1].as_str();
        if str_eq(a1, "help") || str_eq(a1, "--help") || str_eq(a1, "-h") {
            return Result::Ok(CliCommand::ShowUsage);
        }
    }
    let mut cfg = RunConfig {
        agent: Option::None,
        follow_up: Option::None,
        reset_to: Option::None,
        include_raw: false,
        pretty: false,
        prompt: String::new(),
    };
    let mut i: usize = 1;
    proof {
        assert(cfg@.prompt =~= initial_config().prompt);
        assert(cfg@ == initial_config());
        assert(spec_parse(argv) == spec_parse_from(argv, 1, initial_config()));
    }
    loop
        invariant
            1 <= i,
            argv == args@.map_values(|s: String| s@),
            argv.len() >= 2,
            spec_parse(argv) == spec_parse_from(argv, i as int, cfg@),
        ensures
            i >= argv.len(),
            spec_parse(argv) == spec_parse_from(argv, i as int, cfg@),
        decreases argv.len() - i,
    {
        if i >= args.len() {
            break;
        }
        let a = args[i].as_str();
        if str_eq(a, "--help") || str_eq(a, "-h") {
            return Result::Ok(CliCommand::ShowUsage);
        } else if str_eq(a, "--list-agents") || str_eq(a, "-l") {
            return Result::Ok(CliCommand::ListAgents);
        } else if str_eq(a, "--check-installed") || str_eq(a, "-c") {
            return Result::Ok(CliCommand::CheckInstalled);
        } else if str_eq(a, "--agent") || str_eq(a, "-a") {
            if i + 1 < args.len() {
                cfg.agent = Option::Some(args[i + 1].clone());
                i = i + 2;
            } else {
                return Result::Err(CliError::MissingValue(CliFlag::Agent));
            }
        } else if str_eq(a, "--follow-up") || str_eq(a, "-f") {
            if i + 1 < args.len() {
                cfg.follow_up = Option::Some(args[i + 1].clone());
                i = i + 2;
            } else {
                return Result::Err(CliError::MissingValue(CliFlag::FollowUp));
            }
        } else if str_eq(a, "--reset-to") {
            if i + 1 < args.len() {
                cfg.reset_to = Option::Some(args[i + 1].clone());
                i = i + 2;
            } else {
                return Result::Err(CliError::MissingValue(CliFlag::ResetTo));
            }
        } else if str_eq(a, "--raw") {
            cfg.include_raw = true;
            i = i + 1;
        } else if str_eq(a, "--pretty") {
            cfg.pretty = true;
            i = i + 1;
        } else {
            let dash_led = a.unicode_len() > 0 && a.get_char(0) == '-';
            if dash_led {
                return Result::Err(CliError::UnknownArgument(args[i].clone()));
            }
            cfg.prompt = args[i].clone();
            i = i + 1;
        }
    }
    if cfg.prompt.as_str().is_empty() {
        Result::Ok(CliCommand::ShowUsage)
    } else {
        Result::Ok(CliCommand::Run(cfg))
    }
}

/// The message an error is reported with.
pub open spec fn error_message_view(e: CliErrorView) -> Seq<char> {
    match e {
        CliErrorView::MissingValue(CliFlag::Agent) => "Missing value for --agent"@,
        CliErrorView::MissingValue(CliFlag::FollowUp) => "Missing value for --follow-up <SESSION_ID>"@,
        CliErrorView::MissingValue(CliFlag::ResetTo) => "Missing value for --reset-to <MESSAGE_ID>"@,
        CliErrorView::UnknownArgument(a) => "Unknown argument: "@ + a,
    }
}

impl CliError {
    /// Renders the error for the user.
    pub fn message(&self) -> (r: String)
        ensures
            r@ == error_message_view(self@),
    {
        match self {
            CliError::MissingValue(CliFlag::Agent) => String::from_str("Missing value for --agent"),
            CliError::MissingValue(CliFlag::FollowUp) => String::from_str(
                "Missing value for --follow-up <SESSION_ID>",
            ),
            CliError::MissingValue(CliFlag::ResetTo) => String::from_str(
                "Missing value for --reset-to <MESSAGE_ID>",
            ),
            CliError::UnknownArgument(a) => String::from_str("Unknown argument: ").concat(
                a.as_str(),
            ),
        }
    }
}

} // verus!
