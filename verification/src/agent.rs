//! The closed set of supported agent kinds. Dispatch over an agent "kind" is
//! a closed tagged union, one case per agent; the per-agent executors that
//! spawn and parse a given agent's native output are external collaborators.

use vstd::prelude::*;

use crate::text::{seq_eq_nocase, str_eq_nocase};

verus! {

/// One supported coding agent.
#[derive(Clone, Copy, PartialEq, Eq, Structural, Debug)]
pub enum AgentKind {
    ClaudeCode,
    CursorAgent,
    Codex,
    Opencode,
    Gemini,
    QwenCode,
    Amp,
    Copilot,
    Droid,
}

/// The canonical name of an agent kind, as written on the command line.
pub open spec fn agent_name(k: AgentKind) -> Seq<char> {
    match k {
        AgentKind::ClaudeCode => "CLAUDE_CODE"@,
        AgentKind::CursorAgent => "CURSOR_AGENT"@,
        AgentKind::Codex => "CODEX"@,
        AgentKind::Opencode => "OPENCODE"@,
        AgentKind::Gemini => "GEMINI"@,
        AgentKind::QwenCode => "QWEN_CODE"@,
        AgentKind::Amp => "AMP"@,
        AgentKind::Copilot => "COPILOT"@,
        AgentKind::Droid => "DROID"@,
    }
}

/// The canonical name of an agent kind.
pub fn agent_name_str(k: AgentKind) -> (r: &'static str)
    ensures
        r@ == agent_name(k),
{
    match k {
        AgentKind::ClaudeCode => "CLAUDE_CODE",
        AgentKind::CursorAgent => "CURSOR_AGENT",
        AgentKind::Codex => "CODEX",
        AgentKind::Opencode => "OPENCODE",
        AgentKind::Gemini => "GEMINI",
        AgentKind::QwenCode => "QWEN_CODE",
        AgentKind::Amp => "AMP",
        AgentKind::Copilot => "COPILOT",
        AgentKind::Droid => "DROID",
    }
}

/// Which agent kind a name selects: the first kind, in declaration order,
/// whose canonical name the input matches up to ASCII case; none otherwise.
pub open spec fn spec_parse_agent(s: Seq<char>) -> Option<AgentKind> {
    if seq_eq_nocase(s, agent_name(AgentKind::ClaudeCode)) {
        Option::Some(AgentKind::ClaudeCode)
    } else if seq_eq_nocase(s, agent_name(AgentKind::CursorAgent)) {
        Option::Some(AgentKind::CursorAgent)
    } else if seq_eq_nocase(s, agent_name(AgentKind::Codex)) {
        Option::Some(AgentKind::Codex)
    } else if seq_eq_nocase(s, agent_name(AgentKind::Opencode)) {
        Option::Some(AgentKind::Opencode)
    } else if seq_eq_nocase(s, agent_name(AgentKind::Gemini)) {
        Option::Some(AgentKind::Gemini)
    } else if seq_eq_nocase(s, agent_name(AgentKind::QwenCode)) {
        Option::Some(AgentKind::QwenCode)
    } else if seq_eq_nocase(s, agent_name(AgentKind::Amp)) {
        Option::Some(AgentKind::Amp)
    } else if seq_eq_nocase(s, agent_name(AgentKind::Copilot)) {
        Option::Some(AgentKind::Copilot)
    } else if seq_eq_nocase(s, agent_name(AgentKind::Droid)) {
        Option::Some(AgentKind::Droid)
    } else {
        Option::None
    }
}

/// Parses an agent name, ignoring ASCII case.
pub fn parse_agent(s: &str) -> (r: Option<AgentKind>)
    ensures
        r == spec_parse_agent(s@),
        r matches Some(k) ==> seq_eq_nocase(s@, agent_name(k)),
{
    if str_eq_nocase(s, "CLAUDE_CODE") {
        Option::Some(AgentKind::ClaudeCode)
    } else if str_eq_nocase(s, "CURSOR_AGENT") {
        Option::Some(AgentKind::CursorAgent)
    } else if str_eq_nocase(s, "CODEX") {
        Option::Some(AgentKind::Codex)
    } else if str_eq_nocase(s, "OPENCODE") {
        Option::Some(AgentKind::Opencode)
    } else if str_eq_nocase(s, "GEMINI") {
        Option::Some(AgentKind::Gemini)
    } else if str_eq_nocase(s, "QWEN_CODE") {
        Option::Some(AgentKind::QwenCode)
    } else if str_eq_nocase(s, "AMP") {
        Option::Some(AgentKind::Amp)
    } else if str_eq_nocase(s, "COPILOT") {
        Option::Some(AgentKind::Copilot)
    } else if str_eq_nocase(s, "DROID") {
        Option::Some(AgentKind::Droid)
    } else {
        Option::None
    }
}

/// All supported agent kinds, in the order they are tried when looking for
/// an installed one.
pub fn all_agent_kinds() -> (r: Vec<AgentKind>)
    ensures
        r@ == seq![
            AgentKind::ClaudeCode,
            AgentKind::CursorAgent,
            AgentKind::Codex,
            AgentKind::Opencode,
            AgentKind::Gemini,
            AgentKind::QwenCode,
            AgentKind::Amp,
            AgentKind::Copilot,
            AgentKind::Droid,
        ],
{
    let mut r: Vec<AgentKind> = Vec::new();
    r.push(AgentKind::ClaudeCode);
    r.push(AgentKind::CursorAgent);
    r.push(AgentKind::Codex);
    r.push(AgentKind::Opencode);
    r.push(AgentKind::Gemini);
    r.push(AgentKind::QwenCode);
    r.push(AgentKind::Amp);
    r.push(AgentKind::Copilot);
    r.push(AgentKind::Droid);
    proof {
        assert(r@ =~= seq![
            AgentKind::ClaudeCode,
            AgentKind::CursorAgent,
            AgentKind::Codex,
            AgentKind::Opencode,
            AgentKind::Gemini,
            AgentKind::QwenCode,
            AgentKind::Amp,
            AgentKind::Copilot,
            AgentKind::Droid,
        ]);
    }
    r
}

} // verus!
