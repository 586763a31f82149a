//! The patch projector: stateless, presentation-only rendering of log
//! messages into human-readable lines. Each patch entry is self-describing
//! and inspected independently; no backing document is reconstructed, so a
//! `remove` entry is displayed structurally (its path), never content-diffed.

use vstd::prelude::*;
use vstd::string::*;

use crate::log_msg::{
    LogMsg, LogMsgView, NormalizedEntryType, NormalizedEntryTypeView, PatchEntry, PatchEntryView,
    PatchOp, PatchValue, PatchValueView, ToolStatus,
};
use crate::text::{trim_end_str, trimmed_end};

verus! {

/// Label of a patch operation.
pub open spec fn op_label(op: PatchOp) -> Seq<char> {
    match op {
        PatchOp::Add => "add"@,
        PatchOp::Replace => "replace"@,
        PatchOp::Remove => "remove"@,
    }
}

/// Name of a tool-use status.
pub open spec fn status_label(status: ToolStatus) -> Seq<char> {
    match status {
        ToolStatus::Created => "Created"@,
        ToolStatus::Success => "Success"@,
        ToolStatus::Failed => "Failed"@,
    }
}

/// A display line: the event marker, a tag, the operation label, a body.
pub open spec fn display_line(tag: Seq<char>, kind: Seq<char>, body: Seq<char>) -> Seq<char> {
    "[EVENT]["@ + tag + "]["@ + kind + "] "@ + body
}

/// Body of a tool-use line: tool name, status, trimmed content.
pub open spec fn tool_body(tool_name: Seq<char>, status: ToolStatus, content: Seq<char>) -> Seq<
    char,
> {
    tool_name + " ("@ + status_label(status) + ") :: "@ + trimmed_end(content)
}

/// The tag a normalized entry is printed under.
pub open spec fn entry_tag(t: NormalizedEntryTypeView) -> Seq<char> {
    match t {
        NormalizedEntryTypeView::AssistantMessage => "assistant"@,
        NormalizedEntryTypeView::SystemMessage => "system"@,
        NormalizedEntryTypeView::Thinking => "thinking"@,
        NormalizedEntryTypeView::ErrorMessage => "error"@,
        NormalizedEntryTypeView::ToolUse { .. } => "tool"@,
        NormalizedEntryTypeView::Other { label } => "entry:"@ + label,
    }
}

/// The line one patch entry projects to. A `Diff` payload is opaque: only
/// the entry's path is rendered; an absent payload is marked as such.
pub open spec fn entry_line(e: PatchEntryView) -> Seq<char> {
    let kind = op_label(e.op);
    match e.value {
        Option::Some(PatchValueView::NormalizedEntry(ne)) => match ne.entry_type {
            NormalizedEntryTypeView::ToolUse { tool_name, status } => display_line(
                "tool"@,
                kind,
                tool_body(tool_name, status, ne.content),
            ),
            _ => display_line(entry_tag(ne.entry_type), kind, trimmed_end(ne.content)),
        },
        Option::Some(PatchValueView::Stdout(s)) => display_line("stdout"@, kind, trimmed_end(s)),
        Option::Some(PatchValueView::Stderr(s)) => display_line("stderr"@, kind, trimmed_end(s)),
        Option::Some(PatchValueView::Diff(_)) => display_line("diff"@, kind, "path="@ + e.path),
        Option::None => display_line("patch"@, kind, "path="@ + e.path + " (no value)"@),
    }
}

/// The lines a whole log message is pretty-printed as: one line per patch
/// entry for a patch, one line for anything else.
pub open spec fn message_lines(m: LogMsgView) -> Seq<Seq<char>> {
    match m {
        LogMsgView::SessionId(id) => seq!["[EVENT][session] "@ + id],
        LogMsgView::MessageId(id) => seq!["[EVENT][message_id] "@ + id],
        LogMsgView::Ready => seq!["[EVENT][ready]"@],
        LogMsgView::Finished => seq!["[EVENT][finished]"@],
        LogMsgView::JsonPatch(entries) => entries.map_values(|e: PatchEntryView| entry_line(e)),
        LogMsgView::Stdout(s) => seq!["[EVENT][stdout] "@ + trimmed_end(s)],
        LogMsgView::Stderr(s) => seq!["[EVENT][stderr] "@ + trimmed_end(s)],
    }
}

/// Whether a message is displayed at all: raw-channel messages are suppressed
/// unless raw mode is on; normalized events always show.
pub fn should_display(m: &LogMsg, include_raw: bool) -> (r: bool)
    ensures
        r == (include_raw || !(m@ is Stdout || m@ is Stderr)),
{
    include_raw || !m.is_raw()
}

fn op_label_str(op: PatchOp) -> (r: &'static str)
    ensures
        r@ == op_label(op),
{
    match op {
        PatchOp::Add => "add",
        PatchOp::Replace => "replace",
        PatchOp::Remove => "remove",
    }
}

fn status_label_str(status: ToolStatus) -> (r: &'static str)
    ensures
        r@ == status_label(status),
{
    match status {
        ToolStatus::Created => "Created",
        ToolStatus::Success => "Success",
        ToolStatus::Failed => "Failed",
    }
}

fn build_display_line(tag: &str, kind: &str, body: &str) -> (r: String)
    ensures
        r@ == display_line(tag@, kind@, body@),
{
    let mut r = String::from_str("[EVENT][");
    r.append(tag);
    r.append("][");
    r.append(kind);
    r.append("] ");
    r.append(body);
    r
}

/// Projects one patch entry to its display line.
pub fn project_entry(e: &PatchEntry) -> (line: String)
    ensures
        line@ == entry_line(e@),
{
    let kind = op_label_str(e.op);
    match &e.value {
        Option::Some(PatchValue::NormalizedEntry(ne)) => match &ne.entry_type {
            NormalizedEntryType::AssistantMessage => {
                let body = trim_end_str(ne.content.as_str());
                build_display_line("assistant", kind, body.as_str())
            }
            NormalizedEntryType::SystemMessage => {
                let body = trim_end_str(ne.content.as_str());
                build_display_line("system", kind, body.as_str())
            }
            NormalizedEntryType::Thinking => {
                let body = trim_end_str(ne.content.as_str());
                build_display_line("thinking", kind, body.as_str())
            }
            NormalizedEntryType::ErrorMessage => {
                let body = trim_end_str(ne.content.as_str());
                build_display_line("error", kind, body.as_str())
            }
            NormalizedEntryType::ToolUse { tool_name, status } => {
                let trimmed = trim_end_str(ne.content.as_str());
                let mut body = tool_name.clone();
                body.append(" (");
                body.append(status_label_str(*status));
                body.append(") :: ");
                body.append(trimmed.as_str());
                build_display_line("tool", kind, body.as_str())
            }
            NormalizedEntryType::Other { label } => {
                let mut tag = String::from_str("entry:");
                tag.append(label.as_str());
                let body = trim_end_str(ne.content.as_str());
                build_display_line(tag.as_str(), kind, body.as_str())
            }
        },
        Option::Some(PatchValue::Stdout(s)) => {
            let body = trim_end_str(s.as_str());
            build_display_line("stdout", kind, body.as_str())
        }
        Option::Some(PatchValue::Stderr(s)) => {
            let body = trim_end_str(s.as_str());
            build_display_line("stderr", kind, body.as_str())
        }
        Option::Some(PatchValue::Diff(_)) => {
            let mut body = String::from_str("path=");
            body.append(e.path.as_str());
            build_display_line("diff", kind, body.as_str())
        }
        Option::None => {
            let mut body = String::from_str("path=");
            body.append(e.path.as_str());
            body.append(" (no value)");
            build_display_line("patch", kind, body.as_str())
        }
    }
}

/// Pretty-prints one log message: one line per patch entry for a patch, one
/// line for anything else.
pub fn pretty_lines(m: &LogMsg) -> (r: Vec<String>)
    ensures
        r@.map_values(|s: String| s@) == message_lines(m@),
{
    let mut r: Vec<String> = Vec::new();
    match m {
        LogMsg::SessionId(id) => {
            let mut line = String::from_str("[EVENT][session] ");
            line.append(id.as_str());
            r.push(line);
        }
        LogMsg::MessageId(id) => {
            let mut line = String::from_str("[EVENT][message_id] ");
            line.append(id.as_str());
            r.push(line);
        }
        LogMsg::Ready => {
            r.push(String::from_str("[EVENT][ready]"));
        }
        LogMsg::Finished => {
            r.push(String::from_str("[EVENT][finished]"));
        }
        LogMsg::JsonPatch(entries) => {
            let mut i: usize = 0;
            let ghost entry_views = entries@.map_values(|e: PatchEntry| e@);
            while i < entries.len()
                invariant
                    i <= entries@.len(),
                    entry_views == entries@.map_values(|e: PatchEntry| e@),
                    r@.len() == i,
                    forall|j: int| 0 <= j < i ==> r@[j]@ == entry_line(entry_views[j]),
                decreases entries@.len() - i,
            {
                r.push(project_entry(&entries[i]));
                i = i + 1;
            }
        }
        LogMsg::Stdout(s) => {
            let body = trim_end_str(s.as_str());
            let mut line = String::from_str("[EVENT][stdout] ");
            line.append(body.as_str());
            r.push(line);
        }
        LogMsg::Stderr(s) => {
            let body = trim_end_str(s.as_str());
            let mut line = String::from_str("[EVENT][stderr] ");
            line.append(body.as_str());
            r.push(line);
        }
    }
    proof {
        assert(r@.map_values(|s: String| s@) =~= message_lines(m@));
    }
    r
}

} // verus!
