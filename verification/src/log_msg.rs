//! The atomic unit of the event log: a closed tagged union of everything a
//! producer can append, plus the patch-entry model carried by `JsonPatch`.

use vstd::prelude::*;

verus! {

/// One raw output channel of the supervised process.
#[derive(Clone, Copy, PartialEq, Eq, Structural, Debug)]
pub enum RawChannel {
    Stdout,
    Stderr,
}

/// Execution status attached to a tool-use transcript entry.
#[derive(Clone, Copy, PartialEq, Eq, Structural, Debug)]
pub enum ToolStatus {
    Created,
    Success,
    Failed,
}

/// Category of one normalized transcript entry.
pub enum NormalizedEntryType {
    AssistantMessage,
    SystemMessage,
    Thinking,
    ErrorMessage,
    ToolUse { tool_name: String, status: ToolStatus },
    Other { label: String },
}

/// Mathematical model of `NormalizedEntryType`: strings become `Seq<char>`.
pub enum NormalizedEntryTypeView {
    AssistantMessage,
    SystemMessage,
    Thinking,
    ErrorMessage,
    ToolUse { tool_name: Seq<char>, status: ToolStatus },
    Other { label: Seq<char> },
}

impl View for NormalizedEntryType {
    type V = NormalizedEntryTypeView;

    open spec fn view(&self) -> NormalizedEntryTypeView {
        match self {
            NormalizedEntryType::AssistantMessage => NormalizedEntryTypeView::AssistantMessage,
            NormalizedEntryType::SystemMessage => NormalizedEntryTypeView::SystemMessage,
            NormalizedEntryType::Thinking => NormalizedEntryTypeView::Thinking,
            NormalizedEntryType::ErrorMessage => NormalizedEntryTypeView::ErrorMessage,
            NormalizedEntryType::ToolUse { tool_name, status } => NormalizedEntryTypeView::ToolUse {
                tool_name: tool_name@,
                status: *status,
            },
            NormalizedEntryType::Other { label } => NormalizedEntryTypeView::Other { label: label@ },
        }
    }
}

impl Clone for NormalizedEntryType {
    fn clone(&self) -> (r: Self)
        ensures
            r@ == self@,
    {
        match self {
            NormalizedEntryType::AssistantMessage => NormalizedEntryType::AssistantMessage,
            NormalizedEntryType::SystemMessage => NormalizedEntryType::SystemMessage,
            NormalizedEntryType::Thinking => NormalizedEntryType::Thinking,
            NormalizedEntryType::ErrorMessage => NormalizedEntryType::ErrorMessage,
            NormalizedEntryType::ToolUse { tool_name, status } => NormalizedEntryType::ToolUse {
                tool_name: tool_name.clone(),
                status: *status,
            },
            NormalizedEntryType::Other { label } => NormalizedEntryType::Other {
                label: label.clone(),
            },
        }
    }
}

/// One agent-agnostic, semantically tagged piece of agent output.
pub struct NormalizedEntry {
    pub entry_type: NormalizedEntryType,
    pub content: String,
}

/// Mathematical model of `NormalizedEntry`.
pub struct NormalizedEntryView {
    pub entry_type: NormalizedEntryTypeView,
    pub content: Seq<char>,
}

impl View for NormalizedEntry {
    type V = NormalizedEntryView;

    open spec fn view(&self) -> NormalizedEntryView {
        NormalizedEntryView { entry_type: self.entry_type@, content: self.content@ }
    }
}

impl Clone for NormalizedEntry {
    fn clone(&self) -> (r: Self)
        ensures
            r@ == self@,
    {
        NormalizedEntry { entry_type: self.entry_type.clone(), content: self.content.clone() }
    }
}

/// Operation of one incremental patch entry.
#[derive(Clone, Copy, PartialEq, Eq, Structural, Debug)]
pub enum PatchOp {
    Add,
    Replace,
    Remove,
}

/// Payload of one patch entry. The `Diff` payload is opaque to projection:
/// only its entry's path is ever rendered.
pub enum PatchValue {
    NormalizedEntry(NormalizedEntry),
    Stdout(String),
    Stderr(String),
    Diff(String),
}

/// Mathematical model of `PatchValue`.
pub enum PatchValueView {
    NormalizedEntry(NormalizedEntryView),
    Stdout(Seq<char>),
    Stderr(Seq<char>),
    Diff(Seq<char>),
}

impl View for PatchValue {
    type V = PatchValueView;

    open spec fn view(&self) -> PatchValueView {
        match self {
            PatchValue::NormalizedEntry(ne) => PatchValueView::NormalizedEntry(ne@),
            PatchValue::Stdout(s) => PatchValueView::Stdout(s@),
            PatchValue::Stderr(s) => PatchValueView::Stderr(s@),
            PatchValue::Diff(s) => PatchValueView::Diff(s@),
        }
    }
}

impl Clone for PatchValue {
    fn clone(&self) -> (r: Self)
        ensures
            r@ == self@,
    {
        match self {
            PatchValue::NormalizedEntry(ne) => PatchValue::NormalizedEntry(ne.clone()),
            PatchValue::Stdout(s) => PatchValue::Stdout(s.clone()),
            PatchValue::Stderr(s) => PatchValue::Stderr(s.clone()),
            PatchValue::Diff(s) => PatchValue::Diff(s.clone()),
        }
    }
}

/// One self-describing entry of an incremental transcript patch.
pub struct PatchEntry {
    pub op: PatchOp,
    pub path: String,
    pub value: Option<PatchValue>,
}

/// Mathematical model of `PatchEntry`.
pub struct PatchEntryView {
    pub op: PatchOp,
    pub path: Seq<char>,
    pub value: Option<PatchValueView>,
}

impl View for PatchEntry {
    type V = PatchEntryView;

    open spec fn view(&self) -> PatchEntryView {
        PatchEntryView {
            op: self.op,
            path: self.path@,
            value: match &self.value {
                Option::Some(v) => Option::Some(v@),
                Option::None => Option::None,
            },
        }
    }
}

impl Clone for PatchEntry {
    fn clone(&self) -> (r: Self)
        ensures
            r@ == self@,
    {
        PatchEntry {
            op: self.op,
            path: self.path.clone(),
            value: match &self.value {
                Option::Some(v) => Option::Some(v.clone()),
                Option::None => Option::None,
            },
        }
    }
}

/// The atomic unit of the event log.
pub enum LogMsg {
    /// Identifier assigned to this agent run; enables later follow-up.
    SessionId(String),
    /// Identifier of a specific logical message within the session.
    MessageId(String),
    /// The agent signaled readiness to receive work.
    Ready,
    /// Incremental update to a normalized transcript.
    JsonPatch(Vec<PatchEntry>),
    /// Raw, unparsed process output.
    Stdout(String),
    /// Raw, unparsed process error output.
    Stderr(String),
    /// Terminal marker: no further messages are expected.
    Finished,
}

/// Mathematical model of `LogMsg`.
pub enum LogMsgView {
    SessionId(Seq<char>),
    MessageId(Seq<char>),
    Ready,
    JsonPatch(Seq<PatchEntryView>),
    Stdout(Seq<char>),
    Stderr(Seq<char>),
    Finished,
}

impl View for LogMsg {
    type V = LogMsgView;

    open spec fn view(&self) -> LogMsgView {
        match self {
            LogMsg::SessionId(s) => LogMsgView::SessionId(s@),
            LogMsg::MessageId(s) => LogMsgView::MessageId(s@),
            LogMsg::Ready => LogMsgView::Ready,
            LogMsg::JsonPatch(entries) => LogMsgView::JsonPatch(
                entries@.map_values(|e: PatchEntry| e@),
            ),
            LogMsg::Stdout(s) => LogMsgView::Stdout(s@),
            LogMsg::Stderr(s) => LogMsgView::Stderr(s@),
            LogMsg::Finished => LogMsgView::Finished,
        }
    }
}

impl LogMsg {
    /// Whether this message came straight off a raw process channel, as
    /// opposed to a normalized event.
    pub open spec fn spec_is_raw(self) -> bool {
        self@ is Stdout || self@ is Stderr
    }

    /// Raw-channel messages are `Stdout` and `Stderr`; everything else is a
    /// normalized event.
    pub fn is_raw(&self) -> (r: bool)
        ensures
            r == self.spec_is_raw(),
    {
        match self {
            LogMsg::Stdout(_) => true,
            LogMsg::Stderr(_) => true,
            _ => false,
        }
    }
}

impl Clone for LogMsg {
    fn clone(&self) -> (r: Self)
        ensures
            r@ == self@,
    {
        match self {
            LogMsg::SessionId(s) => LogMsg::SessionId(s.clone()),
            LogMsg::MessageId(s) => LogMsg::MessageId(s.clone()),
            LogMsg::Ready => LogMsg::Ready,
            LogMsg::JsonPatch(entries) => LogMsg::JsonPatch(clone_entries(entries)),
            LogMsg::Stdout(s) => LogMsg::Stdout(s.clone()),
            LogMsg::Stderr(s) => LogMsg::Stderr(s.clone()),
            LogMsg::Finished => LogMsg::Finished,
        }
    }
}

/// Element-wise clone of a patch-entry list, preserving the model.
fn clone_entries(entries: &Vec<PatchEntry>) -> (r: Vec<PatchEntry>)
    ensures
        r@.map_values(|e: PatchEntry| e@) == entries@.map_values(|e: PatchEntry| e@),
{
    let mut r: Vec<PatchEntry> = Vec::new();
    let mut i: usize = 0;
    while i < entries.len()
        invariant
            i <= entries@.len(),
            r@.len() == i,
            forall|j: int| 0 <= j < i ==> r@[j]@ == entries@[j]@,
        decreases entries@.len() - i,
    {
        r.push(entries[i].clone());
        i = i + 1;
    }
    proof {
        assert(r@.map_values(|e: PatchEntry| e@) =~= entries@.map_values(|e: PatchEntry| e@));
    }
    r
}

} // verus!
