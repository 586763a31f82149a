//! The session orchestrator's decision core. While streaming, the
//! orchestrator races the one-shot process-exit notification against the next
//! item of a replay-plus-live subscription; `step` decides, for each event
//! that wins the race, the next state and what to do. Process death always
//! produces a clean terminal signal — the backstop — even if no `Finished`
//! message is ever appended; once terminated, nothing further is processed.

use vstd::prelude::*;

use crate::log_msg::{LogMsg, LogMsgView};
use crate::msg_store::{has_finished, observable_view};

verus! {

/// Lifecycle of one orchestrated session.
#[derive(Clone, Copy, PartialEq, Eq, Structural, Debug)]
pub enum SessionState {
    /// The external process is being started; no events are raced yet.
    Spawning,
    /// Exit notification and subscription items are being raced.
    Streaming,
    /// Consumption has stopped; pumps and process handle are released.
    Terminated,
}

/// One outcome of the race: whichever of the two sources became ready first.
pub enum SessionEvent {
    /// The one-shot process-exit notification fired.
    ProcessExited,
    /// The subscription yielded a message.
    Delivered(LogMsg),
    /// The subscription yielded a transient delivery error for one item.
    DeliveryFailed,
    /// The subscription ended: the store will never append again.
    StreamClosed,
}

/// Mathematical model of `SessionEvent`.
pub enum SessionEventView {
    ProcessExited,
    Delivered(LogMsgView),
    DeliveryFailed,
    StreamClosed,
}

impl View for SessionEvent {
    type V = SessionEventView;

    open spec fn view(&self) -> SessionEventView {
        match self {
            SessionEvent::ProcessExited => SessionEventView::ProcessExited,
            SessionEvent::Delivered(m) => SessionEventView::Delivered(m@),
            SessionEvent::DeliveryFailed => SessionEventView::DeliveryFailed,
            SessionEvent::StreamClosed => SessionEventView::StreamClosed,
        }
    }
}

impl Clone for SessionEvent {
    fn clone(&self) -> (r: Self)
        ensures
            r@ == self@,
    {
        match self {
            SessionEvent::ProcessExited => SessionEvent::ProcessExited,
            SessionEvent::Delivered(m) => SessionEvent::Delivered(m.clone()),
            SessionEvent::DeliveryFailed => SessionEvent::DeliveryFailed,
            SessionEvent::StreamClosed => SessionEvent::StreamClosed,
        }
    }
}

/// What the orchestrator does in reaction to one event.
pub enum Directive {
    /// Append a terminal marker to the store (the backstop).
    AppendFinished,
    /// Route the message to display.
    Emit(LogMsg),
    /// Do nothing and keep racing.
    Skip,
}

/// Mathematical model of `Directive`.
pub enum DirectiveView {
    AppendFinished,
    Emit(LogMsgView),
    Skip,
}

impl View for Directive {
    type V = DirectiveView;

    open spec fn view(&self) -> DirectiveView {
        match self {
            Directive::AppendFinished => DirectiveView::AppendFinished,
            Directive::Emit(m) => DirectiveView::Emit(m@),
            Directive::Skip => DirectiveView::Skip,
        }
    }
}

/// The transition function of the orchestrator, as a mathematical function:
/// exit or end-of-stream terminate with the backstop append; a delivered
/// terminal marker terminates after being emitted; a delivery error is
/// skipped; any other message is emitted and streaming continues. Nothing is
/// processed before streaming begins or after termination.
pub open spec fn spec_step(s: SessionState, e: SessionEventView) -> (SessionState, DirectiveView) {
    match s {
        SessionState::Spawning => (SessionState::Spawning, DirectiveView::Skip),
        SessionState::Terminated => (SessionState::Terminated, DirectiveView::Skip),
        SessionState::Streaming => match e {
            SessionEventView::ProcessExited => (
                SessionState::Terminated,
                DirectiveView::AppendFinished,
            ),
            SessionEventView::StreamClosed => (
                SessionState::Terminated,
                DirectiveView::AppendFinished,
            ),
            SessionEventView::DeliveryFailed => (SessionState::Streaming, DirectiveView::Skip),
            SessionEventView::Delivered(m) => if m is Finished {
                (SessionState::Terminated, DirectiveView::Emit(m))
            } else {
                (SessionState::Streaming, DirectiveView::Emit(m))
            },
        },
    }
}

/// Decides the next state and action for the event that won the race.
/// The exit backstop is unconditional: while streaming, process exit always
/// terminates and always appends a terminal marker, whether or not one was
/// ever delivered.
pub fn step(s: SessionState, e: SessionEvent) -> (r: (SessionState, Directive))
    ensures
        (r.0, r.1@) == spec_step(s, e@),
        s is Streaming && e@ is ProcessExited ==> r.0 is Terminated && r.1 is AppendFinished,
        s is Terminated ==> r.0 is Terminated && r.1 is Skip,
{
    match s {
        SessionState::Spawning => (SessionState::Spawning, Directive::Skip),
        SessionState::Terminated => (SessionState::Terminated, Directive::Skip),
        SessionState::Streaming => match e {
            SessionEvent::ProcessExited => (SessionState::Terminated, Directive::AppendFinished),
            SessionEvent::StreamClosed => (SessionState::Terminated, Directive::AppendFinished),
            SessionEvent::DeliveryFailed => (SessionState::Streaming, Directive::Skip),
            SessionEvent::Delivered(m) => {
                let finished = matches!(m, LogMsg::Finished);
                if finished {
                    (SessionState::Terminated, Directive::Emit(m))
                } else {
                    (SessionState::Streaming, Directive::Emit(m))
                }
            }
        },
    }
}

/// Enters the streaming phase once the process is spawned and the pumps are
/// attached; from any later state this changes nothing.
pub fn begin_streaming(s: SessionState) -> (r: SessionState)
    ensures
        s is Spawning ==> r is Streaming,
        !(s is Spawning) ==> r == s,
{
    match s {
        SessionState::Spawning => SessionState::Streaming,
        other => other,
    }
}

/// The whole race loop as a mathematical function: fold `spec_step` over the
/// events in arrival order, stopping at termination.
pub open spec fn spec_run(s: SessionState, events: Seq<SessionEventView>) -> (
    Seq<DirectiveView>,
    SessionState,
)
    decreases events.len(),
{
    if s is Terminated || events.len() == 0 {
        (Seq::<DirectiveView>::empty(), s)
    } else {
        let sd = spec_step(s, events.first());
        let rest = spec_run(sd.0, events.drop_first());
        (seq![sd.1] + rest.0, rest.1)
    }
}

/// Runs the orchestrator over the events in arrival order, from `s0`,
/// stopping as soon as the session terminates; returns the directives issued
/// and the final state.
pub fn run_events(s0: SessionState, events: &Vec<SessionEvent>) -> (r: (Vec<Directive>, SessionState))
    ensures
        r.0@.map_values(|d: Directive| d@) == spec_run(s0, events@.map_values(|e: SessionEvent| e@)).0,
        r.1 == spec_run(s0, events@.map_values(|e: SessionEvent| e@)).1,
{
    let ghost evs = events@.map_values(|e: SessionEvent| e@);
    let mut out: Vec<Directive> = Vec::new();
    let mut s = s0;
    let mut i: usize = 0;
    proof {
        assert(evs.skip(0) =~= evs);
        assert(out@.map_values(|d: Directive| d@) + spec_run(s0, evs).0 =~= spec_run(s0, evs).0);
    }
    loop
        invariant
            i <= events@.len(),
            evs == events@.map_values(|e: SessionEvent| e@),
            spec_run(s0, evs).0 == out@.map_values(|d: Directive| d@) + spec_run(
                s,
                evs.skip(i as int),
            ).0,
            spec_run(s0, evs).1 == spec_run(s, evs.skip(i as int)).1,
        ensures
            spec_run(s, evs.skip(i as int)).0 == Seq::<DirectiveView>::empty(),
            spec_run(s, evs.skip(i as int)).1 == s,
            spec_run(s0, evs).0 == out@.map_values(|d: Directive| d@) + Seq::<
                DirectiveView,
            >::empty(),
            spec_run(s0, evs).1 == s,
        decreases events@.len() - i,
    {
        if i >= events.len() {
            proof {
                assert(evs.skip(i as int).len() == 0);
            }
            break;
        }
        if matches!(s, SessionState::Terminated) {
            break;
        }
        let ghost pending = evs.skip(i as int);
        let e = events[i].clone();
        let sd = step(s, e);
        proof {
            assert(pending.first() == evs[i as int]);
            assert(pending.drop_first() =~= evs.skip(i + 1));
            assert(spec_run(s, pending).0 == seq![sd.1@] + spec_run(sd.0, evs.skip(i + 1)).0);
            assert(out@.map_values(|d: Directive| d@).push(sd.1@) =~= out@.map_values(
                |d: Directive| d@,
            ) + seq![sd.1@]);
            assert((out@.map_values(|d: Directive| d@) + seq![sd.1@]) + spec_run(
                sd.0,
                evs.skip(i + 1),
            ).0 =~= out@.map_values(|d: Directive| d@) + (seq![sd.1@] + spec_run(
                sd.0,
                evs.skip(i + 1),
            ).0));
        }
        let ghost prev_mapped = out@.map_values(|d: Directive| d@);
        let next_state = sd.0;
        out.push(sd.1);
        proof {
            assert(out@.map_values(|d: Directive| d@) =~= prev_mapped + seq![sd.1@]);
        }
        s = next_state;
        i = i + 1;
    }
    proof {
        assert(spec_run(s0, evs).0 =~= out@.map_values(|d: Directive| d@));
    }
    (out, s)
}

/// A directive that carries the terminal signal to the consumer's view:
/// either the backstop append or the delivery of a terminal marker.
pub open spec fn is_terminal_directive(d: DirectiveView) -> bool {
    ||| d is AppendFinished
    ||| (d matches DirectiveView::Emit(m) && m is Finished)
}

/// How many terminal-signal directives stand in a directive sequence.
pub open spec fn count_terminal(ds: Seq<DirectiveView>) -> nat
    decreases ds.len(),
{
    if ds.len() == 0 {
        0
    } else {
        (if is_terminal_directive(ds.first()) {
            1nat
        } else {
            0nat
        }) + count_terminal(ds.drop_first())
    }
}

/// Exit backstop: when the exit notification wins the race before any
/// terminal marker was delivered, the orchestrator terminates at once and
/// issues exactly one backstop append — nothing after it is processed.
pub proof fn lemma_exit_backstop(events: Seq<SessionEventView>)
    requires
        events.len() > 0,
        events.first() is ProcessExited,
    ensures
        spec_run(SessionState::Streaming, events).1 is Terminated,
        spec_run(SessionState::Streaming, events).0 == seq![DirectiveView::AppendFinished],
{
    let sd = spec_step(SessionState::Streaming, events.first());
    assert(spec_run(sd.0, events.drop_first()).0 == Seq::<DirectiveView>::empty());
    assert(seq![DirectiveView::AppendFinished] + Seq::<DirectiveView>::empty()
        =~= seq![DirectiveView::AppendFinished]);
}

/// A store's messages, delivered in order.
pub open spec fn as_delivered(log: Seq<LogMsgView>) -> Seq<SessionEventView> {
    log.map_values(|m: LogMsgView| SessionEventView::Delivered(m))
}

/// What a subscriber's delivery stream makes the orchestrator do: emit
/// exactly the store's observable view — everything up to and including the
/// first terminal marker — and terminate exactly when a terminal marker was
/// appended. A terminal marker is thus the last thing any consumer processes.
pub proof fn lemma_consumer_trace(log: Seq<LogMsgView>)
    ensures
        spec_run(SessionState::Streaming, as_delivered(log)).0 == observable_view(log).map_values(
            |m: LogMsgView| DirectiveView::Emit(m),
        ),
        spec_run(SessionState::Streaming, as_delivered(log)).1 is Terminated <==> has_finished(log),
    decreases log.len(),
{
    let events = as_delivered(log);
    let emitted = observable_view(log).map_values(|m: LogMsgView| DirectiveView::Emit(m));
    if log.len() == 0 {
        assert(spec_run(SessionState::Streaming, events).0 =~= emitted);
        assert(!has_finished(log));
    } else {
        assert(events.first() == SessionEventView::Delivered(log.first()));
        assert(events.drop_first() =~= as_delivered(log.drop_first()));
        let sd = spec_step(SessionState::Streaming, events.first());
        if log.first() is Finished {
            assert(sd.0 is Terminated);
            assert(spec_run(sd.0, events.drop_first()).0 == Seq::<DirectiveView>::empty());
            assert(spec_run(SessionState::Streaming, events).0 =~= emitted);
            assert(has_finished(log));
        } else {
            let rest = log.drop_first();
            lemma_consumer_trace(rest);
            assert(spec_run(SessionState::Streaming, events).0 =~= seq![
                DirectiveView::Emit(log.first()),
            ] + spec_run(SessionState::Streaming, as_delivered(rest)).0);
            assert(emitted =~= seq![DirectiveView::Emit(log.first())] + observable_view(rest)
                .map_values(|m: LogMsgView| DirectiveView::Emit(m)));
            if has_finished(log) {
                let i = choose|i: int| 0 <= i < log.len() && log[i] is Finished;
                assert(rest[i - 1] is Finished);
                assert(has_finished(rest));
            } else {
                assert(forall|i: int| 0 <= i < rest.len() ==> rest[i] == log[i + 1]);
                assert(!has_finished(rest));
            }
        }
    }
}

/// Exactly one clean shutdown: whatever events arrive in whatever order, a
/// run issues at most one terminal-signal directive, and issuing one means
/// the session has terminated.
pub proof fn lemma_single_clean_shutdown(s: SessionState, events: Seq<SessionEventView>)
    ensures
        count_terminal(spec_run(s, events).0) <= 1,
        count_terminal(spec_run(s, events).0) == 1 ==> spec_run(s, events).1 is Terminated,
    decreases events.len(),
{
    if s is Terminated || events.len() == 0 {
    } else {
        let sd = spec_step(s, events.first());
        let rest = spec_run(sd.0, events.drop_first());
        let ds = seq![sd.1] + rest.0;
        assert(ds.first() == sd.1);
        assert(ds.drop_first() =~= rest.0);
        lemma_single_clean_shutdown(sd.0, events.drop_first());
        if is_terminal_directive(sd.1) {
            assert(sd.0 is Terminated);
            assert(rest.0 == Seq::<DirectiveView>::empty());
            assert(count_terminal(rest.0) == 0);
        }
    }
}

} // verus!
