//! The event log store: an append-only, order-preserving sequence of log
//! messages with replay-plus-live subscriptions. Every subscriber observes
//! the identical total order; a fresh subscription replays the whole history
//! and then continues seamlessly with later appends, with no gap and no
//! duplicate at the hand-off.
//!
//! In-process, all mutation goes through `&mut MsgStore`, which serializes
//! writers; a `Subscription` is a pure read position and never blocks a
//! writer.

use vstd::prelude::*;

use crate::log_msg::{LogMsg, LogMsgView, PatchEntry};

verus! {

/// Append-only, order-preserving buffer of log messages for one session.
pub struct MsgStore {
    log: Vec<LogMsg>,
}

impl View for MsgStore {
    type V = Seq<LogMsgView>;

    closed spec fn view(&self) -> Seq<LogMsgView> {
        self.log@.map_values(|m: LogMsg| m@)
    }
}

/// A per-consumer read position into one store's sequence. It owns no
/// messages, only the index of the next message to deliver.
pub struct Subscription {
    pos: usize,
}

impl Subscription {
    /// Index of the next message this subscription will deliver.
    pub closed spec fn position(self) -> int {
        self.pos as int
    }
}

impl MsgStore {
    /// An empty store: no messages have been appended yet.
    pub fn new() -> (r: MsgStore)
        ensures
            r@ == Seq::<LogMsgView>::empty(),
    {
        let r = MsgStore { log: Vec::new() };
        proof {
            assert(r@ =~= Seq::<LogMsgView>::empty());
        }
        r
    }

    /// Number of messages appended so far.
    pub fn len(&self) -> (n: usize)
        ensures
            n == self@.len(),
    {
        self.log.len()
    }

    /// Appends `msg` at the end of the sequence, visible to all current and
    /// future subscribers. Nothing already appended moves.
    pub fn append(&mut self, msg: LogMsg)
        ensures
            final(self)@ == old(self)@.push(msg@),
    {
        let ghost before = self.log@;
        self.log.push(msg);
        proof {
            assert(self@ =~= old(self)@.push(self.log@[before.len() as int]@));
        }
    }

    /// Appends a raw-stdout message.
    pub fn push_stdout(&mut self, text: String)
        ensures
            final(self)@ == old(self)@.push(LogMsgView::Stdout(text@)),
    {
        self.append(LogMsg::Stdout(text));
    }

    /// Appends a raw-stderr message.
    pub fn push_stderr(&mut self, text: String)
        ensures
            final(self)@ == old(self)@.push(LogMsgView::Stderr(text@)),
    {
        self.append(LogMsg::Stderr(text));
    }

    /// Appends the terminal marker. Appending it more than once is permitted
    /// and does not disturb the order of anything already appended.
    pub fn push_finished(&mut self)
        ensures
            final(self)@ == old(self)@.push(LogMsgView::Finished),
    {
        self.append(LogMsg::Finished);
    }

    /// Appends an incremental transcript patch.
    pub fn push_patch(&mut self, entries: Vec<PatchEntry>)
        ensures
            final(self)@ == old(self)@.push(
                LogMsgView::JsonPatch(entries@.map_values(|e: PatchEntry| e@)),
            ),
    {
        self.append(LogMsg::JsonPatch(entries));
    }

    /// A new subscription positioned at the very start of the sequence: its
    /// replay covers every message appended so far, and it then continues
    /// with every later append.
    pub fn subscribe_from_start(&self) -> (s: Subscription)
        ensures
            s.position() == 0,
    {
        Subscription { pos: 0 }
    }

    /// Delivers the next message at the subscription's position, or `None`
    /// when the subscriber has caught up with everything appended so far.
    /// Delivery never reorders: position `i` always yields the `i`-th message
    /// of the store's sequence.
    pub fn next(&self, sub: &mut Subscription) -> (r: Option<LogMsg>)
        ensures
            old(sub).position() < self@.len() ==> {
                &&& r matches Some(m) && m@ == self@[old(sub).position()]
                &&& final(sub).position() == old(sub).position() + 1
            },
            old(sub).position() >= self@.len() ==> {
                &&& r is None
                &&& final(sub).position() == old(sub).position()
            },
    {
        if sub.pos < self.log.len() {
            let m = self.log[sub.pos].clone();
            sub.pos = sub.pos + 1;
            Some(m)
        } else {
            None
        }
    }

    /// Drains everything currently available to this subscription, in order:
    /// exactly the store's messages from the subscription's position to its
    /// current end. On a subscription taken with `subscribe_from_start` this
    /// is the full replay.
    pub fn collect_pending(&self, sub: &mut Subscription) -> (r: Vec<LogMsg>)
        requires
            old(sub).position() <= self@.len(),
        ensures
            r@.map_values(|m: LogMsg| m@) == self@.skip(old(sub).position()),
            final(sub).position() == self@.len(),
    {
        let mut r: Vec<LogMsg> = Vec::new();
        loop
            invariant
                old(sub).position() <= sub.position() <= self@.len(),
                r@.len() == sub.position() - old(sub).position(),
                forall|j: int| 0 <= j < r@.len() ==> r@[j]@ == self@[old(sub).position() + j],
            ensures
                sub.position() == self@.len(),
                r@.len() == sub.position() - old(sub).position(),
                forall|j: int| 0 <= j < r@.len() ==> r@[j]@ == self@[old(sub).position() + j],
            decreases self@.len() - sub.position(),
        {
            match self.next(sub) {
                Some(m) => {
                    r.push(m);
                }
                None => {
                    break;
                }
            }
        }
        proof {
            assert(r@.map_values(|m: LogMsg| m@) =~= self@.skip(old(sub).position()));
        }
        r
    }

    /// The messages a consumer actually processes: every message up to and
    /// including the first terminal marker, or the whole sequence when no
    /// terminal marker has been appended.
    pub fn observed(&self) -> (r: Vec<LogMsg>)
        ensures
            r@.map_values(|m: LogMsg| m@) == observable_view(self@),
    {
        let ghost log = self@;
        let mut r: Vec<LogMsg> = Vec::new();
        let mut sub = self.subscribe_from_start();
        loop
            invariant_except_break
                forall|j: int| 0 <= j < sub.position() ==> !(log[j] is Finished),
            invariant
                0 <= sub.position() <= log.len(),
                log == self@,
                r@.len() == sub.position(),
                forall|j: int| 0 <= j < r@.len() ==> r@[j]@ == log[j],
            ensures
                r@.map_values(|m: LogMsg| m@) == observable_view(log),
            decreases log.len() - sub.position(),
        {
            let ghost k = sub.position();
            match self.next(&mut sub) {
                Some(m) => {
                    let done = matches!(m, LogMsg::Finished);
                    r.push(m);
                    if done {
                        proof {
                            lemma_observable_split(log, k);
                            assert(log.skip(k).first() is Finished);
                            assert(observable_view(log.skip(k)) =~= seq![LogMsgView::Finished]);
                            assert(r@.map_values(|m: LogMsg| m@) =~= log.take(k).push(
                                LogMsgView::Finished,
                            ));
                            assert(observable_view(log) =~= log.take(k).push(
                                LogMsgView::Finished,
                            ));
                        }
                        break;
                    }
                }
                None => {
                    proof {
                        lemma_observable_split(log, log.len() as int);
                        assert(r@.map_values(|m: LogMsg| m@) =~= log);
                        assert(observable_view(log) =~= log);
                    }
                    break;
                }
            }
        }
        r
    }
}

/// How many times message `m` occurs in `log`.
pub open spec fn count_of(log: Seq<LogMsgView>, m: LogMsgView) -> nat
    decreases log.len(),
{
    if log.len() == 0 {
        0
    } else {
        count_of(log.drop_last(), m) + if log.last() == m {
            1nat
        } else {
            0nat
        }
    }
}

/// Whether a terminal marker stands anywhere in `log`.
pub open spec fn has_finished(log: Seq<LogMsgView>) -> bool {
    exists|i: int| 0 <= i < log.len() && log[i] is Finished
}

/// What a consumer observes of `log`: everything up to and including the
/// first terminal marker, or all of `log` when there is none. Late appends
/// after the first terminal marker are tolerated but never observed.
pub open spec fn observable_view(log: Seq<LogMsgView>) -> Seq<LogMsgView>
    decreases log.len(),
{
    if log.len() == 0 {
        Seq::empty()
    } else if log.first() is Finished {
        seq![LogMsgView::Finished]
    } else {
        seq![log.first()] + observable_view(log.drop_first())
    }
}

/// Appending one message adds exactly one occurrence of it and none of
/// anything else.
pub proof fn lemma_count_push(log: Seq<LogMsgView>, v: LogMsgView, m: LogMsgView)
    ensures
        count_of(log.push(v), m) == count_of(log, m) + if v == m {
            1nat
        } else {
            0nat
        },
{
    assert(log.push(v).drop_last() =~= log);
}

/// A count of zero means the message stands nowhere in the log.
pub proof fn lemma_count_zero(log: Seq<LogMsgView>, m: LogMsgView)
    ensures
        count_of(log, m) == 0 <==> (forall|i: int| 0 <= i < log.len() ==> log[i] != m),
    decreases log.len(),
{
    if log.len() > 0 {
        lemma_count_zero(log.drop_last(), m);
        assert(forall|i: int| 0 <= i < log.len() - 1 ==> log.drop_last()[i] == log[i]);
    }
}

/// Replay correctness: a subscription taken after the appends in `log` first
/// replays exactly `log`, in append order, and then continues with exactly
/// the messages appended afterwards.
pub proof fn lemma_replay_then_live(log: Seq<LogMsgView>, live: Seq<LogMsgView>)
    ensures
        (log + live).take(log.len() as int) == log,
        (log + live).skip(log.len() as int) == live,
{
    assert((log + live).take(log.len() as int) =~= log);
    assert((log + live).skip(log.len() as int) =~= live);
}

/// No gap and no duplicate at the replay/live hand-off: wherever the boundary
/// `k` falls relative to the append of `m`, the replayed prefix and the live
/// suffix together are exactly the log, so a message appended exactly once is
/// delivered exactly once.
pub proof fn lemma_handoff_exactly_once(log: Seq<LogMsgView>, m: LogMsgView, k: int)
    requires
        0 <= k <= log.len() + 1,
        count_of(log, m) == 0,
    ensures
        log.push(m).take(k) + log.push(m).skip(k) == log.push(m),
        count_of(log.push(m).take(k) + log.push(m).skip(k), m) == 1,
{
    assert(log.push(m).take(k) + log.push(m).skip(k) =~= log.push(m));
    lemma_count_push(log, m, m);
}

/// Multi-subscriber consistency: two subscribers that have consumed `i` and
/// `j` messages of the same log agree on the common prefix, whatever their
/// subscribe times; the slower view is a prefix of the faster one.
pub proof fn lemma_multi_subscriber_consistency(log: Seq<LogMsgView>, i: int, j: int)
    requires
        0 <= i <= j <= log.len(),
    ensures
        log.take(j).take(i) == log.take(i),
        forall|p: int| 0 <= p < i ==> log.take(i)[p] == log.take(j)[p],
{
    assert(log.take(j).take(i) =~= log.take(i));
}

/// A prefix free of terminal markers passes through the observable view
/// unchanged; observation continues in the rest.
pub proof fn lemma_observable_split(log: Seq<LogMsgView>, k: int)
    requires
        0 <= k <= log.len(),
        forall|i: int| 0 <= i < k ==> !(log[i] is Finished),
    ensures
        observable_view(log) == log.take(k) + observable_view(log.skip(k)),
    decreases k,
{
    if k == 0 {
        assert(log.take(0) + observable_view(log.skip(0)) =~= observable_view(log.skip(0)));
        assert(log.skip(0) =~= log);
    } else {
        assert(!(log.first() is Finished));
        let rest = log.drop_first();
        assert(forall|i: int| 0 <= i < k - 1 ==> #[trigger] rest[i] == log[i + 1]);
        lemma_observable_split(rest, k - 1);
        assert(rest.skip(k - 1) =~= log.skip(k));
        assert(log.take(k) + observable_view(log.skip(k)) =~= seq![log.first()] + (rest.take(k - 1)
            + observable_view(rest.skip(k - 1))));
    }
}

/// Termination idempotence, first half: once a terminal marker stands in the
/// log, later appends — a second terminal marker included — do not change any
/// consumer's observable view.
pub proof fn lemma_terminal_idempotent(log: Seq<LogMsgView>, extra: LogMsgView)
    requires
        has_finished(log),
    ensures
        observable_view(log.push(extra)) == observable_view(log),
    decreases log.len(),
{
    assert(log.len() > 0);
    let pushed = log.push(extra);
    assert(pushed.first() == log.first());
    if log.first() is Finished {
        assert(observable_view(pushed) =~= seq![LogMsgView::Finished]);
    } else {
        let rest = log.drop_first();
        let i = choose|i: int| 0 <= i < log.len() && log[i] is Finished;
        assert(rest[i - 1] is Finished);
        lemma_terminal_idempotent(rest, extra);
        assert(pushed.drop_first() =~= rest.push(extra));
    }
}

/// Termination idempotence, second half: a consumer's observable view holds
/// exactly one terminal marker when one was appended — however many times it
/// was appended — and that marker is the last thing observed; with none
/// appended, none is observed.
pub proof fn lemma_single_terminal_transition(log: Seq<LogMsgView>)
    ensures
        has_finished(log) ==> {
            &&& count_of(observable_view(log), LogMsgView::Finished) == 1
            &&& observable_view(log).len() > 0
            &&& observable_view(log).last() is Finished
        },
        !has_finished(log) ==> count_of(observable_view(log), LogMsgView::Finished) == 0,
    decreases log.len(),
{
    if log.len() == 0 {
    } else if log.first() is Finished {
        let single = seq![LogMsgView::Finished];
        assert(single.drop_last() =~= Seq::<LogMsgView>::empty());
        assert(count_of(Seq::<LogMsgView>::empty(), LogMsgView::Finished) == 0);
        assert(count_of(single, LogMsgView::Finished) == 1);
    } else {
        let rest = log.drop_first();
        lemma_single_terminal_transition(rest);
        let obs = observable_view(log);
        assert(obs == seq![log.first()] + observable_view(rest));
        lemma_count_cons_not_equal(log.first(), observable_view(rest), LogMsgView::Finished);
        if has_finished(log) {
            let i = choose|i: int| 0 <= i < log.len() && log[i] is Finished;
            assert(rest[i - 1] is Finished);
            assert(has_finished(rest));
            assert(obs.last() == observable_view(rest).last());
        } else {
            assert(forall|i: int| 0 <= i < rest.len() ==> rest[i] == log[i + 1]);
            assert(!has_finished(rest));
        }
    }
}

/// Prepending a message different from `m` leaves the count of `m` unchanged.
proof fn lemma_count_cons_not_equal(v: LogMsgView, log: Seq<LogMsgView>, m: LogMsgView)
    requires
        v != m,
    ensures
        count_of(seq![v] + log, m) == count_of(log, m),
    decreases log.len(),
{
    let total = seq![v] + log;
    if log.len() == 0 {
        assert(total.drop_last() =~= Seq::<LogMsgView>::empty());
        assert(count_of(Seq::<LogMsgView>::empty(), m) == 0);
        assert(total.last() == v);
        assert(count_of(total, m) == 0);
    } else {
        lemma_count_cons_not_equal(v, log.drop_last(), m);
        assert(total.drop_last() =~= seq![v] + log.drop_last());
        assert(total.last() == log.last());
        assert(count_of(total, m) == count_of(seq![v] + log.drop_last(), m) + if log.last() == m {
            1nat
        } else {
            0nat
        });
    }
}

} // verus!
