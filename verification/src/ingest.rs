//! Ingestion pumps: the per-chunk step of the two raw-channel producers.
//! Each chunk of process output is decoded lossily — invalid byte sequences
//! are replaced, never fatal — and, when the decoded text is non-empty,
//! appended to the store as a raw message for its channel. A read error is
//! recorded as one `Stderr` message, after which the pump stops.

use vstd::prelude::*;
use vstd::string::*;

use crate::log_msg::{LogMsg, LogMsgView, RawChannel};
use crate::msg_store::MsgStore;

verus! {

/// Relies on String::from_utf8_lossy: the decoded text is a function of the
/// bytes alone; invalid byte sequences come out as replacement characters.
pub uninterp spec fn lossy_decode(bytes: Seq<u8>) -> Seq<char>;

/// Relies on String::from_utf8_lossy: decodes any byte sequence to text,
/// replacing invalid sequences with U+FFFD; never fails. Empty input decodes
/// to the empty string, because valid input — the empty sequence included —
/// passes through unchanged.
#[verifier::external_body]
fn decode_lossy(bytes: &[u8]) -> (r: String)
    ensures
        r@ == lossy_decode(bytes@),
        bytes@.len() == 0 ==> r@.len() == 0,
{
    String::from_utf8_lossy(bytes).into_owned()
}

/// The raw log message a channel's pump appends for decoded text.
pub open spec fn raw_msg_view(chan: RawChannel, text: Seq<char>) -> LogMsgView {
    match chan {
        RawChannel::Stdout => LogMsgView::Stdout(text),
        RawChannel::Stderr => LogMsgView::Stderr(text),
    }
}

/// One pump step: decode the chunk lossily and, if the text is non-empty,
/// append it as this channel's raw message. Returns whether a message was
/// appended. Never fails, whatever bytes arrive.
pub fn ingest_chunk(store: &mut MsgStore, chan: RawChannel, bytes: &[u8]) -> (appended: bool)
    ensures
        appended == (lossy_decode(bytes@).len() != 0),
        appended ==> final(store)@ == old(store)@.push(raw_msg_view(chan, lossy_decode(bytes@))),
        !appended ==> final(store)@ == old(store)@,
{
    let text = decode_lossy(bytes);
    if text.as_str().is_empty() {
        false
    } else {
        match chan {
            RawChannel::Stdout => store.push_stdout(text),
            RawChannel::Stderr => store.push_stderr(text),
        }
        true
    }
}

/// The one `Stderr` message a pump records when its channel read fails.
pub open spec fn read_error_line(chan: RawChannel, err: Seq<char>) -> Seq<char> {
    (match chan {
        RawChannel::Stdout => "[code-marshal] stdout read error: "@,
        RawChannel::Stderr => "[code-marshal] stderr read error: "@,
    }) + err
}

/// Records a channel read error as one `Stderr` message describing it; the
/// pump then stops and does not retry.
pub fn ingest_read_error(store: &mut MsgStore, chan: RawChannel, err: &str)
    ensures
        final(store)@ == old(store)@.push(LogMsgView::Stderr(read_error_line(chan, err@))),
{
    let prefix = match chan {
        RawChannel::Stdout => "[code-marshal] stdout read error: ",
        RawChannel::Stderr => "[code-marshal] stderr read error: ",
    };
    let line = String::from_str(prefix).concat(err);
    store.push_stderr(line);
}

} // verus!
