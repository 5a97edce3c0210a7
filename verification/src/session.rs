//! The interactive loop's decisions: what one input or idle tick does to
//! the transport and to the display.
//!
//! Each iteration of the loop waits on the input surface under a long
//! timeout; a completed line is framed and transmitted, and the outcome
//! echoed. When the wait runs out instead, one short receive poll gives
//! inbound data its turn: a payload is decoded as UTF-8 on a best-effort
//! basis — raw bytes are shown when decoding fails, never dropped — and
//! a quiet link is the expected steady state. Every tick therefore makes
//! bounded-time progress, which is what lets typing and inbound data
//! interleave on a single logical thread of control.
//!
//! The waiting itself is the caller's: this module is handed the event
//! each wait produced, decides everything that follows, and hands back
//! what to display and whether to shut down.

use vstd::prelude::*;
use vstd::utf8::{decode_utf8, encode_utf8, valid_utf8};
use crate::errors::NusError;
use crate::transport::NusTransport;

verus! {

/// The single byte appended to every submitted line before transmission.
pub const LINE_TERMINATOR: u8 = 10;

/// The bytes a submitted line puts on the wire: its UTF-8 encoding
/// followed by exactly one terminator.
pub open spec fn framed(line: Seq<char>) -> Seq<u8> {
    encode_utf8(line).push(LINE_TERMINATOR)
}

/// Frames one submitted line for transmission.
pub fn frame_line(line: &str) -> (r: Vec<u8>)
    ensures
        r@ == framed(line@),
{
    let mut bytes = vstd::slice::slice_to_vec(line.as_bytes());
    bytes.push(LINE_TERMINATOR);
    bytes
}

/// A framed line carries its text's encoding unchanged and one terminator
/// after it — never zero terminators, never two.
pub proof fn lemma_framed_single_terminator(line: Seq<char>)
    ensures
        framed(line).len() == encode_utf8(line).len() + 1,
        framed(line).last() == LINE_TERMINATOR,
        framed(line).drop_last() == encode_utf8(line),
{
    assert(framed(line).drop_last() =~= encode_utf8(line));
}

/// What one outer wait on the input surface produced.
#[derive(Debug, PartialEq)]
pub enum SessionEvent {
    /// The user completed a line (without its terminator).
    LineEntered(String),
    /// The terminal changed size; only the layout is touched.
    Resized,
    /// The input stream closed or the user interrupted: shut down.
    EndOfInput,
    /// The input surface itself failed: shut down.
    InputFailed,
    /// The wait ran out with no input: inbound data gets its turn.
    InputIdle,
}

/// A session ends on end-of-input and on an input failure, on nothing
/// else.
pub open spec fn terminal_event(ev: SessionEvent) -> bool {
    ev is EndOfInput || ev is InputFailed
}

/// One line handed to the display.
#[derive(Debug, PartialEq)]
pub enum DisplayLine {
    /// Confirmation that a line went out, carrying that line.
    Sent(String),
    /// A send was rejected; the session continues.
    SendFailed(NusError),
    /// The layout was re-rendered after a resize.
    ResizeNotice,
    /// An inbound payload that decoded as UTF-8 text.
    Received(String),
    /// An inbound payload that is not valid UTF-8, shown raw.
    ReceivedRaw(Vec<u8>),
    /// A receive failed; the session continues.
    RecvFailed(NusError),
}

/// How a received payload must reach the display: decoded when it is
/// valid UTF-8, and otherwise the raw bytes themselves — reported, not
/// dropped.
pub open spec fn renders_payload(d: DisplayLine, bytes: Seq<u8>) -> bool {
    if valid_utf8(bytes) {
        d matches DisplayLine::Received(s) && s@ == decode_utf8(bytes)
    } else {
        d matches DisplayLine::ReceivedRaw(raw) && raw@ == bytes
    }
}

/// Relies on `String::from_utf8` of std: it returns the text whose UTF-8
/// encoding is `bytes` exactly when `bytes` is valid UTF-8, and refuses
/// every other input.
#[verifier::external_body]
fn utf8_to_string(bytes: &Vec<u8>) -> (r: Option<String>)
    ensures
        r is Some <==> valid_utf8(bytes@),
        r is Some ==> r->0@ == decode_utf8(bytes@),
{
    String::from_utf8(bytes.clone()).ok()
}

/// Chooses the display form of one received payload from the payload and
/// its decoding: the text when one exists, the raw bytes otherwise.
pub fn render_payload(bytes: Vec<u8>, decoded: Option<String>) -> (d: DisplayLine)
    requires
        decoded is Some <==> valid_utf8(bytes@),
        decoded is Some ==> decoded->0@ == decode_utf8(bytes@),
    ensures
        renders_payload(d, bytes@),
{
    match decoded {
        Some(s) => DisplayLine::Received(s),
        None => DisplayLine::ReceivedRaw(bytes),
    }
}

/// Decodes one received payload for display, best effort: invalid UTF-8
/// comes back raw, and the caller's session goes on either way.
pub fn decode_payload(bytes: Vec<u8>) -> (d: DisplayLine)
    ensures
        renders_payload(d, bytes@),
{
    let decoded = utf8_to_string(&bytes);
    render_payload(bytes, decoded)
}

/// What one tick of the loop decided: something to display, and whether
/// the session is over.
#[derive(Debug, PartialEq)]
pub struct StepOutcome {
    pub display: Option<DisplayLine>,
    pub stop: bool,
}

/// Runs one tick of the interactive loop over the event the outer wait
/// produced.
///
/// A completed line is framed and transmitted before anything else
/// happens, so sends are strictly ordered and each is confirmed — or its
/// failure reported — before the next event is looked at. An idle tick
/// polls for one inbound payload and displays it at once. Only a
/// terminal event stops the session; every transport failure is reported
/// and survived.
pub fn session_step<T: NusTransport>(t: &mut T, event: SessionEvent) -> (r: StepOutcome)
    ensures
        r.stop == terminal_event(event),
        match event {
            SessionEvent::LineEntered(line) => {
                &&& final(t).pending() == old(t).pending()
                &&& match r.display {
                    Some(DisplayLine::Sent(echo)) => echo == line && final(t).sent_log() == old(
                        t,
                    ).sent_log().push(framed(line@)),
                    Some(DisplayLine::SendFailed(e)) => final(t).sent_log() == old(t).sent_log()
                        && (e == NusError::Timeout || e == NusError::Transport),
                    _ => false,
                }
            },
            SessionEvent::Resized => {
                &&& r.display == Some(DisplayLine::ResizeNotice)
                &&& final(t).sent_log() == old(t).sent_log()
                &&& final(t).pending() == old(t).pending()
            },
            SessionEvent::EndOfInput => {
                &&& r.display is None
                &&& final(t).sent_log() == old(t).sent_log()
                &&& final(t).pending() == old(t).pending()
            },
            SessionEvent::InputFailed => {
                &&& r.display is None
                &&& final(t).sent_log() == old(t).sent_log()
                &&& final(t).pending() == old(t).pending()
            },
            SessionEvent::InputIdle => {
                &&& final(t).sent_log() == old(t).sent_log()
                &&& match r.display {
                    None => final(t).pending() == old(t).pending(),
                    Some(DisplayLine::RecvFailed(e)) => final(t).pending() == old(t).pending()
                        && e == NusError::Transport,
                    Some(d) => if old(t).pending().len() > 0 {
                        final(t).pending() == old(t).pending().drop_first() && renders_payload(
                            d,
                            old(t).pending().first(),
                        )
                    } else {
                        final(t).pending() == old(t).pending() && renders_payload(
                            d,
                            Seq::<u8>::empty(),
                        )
                    },
                }
            },
        },
{
    match event {
        SessionEvent::LineEntered(line) => {
            let payload = frame_line(line.as_str());
            match t.send(&payload) {
                Ok(_) => StepOutcome { display: Some(DisplayLine::Sent(line)), stop: false },
                Err(e) => StepOutcome { display: Some(DisplayLine::SendFailed(e)), stop: false },
            }
        },
        SessionEvent::Resized => StepOutcome {
            display: Some(DisplayLine::ResizeNotice),
            stop: false,
        },
        SessionEvent::EndOfInput => StepOutcome { display: None, stop: true },
        SessionEvent::InputFailed => StepOutcome { display: None, stop: true },
        SessionEvent::InputIdle => {
            match t.recv() {
                Ok(payload) => {
                    let d = decode_payload(payload);
                    StepOutcome { display: Some(d), stop: false }
                },
                Err(e) => {
                    if e == NusError::Timeout {
                        StepOutcome { display: None, stop: false }
                    } else {
                        StepOutcome { display: Some(DisplayLine::RecvFailed(e)), stop: false }
                    }
                },
            }
        },
    }
}

/// True when the event is a submitted line and the payload is exactly
/// that line framed.
pub open spec fn framed_line_of(ev: SessionEvent, payload: Seq<u8>) -> bool {
    ev matches SessionEvent::LineEntered(l) && payload == framed(l@)
}

/// The payloads the script can legitimately put on the wire: each of its
/// submitted lines, framed.
pub open spec fn script_line_payloads(script: Seq<SessionEvent>) -> Set<Seq<u8>> {
    Set::new(
        |p: Seq<u8>|
            exists|j: int| 0 <= j < script.len() && #[trigger] framed_line_of(script[j], p),
    )
}

/// The trace law of the send history: it only grows, it is never
/// rewritten, and every payload it gains is some line of the script
/// framed with exactly one terminator.
pub open spec fn extends_with_script_lines(
    script: Seq<SessionEvent>,
    base: Seq<Seq<u8>>,
    post: Seq<Seq<u8>>,
) -> bool {
    &&& base.len() <= post.len()
    &&& (forall|i: int| 0 <= i < base.len() ==> post[i] == base[i])
    &&& (forall|k: int|
        #![trigger post[k]]
        base.len() <= k < post.len() ==> script_line_payloads(script).contains(post[k]))
}

/// One tick keeps the trace law as the consumed prefix grows from `s1` to
/// `s2`: an unchanged history still obeys it, and so does one that gained
/// a single framed line of `s2`.
proof fn lemma_extends_step(
    s1: Seq<SessionEvent>,
    s2: Seq<SessionEvent>,
    base: Seq<Seq<u8>>,
    mid: Seq<Seq<u8>>,
    post: Seq<Seq<u8>>,
    jnew: int,
)
    requires
        extends_with_script_lines(s1, base, mid),
        s1.len() <= s2.len(),
        forall|j: int| 0 <= j < s1.len() ==> s2[j] == s1[j],
        post == mid || (0 <= jnew < s2.len() && post.len() == mid.len() + 1 && (forall|i: int|
            0 <= i < mid.len() ==> post[i] == mid[i]) && framed_line_of(
            s2[jnew],
            post[mid.len() as int],
        )),
    ensures
        extends_with_script_lines(s2, base, post),
{
    assert forall|k: int|
        #![trigger post[k]]
        base.len() <= k < post.len() implies script_line_payloads(s2).contains(post[k]) by {
        if post == mid || k < mid.len() {
            assert(post[k] == mid[k]);
            assert(script_line_payloads(s1).contains(mid[k]));
            let j0 = choose|j: int|
                0 <= j < s1.len() && #[trigger] framed_line_of(s1[j], mid[k]);
            assert(framed_line_of(s2[j0], post[k]));
            assert(script_line_payloads(s2).contains(post[k]));
        } else {
            assert(framed_line_of(s2[jnew], post[k]));
            assert(script_line_payloads(s2).contains(post[k]));
        }
    }
}

/// What the display owes one consumed event, whatever the link did: a
/// submitted line is echoed back or its send failure reported, a resize
/// is re-rendered, a terminal event shows nothing, and an idle tick shows
/// only received data or a receive failure — or nothing on a quiet link.
pub open spec fn tick_display_allowed(ev: SessionEvent, d: Option<DisplayLine>) -> bool {
    match ev {
        SessionEvent::LineEntered(line) => match d {
            Some(DisplayLine::Sent(echo)) => echo == line,
            Some(DisplayLine::SendFailed(e)) => e == NusError::Timeout || e == NusError::Transport,
            _ => false,
        },
        SessionEvent::Resized => d == Some(DisplayLine::ResizeNotice),
        SessionEvent::EndOfInput => d is None,
        SessionEvent::InputFailed => d is None,
        SessionEvent::InputIdle => match d {
            None => true,
            Some(DisplayLine::Received(_)) => true,
            Some(DisplayLine::ReceivedRaw(_)) => true,
            Some(DisplayLine::RecvFailed(e)) => e == NusError::Transport,
            _ => false,
        },
    }
}

/// Runs the interactive loop over a closed script of events, one tick per
/// event, stopping at the first terminal event. Returns what each
/// consumed tick put on the display (`None` for a quiet tick) and how
/// many events were consumed.
///
/// Whatever the link did, the loop's trace obeys the session's laws: the
/// send history only grows and is never rewritten; every payload the
/// session adds to it is some already-consumed submitted line framed with
/// exactly one terminator; inbound payloads are consumed in arrival
/// order, oldest first, none skipped and none invented; each consumed
/// tick contributes exactly its owed display — an echo or send-failure
/// notice per submitted line, a resize notice per resize, nothing for a
/// terminal event, received data at most for an idle tick — in
/// consumption order; and the loop stops exactly at the script's end or
/// its first terminal event.
#[verifier::loop_isolation(false)]
pub fn run_session<T: NusTransport>(t: &mut T, script: Vec<SessionEvent>) -> (r: (
    Vec<Option<DisplayLine>>,
    usize,
))
    ensures
        extends_with_script_lines(
            script@.take(r.1 as int),
            old(t).sent_log(),
            final(t).sent_log(),
        ),
        exists|d: int|
            0 <= d <= old(t).pending().len() && final(t).pending() == old(t).pending().skip(d),
        r.1 <= script@.len(),
        r.0@.len() == r.1,
        forall|k: int| 0 <= k < r.1 ==> #[trigger] tick_display_allowed(script@[k], r.0@[k]),
        forall|j: int| 0 <= j < r.1 - 1 ==> !terminal_event(script@[j]),
        r.1 == script@.len() || (r.1 >= 1 && terminal_event(script@[r.1 - 1])),
{
    let ghost whole = script@;
    let mut script = script;
    let total: usize = script.len();
    let mut displays: Vec<Option<DisplayLine>> = Vec::new();
    let mut consumed: usize = 0;
    proof {
        assert(whole.skip(0) =~= whole);
        assert(old(t).pending().skip(0) =~= old(t).pending());
    }
    while script.len() > 0
        invariant
            whole.len() == total,
            consumed + script@.len() == whole.len(),
            script@ == whole.skip(consumed as int),
            forall|j: int| 0 <= j < consumed ==> !terminal_event(whole[j]),
            extends_with_script_lines(
                whole.take(consumed as int),
                old(t).sent_log(),
                t.sent_log(),
            ),
            displays@.len() == consumed,
            forall|k: int|
                0 <= k < consumed ==> #[trigger] tick_display_allowed(whole[k], displays@[k]),
            exists|d: int|
                0 <= d <= old(t).pending().len() && t.pending() == old(t).pending().skip(d),
        decreases script@.len(),
    {
        let ghost pre = *t;
        let ev = script.remove(0);
        let ghost gev = ev;
        proof {
            assert(whole.skip(consumed as int).first() == whole[consumed as int]);
            assert(gev == whole[consumed as int]);
        }
        let out = session_step(t, ev);
        proof {
            let pend0 = old(t).pending();
            let d0 = choose|d: int| 0 <= d <= pend0.len() && pre.pending() == pend0.skip(d);
            if pre.pending().len() > 0 && t.pending() == pre.pending().drop_first() {
                assert(pend0.skip(d0 + 1) =~= pend0.skip(d0).drop_first());
                assert(0 <= d0 + 1 <= pend0.len() && t.pending() == pend0.skip(d0 + 1));
            } else {
                assert(t.pending() == pre.pending());
                assert(0 <= d0 <= pend0.len() && t.pending() == pend0.skip(d0));
            }
            let s1 = whole.take(consumed as int);
            let s2 = whole.take(consumed as int + 1);
            assert(forall|j: int| 0 <= j < s1.len() ==> s2[j] == s1[j]);
            assert(s2[consumed as int] == whole[consumed as int]);
            if t.sent_log() == pre.sent_log() {
                lemma_extends_step(s1, s2, old(t).sent_log(), pre.sent_log(), t.sent_log(), 0);
            } else {
                assert(t.sent_log()[pre.sent_log().len() as int] == t.sent_log().last());
                lemma_extends_step(
                    s1,
                    s2,
                    old(t).sent_log(),
                    pre.sent_log(),
                    t.sent_log(),
                    consumed as int,
                );
            }
            assert(tick_display_allowed(gev, out.display));
            assert(script@ =~= whole.skip(consumed as int + 1)) by {
                assert(whole.skip(consumed as int).drop_first() =~= whole.skip(
                    consumed as int + 1,
                ));
            }
        }
        let stop = out.stop;
        displays.push(out.display);
        consumed = consumed + 1;
        if stop {
            assert(terminal_event(whole[consumed - 1]));
            return (displays, consumed);
        }
        assert(!terminal_event(whole[consumed - 1]));
    }
    (displays, consumed)
}

} // verus!
