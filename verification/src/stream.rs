//! The streaming dispatcher: the state carried across one prompt call, the
//! step relation that turns each inbound frame into an event or the final
//! result, and the closing rule when the stream ends early.

use vstd::prelude::*;
use crate::engine::{
    first_match_idx, frame_matches, lemma_first_match_split, protocol_error, protocol_error_text,
    AcpError,
};
use crate::frame::{Frame, Update};

verus! {

/// The state of one streaming prompt call: the awaited response id and the
/// answer text accumulated from chunk notifications so far.
pub struct StreamState {
    pub expected_id: u64,
    pub buffer: String,
}

/// An event published to the event sink during a streaming call.
pub enum StreamEvent {
    /// One fragment of the agent's answer, forwarded verbatim.
    Chunk { text: String },
    /// A tool invocation started.
    ToolCall { title: String, status: String },
    /// A running tool invocation changed status.
    ToolUpdate { status: String },
    /// The terminal completion event, published once the matching response
    /// id is observed.
    Done,
}

/// What feeding one frame to a streaming call produces.
pub enum StreamStep {
    /// Noise or an ignored update: nothing to publish, keep reading.
    Continue,
    /// A decoded update: publish the event, keep reading.
    Emit(StreamEvent),
    /// The matching response id arrived: publish the terminal event and
    /// resolve the call.
    Finished { outcome: Result<String, AcpError> },
}

/// What the call resolves to once the frame carrying its id is observed: a
/// protocol error embedding the frame's error payload when one is present,
/// never a success then; the accumulated text otherwise.
pub open spec fn stream_resolution(
    accumulated: Seq<char>,
    f: Frame,
    out: Result<String, AcpError>,
) -> bool {
    match f.error {
        Some(e) => out matches Err(AcpError::Protocol { message }) && message@
            == protocol_error_text(e@),
        None => out matches Ok(t) && t@ == accumulated,
    }
}

/// The event a decoded update is forwarded as.
pub open spec fn event_for_update(u: Update, e: StreamEvent) -> bool {
    match u {
        Update::Chunk { text } => e matches StreamEvent::Chunk { text: t } && t@ == text@,
        Update::ToolCall { title, status } => e matches StreamEvent::ToolCall {
            title: t,
            status: s,
        } && t@ == title@ && s@ == status@,
        Update::ToolUpdate { status } => e matches StreamEvent::ToolUpdate { status: s } && s@
            == status@,
        Update::Ignored => false,
    }
}

/// Whether a frame makes the dispatcher publish an event.
pub open spec fn emits_event(f: Frame) -> bool {
    match f.update {
        Some(u) => !(u is Ignored),
        None => false,
    }
}

/// What a frame adds to the accumulated answer text: its chunk text, or
/// nothing.
pub open spec fn chunk_contribution(f: Frame) -> Seq<char> {
    match f.update {
        Some(Update::Chunk { text }) => text@,
        _ => Seq::empty(),
    }
}

/// Begin a streaming call awaiting `expected_id`, with nothing accumulated.
pub fn stream_begin(expected_id: u64) -> (st: StreamState)
    ensures
        st.expected_id == expected_id,
        st.buffer@ == Seq::<char>::empty(),
{
    StreamState { expected_id, buffer: String::new() }
}

/// Feed one decoded frame to a streaming call. A frame with the awaited id
/// finishes the call: as a protocol error when it carries an error payload,
/// else with the text accumulated so far. A chunk appends its text and is
/// forwarded; tool-call updates are forwarded; everything else is skipped.
pub fn stream_step(st: &mut StreamState, f: &Frame) -> (r: StreamStep)
    ensures
        final(st).expected_id == old(st).expected_id,
        frame_matches(old(st).expected_id, *f) ==> (r matches StreamStep::Finished { outcome }
            && stream_resolution(old(st).buffer@, *f, outcome) && final(st).buffer@ == old(
            st,
        ).buffer@),
        !frame_matches(old(st).expected_id, *f) ==> final(st).buffer@ == old(st).buffer@
            + chunk_contribution(*f),
        !frame_matches(old(st).expected_id, *f) ==> match f.update {
            Some(u) => if u is Ignored {
                r == StreamStep::Continue
            } else {
                r matches StreamStep::Emit(e) && event_for_update(u, e)
            },
            None => r == StreamStep::Continue,
        },
{
    let matched = match f.response_id {
        Some(id) => id == st.expected_id,
        None => false,
    };
    if matched {
        let outcome = match &f.error {
            Some(e) => Err(protocol_error(e.as_str())),
            None => Ok(st.buffer.clone()),
        };
        return StreamStep::Finished { outcome };
    }
    match &f.update {
        Some(Update::Chunk { text }) => {
            st.buffer.append(text.as_str());
            StreamStep::Emit(StreamEvent::Chunk { text: text.clone() })
        },
        Some(Update::ToolCall { title, status }) => StreamStep::Emit(
            StreamEvent::ToolCall { title: title.clone(), status: status.clone() },
        ),
        Some(Update::ToolUpdate { status }) => StreamStep::Emit(
            StreamEvent::ToolUpdate { status: status.clone() },
        ),
        Some(Update::Ignored) => StreamStep::Continue,
        None => StreamStep::Continue,
    }
}

/// Resolve a streaming call whose stream closed before the matching response
/// arrived: a partially streamed answer is still returned as a success, an
/// empty one fails with the terminal error.
pub fn stream_close(st: StreamState) -> (r: Result<String, AcpError>)
    ensures
        st.buffer@.len() > 0 ==> (r matches Ok(t) && t@ == st.buffer@),
        st.buffer@.len() == 0 ==> r == Result::<String, AcpError>::Err(AcpError::StreamClosed),
{
    if st.buffer.as_str().is_empty() {
        Err(AcpError::StreamClosed)
    } else {
        Ok(st.buffer)
    }
}

/// The answer text accumulated over a frame sequence: the concatenation of
/// all chunk texts, in order.
pub open spec fn stream_text(frames: Seq<Frame>) -> Seq<char>
    decreases frames.len(),
{
    if frames.len() == 0 {
        Seq::empty()
    } else {
        stream_text(frames.drop_last()) + chunk_contribution(frames.last())
    }
}

/// The published events correspond one to one, in order, to the frames that
/// publish one: each chunk is forwarded exactly once, each tool-call
/// transition exactly once, and nothing else is published.
pub open spec fn stream_events_match(frames: Seq<Frame>, events: Seq<StreamEvent>) -> bool
    decreases frames.len(),
{
    if frames.len() == 0 {
        events.len() == 0
    } else {
        if emits_event(frames.last()) {
            &&& events.len() >= 1
            &&& event_for_update(frames.last().update->0, events.last())
            &&& stream_events_match(frames.drop_last(), events.drop_last())
        } else {
            stream_events_match(frames.drop_last(), events)
        }
    }
}

/// Run a whole observed frame sequence through a streaming call.
///
/// If some frame carries the awaited id, the call resolves on the first
/// such frame — a protocol error when it carries an error payload, else a
/// success holding the concatenation of the chunk texts observed before it
/// — and the events are exactly one per forwarded update, in order,
/// followed by exactly one terminal event. If the stream closes first, no
/// terminal event is published, and the call succeeds with the
/// concatenation observed so far when it is non-empty and fails with the
/// terminal error when it is empty.
pub fn run_stream(expected_id: u64, frames: &Vec<Frame>) -> (r: (
    Vec<StreamEvent>,
    Result<String, AcpError>,
))
    ensures
        match first_match_idx(expected_id, frames@) {
            Some(i) => {
                &&& stream_resolution(stream_text(frames@.take(i)), frames@[i], r.1)
                &&& r.0@.len() >= 1 && r.0@.last() == StreamEvent::Done
                &&& stream_events_match(frames@.take(i), r.0@.drop_last())
            },
            None => {
                &&& stream_events_match(frames@, r.0@)
                &&& stream_text(frames@).len() > 0 ==> (r.1 matches Ok(t) && t@ == stream_text(
                    frames@,
                ))
                &&& stream_text(frames@).len() == 0 ==> r.1 == Result::<
                    String,
                    AcpError,
                >::Err(AcpError::StreamClosed)
            },
        },
{
    let n = frames.len();
    let mut st = stream_begin(expected_id);
    let mut events: Vec<StreamEvent> = Vec::new();
    let mut i: usize = 0;
    while i < n
        invariant
            i <= n,
            n == frames@.len(),
            st.expected_id == expected_id,
            forall|j: int| 0 <= j < i ==> !frame_matches(expected_id, #[trigger] frames@[j]),
            st.buffer@ == stream_text(frames@.take(i as int)),
            stream_events_match(frames@.take(i as int), events@),
        decreases n - i,
    {
        let ghost pre_events = events@;
        let step = stream_step(&mut st, &frames[i]);
        match step {
            StreamStep::Finished { outcome } => {
                proof {
                    lemma_first_match_split(expected_id, frames@, i as int);
                }
                events.push(StreamEvent::Done);
                proof {
                    assert(events@.drop_last() =~= pre_events);
                }
                return (events, outcome);
            },
            StreamStep::Emit(e) => {
                events.push(e);
            },
            StreamStep::Continue => {},
        }
        proof {
            assert(frames@.take(i + 1).drop_last() =~= frames@.take(i as int));
            assert(frames@.take(i + 1).last() == frames@[i as int]);
            if emits_event(frames@[i as int]) {
                assert(events@.drop_last() =~= pre_events);
            }
        }
        i += 1;
    }
    proof {
        assert(frames@.take(n as int) =~= frames@);
        lemma_first_match_split(expected_id, frames@, n as int);
    }
    let out = stream_close(st);
    (events, out)
}

/// A response carrying an error payload resolves a streaming call as a
/// protocol error too, never as a success, whatever text was accumulated.
pub proof fn lemma_stream_error_never_success(
    accumulated: Seq<char>,
    f: Frame,
    out: Result<String, AcpError>,
)
    requires
        f.error is Some,
        stream_resolution(accumulated, f, out),
    ensures
        out is Err,
        out matches Err(e) ==> e is Protocol,
{
}

} // verus!
