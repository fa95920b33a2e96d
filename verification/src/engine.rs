//! The per-session protocol engine: monotonic request ids, the request
//! builders bound to an engine, and response correlation for non-streaming
//! calls.

use vstd::prelude::*;
use crate::frame::Frame;
use crate::jsonq::json_str_at;
use crate::requests::{
    init_params, init_params_text, load_session_params, load_session_params_text,
    new_session_params, new_session_params_text, prompt_params, prompt_params_text,
    request_text, set_model_params, set_model_params_text, encode_request,
};

verus! {

/// The error taxonomy of the protocol core.
#[derive(Debug)]
pub enum AcpError {
    /// The agent executable could not be launched.
    Spawn { message: String },
    /// A write, flush or read on a live stream failed.
    Transport { message: String },
    /// The remote side answered with an `error` payload, kept verbatim in
    /// the message.
    Protocol { message: String },
    /// The stream closed before the awaited response arrived.
    StreamClosed,
}

impl AcpError {
    /// The caller-facing text of an error.
    pub open spec fn message_text(self) -> Seq<char> {
        match self {
            AcpError::Spawn { message } => message@,
            AcpError::Transport { message } => message@,
            AcpError::Protocol { message } => message@,
            AcpError::StreamClosed => "ACP process closed"@,
        }
    }

    /// The error as the text surfaced to the caller.
    pub fn message(&self) -> (r: String)
        ensures
            r@ == self.message_text(),
    {
        match self {
            AcpError::Spawn { message } => message.clone(),
            AcpError::Transport { message } => message.clone(),
            AcpError::Protocol { message } => message.clone(),
            AcpError::StreamClosed => String::from_str("ACP process closed"),
        }
    }
}

/// The message text of a protocol error for the raw remote payload.
pub open spec fn protocol_error_text(raw: Seq<char>) -> Seq<char> {
    "ACP error: "@ + raw
}

/// Build the protocol-error message for a raw remote payload.
pub fn protocol_error(raw: &str) -> (r: AcpError)
    ensures
        r matches AcpError::Protocol { message } && message@ == protocol_error_text(raw@),
{
    let mut message = String::from_str("ACP error: ");
    message.append(raw);
    AcpError::Protocol { message }
}

/// The protocol state of one agent subprocess: the id counter for its
/// requests and the session the process currently serves.
pub struct Engine {
    /// The next request id to hand out. Ids start at zero and are never
    /// reused within one engine's lifetime.
    pub next_id: u64,
    /// The session created on or loaded into this process, once known.
    pub session_id: Option<String>,
}

impl Engine {
    /// A fresh engine, before any request was sent.
    pub fn new() -> (r: Engine)
        ensures
            r.next_id == 0,
            r.session_id is None,
    {
        Engine { next_id: 0, session_id: None }
    }

    /// Hand out the next request id. Every id handed out later is strictly
    /// larger, so no id is ever reused.
    pub fn alloc_id(&mut self) -> (id: u64)
        requires
            old(self).next_id < u64::MAX,
        ensures
            id == old(self).next_id,
            final(self).next_id == old(self).next_id + 1,
            final(self).next_id > id,
            final(self).session_id == old(self).session_id,
    {
        let id = self.next_id;
        self.next_id = self.next_id + 1;
        id
    }

    /// Allocate an id and serialize the capability-negotiation request.
    pub fn initialize_request(&mut self) -> (r: (u64, String))
        requires
            old(self).next_id < u64::MAX,
        ensures
            r.0 == old(self).next_id,
            final(self).next_id == old(self).next_id + 1,
            final(self).session_id == old(self).session_id,
            r.1@ == request_text(r.0 as nat, "initialize"@, init_params_text()),
    {
        let id = self.alloc_id();
        let params = init_params();
        (id, encode_request(id, "initialize", params.as_str()))
    }

    /// Allocate an id and serialize a session-creation request.
    pub fn new_session_request(&mut self, cwd: &str) -> (r: (u64, String))
        requires
            old(self).next_id < u64::MAX,
        ensures
            r.0 == old(self).next_id,
            final(self).next_id == old(self).next_id + 1,
            final(self).session_id == old(self).session_id,
            r.1@ == request_text(r.0 as nat, "session/new"@, new_session_params_text(cwd@)),
    {
        let id = self.alloc_id();
        let params = new_session_params(cwd);
        (id, encode_request(id, "session/new", params.as_str()))
    }

    /// Allocate an id and serialize a session-load request.
    pub fn load_session_request(&mut self, session_id: &str, cwd: &str) -> (r: (u64, String))
        requires
            old(self).next_id < u64::MAX,
        ensures
            r.0 == old(self).next_id,
            final(self).next_id == old(self).next_id + 1,
            final(self).session_id == old(self).session_id,
            r.1@ == request_text(
                r.0 as nat,
                "session/load"@,
                load_session_params_text(session_id@, cwd@),
            ),
    {
        let id = self.alloc_id();
        let params = load_session_params(session_id, cwd);
        (id, encode_request(id, "session/load", params.as_str()))
    }

    /// Allocate an id and serialize a model-selection request.
    pub fn set_model_request(&mut self, session_id: &str, model_id: &str) -> (r: (u64, String))
        requires
            old(self).next_id < u64::MAX,
        ensures
            r.0 == old(self).next_id,
            final(self).next_id == old(self).next_id + 1,
            final(self).session_id == old(self).session_id,
            r.1@ == request_text(
                r.0 as nat,
                "session/set_model"@,
                set_model_params_text(session_id@, model_id@),
            ),
    {
        let id = self.alloc_id();
        let params = set_model_params(session_id, model_id);
        (id, encode_request(id, "session/set_model", params.as_str()))
    }

    /// Allocate an id and serialize a prompt request.
    pub fn prompt_request(&mut self, session_id: &str, text: &str) -> (r: (u64, String))
        requires
            old(self).next_id < u64::MAX,
        ensures
            r.0 == old(self).next_id,
            final(self).next_id == old(self).next_id + 1,
            final(self).session_id == old(self).session_id,
            r.1@ == request_text(
                r.0 as nat,
                "session/prompt"@,
                prompt_params_text(session_id@, text@),
            ),
    {
        let id = self.alloc_id();
        let params = prompt_params(session_id, text);
        (id, encode_request(id, "session/prompt", params.as_str()))
    }

    /// Take the session id out of a session-creation result and remember it.
    /// The result payload must hold a `sessionId` string; a payload without
    /// one is a protocol error and leaves the engine unchanged.
    pub fn accept_new_session(&mut self, result_raw: &str) -> (r: Result<String, AcpError>)
        ensures
            match json_str_at(result_raw@, "/sessionId"@) {
                Some(sid) => {
                    &&& r matches Ok(s) && s@ == sid
                    &&& final(self).session_id matches Some(t) && t@ == sid
                    &&& final(self).next_id == old(self).next_id
                },
                None => {
                    &&& r matches Err(AcpError::Protocol { message })
                        && message@ == "No sessionId in response"@
                    &&& *final(self) == *old(self)
                },
            },
    {
        match crate::jsonq::str_at(result_raw, "/sessionId") {
            Some(sid) => {
                self.session_id = Some(sid.clone());
                Ok(sid)
            },
            None => Err(
                AcpError::Protocol { message: String::from_str("No sessionId in response") },
            ),
        }
    }

    /// Remember the session id after a successful session-load call.
    pub fn accept_load_session(&mut self, session_id: &str)
        ensures
            final(self).session_id matches Some(t) && t@ == session_id@,
            final(self).next_id == old(self).next_id,
    {
        self.session_id = Some(String::from_str(session_id));
    }
}

/// The request ids an engine hands out over `n` consecutive allocations
/// beginning at counter value `start`: by `alloc_id`'s contract the k-th
/// allocation returns `start + k`.
pub open spec fn allocated_ids(start: nat, n: nat) -> Seq<nat> {
    Seq::new(n, |k: int| (start + k) as nat)
}

/// Ids handed out within one engine's lifetime are strictly increasing, so
/// none is ever reused.
pub proof fn lemma_request_ids_never_reused(start: nat, n: nat)
    ensures
        forall|i: int, j: int|
            0 <= i < j < n ==> #[trigger] allocated_ids(start, n)[i]
                < #[trigger] allocated_ids(start, n)[j],
{
}

/// Whether a frame carries the awaited response id.
pub open spec fn frame_matches(expected_id: u64, f: Frame) -> bool {
    f.response_id == Some(expected_id)
}

/// The outcome a matching response frame resolves to: a protocol error when
/// an `error` payload is present, otherwise the result payload (or the JSON
/// null text when the response carries no result).
pub open spec fn resolution_is(f: Frame, out: Result<String, AcpError>) -> bool {
    match f.error {
        Some(e) => out matches Err(AcpError::Protocol { message })
            && message@ == protocol_error_text(e@),
        None => out matches Ok(res) && res@ == (match f.result {
            Some(t) => t@,
            None => "null"@,
        }),
    }
}

/// What one frame does to a pending non-streaming call.
pub enum CallStep {
    /// The frame was noise, a notification, or someone else's response; the
    /// call stays pending.
    Pending,
    /// The frame carried the awaited id; the call resolves.
    Resolved(Result<String, AcpError>),
}

/// Feed one decoded frame to a call awaiting `expected_id`. Only a frame
/// carrying exactly that id resolves the call; an error payload on it
/// resolves to a protocol error, never to success.
pub fn correlate_step(expected_id: u64, f: &Frame) -> (r: CallStep)
    ensures
        !frame_matches(expected_id, *f) ==> r == CallStep::Pending,
        frame_matches(expected_id, *f) ==> (r matches CallStep::Resolved(out)
            && resolution_is(*f, out)),
{
    let matched = match f.response_id {
        Some(id) => id == expected_id,
        None => false,
    };
    if !matched {
        return CallStep::Pending;
    }
    match &f.error {
        Some(e) => CallStep::Resolved(Err(protocol_error(e.as_str()))),
        None => {
            let res = match &f.result {
                Some(t) => t.clone(),
                None => String::from_str("null"),
            };
            CallStep::Resolved(Ok(res))
        },
    }
}

/// The position of the first frame carrying the awaited id.
pub open spec fn first_match_idx(expected_id: u64, frames: Seq<Frame>) -> Option<int>
    decreases frames.len(),
{
    if frames.len() == 0 {
        None
    } else if frame_matches(expected_id, frames[0]) {
        Some(0)
    } else {
        match first_match_idx(expected_id, frames.drop_first()) {
            Some(i) => Some(i + 1),
            None => None,
        }
    }
}

pub(crate) proof fn lemma_first_match_split(expected_id: u64, frames: Seq<Frame>, i: int)
    requires
        0 <= i <= frames.len(),
        forall|j: int| 0 <= j < i ==> !frame_matches(expected_id, #[trigger] frames[j]),
    ensures
        i == frames.len() ==> first_match_idx(expected_id, frames) is None,
        i < frames.len() && frame_matches(expected_id, frames[i]) ==> first_match_idx(
            expected_id,
            frames,
        ) == Some(i),
    decreases frames.len(),
{
    if frames.len() == 0 {
    } else if i == 0 {
        if frames.len() > 0 && !frame_matches(expected_id, frames[0]) {
        }
    } else {
        assert(!frame_matches(expected_id, frames[0]));
        assert(forall|j: int|
            0 <= j < i - 1 ==> !frame_matches(expected_id, #[trigger] frames.drop_first()[j]));
        lemma_first_match_split(expected_id, frames.drop_first(), i - 1);
        if i < frames.len() {
            assert(frames.drop_first()[i - 1] == frames[i]);
        }
    }
}

/// Run a whole observed frame sequence against a pending call: the call
/// resolves exactly when some frame carries the awaited id, and its outcome
/// is the outcome of the first such frame.
pub fn run_correlation(expected_id: u64, frames: &Vec<Frame>) -> (r: Option<
    Result<String, AcpError>,
>)
    ensures
        (r is Some) == (first_match_idx(expected_id, frames@) is Some),
        r matches Some(out) ==> (first_match_idx(expected_id, frames@) matches Some(i)
            && resolution_is(frames@[i], out)),
{
    let n = frames.len();
    let mut i: usize = 0;
    while i < n
        invariant
            0 <= i <= n,
            n == frames@.len(),
            forall|j: int| 0 <= j < i ==> !frame_matches(expected_id, #[trigger] frames@[j]),
        decreases n - i,
    {
        match correlate_step(expected_id, &frames[i]) {
            CallStep::Resolved(out) => {
                proof {
                    lemma_first_match_split(expected_id, frames@, i as int);
                }
                return Some(out);
            },
            CallStep::Pending => {},
        }
        i += 1;
    }
    proof {
        lemma_first_match_split(expected_id, frames@, n as int);
    }
    None
}

/// Correlation is strictly by request id: any number of frames without the
/// awaited id — notifications, noise, other responses — leaves the position
/// of the resolving frame unchanged, and no such prefix can resolve the call
/// by itself.
pub proof fn lemma_correlation_ignores_noise(
    expected_id: u64,
    noise: Seq<Frame>,
    frames: Seq<Frame>,
)
    requires
        forall|j: int| 0 <= j < noise.len() ==> !frame_matches(expected_id, #[trigger] noise[j]),
    ensures
        first_match_idx(expected_id, noise + frames) == (match first_match_idx(
            expected_id,
            frames,
        ) {
            Some(i) => Some(i + noise.len()),
            None => None::<int>,
        }),
    decreases noise.len(),
{
    if noise.len() == 0 {
        assert(noise + frames =~= frames);
    } else {
        assert((noise + frames)[0] == noise[0]);
        assert((noise + frames).drop_first() =~= noise.drop_first() + frames);
        assert(forall|j: int|
            0 <= j < noise.drop_first().len() ==> !frame_matches(
                expected_id,
                #[trigger] noise.drop_first()[j],
            ));
        lemma_correlation_ignores_noise(expected_id, noise.drop_first(), frames);
    }
}

/// A response carrying an error payload resolves the call as a protocol
/// error, never as a success.
pub proof fn lemma_error_never_success(f: Frame, out: Result<String, AcpError>)
    requires
        f.error is Some,
        resolution_is(f, out),
    ensures
        out is Err,
        out matches Err(e) ==> e is Protocol,
{
}

} // verus!
