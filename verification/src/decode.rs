//! The response decoder: turns the raw frames of a server-sent event
//! stream into decoded reply deltas, recognizes the terminal sentinel, and
//! classifies malformed frames as terminal errors.

use vstd::prelude::*;

use crate::errors::Error;
use crate::model::ChatMessage;
use crate::model::ChatResponseMessage;
use crate::model::DeltaView;
use crate::payload::parse_payload;
use crate::payload::payload_delta;

verus! {

/// One raw frame of the upstream event stream, as the frame source hands
/// it over: an optional event name and an optional data text.
#[derive(Debug)]
pub struct SseFrame {
    /// The frame's event name, if any.
    pub event: Option<String>,

    /// The frame's data text, if any.
    pub data: Option<String>,
}

/// What the upstream frame source yields: a frame, or the report that its
/// own framing was malformed.
#[derive(Debug)]
pub enum FrameInput {
    /// A well-framed event.
    Frame(SseFrame),
    /// The frame source could not frame the bytes it read.
    BadFraming,
}

/// The literal sentinel that ends a streamed reply cleanly.
pub open spec fn sentinel() -> Seq<char> {
    "[DONE]"@
}

/// Whether an input is a frame that carries no data text.
pub open spec fn is_missing_data(f: FrameInput) -> bool {
    f matches FrameInput::Frame(fr) && fr.data is None
}

/// The data text of an input that carries one.
pub open spec fn data_of(f: FrameInput) -> Seq<char>
    recommends
        f matches FrameInput::Frame(fr) && fr.data is Some,
{
    match f {
        FrameInput::Frame(fr) => fr.data.unwrap()@,
        FrameInput::BadFraming => Seq::empty(),
    }
}

/// Whether an input is the clean-termination sentinel frame.
pub open spec fn is_done_frame(f: FrameInput) -> bool {
    f matches FrameInput::Frame(fr) && fr.data is Some && data_of(f) == sentinel()
}

/// Whether an input is an ordinary payload frame: data present and not
/// the sentinel.
pub open spec fn is_payload(f: FrameInput) -> bool {
    f matches FrameInput::Frame(fr) && fr.data is Some && data_of(f) != sentinel()
}

/// What one decoding step yields.
#[derive(Debug)]
pub enum DecodeStep {
    /// One decoded delta of the reply.
    Delta(ChatResponseMessage),
    /// The stream ended cleanly; no further step yields anything else.
    End,
    /// The stream failed; no further step yields anything else.
    Fail(Error),
}

/// Reads one payload text as a reply delta, exactly as
/// [`payload_delta`] defines the format: a flat JSON object with the
/// optional string members `role` and `message` (`null` counts as
/// absent), the required integer `created` and the required strings
/// `id`, `action` and `model`; unknown flat members are ignored.
pub fn parse_response_message(data: &str) -> (r: Result<ChatResponseMessage, Error>)
    ensures
        match payload_delta(data@) {
            Some(d) => r matches Ok(m) && m@ == d,
            None => r == Err::<ChatResponseMessage, Error>(Error::InvalidPayload),
        },
{
    match parse_payload(data) {
        Some(m) => Ok(m),
        None => Err(Error::InvalidPayload),
    }
}

/// The decoder's state: once it has reported a clean end or a failure it
/// is finished, and every later step reports the end again.
pub struct ResponseDecoder {
    done: bool,
}

impl ResponseDecoder {
    /// Whether the decoder has terminated, cleanly or by failure.
    pub closed spec fn is_done(&self) -> bool {
        self.done
    }

    /// A fresh decoder at the start of a reply stream.
    pub fn new() -> (r: ResponseDecoder)
        ensures
            !r.is_done(),
    {
        ResponseDecoder { done: false }
    }

    /// Terminates the decoder from outside, for a failure that does not
    /// arrive as a frame.
    pub fn finish(&mut self)
        ensures
            final(self).is_done(),
    {
        self.done = true;
    }

    /// Decodes one upstream input. A sentinel frame ends the stream
    /// cleanly; a framing error, a frame without data, and a payload that
    /// fails the shape check each end it with the matching error; any
    /// other payload frame yields a delta. Once terminated, every further
    /// step yields `End`, whatever arrives.
    pub fn poll_frame(&mut self, input: FrameInput) -> (r: DecodeStep)
        ensures
            final(self).is_done() == !(r is Delta),
            old(self).is_done() ==> r is End && *final(self) == *old(self),
            !old(self).is_done() ==> {
                &&& input is BadFraming ==> r == DecodeStep::Fail(Error::InvalidFraming)
                &&& is_missing_data(input) ==> r == DecodeStep::Fail(Error::MissingData)
                &&& is_done_frame(input) ==> r is End
                &&& is_payload(input) ==> (match payload_delta(data_of(input)) {
                    Some(d) => r matches DecodeStep::Delta(m) && m@ == d,
                    None => r == DecodeStep::Fail(Error::InvalidPayload),
                })
            },
    {
        if self.done {
            return DecodeStep::End;
        }
        match input {
            FrameInput::BadFraming => {
                self.done = true;
                DecodeStep::Fail(Error::InvalidFraming)
            },
            FrameInput::Frame(frame) => {
                match frame.data {
                    None => {
                        self.done = true;
                        DecodeStep::Fail(Error::MissingData)
                    },
                    Some(data) => {
                        if data == String::from_str("[DONE]") {
                            self.done = true;
                            DecodeStep::End
                        } else {
                            match parse_response_message(data.as_str()) {
                                Ok(m) => DecodeStep::Delta(m),
                                Err(e) => {
                                    self.done = true;
                                    DecodeStep::Fail(e)
                                },
                            }
                        }
                    },
                }
            },
        }
    }
}

/// Whether every step before index `i` yielded a delta, i.e. the decoder
/// was still live when it took step `i`.
pub open spec fn live_prefix(out: Seq<DecodeStep>, i: int) -> bool {
    forall|j: int| 0 <= j < i ==> out[j] is Delta
}

/// What a live decoding step must yield for a given input.
pub open spec fn step_matches(f: FrameInput, s: DecodeStep) -> bool {
    &&& f is BadFraming ==> s == DecodeStep::Fail(Error::InvalidFraming)
    &&& is_missing_data(f) ==> s == DecodeStep::Fail(Error::MissingData)
    &&& is_done_frame(f) ==> s is End
    &&& is_payload(f) ==> (match payload_delta(data_of(f)) {
        Some(d) => s matches DecodeStep::Delta(m) && m@ == d,
        None => s == DecodeStep::Fail(Error::InvalidPayload),
    })
}

/// Runs a fresh decoder over a whole frame sequence. The contract is the
/// decoder's termination law: deltas come one per payload frame, in
/// order, while the stream is live; the first non-delta step — the
/// sentinel, or any failure — terminates it, and from then on every step
/// is `End`, whatever frames follow.
pub fn decode_all(frames: &Vec<FrameInput>) -> (out: Vec<DecodeStep>)
    ensures
        out@.len() == frames@.len(),
        forall|i: int| 0 <= i < out@.len() && live_prefix(out@, i) ==> step_matches(
            frames@[i],
            out@[i],
        ),
        forall|i: int| 0 < i < out@.len() && !(#[trigger] out@[i - 1] is Delta) ==> out@[i] is End,
{
    let mut decoder = ResponseDecoder::new();
    let mut out: Vec<DecodeStep> = Vec::new();
    let mut k: usize = 0;
    while k < frames.len()
        invariant
            0 <= k <= frames@.len(),
            out@.len() == k,
            decoder.is_done() == (k > 0 && !(out@[k - 1] is Delta)),
            forall|j: int| 0 < j < k ==> (#[trigger] out@[j - 1] is Delta || out@[j] is End),
            forall|i: int| 0 <= i < k && live_prefix(out@, i) ==> step_matches(
                frames@[i],
                out@[i],
            ),
            k > 0 && live_prefix(out@, k - 1) && !(out@[k - 1] is Delta) ==> decoder.is_done(),
            live_prefix(out@, k as int) ==> !decoder.is_done(),
        decreases frames@.len() - k,
    {
        let ghost old_out = out@;
        let step = decoder.poll_frame(frames[k].clone_input());
        out.push(step);
        k = k + 1;
        proof {
            assert(forall|j: int| 0 <= j < old_out.len() ==> #[trigger] out@[j] == old_out[j]);
            assert forall|i: int| 0 <= i < k && live_prefix(out@, i) implies step_matches(
                frames@[i],
                out@[i],
            ) by {
                assert forall|j: int| 0 <= j < i implies #[trigger] old_out[j] is Delta by {
                    assert(out@[j] is Delta);
                }
                if i < k - 1 {
                    assert(live_prefix(old_out, i));
                    assert(out@[i] == old_out[i]);
                } else {
                    assert(live_prefix(old_out, i));
                }
            }
        }
    }
    out
}

/// The folded role after a run of deltas: the latest delta that names a
/// role wins.
pub open spec fn fold_role(deltas: Seq<DeltaView>) -> Option<Seq<char>>
    decreases deltas.len(),
{
    if deltas.len() == 0 {
        None
    } else if deltas.last().role is Some {
        deltas.last().role
    } else {
        fold_role(deltas.drop_last())
    }
}

/// The folded reply text after a run of deltas: every fragment appended
/// in order.
pub open spec fn fold_content(deltas: Seq<DeltaView>) -> Seq<char>
    decreases deltas.len(),
{
    if deltas.len() == 0 {
        Seq::empty()
    } else {
        fold_content(deltas.drop_last()) + match deltas.last().message {
            Some(m) => m,
            None => Seq::empty(),
        }
    }
}

/// Assembles one reply message out of a run of decoded deltas: the role
/// is the latest one named, the content is every fragment in order. A run
/// that never names a role — the empty run included — is the
/// missing-role failure.
pub fn collect_into_chat_message(deltas: &Vec<ChatResponseMessage>) -> (r: Result<
    ChatMessage,
    Error,
>)
    ensures
        ({
            let views = deltas@.map(|i: int, d: ChatResponseMessage| d@);
            match fold_role(views) {
                Some(role) => r matches Ok(m) && m@.role == role && m@.content == fold_content(
                    views,
                ),
                None => r == Err::<ChatMessage, Error>(Error::MissingRole),
            }
        }),
{
    let ghost views = deltas@.map(|i: int, d: ChatResponseMessage| d@);
    let mut role: Option<String> = None;
    let mut content: String = String::new();
    let mut k: usize = 0;
    while k < deltas.len()
        invariant
            0 <= k <= deltas@.len(),
            views == deltas@.map(|i: int, d: ChatResponseMessage| d@),
            views.len() == deltas@.len(),
            opt_view(role) == fold_role(views.take(k as int)),
            content@ == fold_content(views.take(k as int)),
        decreases deltas@.len() - k,
    {
        let d = &deltas[k];
        proof {
            assert(views.take(k + 1).drop_last() =~= views.take(k as int));
            assert(views.take(k + 1).last() == d@);
        }
        match &d.role {
            Some(s) => {
                role = Some(s.clone());
            },
            None => {},
        }
        match &d.message {
            Some(m) => {
                content.append(m.as_str());
            },
            None => {},
        }
        k = k + 1;
    }
    proof {
        assert(views.take(views.len() as int) =~= views);
    }
    match role {
        Some(role) => Ok(ChatMessage { role, content }),
        None => Err(Error::MissingRole),
    }
}

/// The view of an optional string.
pub open spec fn opt_view(o: Option<String>) -> Option<Seq<char>> {
    match o {
        Some(s) => Some(s@),
        None => None,
    }
}

impl FrameInput {
    /// A structural copy of an input.
    pub fn clone_input(&self) -> (r: FrameInput)
        ensures
            r == *self,
    {
        match self {
            FrameInput::BadFraming => FrameInput::BadFraming,
            FrameInput::Frame(fr) => {
                let event = match &fr.event {
                    Some(e) => Some(e.clone()),
                    None => None,
                };
                let data = match &fr.data {
                    Some(d) => Some(d.clone()),
                    None => None,
                };
                let r = FrameInput::Frame(SseFrame { event, data });
                proof {
                    assert(r == *self);
                }
                r
            },
        }
    }
}

} // verus!
