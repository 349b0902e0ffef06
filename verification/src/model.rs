//! The data model: conversation turns, the request a session carries, and
//! the decoded reply deltas, together with their mathematical views.

use vstd::prelude::*;

verus! {

/// The view of one conversation turn: a role and its text.
#[verifier::ext_equal]
pub ghost struct TurnView {
    pub role: Seq<char>,
    pub content: Seq<char>,
}

/// One message of a conversation: who spoke and what was said.
#[derive(Debug)]
pub struct ChatMessage {
    /// The speaker, `"user"` or `"assistant"`.
    pub role: String,

    /// The message text.
    pub content: String,
}

impl View for ChatMessage {
    type V = TurnView;

    open spec fn view(&self) -> TurnView {
        TurnView { role: self.role@, content: self.content@ }
    }
}

/// The view of a chat request: the transcript, the model name, and the
/// session token if one was captured.
#[verifier::ext_equal]
pub ghost struct RequestView {
    pub turns: Seq<TurnView>,
    pub model: Seq<char>,
    pub token: Option<Seq<char>>,
}

/// A chat request: the ordered transcript, the chosen model, and the
/// opaque session token required before any exchange.
#[derive(Debug)]
pub struct ChatRequest {
    /// The ordered conversation transcript.
    pub messages: Vec<ChatMessage>,

    /// The model that answers.
    pub model: String,

    /// The session token. It travels as a transport header, never as part
    /// of the conversation payload.
    pub vqd: Option<String>,
}

impl View for ChatRequest {
    type V = RequestView;

    open spec fn view(&self) -> RequestView {
        RequestView {
            turns: self.messages@.map(|i: int, m: ChatMessage| m@),
            model: self.model@,
            token: match self.vqd {
                Some(t) => Some(t@),
                None => None,
            },
        }
    }
}

/// The view of one decoded reply delta.
#[verifier::ext_equal]
pub ghost struct DeltaView {
    pub role: Option<Seq<char>>,
    pub message: Option<Seq<char>>,
    pub created: u64,
    pub id: Seq<char>,
    pub action: Seq<char>,
    pub model: Seq<char>,
}

/// One decoded delta of a streamed reply: an optional role, an optional
/// text fragment, and metadata the engine carries but does not interpret.
#[derive(Debug)]
pub struct ChatResponseMessage {
    /// The speaker role, when the delta names one.
    pub role: Option<String>,

    /// One incremental fragment of the reply text.
    pub message: Option<String>,

    /// When the delta was created.
    pub created: u64,

    /// An identifier of the reply.
    pub id: String,

    /// What the server says this delta does.
    pub action: String,

    /// The model that produced the delta.
    pub model: String,
}

impl View for ChatResponseMessage {
    type V = DeltaView;

    open spec fn view(&self) -> DeltaView {
        DeltaView {
            role: match self.role {
                Some(r) => Some(r@),
                None => None,
            },
            message: match self.message {
                Some(m) => Some(m@),
                None => None,
            },
            created: self.created,
            id: self.id@,
            action: self.action@,
            model: self.model@,
        }
    }
}

} // verus!
