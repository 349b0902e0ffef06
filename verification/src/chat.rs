//! The chat session: owner of the conversation transcript and the session
//! token. A send is a speculative mutation — the user turn goes in first,
//! and the exchange that follows either commits one assistant turn or rolls
//! the tentative turn back, whatever way the stream ends. While an exchange
//! is in flight the session is busy, and every competing send or mutation
//! fails at once instead of waiting.

use vstd::prelude::*;

use crate::channel::TokenChannel;
use crate::decode::data_of;
use crate::decode::is_done_frame;
use crate::decode::is_missing_data;
use crate::decode::is_payload;
use crate::decode::DecodeStep;
use crate::decode::FrameInput;
use crate::decode::ResponseDecoder;
use crate::errors::Error;
use crate::model::ChatMessage;
use crate::model::ChatRequest;
use crate::model::ChatResponseMessage;
use crate::model::DeltaView;
use crate::model::TurnView;
use crate::payload::payload_delta;

verus! {

/// The view of a session: the transcript, the model, the token, and
/// whether an exchange is in flight.
#[verifier::ext_equal]
pub ghost struct ChatView {
    pub transcript: Seq<TurnView>,
    pub model: Seq<char>,
    pub token: Option<Seq<char>>,
    pub busy: bool,
}

/// The role of every tentative turn a send appends.
pub open spec fn user_role() -> Seq<char> {
    "user"@
}

/// The model a fresh session starts with.
pub open spec fn default_model() -> Seq<char> {
    "gpt-4o-mini"@
}

/// Starting a send: the tentative user turn goes in and the session
/// becomes busy.
pub open spec fn begin_spec(v: ChatView, content: Seq<char>) -> ChatView {
    ChatView {
        transcript: v.transcript.push(TurnView { role: user_role(), content }),
        busy: true,
        ..v
    }
}

/// Finishing a send well: the assembled assistant turn goes in and the
/// session is free again.
pub open spec fn commit_spec(v: ChatView, reply: TurnView) -> ChatView {
    ChatView { transcript: v.transcript.push(reply), busy: false, ..v }
}

/// Finishing a send badly: exactly the most recently appended turn — the
/// tentative one — comes out again, and the session is free.
pub open spec fn rollback_spec(v: ChatView) -> ChatView {
    ChatView { transcript: v.transcript.drop_last(), busy: false, ..v }
}

/// One whole successful exchange: the user turn, then the reply.
pub open spec fn send_success_spec(v: ChatView, content: Seq<char>, reply: TurnView) -> ChatView {
    commit_spec(begin_spec(v, content), reply)
}

/// A chat session.
pub struct Chat {
    request: ChatRequest,
    busy: bool,
}

impl View for Chat {
    type V = ChatView;

    closed spec fn view(&self) -> ChatView {
        ChatView {
            transcript: self.request@.turns,
            model: self.request@.model,
            token: self.request@.token,
            busy: self.busy,
        }
    }
}

impl Chat {
    /// Builds a session out of the initialization response: the value of
    /// the token header, captured verbatim, or the missing-token failure
    /// when the response carried none. A fresh session has an empty
    /// transcript, the default model, and no exchange in flight.
    pub fn init(token_header: Option<String>) -> (r: Result<Chat, Error>)
        ensures
            token_header is None ==> (r matches Err(e) && e == Error::MissingToken),
            token_header matches Some(t) ==> (r matches Ok(c) && c@ == ChatView {
                transcript: Seq::empty(),
                model: default_model(),
                token: Some(t@),
                busy: false,
            }),
    {
        match token_header {
            None => Err(Error::MissingToken),
            Some(token) => {
                let c = Chat {
                    request: ChatRequest {
                        messages: Vec::new(),
                        model: String::from_str("gpt-4o-mini"),
                        vqd: Some(token),
                    },
                    busy: false,
                };
                proof {
                    assert(c@.transcript =~= Seq::<TurnView>::empty());
                }
                Ok(c)
            },
        }
    }

    /// Wraps an already-built request as a session with no exchange in
    /// flight. A request without a token yields a session on which every
    /// send fails with the missing-token error.
    pub fn from_request(request: ChatRequest) -> (r: Chat)
        ensures
            r@.transcript == request@.turns,
            r@.model == request@.model,
            r@.token == request@.token,
            !r@.busy,
    {
        Chat { request, busy: false }
    }

    /// The model the session asks for.
    pub fn get_model(&self) -> (r: String)
        ensures
            r@ == self@.model,
    {
        self.request.model.clone()
    }

    /// Changes the model. The model is locked once the first exchange has
    /// completed — that is, exactly when the transcript already has two
    /// or more turns — and a busy session rejects the mutation outright.
    pub fn set_model(&mut self, model: &str) -> (r: Result<(), Error>)
        ensures
            old(self)@.busy ==> (r matches Err(e) && e == Error::Busy && *final(self) == *old(
                self,
            )),
            !old(self)@.busy && old(self)@.transcript.len() >= 2 ==> (r matches Err(e) && e
                == Error::ModelLocked && *final(self) == *old(self)),
            !old(self)@.busy && old(self)@.transcript.len() < 2 ==> r is Ok && final(self)@
                == (ChatView { model: model@, ..old(self)@ }),
    {
        if self.busy {
            return Err(Error::Busy);
        }
        if self.request.messages.len() >= 2 {
            return Err(Error::ModelLocked);
        }
        self.request.model = model.to_owned();
        Ok(())
    }

    /// Whether an exchange is in flight.
    pub fn is_busy(&self) -> (r: bool)
        ensures
            r == self@.busy,
    {
        self.busy
    }

    /// How many turns the transcript holds.
    pub fn turn_count(&self) -> (r: usize)
        ensures
            r == self@.transcript.len(),
    {
        self.request.messages.len()
    }

    /// The turn at an index, as its role and content, or the
    /// out-of-range failure.
    pub fn get_turn(&self, index: usize) -> (r: Result<(String, String), Error>)
        ensures
            index < self@.transcript.len() ==> (r matches Ok(p) && p.0@ == self@.transcript[
                index as int
            ].role && p.1@ == self@.transcript[index as int].content),
            index >= self@.transcript.len() ==> (r matches Err(e) && e == Error::IndexOutOfRange),
    {
        if index < self.request.messages.len() {
            let m = &self.request.messages[index];
            Ok((m.role.clone(), m.content.clone()))
        } else {
            Err(Error::IndexOutOfRange)
        }
    }

    /// The request the session would send: the transcript, the model and
    /// the token, for a transport layer to serialize and address.
    pub fn request(&self) -> (r: &ChatRequest)
        ensures
            r@.turns == self@.transcript,
            r@.model == self@.model,
            r@.token == self@.token,
    {
        &self.request
    }

    /// Tries to start a send. A busy session fails at once with the busy
    /// error — it never waits — and a session that has not captured a
    /// token fails with the missing-token error; neither changes
    /// anything. Otherwise the tentative user turn is appended, the
    /// session becomes busy, and the returned pending exchange is the
    /// exclusive write access for the rest of the send.
    pub fn begin_send(&mut self, content: &str) -> (r: Result<PendingExchange, Error>)
        ensures
            old(self)@.busy ==> (r matches Err(e) && e == Error::Busy && *final(self) == *old(
                self,
            )),
            !old(self)@.busy && old(self)@.token is None ==> (r matches Err(e) && e
                == Error::MissingToken && *final(self) == *old(self)),
            !old(self)@.busy && old(self)@.token is Some ==> (r matches Ok(ex) && ex@
                == fresh_exchange() && final(self)@ == begin_spec(old(self)@, content@)),
    {
        if self.busy {
            return Err(Error::Busy);
        }
        match &self.request.vqd {
            None => Err(Error::MissingToken),
            Some(_) => {
                self.request.messages.push(
                    ChatMessage { role: String::from_str("user"), content: content.to_owned() },
                );
                self.busy = true;
                proof {
                    assert(self@.transcript =~= begin_spec(old(self)@, content@).transcript);
                    assert(self@ =~= begin_spec(old(self)@, content@));
                }
                Ok(PendingExchange {
                    decoder: ResponseDecoder::new(),
                    failure: None,
                    role: None,
                    content: String::new(),
                })
            },
        }
    }
}

/// The view of a pending exchange: whether the stream has terminated, the
/// failure if one occurred, and the accumulated role and reply text.
#[verifier::ext_equal]
pub ghost struct ExchangeView {
    pub done: bool,
    pub failure: Option<Error>,
    pub role: Option<Seq<char>>,
    pub content: Seq<char>,
}

/// The view of an exchange that has just begun.
pub open spec fn fresh_exchange() -> ExchangeView {
    ExchangeView { done: false, failure: None, role: None, content: Seq::empty() }
}

/// How one delta updates the running role: the latest delta that names a
/// role wins.
pub open spec fn role_after(cur: Option<Seq<char>>, d: DeltaView) -> Option<Seq<char>> {
    if d.role is Some {
        d.role
    } else {
        cur
    }
}

/// The fragment a delta contributes to the reply text.
pub open spec fn fragment_of(d: DeltaView) -> Seq<char> {
    match d.message {
        Some(m) => m,
        None => Seq::empty(),
    }
}

/// The messages one delta forwards on the token channel: its fragment,
/// when it carries one.
pub open spec fn forwarded_of(d: DeltaView) -> Seq<Result<Seq<char>, Error>> {
    match d.message {
        Some(m) => seq![Ok(m)],
        None => Seq::empty(),
    }
}

/// The concatenation, in order, of every fragment in a run of channel
/// messages.
pub open spec fn concat_ok(msgs: Seq<Result<Seq<char>, Error>>) -> Seq<char>
    decreases msgs.len(),
{
    if msgs.len() == 0 {
        Seq::empty()
    } else {
        concat_ok(msgs.drop_last()) + match msgs.last() {
            Ok(t) => t,
            Err(_) => Seq::empty(),
        }
    }
}

/// What one forwarded delta adds to the concatenation: exactly its
/// fragment.
pub proof fn lemma_concat_ok_extend(msgs: Seq<Result<Seq<char>, Error>>, d: DeltaView)
    ensures
        concat_ok(msgs + forwarded_of(d)) == concat_ok(msgs) + fragment_of(d),
{
    match d.message {
        Some(m) => {
            assert((msgs + forwarded_of(d)).drop_last() =~= msgs);
            assert((msgs + forwarded_of(d)).last() == Ok::<Seq<char>, Error>(m));
        },
        None => {
            assert(msgs + forwarded_of(d) =~= msgs);
            assert(concat_ok(msgs) + fragment_of(d) =~= concat_ok(msgs));
        },
    }
}

/// One send-and-stream operation in flight. It holds the exclusive write
/// access taken by [`Chat::begin_send`] and ends by [`Self::conclude`],
/// which commits or rolls back — there is no third way out.
pub struct PendingExchange {
    decoder: ResponseDecoder,
    failure: Option<Error>,
    role: Option<String>,
    content: String,
}

impl View for PendingExchange {
    type V = ExchangeView;

    closed spec fn view(&self) -> ExchangeView {
        ExchangeView {
            done: self.decoder.is_done(),
            failure: match self.failure {
                Some(e) => Some(e),
                None => None,
            },
            role: match self.role {
                Some(ref r) => Some(r@),
                None => None,
            },
            content: self.content@,
        }
    }
}

impl PendingExchange {
    /// Absorbs one decoded delta: the role update, the fragment appended
    /// to the reply text, and the fragment forwarded on the channel at
    /// once — the fragment itself, not the accumulated text.
    pub fn absorb(&mut self, delta: &ChatResponseMessage, ch: &mut TokenChannel)
        requires
            !old(ch).is_closed(),
        ensures
            final(self)@.done == old(self)@.done,
            final(self)@.failure == old(self)@.failure,
            final(self)@.role == role_after(old(self)@.role, delta@),
            final(self)@.content == old(self)@.content + fragment_of(delta@),
            final(ch).pushed() == old(ch).pushed() + forwarded_of(delta@),
            final(ch).delivered() == old(ch).delivered(),
            !final(ch).is_closed(),
    {
        match &delta.role {
            Some(r) => {
                self.role = Some(r.clone());
            },
            None => {},
        }
        match &delta.message {
            Some(m) => {
                self.content.append(m.as_str());
                ch.push_token(m.clone());
                proof {
                    assert(final(ch).pushed() =~= old(ch).pushed() + forwarded_of(delta@));
                }
            },
            None => {
                proof {
                    assert(final(ch).pushed() =~= old(ch).pushed() + forwarded_of(delta@));
                    assert(self@.content =~= old(self)@.content + fragment_of(delta@));
                }
            },
        }
    }

    /// Records a failure that arose outside the frame stream — a
    /// transport that broke off — and terminates the exchange with it;
    /// [`Self::conclude`] will then report it and roll back.
    pub fn abort(&mut self, e: Error)
        requires
            !old(self)@.done,
        ensures
            final(self)@ == (ExchangeView { done: true, failure: Some(e), ..old(self)@ }),
    {
        self.decoder.finish();
        self.failure = Some(e);
    }

    /// Feeds one upstream input through the decoder. A payload frame
    /// inside the format is absorbed — the delta [`payload_delta`] gives
    /// it — and its fragment forwarded; the sentinel terminates the
    /// exchange cleanly; a framing error, a missing data field and a
    /// payload outside the format each terminate it with the matching
    /// failure, which [`Self::conclude`] later reports as the terminal
    /// channel message. Returns whether the exchange has terminated;
    /// once it has, further inputs change nothing.
    pub fn feed(&mut self, ch: &mut TokenChannel, input: FrameInput) -> (done: bool)
        requires
            !old(ch).is_closed(),
        ensures
            done == final(self)@.done,
            !final(ch).is_closed(),
            final(ch).delivered() == old(ch).delivered(),
            old(self)@.done ==> *final(self) == *old(self) && final(ch).pushed() == old(ch).pushed(),
            !old(self)@.done ==> (final(self)@.done <==> !(is_payload(input) && payload_delta(
                data_of(input),
            ) is Some)),
            !old(self)@.done && !final(self)@.done ==> {
                &&& final(self)@.failure == old(self)@.failure
                &&& ({
                    let d = payload_delta(data_of(input)).unwrap();
                    &&& final(self)@.role == role_after(old(self)@.role, d)
                    &&& final(self)@.content == old(self)@.content + fragment_of(d)
                    &&& final(ch).pushed() == old(ch).pushed() + forwarded_of(d)
                })
            },
            !old(self)@.done && final(self)@.done ==> {
                &&& final(self)@.role == old(self)@.role
                &&& final(self)@.content == old(self)@.content
                &&& final(ch).pushed() == old(ch).pushed()
                &&& (input is BadFraming ==> final(self)@.failure == Some(Error::InvalidFraming))
                &&& (is_missing_data(input) ==> final(self)@.failure == Some(Error::MissingData))
                &&& (is_done_frame(input) ==> final(self)@.failure == old(self)@.failure)
                &&& (is_payload(input) ==> final(self)@.failure == Some(Error::InvalidPayload))
            },
    {
        let ghost gi = input;
        let step = self.decoder.poll_frame(input);
        match step {
            DecodeStep::End => true,
            DecodeStep::Fail(e) => {
                self.failure = Some(e);
                true
            },
            DecodeStep::Delta(m) => {
                self.absorb(&m, ch);
                proof {
                    assert(m@ == payload_delta(data_of(gi)).unwrap());
                }
                false
            },
        }
    }

    /// Ends the exchange and releases the exclusive access, deciding the
    /// transcript once and for all. A failure — or a stream that never
    /// named a role — is forwarded as the terminal channel message and
    /// the tentative user turn comes back out; otherwise the assembled
    /// assistant turn is committed and nothing more is forwarded. Either
    /// way the channel closes and the session is free again.
    pub fn conclude(self, chat: &mut Chat, ch: &mut TokenChannel)
        requires
            old(chat)@.busy,
            old(chat)@.transcript.len() >= 1,
            !old(ch).is_closed(),
        ensures
            !final(chat)@.busy,
            final(chat)@.model == old(chat)@.model,
            final(chat)@.token == old(chat)@.token,
            final(ch).is_closed(),
            final(ch).delivered() == old(ch).delivered(),
            self@.failure matches Some(e) ==> (final(chat)@ == rollback_spec(old(chat)@)
                && final(ch).pushed() == old(ch).pushed().push(Err(e))),
            self@.failure is None && self@.role is None ==> final(chat)@ == rollback_spec(
                old(chat)@,
            ) && final(ch).pushed() == old(ch).pushed().push(Err(Error::MissingRole)),
            self@.failure is None ==> (self@.role matches Some(role) ==> (final(chat)@
                == commit_spec(old(chat)@, TurnView { role, content: self@.content })
                && final(ch).pushed() == old(ch).pushed())),
    {
        match self.failure {
            Some(e) => {
                ch.push_failure(e);
                self_rollback(chat);
            },
            None => {
                match self.role {
                    None => {
                        ch.push_failure(Error::MissingRole);
                        self_rollback(chat);
                    },
                    Some(role) => {
                        let ghost old_chat = chat@;
                        chat.request.messages.push(ChatMessage { role, content: self.content });
                        chat.busy = false;
                        proof {
                            assert(chat@.transcript =~= commit_spec(
                                old_chat,
                                TurnView { role: role@, content: self.content@ },
                            ).transcript);
                            assert(chat@ =~= commit_spec(
                                old_chat,
                                TurnView { role: role@, content: self.content@ },
                            ));
                        }
                    },
                }
            },
        }
        ch.close();
    }
}

/// Removes the tentative user turn — exactly the most recently appended
/// turn — and frees the session.
fn self_rollback(chat: &mut Chat)
    requires
        old(chat)@.transcript.len() >= 1,
    ensures
        final(chat)@ == rollback_spec(old(chat)@),
{
    chat.request.messages.pop();
    chat.busy = false;
    proof {
        assert(chat@.transcript =~= rollback_spec(old(chat)@).transcript);
        assert(chat@ =~= rollback_spec(old(chat)@));
    }
}

/// How far a spec-level exchange run has come.
pub enum RunStatus {
    /// Still decoding.
    Live,
    /// The sentinel ended the stream cleanly.
    Ended,
    /// The stream failed with this error.
    Failed(Error),
}

/// The view of an exchange run over a frame sequence: the running role
/// and reply text, the fragments forwarded so far, and how it stands.
#[verifier::ext_equal]
pub ghost struct RunView {
    pub role: Option<Seq<char>>,
    pub content: Seq<char>,
    pub frags: Seq<Result<Seq<char>, Error>>,
    pub status: RunStatus,
}

/// A run before its first frame.
pub open spec fn run_start() -> RunView {
    RunView { role: None, content: Seq::empty(), frags: Seq::empty(), status: RunStatus::Live }
}

/// One frame of an exchange run: what [`PendingExchange::feed`] does.
pub open spec fn run_step(r: RunView, f: FrameInput) -> RunView {
    if !(r.status is Live) {
        r
    } else if f is BadFraming {
        RunView { status: RunStatus::Failed(Error::InvalidFraming), ..r }
    } else if is_missing_data(f) {
        RunView { status: RunStatus::Failed(Error::MissingData), ..r }
    } else if is_done_frame(f) {
        RunView { status: RunStatus::Ended, ..r }
    } else {
        match payload_delta(data_of(f)) {
            None => RunView { status: RunStatus::Failed(Error::InvalidPayload), ..r },
            Some(d) => RunView {
                role: role_after(r.role, d),
                content: r.content + fragment_of(d),
                frags: r.frags + forwarded_of(d),
                status: RunStatus::Live,
            },
        }
    }
}

/// A whole exchange run over a frame sequence, first frame first.
pub open spec fn run_frames(frames: Seq<FrameInput>) -> RunView
    decreases frames.len(),
{
    if frames.len() == 0 {
        run_start()
    } else {
        run_step(run_frames(frames.drop_last()), frames.last())
    }
}

/// Whether an exchange and the channel it fills stand exactly where a
/// spec-level run says: same role, reply text and forwarded fragments,
/// and the matching liveness and failure.
pub open spec fn run_agrees(
    ex: ExchangeView,
    pushed: Seq<Result<Seq<char>, Error>>,
    rv: RunView,
) -> bool {
    &&& ex.role == rv.role
    &&& ex.content == rv.content
    &&& pushed == rv.frags
    &&& (match rv.status {
        RunStatus::Live => !ex.done && ex.failure is None,
        RunStatus::Ended => ex.done && ex.failure is None,
        RunStatus::Failed(e) => ex.done && ex.failure == Some(e),
    })
}

/// In a run, the reply text is always exactly the concatenation of the
/// forwarded fragments, in order.
pub proof fn lemma_run_content_is_concat(frames: Seq<FrameInput>)
    ensures
        run_frames(frames).content == concat_ok(run_frames(frames).frags),
    decreases frames.len(),
{
    if frames.len() > 0 {
        lemma_run_content_is_concat(frames.drop_last());
        let r = run_frames(frames.drop_last());
        let f = frames.last();
        if r.status is Live && is_payload(f) && payload_delta(data_of(f)) is Some {
            lemma_concat_ok_extend(r.frags, payload_delta(data_of(f)).unwrap());
        }
    }
}

/// Runs one whole send against an already-fetched frame sequence: begin,
/// feed every frame, conclude. On a busy session or a missing token
/// nothing happens and the matching error comes back. Otherwise the
/// outcome is exactly what [`run_frames`] says of the frames: on a
/// failure, or a stream that never named a role, the session is left
/// exactly as it was and the channel holds the forwarded fragments with
/// the error as its last message; otherwise the transcript grew by the
/// user turn and the assembled reply, and the channel holds exactly the
/// fragments, in order.
pub fn run_exchange(chat: &mut Chat, content: &str, frames: &Vec<FrameInput>) -> (r: Result<
    TokenChannel,
    Error,
>)
    ensures
        old(chat)@.busy ==> (r matches Err(e) && e == Error::Busy && *final(chat) == *old(chat)),
        !old(chat)@.busy && old(chat)@.token is None ==> (r matches Err(e) && e
            == Error::MissingToken && *final(chat) == *old(chat)),
        !old(chat)@.busy && old(chat)@.token is Some ==> r is Ok,
        r matches Ok(ch) ==> ({
            let rv = run_frames(frames@);
            &&& !final(chat)@.busy
            &&& ch.is_closed()
            &&& ch.delivered().len() == 0
            &&& (match rv.status {
                RunStatus::Failed(e) => final(chat)@ == old(chat)@ && ch.pushed()
                    == rv.frags.push(Err(e)),
                _ => match rv.role {
                    None => final(chat)@ == old(chat)@ && ch.pushed() == rv.frags.push(
                        Err(Error::MissingRole),
                    ),
                    Some(role) => final(chat)@ == send_success_spec(
                        old(chat)@,
                        content@,
                        TurnView { role, content: rv.content },
                    ) && ch.pushed() == rv.frags,
                },
            })
        }),
{
    let mut ch = TokenChannel::new();
    let mut exchange = match chat.begin_send(content) {
        Ok(ex) => ex,
        Err(e) => {
            return Err(e);
        },
    };
    let ghost begun = chat@;
    proof {
        assert(frames@.take(0) =~= Seq::<FrameInput>::empty());
    }
    let mut k: usize = 0;
    while k < frames.len()
        invariant
            !ch.is_closed(),
            ch.delivered().len() == 0,
            k <= frames@.len(),
            run_agrees(exchange@, ch.pushed(), run_frames(frames@.take(k as int))),
            chat@ == begun,
            begun.busy,
            begun.transcript.len() >= 1,
        decreases frames@.len() - k,
    {
        let ghost pre_ex = exchange@;
        let input = frames[k].clone_input();
        let ghost gi = input;
        exchange.feed(&mut ch, input);
        k = k + 1;
        proof {
            assert(frames@.take(k as int).drop_last() =~= frames@.take(k - 1));
            assert(frames@.take(k as int).last() == gi);
        }
    }
    let ghost exch_view = exchange@;
    let ghost pre = old(chat)@;
    let ghost rv = run_frames(frames@);
    proof {
        assert(frames@.take(frames@.len() as int) =~= frames@);
        assert(run_agrees(exch_view, ch.pushed(), rv));
    }
    exchange.conclude(chat, &mut ch);
    proof {
        if exch_view.failure is None && exch_view.role is Some {
            let role = exch_view.role.unwrap();
            let reply = TurnView { role, content: exch_view.content };
            assert(chat@ == commit_spec(begun, reply));
            assert(chat@ == send_success_spec(pre, content@, reply));
        } else {
            assert(chat@ == rollback_spec(begun));
            lemma_rollback_restores(pre, content@);
        }
    }
    Ok(ch)
}

/// The rollback law: a send that fails — at the transport, in decoding,
/// or for want of a role — leaves the transcript exactly as it stood
/// before the send began: the begin step appends one tentative turn, and
/// the rollback removes exactly that turn.
pub proof fn lemma_rollback_restores(v: ChatView, content: Seq<char>)
    requires
        !v.busy,
    ensures
        rollback_spec(begin_spec(v, content)) == v,
{
    assert(begin_spec(v, content).transcript.drop_last() =~= v.transcript);
    assert(rollback_spec(begin_spec(v, content)) =~= v);
}

/// A session after a run of successful sends, each given as the user text
/// and the reply turn it commits.
pub open spec fn after_sends(v: ChatView, sends: Seq<(Seq<char>, TurnView)>) -> ChatView
    decreases sends.len(),
{
    if sends.len() == 0 {
        v
    } else {
        send_success_spec(after_sends(v, sends.drop_last()), sends.last().0, sends.last().1)
    }
}

/// The transcript-growth law: every successful send adds exactly two
/// turns — the user turn and the committed reply — so after any run of
/// successful sends the transcript holds twice as many new turns as
/// sends; a fresh session shows exactly `2 * N` turns after `N` of them.
pub proof fn lemma_turn_count_after_sends(v: ChatView, sends: Seq<(Seq<char>, TurnView)>)
    ensures
        after_sends(v, sends).transcript.len() == v.transcript.len() + 2 * sends.len(),
        after_sends(v, sends).model == v.model,
        after_sends(v, sends).token == v.token,
    decreases sends.len(),
{
    if sends.len() > 0 {
        lemma_turn_count_after_sends(v, sends.drop_last());
    }
}

} // verus!
