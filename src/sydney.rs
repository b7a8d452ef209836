use vstd::prelude::*;

use crate::classify::{batch_view, classify_batch, classify_docs};
use crate::doc::Json;
use crate::json::{ask_json, is_ask_envelope};
use crate::types::{CreateRoot, Tone};
use crate::url::{channel_url, token_key, url_encoded, WS_URL};

verus! {

/// Failures of the engine.
#[derive(Clone, Copy, Debug, PartialEq, Eq, Structural)]
pub enum SydneyError {
    /// No channel is open for the session.
    WebSocketNotConnected,
    /// The server sent data of an unexpected shape.
    MalformedFrame,
    /// The conversation reached its message limit.
    MaxMessagesCountLimitReached,
    /// The service throttled the request.
    ThrottlingError,
    /// The service asks for a challenge to be solved.
    ChallengeRequired,
    /// Nothing is left to read for the turn.
    EndOfResponse,
    /// A question is already waiting for its answer.
    TurnAlreadyOutstanding,
    /// Session creation did not report success or lacked an identifier.
    BootstrapFailed,
    /// The transport failed.
    ConnectionError,
}

/// One classified piece of a reply.
#[derive(Debug)]
pub enum SydneyResponse {
    FinalText(String),
    StreamText(String),
    SuggestedResponses(Vec<String>),
}

/// A reply piece with its text as characters.
pub enum ResponseView {
    FinalText(Seq<char>),
    StreamText(Seq<char>),
    SuggestedResponses(Seq<Seq<char>>),
}

impl View for SydneyResponse {
    type V = ResponseView;

    open spec fn view(&self) -> ResponseView {
        match self {
            SydneyResponse::FinalText(s) => ResponseView::FinalText(s@),
            SydneyResponse::StreamText(s) => ResponseView::StreamText(s@),
            SydneyResponse::SuggestedResponses(v) => ResponseView::SuggestedResponses(
                v@.map_values(|s: String| s@),
            ),
        }
    }
}

/// Where a session stands with respect to its channel and its turns.
#[derive(Clone, Copy, Debug, PartialEq, Eq, Structural)]
pub enum ChannelState {
    /// No channel is open: the session was just created, or its channel closed.
    Disconnected,
    /// A channel is open and no question is outstanding.
    Connected,
    /// A question was sent and its terminal update has not arrived yet.
    AwaitingResponse,
}

/// The abstract state of a session.
pub struct SessionView {
    pub close_ws_after: bool,
    pub citations: bool,
    pub suggestions: bool,
    pub turn_counter: int,
    pub state: ChannelState,
    pub tone: Tone,
    pub client_id: Seq<char>,
    pub conversation_id: Seq<char>,
    pub conversation_signature: Seq<char>,
    pub encrypted_conversation_signature: Seq<char>,
}

/// One conversation with the service: its identifiers, its settings, its
/// turn counter and where it stands with its channel. The channel itself is
/// driven by the caller, which reports to the session what happened to it.
pub struct BingAIWs {
    close_ws_after: bool,
    citations: bool,
    suggestions: bool,
    invocation_id: i64,
    state: ChannelState,
    tone: Tone,
    client_id: String,
    conversation_id: String,
    conversation_signature: String,
    encrypted_conversation_signature: String,
}

impl View for BingAIWs {
    type V = SessionView;

    closed spec fn view(&self) -> SessionView {
        SessionView {
            close_ws_after: self.close_ws_after,
            citations: self.citations,
            suggestions: self.suggestions,
            turn_counter: self.invocation_id as int,
            state: self.state,
            tone: self.tone,
            client_id: self.client_id@,
            conversation_id: self.conversation_id@,
            conversation_signature: self.conversation_signature@,
            encrypted_conversation_signature: self.encrypted_conversation_signature@,
        }
    }
}

/// The characters of an optional string.
pub open spec fn opt_view(o: Option<String>) -> Option<Seq<char>> {
    match o {
        Some(s) => Some(s@),
        None => None,
    }
}

/// A creation reply is accepted when its result value is `Success`, it names
/// the client and the conversation, and both signature headers came with it.
pub open spec fn bootstrap_accepted(
    root: CreateRoot,
    encrypted_signature: Option<String>,
    signature: Option<String>,
) -> bool {
    &&& root.result matches Some(res) && res.value matches Some(v) && v@ == "Success"@
    &&& root.client_id is Some
    &&& root.conversation_id is Some
    &&& encrypted_signature is Some
    &&& signature is Some
}

/// The refusal that `ask` gives in state `s`, if any.
pub open spec fn ask_refusal(s: SessionView) -> Option<SydneyError> {
    match s.state {
        ChannelState::AwaitingResponse => Some(SydneyError::TurnAlreadyOutstanding),
        ChannelState::Disconnected => Some(SydneyError::WebSocketNotConnected),
        ChannelState::Connected => None,
    }
}

/// The state after a question was accepted.
pub open spec fn after_ask(s: SessionView) -> SessionView {
    SessionView { turn_counter: s.turn_counter + 1, state: ChannelState::AwaitingResponse, ..s }
}

/// The refusal that reading the next batch gives in state `s`, if any.
pub open spec fn receive_refusal(s: SessionView) -> Option<SydneyError> {
    if s.state == ChannelState::AwaitingResponse {
        None
    } else {
        Some(SydneyError::EndOfResponse)
    }
}

/// The state after the terminal update of a turn.
pub open spec fn after_turn(s: SessionView) -> SessionView {
    SessionView {
        state: if s.close_ws_after {
            ChannelState::Disconnected
        } else {
            ChannelState::Connected
        },
        ..s
    }
}

/// Service conditions after which the channel stays usable.
pub open spec fn keeps_channel(r: Result<Seq<ResponseView>, SydneyError>) -> bool {
    r == Err::<Seq<ResponseView>, SydneyError>(SydneyError::MaxMessagesCountLimitReached) || r
        == Err::<Seq<ResponseView>, SydneyError>(SydneyError::ChallengeRequired)
}

/// The state after a batch was read: a turn that ended moves on, keeping the
/// channel when the service reported its limit or a challenge.
pub open spec fn after_batch(
    s: SessionView,
    out: (Result<Seq<ResponseView>, SydneyError>, bool),
) -> SessionView {
    if !out.1 {
        s
    } else if keeps_channel(out.0) {
        SessionView { state: ChannelState::Connected, ..s }
    } else {
        after_turn(s)
    }
}

/// One question at a time: once a question is accepted, another is refused
/// until a batch ends the turn, however many batches leave it open; and
/// reading a batch with no question outstanding reports the end of the
/// response.
pub proof fn lemma_one_turn_at_a_time(s: SessionView)
    ensures
        ask_refusal(s) is None ==> ask_refusal(after_ask(s)) == Some(
            SydneyError::TurnAlreadyOutstanding,
        ),
        ask_refusal(s) is None ==> ask_refusal(after_batch(after_ask(s), (Ok(seq![]), false))) == Some(
            SydneyError::TurnAlreadyOutstanding,
        ),
        s.state == ChannelState::Connected ==> receive_refusal(s) == Some(
            SydneyError::EndOfResponse,
        ),
{
}

impl BingAIWs {
    /// Creates a session from the reply to the creation request and the
    /// two signature headers that came with it.
    pub fn new(
        tone: Tone,
        root: CreateRoot,
        encrypted_signature: Option<String>,
        signature: Option<String>,
    ) -> (r: Result<BingAIWs, SydneyError>)
        ensures
            r is Ok <==> bootstrap_accepted(root, encrypted_signature, signature),
            r is Err ==> r == Err::<BingAIWs, SydneyError>(SydneyError::BootstrapFailed),
            r matches Ok(s) ==> {
                &&& s@.turn_counter == 0
                &&& s@.state == ChannelState::Disconnected
                &&& s@.tone == tone
                &&& !s@.close_ws_after && !s@.citations && !s@.suggestions
                &&& Some(s@.client_id) == opt_view(root.client_id)
                &&& Some(s@.conversation_id) == opt_view(root.conversation_id)
                &&& Some(s@.conversation_signature) == opt_view(signature)
                &&& Some(s@.encrypted_conversation_signature) == opt_view(encrypted_signature)
            },
    {
        let ghost root0 = root;
        let ok = match &root.result {
            Some(res) => match &res.value {
                Some(v) => *v == String::from_str("Success"),
                None => false,
            },
            None => false,
        };
        if !ok {
            return Err(SydneyError::BootstrapFailed);
        }
        let client_id = match root.client_id {
            Some(c) => c,
            None => {
                return Err(SydneyError::BootstrapFailed);
            },
        };
        let conversation_id = match root.conversation_id {
            Some(c) => c,
            None => {
                return Err(SydneyError::BootstrapFailed);
            },
        };
        let encrypted_conversation_signature = match encrypted_signature {
            Some(c) => c,
            None => {
                return Err(SydneyError::BootstrapFailed);
            },
        };
        let conversation_signature = match signature {
            Some(c) => c,
            None => {
                return Err(SydneyError::BootstrapFailed);
            },
        };
        Ok(BingAIWs {
            close_ws_after: false,
            citations: false,
            suggestions: false,
            invocation_id: 0,
            state: ChannelState::Disconnected,
            tone,
            client_id,
            conversation_id,
            conversation_signature,
            encrypted_conversation_signature,
        })
    }

    /// Sets whether the channel closes once a turn has ended.
    pub fn set_close_ws_after(&mut self, close: bool)
        ensures
            final(self)@ == (SessionView { close_ws_after: close, ..old(self)@ }),
    {
        self.close_ws_after = close;
    }

    /// Sets whether answer text is taken from the rich-card body.
    pub fn set_citations(&mut self, citations: bool)
        ensures
            final(self)@ == (SessionView { citations: citations, ..old(self)@ }),
    {
        self.citations = citations;
    }

    /// Sets whether suggested follow-ups are reported.
    pub fn set_suggestions(&mut self, suggestions: bool)
        ensures
            final(self)@ == (SessionView { suggestions: suggestions, ..old(self)@ }),
    {
        self.suggestions = suggestions;
    }

    /// The session's state with respect to its channel.
    pub fn state(&self) -> (r: ChannelState)
        ensures
            r == self@.state,
    {
        self.state
    }

    /// The number of questions asked so far.
    pub fn turn_counter(&self) -> (r: i64)
        ensures
            r as int == self@.turn_counter,
    {
        self.invocation_id
    }

    /// Whether the session has no open channel, so that one has to be opened
    /// before the next question.
    pub fn needs_channel(&self) -> (r: bool)
        ensures
            r == (self@.state == ChannelState::Disconnected),
    {
        self.state == ChannelState::Disconnected
    }

    /// The address of the session's channel.
    pub fn channel_url(&self) -> (r: String)
        ensures
            r@ == WS_URL@ + token_key() + url_encoded(self@.encrypted_conversation_signature),
    {
        channel_url(self.encrypted_conversation_signature.as_str())
    }

    /// Records that a channel was opened and its negotiation acknowledged.
    pub fn channel_opened(&mut self)
        ensures
            final(self)@ == if old(self)@.state == ChannelState::Disconnected {
                SessionView { state: ChannelState::Connected, ..old(self)@ }
            } else {
                old(self)@
            },
    {
        if self.state == ChannelState::Disconnected {
            self.state = ChannelState::Connected;
        }
    }

    /// Records that the channel closed: any outstanding turn is abandoned.
    pub fn channel_closed(&mut self)
        ensures
            final(self)@ == (SessionView { state: ChannelState::Disconnected, ..old(self)@ }),
    {
        self.state = ChannelState::Disconnected;
    }

    /// Accepts a question: returns the envelope to send, counts the turn and
    /// waits for its answer. Refused while a question is outstanding or when
    /// no channel is open, with the state unchanged.
    pub fn ask(&mut self, prompt: &str) -> (r: Result<Json, SydneyError>)
        requires
            prompt@.len() > 0,
            old(self)@.turn_counter < i64::MAX,
        ensures
            match ask_refusal(old(self)@) {
                Some(e) => r == Err::<Json, SydneyError>(e) && final(self)@ == old(self)@,
                None => {
                    &&& r matches Ok(env) && is_ask_envelope(
                        env,
                        prompt@,
                        old(self)@.turn_counter,
                        old(self)@.tone,
                        old(self)@.conversation_signature,
                        old(self)@.client_id,
                        old(self)@.conversation_id,
                    )
                    &&& final(self)@ == after_ask(old(self)@)
                },
            },
    {
        match self.state {
            ChannelState::AwaitingResponse => {
                return Err(SydneyError::TurnAlreadyOutstanding);
            },
            ChannelState::Disconnected => {
                return Err(SydneyError::WebSocketNotConnected);
            },
            ChannelState::Connected => {},
        }
        let env = ask_json(
            prompt,
            self.invocation_id,
            &self.tone,
            self.conversation_signature.as_str(),
            self.client_id.as_str(),
            self.conversation_id.as_str(),
        );
        self.invocation_id = self.invocation_id + 1;
        self.state = ChannelState::AwaitingResponse;
        Ok(env)
    }

    /// Whether a batch should be read: a question is outstanding.
    pub fn awaiting_response(&self) -> (r: bool)
        ensures
            r == (self@.state == ChannelState::AwaitingResponse),
    {
        self.state == ChannelState::AwaitingResponse
    }

    /// Classifies one batch of the reply, given its documents in order
    /// (`None` for a piece that did not parse). A final document ends the
    /// turn; the session then closes or keeps its channel as configured.
    pub fn get_next_msgs(&mut self, docs: &Vec<Option<Json>>) -> (r: Result<
        Vec<SydneyResponse>,
        SydneyError,
    >)
        ensures
            match receive_refusal(old(self)@) {
                Some(e) => r == Err::<Vec<SydneyResponse>, SydneyError>(e) && final(self)@ == old(
                    self,
                )@,
                None => {
                    let out = classify_batch(docs@, old(self)@.citations, old(self)@.suggestions);
                    &&& batch_view(r) == out.0
                    &&& final(self)@ == after_batch(old(self)@, out)
                },
            },
    {
        if self.state != ChannelState::AwaitingResponse {
            return Err(SydneyError::EndOfResponse);
        }
        let (r, ended) = classify_docs(docs, self.citations, self.suggestions);
        if ended {
            let keep = match &r {
                Err(SydneyError::MaxMessagesCountLimitReached) => true,
                Err(SydneyError::ChallengeRequired) => true,
                _ => false,
            };
            self.state = if keep || !self.close_ws_after {
                ChannelState::Connected
            } else {
                ChannelState::Disconnected
            };
        }
        r
    }
}

/// The first final text among `responses`, if any.
pub open spec fn first_final(v: Seq<ResponseView>) -> Option<Seq<char>>
    decreases v.len(),
{
    if v.len() == 0 {
        None
    } else {
        match v[0] {
            ResponseView::FinalText(t) => Some(t),
            _ => first_final(v.drop_first()),
        }
    }
}

/// The first final text among the responses of a batch.
pub fn final_text(responses: &Vec<SydneyResponse>) -> (r: Option<String>)
    ensures
        opt_view(r) == first_final(responses@.map_values(|x: SydneyResponse| x@)),
{
    let ghost vs = responses@.map_values(|x: SydneyResponse| x@);
    let mut i: usize = 0;
    assert(vs.subrange(0, vs.len() as int) =~= vs);
    while i < responses.len()
        invariant
            i <= responses@.len(),
            vs == responses@.map_values(|x: SydneyResponse| x@),
            first_final(vs) == first_final(vs.subrange(i as int, vs.len() as int)),
        decreases responses@.len() - i,
    {
        assert(vs.subrange(i as int, vs.len() as int).drop_first() =~= vs.subrange(
            i + 1,
            vs.len() as int,
        ));
        match &responses[i] {
            SydneyResponse::FinalText(t) => {
                return Some(t.clone());
            },
            _ => {},
        }
        i = i + 1;
    }
    None
}

} // verus!
