//! The relay that drives one generation call: it builds the request, then
//! turns what the transport reports into the events that the caller sees.
//!
//! The relay does no I/O. Its caller sends the request that `start` hands
//! out, and reports each thing that happens on the connection to `step`,
//! which answers with the events to forward, in order.

use vstd::prelude::*;
use vstd::utf8::encode_utf8;
use crate::framing::{complete_lines, lemma_split_anywhere, line_views, remainder, LineBuffer};
use crate::json::{json_document, read_document, JsonValue};
use crate::models::ollama::{message_views, ChatMessage, ChatMessageView};
use crate::provider::{
    after_prefix, data_line, event_views, is_blank, ollama_frame, openai_token,
    without_beginnings, ConversationRequest, ConversationRequestView, ProviderKind, StreamEvent,
    StreamEventView, DATA_PREFIX, DONE_MARKER,
};
use crate::text::{has_prefix, is_space, lossy_text, utf8_lossy};

verus! {

/// The instruction that opens every conversation.
pub const DEFAULT_SYSTEM_PROMPT: &'static str = "You are a helpful AI coding assistant. You can chat naturally with users and help them create code in ANY programming language (Python, JavaScript, TypeScript, Rust, Go, Java, C++, HTML/CSS, React, Vue, etc.). 

IMPORTANT: When users ask you to create, build, or make something, you MUST provide the complete working code directly in markdown code blocks. Do NOT just give instructions or explanations - write the actual code.

Example:
User: 'Create a Python function to calculate fibonacci'
You: 'Here's a Python function for fibonacci:
```python
def fibonacci(n):
    if n <= 1:
        return n
    return fibonacci(n-1) + fibonacci(n-2)
```'

Be friendly and conversational, but always provide working code when requested.";

/// The sampling temperature of every request, as a decimal numeral.
pub const DEFAULT_TEMPERATURE: &'static str = "0.7";

/// The number of seconds after which a request that has not been answered is
/// given up.
pub const REQUEST_TIMEOUT_SECONDS: u64 = 120;

/// The messages that the items of a JSON array stand for, if each of them
/// stands for one.
pub open spec fn parsed_messages(items: Seq<JsonValue>) -> Option<Seq<ChatMessageView>> {
    if forall|i: int| 0 <= i < items.len() ==> ChatMessage::parsed(#[trigger] items[i]) is Some {
        Some(Seq::new(items.len(), |i: int| ChatMessage::parsed(items[i])->0))
    } else {
        None
    }
}

/// The messages that a JSON document stands for: it must be an array of
/// messages.
pub open spec fn document_messages(doc: JsonValue) -> Option<Seq<ChatMessageView>> {
    match doc {
        JsonValue::List(items) => parsed_messages(items@),
        _ => None,
    }
}

/// Whether a history text can be read: it is the JSON text of an array of
/// messages.
pub open spec fn history_parses(history: Seq<char>) -> bool {
    history.len() > 0 && match json_document(encode_utf8(history)) {
        Some(doc) => document_messages(doc) is Some,
        None => false,
    }
}

/// The earlier messages that a history text carries. A text that cannot be
/// read carries none.
pub open spec fn history_messages(history: Seq<char>) -> Seq<ChatMessageView> {
    if history_parses(history) {
        document_messages(json_document(encode_utf8(history))->0)->0
    } else {
        Seq::empty()
    }
}

/// The message that opens every conversation.
pub open spec fn system_message() -> ChatMessageView {
    ChatMessageView { role: "system"@, content: DEFAULT_SYSTEM_PROMPT@ }
}

/// The message that carries the user's prompt.
pub open spec fn user_message(prompt: Seq<char>) -> ChatMessageView {
    ChatMessageView { role: "user"@, content: prompt }
}

/// The messages of a generation call: the system message, the history, the
/// user's prompt.
pub open spec fn conversation_messages(prompt: Seq<char>, history: Seq<char>) -> Seq<
    ChatMessageView,
> {
    seq![system_message()] + history_messages(history) + seq![user_message(prompt)]
}

/// The request of a generation call.
pub open spec fn conversation(
    model: Seq<char>,
    prompt: Seq<char>,
    history: Seq<char>,
) -> ConversationRequestView {
    ConversationRequestView {
        model,
        messages: conversation_messages(prompt, history),
        stream: true,
        temperature: DEFAULT_TEMPERATURE@,
    }
}

/// A history that cannot be read counts as an empty one: the conversation is
/// then the system message followed by the user's prompt.
pub proof fn lemma_unreadable_history_is_empty(prompt: Seq<char>, history: Seq<char>)
    requires
        !history_parses(history),
    ensures
        conversation_messages(prompt, history) == conversation_messages(prompt, Seq::empty()),
        conversation_messages(prompt, history) == seq![system_message(), user_message(prompt)],
{
}

/// Whatever the history, a conversation opens with the system message and
/// closes with the user's prompt.
pub proof fn lemma_conversation_frame(prompt: Seq<char>, history: Seq<char>)
    ensures
        conversation_messages(prompt, history).len() == history_messages(history).len() + 2,
        conversation_messages(prompt, history).first() == system_message(),
        conversation_messages(prompt, history).last() == user_message(prompt),
{
}

/// The messages of a JSON array of messages; none where the document is
/// anything else.
pub fn messages_from_document(doc: &JsonValue) -> (messages: Vec<ChatMessage>)
    ensures
        message_views(messages@) == match document_messages(*doc) {
            Some(found) => found,
            None => Seq::empty(),
        },
{
    let mut messages: Vec<ChatMessage> = Vec::new();
    match doc {
        JsonValue::List(items) => {
            let mut i: usize = 0;
            while i < items.len()
                invariant
                    i <= items@.len(),
                    messages@.len() == i,
                    *doc == JsonValue::List(*items),
                    forall|k: int|
                        0 <= k < i ==> ChatMessage::parsed(#[trigger] items@[k]) == Some(
                            messages@[k]@,
                        ),
                decreases items@.len() - i,
            {
                match ChatMessage::from_json(&items[i]) {
                    Some(message) => {
                        messages.push(message);
                    },
                    None => {
                        return Vec::new();
                    },
                }
                i += 1;
            }
            messages
        },
        _ => messages,
    }
}

/// Reads the earlier messages from a history text. A text that cannot be
/// read gives none.
pub fn parse_history(history: &str) -> (messages: Vec<ChatMessage>)
    ensures
        message_views(messages@) == history_messages(history@),
{
    if history.is_empty() {
        return Vec::new();
    }
    match read_document(history.as_bytes()) {
        Some(doc) => messages_from_document(&doc),
        None => Vec::new(),
    }
}

/// Builds the request of a generation call: the system message, then the
/// history, then the user's prompt.
pub fn build_conversation(model: &str, prompt: &str, history: &str) -> (request:
    ConversationRequest)
    ensures
        request@ == conversation(model@, prompt@, history@),
{
    let mut messages: Vec<ChatMessage> = Vec::new();
    messages.push(ChatMessage::new("system", DEFAULT_SYSTEM_PROMPT));
    let mut earlier = parse_history(history);
    messages.append(&mut earlier);
    messages.push(ChatMessage::new("user", prompt));
    assert(message_views(messages@) =~= conversation_messages(prompt@, history@));
    ConversationRequest {
        model: model.to_owned(),
        messages,
        stream: true,
        temperature: DEFAULT_TEMPERATURE.to_owned(),
    }
}

/// Where a generation call stands.
#[derive(Debug, Clone, Copy, PartialEq, Eq, Structural)]
pub enum RelayPhase {
    /// Nothing has been sent.
    Idle,
    /// The request is out and the answer's status is awaited.
    RequestSent,
    /// The answer's body is coming in.
    Streaming,
    /// The stream ended with `Done`.
    Completed,
    /// The call ended with `Error`.
    Failed,
}

impl RelayPhase {
    /// Whether the call is over.
    pub open spec fn is_over(self) -> bool {
        self == RelayPhase::Completed || self == RelayPhase::Failed
    }
}

/// What the transport reports to the relay.
#[derive(Debug)]
pub enum RelayInput {
    /// No connection could be made.
    ConnectFailed { detail: String },
    /// The answer's status line has arrived: its code and its printed form.
    ResponseStatus { code: u16, status: String },
    /// The next bytes of the body have arrived.
    Chunk { bytes: Vec<u8> },
    /// Reading the body failed.
    ChunkFailed { detail: String },
    /// The body has ended.
    BodyClosed,
}

/// What a `RelayInput` holds.
pub enum RelayInputView {
    ConnectFailed { detail: Seq<char> },
    ResponseStatus { code: u16, status: Seq<char> },
    Chunk { bytes: Seq<u8> },
    ChunkFailed { detail: Seq<char> },
    BodyClosed,
}

impl View for RelayInput {
    type V = RelayInputView;

    open spec fn view(&self) -> RelayInputView {
        match self {
            RelayInput::ConnectFailed { detail } => RelayInputView::ConnectFailed {
                detail: detail@,
            },
            RelayInput::ResponseStatus { code, status } => RelayInputView::ResponseStatus {
                code: *code,
                status: status@,
            },
            RelayInput::Chunk { bytes } => RelayInputView::Chunk { bytes: bytes@ },
            RelayInput::ChunkFailed { detail } => RelayInputView::ChunkFailed { detail: detail@ },
            RelayInput::BodyClosed => RelayInputView::BodyClosed,
        }
    }
}

/// The request that the caller is to send.
#[derive(Debug)]
pub struct OutboundRequest {
    pub url: String,
    pub body: String,
}

/// Why a generation call could not begin.
#[derive(Debug, Clone, PartialEq, Eq)]
pub enum RelayError {
    /// The provider selector names no provider.
    UnknownProvider { selector: String },
}

impl RelayError {
    /// The error in words.
    pub open spec fn text(self) -> Seq<char> {
        match self {
            RelayError::UnknownProvider { selector } => "Unknown provider: "@ + selector@,
        }
    }

    /// The error in words.
    pub fn message(&self) -> (message: String)
        ensures
            message@ == self.text(),
    {
        match self {
            RelayError::UnknownProvider { selector } => {
                let mut message = "Unknown provider: ".to_owned();
                message.append(selector.as_str());
                message
            },
        }
    }
}

/// Whether a status code reports success: it lies between 200 and 299.
pub open spec fn is_success(code: u16) -> bool {
    200 <= code < 300
}

/// Whether the events of a frame end the stream.
pub open spec fn ends_stream(events: Seq<StreamEventView>) -> bool {
    events.len() > 0 && events.last().is_terminal()
}

/// The text of each line of bytes.
pub open spec fn line_texts(lines: Seq<Seq<u8>>) -> Seq<Seq<char>> {
    lines.map_values(|line: Seq<u8>| utf8_lossy(line))
}

/// The events of a run of lines, and whether they end the stream. Lines
/// after the one that ends the stream give nothing.
pub open spec fn run_lines(kind: ProviderKind, lines: Seq<Seq<char>>) -> (
    Seq<StreamEventView>,
    bool,
)
    decreases lines.len(),
{
    if lines.len() == 0 {
        (Seq::empty(), false)
    } else {
        let before = run_lines(kind, lines.drop_last());
        if before.1 {
            before
        } else {
            let events = kind.frame_events(lines.last());
            (before.0 + events, ends_stream(events))
        }
    }
}

/// The state of a relay.
pub struct RelayView {
    pub kind: ProviderKind,
    pub phase: RelayPhase,
    pub pending: Seq<u8>,
}

/// The message of the event that reports a failed connection.
pub open spec fn connect_failure(kind: ProviderKind, detail: Seq<char>) -> Seq<char> {
    "Failed to connect to "@ + kind.title() + ": "@ + detail
}

/// The message of the event that reports an answer without success.
pub open spec fn status_failure(kind: ProviderKind, status: Seq<char>) -> Seq<char> {
    kind.title() + " API Error: "@ + status
}

/// What the end of the body gives: the events of the unfinished last line
/// and, unless they end the stream themselves, a closing `Done`.
pub open spec fn closing_events(kind: ProviderKind, pending: Seq<u8>) -> Seq<StreamEventView> {
    let last = kind.frame_events(utf8_lossy(pending));
    if ends_stream(last) {
        last
    } else {
        last.push(StreamEventView::Done)
    }
}

/// One step of the relay: the state after `input`, and the events that it
/// gives.
///
/// While the request is out, a failed connection or a status without success
/// ends the call with one `Error`; a status with success starts the stream.
/// While the stream runs, each chunk gives the events of the lines that it
/// completes, read as text, up to the line that ends the stream; a read failure ends the
/// call with one `Error`; the end of the body ends it with `Done`. In every
/// other case nothing happens.
pub open spec fn relay_step(state: RelayView, input: RelayInputView) -> (
    RelayView,
    Seq<StreamEventView>,
) {
    let kind = state.kind;
    let failed = RelayView { kind, phase: RelayPhase::Failed, pending: Seq::empty() };
    let completed = RelayView { kind, phase: RelayPhase::Completed, pending: Seq::empty() };
    match (state.phase, input) {
        (RelayPhase::RequestSent, RelayInputView::ConnectFailed { detail }) => (
            failed,
            seq![StreamEventView::Error { message: connect_failure(kind, detail) }],
        ),
        (RelayPhase::RequestSent, RelayInputView::ResponseStatus { code, status }) => {
            if is_success(code) {
                (
                    RelayView { kind, phase: RelayPhase::Streaming, pending: Seq::empty() },
                    Seq::empty(),
                )
            } else {
                (failed, seq![StreamEventView::Error { message: status_failure(kind, status) }])
            }
        },
        (RelayPhase::Streaming, RelayInputView::Chunk { bytes }) => {
            let run = run_lines(kind, line_texts(complete_lines(state.pending, bytes)));
            if run.1 {
                (completed, run.0)
            } else {
                (
                    RelayView {
                        kind,
                        phase: RelayPhase::Streaming,
                        pending: remainder(state.pending, bytes),
                    },
                    run.0,
                )
            }
        },
        (RelayPhase::Streaming, RelayInputView::ChunkFailed { detail }) => (
            failed,
            seq![StreamEventView::Error { message: detail }],
        ),
        (RelayPhase::Streaming, RelayInputView::BodyClosed) => (
            completed,
            closing_events(kind, state.pending),
        ),
        _ => (state, Seq::empty()),
    }
}

/// The relay of one generation call.
pub struct Relay {
    kind: ProviderKind,
    phase: RelayPhase,
    buffer: LineBuffer,
}

impl View for Relay {
    type V = RelayView;

    closed spec fn view(&self) -> RelayView {
        RelayView { kind: self.kind, phase: self.phase, pending: self.buffer@ }
    }
}

impl Relay {
    /// A relay for `kind` that has sent nothing yet.
    pub fn new(kind: ProviderKind) -> (relay: Relay)
        ensures
            relay@ == (RelayView { kind, phase: RelayPhase::Idle, pending: Seq::empty() }),
    {
        Relay { kind, phase: RelayPhase::Idle, buffer: LineBuffer::new() }
    }

    /// The provider that the relay talks to.
    pub fn kind(&self) -> (kind: ProviderKind)
        ensures
            kind == self@.kind,
    {
        self.kind
    }

    /// Where the call stands.
    pub fn phase(&self) -> (phase: RelayPhase)
        ensures
            phase == self@.phase,
    {
        self.phase
    }

    /// Whether the call is over.
    pub fn is_over(&self) -> (over: bool)
        ensures
            over == self@.phase.is_over(),
    {
        match self.phase {
            RelayPhase::Completed => true,
            RelayPhase::Failed => true,
            _ => false,
        }
    }

    /// Hands out the request to send, if none has been sent yet.
    pub fn begin(&mut self, request: ConversationRequest) -> (outbound: Option<OutboundRequest>)
        ensures
            final(self)@.kind == old(self)@.kind,
            final(self)@.pending == old(self)@.pending,
            match outbound {
                Some(out) => {
                    &&& old(self)@.phase == RelayPhase::Idle
                    &&& final(self)@.phase == RelayPhase::RequestSent
                    &&& out.url@ == old(self)@.kind.endpoint()
                    &&& out.body@ == old(self)@.kind.body(request@)
                },
                None => old(self)@.phase != RelayPhase::Idle && final(self)@ == old(self)@,
            },
    {
        match self.phase {
            RelayPhase::Idle => {
                let url = self.kind.endpoint_url().to_owned();
                let body = self.kind.build_request_body(request);
                self.phase = RelayPhase::RequestSent;
                Some(OutboundRequest { url, body })
            },
            _ => None,
        }
    }

    /// Begins a generation call: picks the provider, builds the conversation
    /// and hands out the request to send. An unknown selector is refused
    /// before anything is built.
    pub fn start(provider: &str, model: &str, prompt: &str, history: &str) -> (started: Result<
        (Relay, OutboundRequest),
        RelayError,
    >)
        ensures
            match started {
                Ok((relay, out)) => {
                    &&& ProviderKind::selected(provider@) == Some(relay@.kind)
                    &&& relay@.phase == RelayPhase::RequestSent
                    &&& relay@.pending == Seq::<u8>::empty()
                    &&& out.url@ == relay@.kind.endpoint()
                    &&& out.body@ == relay@.kind.body(conversation(model@, prompt@, history@))
                },
                Err(error) => {
                    &&& ProviderKind::selected(provider@) is None
                    &&& error.text() == "Unknown provider: "@ + provider@
                },
            },
    {
        match ProviderKind::from_selector(provider) {
            None => Err(RelayError::UnknownProvider { selector: provider.to_owned() }),
            Some(kind) => {
                let request = build_conversation(model, prompt, history);
                let url = kind.endpoint_url().to_owned();
                let body = kind.build_request_body(request);
                let relay = Relay { kind, phase: RelayPhase::RequestSent, buffer: LineBuffer::new() };
                Ok((relay, OutboundRequest { url, body }))
            },
        }
    }

    /// Takes in what the transport reports and gives the events to forward,
    /// in order.
    pub fn step(&mut self, input: &RelayInput) -> (events: Vec<StreamEvent>)
        ensures
            final(self)@ == relay_step(old(self)@, input@).0,
            event_views(events@) == relay_step(old(self)@, input@).1,
    {
        let mut events: Vec<StreamEvent> = Vec::new();
        match self.phase {
            RelayPhase::RequestSent => match input {
                RelayInput::ConnectFailed { detail } => {
                    let mut message = "Failed to connect to ".to_owned();
                    message.append(self.kind.label());
                    message.append(": ");
                    message.append(detail.as_str());
                    self.fail(&mut events, message);
                },
                RelayInput::ResponseStatus { code, status } => {
                    if 200 <= *code && *code < 300 {
                        self.phase = RelayPhase::Streaming;
                        let _ = self.buffer.take();
                    } else {
                        let mut message = self.kind.label().to_owned();
                        message.append(" API Error: ");
                        message.append(status.as_str());
                        self.fail(&mut events, message);
                    }
                },
                _ => {},
            },
            RelayPhase::Streaming => match input {
                RelayInput::Chunk { bytes } => {
                    self.take_chunk(&mut events, bytes.as_slice());
                },
                RelayInput::ChunkFailed { detail } => {
                    self.fail(&mut events, detail.clone());
                },
                RelayInput::BodyClosed => {
                    let last = self.buffer.take();
                    let text = lossy_text(last.as_slice());
                    let mut closing = self.kind.decode_frame(text.as_str());
                    let ended = closing.len() > 0 && closing[closing.len() - 1].is_terminal();
                    if !ended {
                        closing.push(StreamEvent::Done);
                    }
                    self.phase = RelayPhase::Completed;
                    events = closing;
                },
                _ => {},
            },
            _ => {},
        }
        events
    }

    /// Ends the call with one `Error`.
    fn fail(&mut self, events: &mut Vec<StreamEvent>, message: String)
        requires
            old(events)@.len() == 0,
        ensures
            final(self)@ == (RelayView {
                kind: old(self)@.kind,
                phase: RelayPhase::Failed,
                pending: Seq::empty(),
            }),
            event_views(final(events)@) == seq![StreamEventView::Error { message: message@ }],
    {
        self.phase = RelayPhase::Failed;
        let _ = self.buffer.take();
        events.push(StreamEvent::Error { message });
    }

    /// Decodes the lines that a chunk completes, up to the one that ends the
    /// stream.
    fn take_chunk(&mut self, events: &mut Vec<StreamEvent>, bytes: &[u8])
        requires
            old(self)@.phase == RelayPhase::Streaming,
            old(events)@.len() == 0,
        ensures
            final(self)@ == relay_step(old(self)@, RelayInputView::Chunk { bytes: bytes@ }).0,
            event_views(final(events)@) == relay_step(
                old(self)@,
                RelayInputView::Chunk { bytes: bytes@ },
            ).1,
    {
        let lines = self.buffer.push(bytes);
        let ghost all = line_texts(line_views(lines@));
        let mut i: usize = 0;
        while i < lines.len()
            invariant
                i <= lines@.len(),
                all == line_texts(line_views(lines@)),
                all == line_texts(complete_lines(old(self)@.pending, bytes@)),
                old(self)@.phase == RelayPhase::Streaming,
                self.kind == old(self)@.kind,
                self.phase == RelayPhase::Streaming,
                self.buffer@ == remainder(old(self)@.pending, bytes@),
                run_lines(self.kind, all.take(i as int)) == (event_views(events@), false),
            decreases lines@.len() - i,
        {
            let text = lossy_text(lines[i].as_slice());
            let mut decoded = self.kind.decode_frame(text.as_str());
            let ended = decoded.len() > 0 && decoded[decoded.len() - 1].is_terminal();
            events.append(&mut decoded);
            assert(all.take(i + 1).drop_last() =~= all.take(i as int));
            if ended {
                self.phase = RelayPhase::Completed;
                let _ = self.buffer.take();
                proof {
                    lemma_run_stays_ended(self.kind, all, i + 1);
                }
                return ;
            }
            i += 1;
        }
        assert(all.take(i as int) =~= all);
    }
}

/// Once a run of lines has ended the stream, more lines change nothing.
pub proof fn lemma_run_stays_ended(kind: ProviderKind, lines: Seq<Seq<char>>, n: int)
    requires
        0 <= n <= lines.len(),
        run_lines(kind, lines.take(n)).1,
    ensures
        run_lines(kind, lines) == run_lines(kind, lines.take(n)),
    decreases lines.len(),
{
    if n == lines.len() {
        assert(lines.take(n) =~= lines);
    } else {
        assert(lines.drop_last().take(n) =~= lines.take(n));
        lemma_run_stays_ended(kind, lines.drop_last(), n);
    }
}

/// The events of two runs of lines, one after the other, are those of the
/// first run and then, unless it ended the stream, those of the second.
pub proof fn lemma_run_continues(
    kind: ProviderKind,
    first: Seq<Seq<char>>,
    second: Seq<Seq<char>>,
)
    ensures
        run_lines(kind, first + second) == if run_lines(kind, first).1 {
            run_lines(kind, first)
        } else {
            (
                run_lines(kind, first).0 + run_lines(kind, second).0,
                run_lines(kind, second).1,
            )
        },
    decreases second.len(),
{
    if second.len() > 0 {
        assert((first + second).drop_last() =~= first + second.drop_last());
        lemma_run_continues(kind, first, second.drop_last());
    }
}

/// The events of the relay do not depend on where the chunk boundaries
/// fall: one chunk gives the same events, and leaves the same state, as its
/// two halves one after the other, wherever it is cut.
pub proof fn lemma_chunk_boundary_is_invisible(state: RelayView, first: Seq<u8>, second: Seq<u8>)
    ensures
        ({
            let whole = relay_step(state, RelayInputView::Chunk { bytes: first + second });
            let head = relay_step(state, RelayInputView::Chunk { bytes: first });
            let tail = relay_step(head.0, RelayInputView::Chunk { bytes: second });
            whole.0 == tail.0 && whole.1 == head.1 + tail.1
        }),
{
    if state.phase == RelayPhase::Streaming {
        lemma_split_anywhere(state.pending, first, second);
        let early = line_texts(complete_lines(state.pending, first));
        let late = line_texts(complete_lines(remainder(state.pending, first), second));
        assert(line_texts(complete_lines(state.pending, first + second)) =~= early + late);
        lemma_run_continues(state.kind, early, late);
    }
}

/// Whether `events` is what a caller may see of a call: tokens only, but for
/// the last event, which ends the stream if and only if the call is `over`.
pub open spec fn is_stream(events: Seq<StreamEventView>, over: bool) -> bool {
    &&& forall|i: int| 0 <= i < events.len() - 1 ==> !(#[trigger] events[i]).is_terminal()
    &&& over == ends_stream(events)
}

/// A frame gives tokens and, at most, one `Done` at its end.
pub proof fn lemma_frame_is_stream(kind: ProviderKind, line: Seq<char>)
    ensures
        is_stream(kind.frame_events(line), ends_stream(kind.frame_events(line))),
{
}

/// A run of lines gives tokens and, where it ends the stream, one terminal
/// event at its end.
pub proof fn lemma_run_is_stream(kind: ProviderKind, lines: Seq<Seq<char>>)
    ensures
        is_stream(run_lines(kind, lines).0, run_lines(kind, lines).1),
    decreases lines.len(),
{
    if lines.len() > 0 {
        lemma_run_is_stream(kind, lines.drop_last());
        lemma_frame_is_stream(kind, lines.last());
    }
}

/// What one step gives is a stream: once the call is over a step changes
/// nothing and gives nothing, and before that it gives tokens followed by a
/// terminal event exactly where it ends the call.
pub proof fn lemma_step_is_stream(state: RelayView, input: RelayInputView)
    ensures
        state.phase.is_over() ==> relay_step(state, input) == (
            state,
            Seq::<StreamEventView>::empty(),
        ),
        !state.phase.is_over() ==> is_stream(
            relay_step(state, input).1,
            relay_step(state, input).0.phase.is_over(),
        ),
        relay_step(state, input).0.kind == state.kind,
{
    if state.phase == RelayPhase::Streaming {
        match input {
            RelayInputView::Chunk { bytes } => {
                lemma_run_is_stream(
                    state.kind,
                    line_texts(complete_lines(state.pending, bytes)),
                );
            },
            RelayInputView::BodyClosed => {
                lemma_frame_is_stream(state.kind, utf8_lossy(state.pending));
            },
            _ => {},
        }
    }
}

/// The phases follow each other in one order: a step leaves the phase as it
/// is, or goes from the sent request to the stream or to failure, or from
/// the stream to its end or to failure. No input moves a relay that has sent
/// nothing.
pub proof fn lemma_phases_follow_in_order(state: RelayView, input: RelayInputView)
    ensures
        ({
            let before = state.phase;
            let after = relay_step(state, input).0.phase;
            ||| after == before
            ||| (before == RelayPhase::RequestSent && (after == RelayPhase::Streaming || after
                == RelayPhase::Failed))
            ||| (before == RelayPhase::Streaming && (after == RelayPhase::Completed || after
                == RelayPhase::Failed))
        }),
{
}

/// The state after a series of inputs, and all the events that they gave.
pub open spec fn relay_run(state: RelayView, inputs: Seq<RelayInputView>) -> (
    RelayView,
    Seq<StreamEventView>,
)
    decreases inputs.len(),
{
    if inputs.len() == 0 {
        (state, Seq::empty())
    } else {
        let before = relay_run(state, inputs.drop_last());
        let step = relay_step(before.0, inputs.last());
        (step.0, before.1 + step.1)
    }
}

/// Whatever the transport reports, and in whatever order, the caller sees
/// zero or more tokens, then exactly one terminal event if the call is over
/// and none if it is not.
pub proof fn lemma_call_is_stream(state: RelayView, inputs: Seq<RelayInputView>)
    requires
        !state.phase.is_over(),
    ensures
        is_stream(relay_run(state, inputs).1, relay_run(state, inputs).0.phase.is_over()),
    decreases inputs.len(),
{
    if inputs.len() > 0 {
        let before = relay_run(state, inputs.drop_last());
        lemma_call_is_stream(state, inputs.drop_last());
        lemma_step_is_stream(before.0, inputs.last());
    }
}

/// An answer whose status does not report success ends the call at once: one
/// `Error` and no token, and nothing that arrives later gives any event.
pub proof fn lemma_status_without_success(
    state: RelayView,
    code: u16,
    status: Seq<char>,
    later: Seq<RelayInputView>,
)
    requires
        state.phase == RelayPhase::RequestSent,
        !is_success(code),
    ensures
        ({
            let step = relay_step(state, RelayInputView::ResponseStatus { code, status });
            &&& step.0.phase == RelayPhase::Failed
            &&& step.1 == seq![
                StreamEventView::Error { message: status_failure(state.kind, status) },
            ]
            &&& relay_run(step.0, later) == (step.0, Seq::<StreamEventView>::empty())
        }),
    decreases later.len(),
{
    if later.len() > 0 {
        lemma_status_without_success(state, code, status, later.drop_last());
    }
}

/// One token for each text, in order.
pub open spec fn tokens_of(texts: Seq<Seq<char>>) -> Seq<StreamEventView> {
    Seq::new(texts.len(), |i: int| StreamEventView::Token { text: texts[i] })
}

/// An answer from Ollama whose frames each carry a message and are not the
/// last, followed by a closing frame without a message, gives one token for
/// each message, in order, and then `Done`.
pub proof fn lemma_ollama_stream(
    lines: Seq<Seq<char>>,
    texts: Seq<Seq<char>>,
    closing: Seq<char>,
)
    requires
        lines.len() == texts.len(),
        forall|i: int|
            0 <= i < lines.len() ==> match ollama_frame(#[trigger] lines[i]) {
                Some(frame) => !frame.done && match frame.message {
                    Some(message) => message.content == texts[i],
                    None => false,
                },
                None => false,
            },
        match ollama_frame(closing) {
            Some(frame) => frame.done && frame.message is None,
            None => false,
        },
    ensures
        run_lines(ProviderKind::Ollama, lines) == (tokens_of(texts), false),
        run_lines(ProviderKind::Ollama, lines.push(closing)) == (
            tokens_of(texts).push(StreamEventView::Done),
            true,
        ),
    decreases lines.len(),
{
    let kind = ProviderKind::Ollama;
    if lines.len() > 0 {
        lemma_ollama_stream(lines.drop_last(), texts.drop_last(), closing);
        assert(ollama_frame(lines.last()) is Some);
    }
    assert(lines.push(closing).drop_last() =~= lines);
    assert(run_lines(kind, lines.push(closing)).0 == run_lines(kind, lines).0 + kind.frame_events(
        closing,
    ));
}

/// The tokens that the lines of an OpenAI-compatible stream carry, in order.
pub open spec fn openai_tokens(lines: Seq<Seq<char>>) -> Seq<StreamEventView>
    decreases lines.len(),
{
    if lines.len() == 0 {
        Seq::empty()
    } else {
        match openai_token(lines.last()) {
            Some(text) => openai_tokens(lines.drop_last()).push(StreamEventView::Token { text }),
            None => openai_tokens(lines.drop_last()),
        }
    }
}

/// A line of an OpenAI-compatible stream that does not begin with `data: `
/// gives no event.
pub proof fn lemma_unmarked_line_is_ignored(line: Seq<char>)
    requires
        !has_prefix(line, DATA_PREFIX@),
    ensures
        ProviderKind::OpenAICompatible.frame_events(line) == Seq::<StreamEventView>::empty(),
        openai_token(line) is None,
{
}

/// Whether a line of an OpenAI-compatible stream says that the stream is
/// over.
pub open spec fn says_done(line: Seq<char>) -> bool {
    has_prefix(line, DATA_PREFIX@) && after_prefix(line) == DONE_MARKER@
}

/// The line `data: [DONE]` says that the stream is over.
pub proof fn lemma_done_line_says_done()
    ensures
        says_done(data_line(DONE_MARKER@)),
        !is_blank(data_line(DONE_MARKER@)),
{
    reveal_strlit("data: ");
    reveal_strlit("[DONE]");
    let closing = data_line(DONE_MARKER@);
    assert(closing.subrange(0, 6) =~= DATA_PREFIX@);
    assert(closing.skip(6) =~= DONE_MARKER@);
    assert(DONE_MARKER@.subrange(0, 6)[0] == '[');
    assert(without_beginnings(DONE_MARKER@, DATA_PREFIX@) == DONE_MARKER@);
}

/// Lines of an OpenAI-compatible stream, none of which says that the stream
/// is over, followed by `data: [DONE]`, give one token for each line that
/// carries content, in order, and then `Done`.
pub proof fn lemma_openai_stream(lines: Seq<Seq<char>>)
    requires
        forall|i: int| 0 <= i < lines.len() ==> !says_done(#[trigger] lines[i]),
    ensures
        run_lines(ProviderKind::OpenAICompatible, lines) == (openai_tokens(lines), false),
        run_lines(ProviderKind::OpenAICompatible, lines.push(data_line(DONE_MARKER@))) == (
            openai_tokens(lines).push(StreamEventView::Done),
            true,
        ),
    decreases lines.len(),
{
    let kind = ProviderKind::OpenAICompatible;
    let closing = data_line(DONE_MARKER@);
    if lines.len() > 0 {
        let line = lines.last();
        lemma_openai_stream(lines.drop_last());
        if has_prefix(line, DATA_PREFIX@) {
            reveal_strlit("data: ");
            assert(line.subrange(0, 6)[0] == line[0]);
        }
    }
    lemma_done_line_says_done();
    assert(lines.push(closing).drop_last() =~= lines);
    assert(run_lines(kind, lines.push(closing)).0 == run_lines(kind, lines).0 + kind.frame_events(
        closing,
    ));
}

/// The chunks, one after the other, as one.
pub open spec fn concatenated(chunks: Seq<Seq<u8>>) -> Seq<u8>
    decreases chunks.len(),
{
    if chunks.len() == 0 {
        Seq::empty()
    } else {
        concatenated(chunks.drop_last()) + chunks.last()
    }
}

/// Each chunk as an input of the relay.
pub open spec fn chunk_inputs(chunks: Seq<Seq<u8>>) -> Seq<RelayInputView> {
    Seq::new(chunks.len(), |i: int| RelayInputView::Chunk { bytes: chunks[i] })
}

/// However a body is cut into chunks, the relay gives the events, and
/// reaches the state, that the body gives in one piece.
pub proof fn lemma_chunking_is_invisible(state: RelayView, chunks: Seq<Seq<u8>>)
    ensures
        relay_run(state, chunk_inputs(chunks)) == relay_step(
            state,
            RelayInputView::Chunk { bytes: concatenated(chunks) },
        ),
    decreases chunks.len(),
{
    if chunks.len() > 0 {
        let earlier = chunks.drop_last();
        lemma_chunking_is_invisible(state, earlier);
        assert(chunk_inputs(chunks).drop_last() =~= chunk_inputs(earlier));
        lemma_chunk_boundary_is_invisible(state, concatenated(earlier), chunks.last());
    }
}

/// Once the answer's status has been taken, the end of the body ends the
/// call, whatever came before it.
pub proof fn lemma_closed_body_ends_call(state: RelayView, inputs: Seq<RelayInputView>)
    requires
        state.phase != RelayPhase::Idle,
        state.phase != RelayPhase::RequestSent,
    ensures
        relay_run(state, inputs).0.phase != RelayPhase::Idle,
        relay_run(state, inputs).0.phase != RelayPhase::RequestSent,
        relay_run(state, inputs.push(RelayInputView::BodyClosed)).0.phase.is_over(),
    decreases inputs.len(),
{
    if inputs.len() > 0 {
        lemma_closed_body_ends_call(state, inputs.drop_last());
    }
    assert(inputs.push(RelayInputView::BodyClosed).drop_last() =~= inputs);
}

} // verus!
