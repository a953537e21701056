//! The two provider adapters: where a request goes, what its body is, and
//! what one line of the answer stream means.

use vstd::prelude::*;
use vstd::slice::slice_subrange;
use vstd::utf8::encode_utf8;
use crate::json::{json_document, read_document, JsonValue};
use crate::models::ollama::{
    message_views, ChatMessage, ChatMessageView, LMStudioRequest, LMStudioResponse,
    LMStudioResponseView, OllamaChatRequest, OllamaChatResponse, OllamaChatResponseView,
};
use crate::text::{
    all_space, chars_eq, chars_of, chars_start_with, has_prefix, is_space, text_eq, text_of,
};

verus! {

/// What the relay hands to its caller: any number of tokens, then one `Done`
/// or one `Error`.
#[derive(Debug, Clone, PartialEq, Eq)]
pub enum StreamEvent {
    Token { text: String },
    Done,
    Error { message: String },
}

/// What a `StreamEvent` holds.
pub enum StreamEventView {
    Token { text: Seq<char> },
    Done,
    Error { message: Seq<char> },
}

impl View for StreamEvent {
    type V = StreamEventView;

    open spec fn view(&self) -> StreamEventView {
        match self {
            StreamEvent::Token { text } => StreamEventView::Token { text: text@ },
            StreamEvent::Done => StreamEventView::Done,
            StreamEvent::Error { message } => StreamEventView::Error { message: message@ },
        }
    }
}

impl StreamEventView {
    /// Whether the event ends the stream.
    pub open spec fn is_terminal(self) -> bool {
        !(self is Token)
    }
}

/// What each event of a list holds.
pub open spec fn event_views(events: Seq<StreamEvent>) -> Seq<StreamEventView> {
    events.map_values(|event: StreamEvent| event@)
}

impl StreamEvent {
    /// Whether the event ends the stream.
    pub fn is_terminal(&self) -> (terminal: bool)
        ensures
            terminal == self@.is_terminal(),
    {
        match self {
            StreamEvent::Token { .. } => false,
            _ => true,
        }
    }

    /// The name under which the event reaches the user interface.
    pub fn name(&self) -> (name: &'static str)
        ensures
            name@ == match self@ {
                StreamEventView::Token { .. } => "generate-token"@,
                StreamEventView::Done => "generate-finished"@,
                StreamEventView::Error { .. } => "generate-error"@,
            },
    {
        match self {
            StreamEvent::Token { .. } => "generate-token",
            StreamEvent::Done => "generate-finished",
            StreamEvent::Error { .. } => "generate-error",
        }
    }
}

/// One generation call as the caller describes it, before an adapter gives it
/// the form of a provider. The temperature is a decimal numeral.
#[derive(Debug)]
pub struct ConversationRequest {
    pub model: String,
    pub messages: Vec<ChatMessage>,
    pub stream: bool,
    pub temperature: String,
}

/// What a `ConversationRequest` holds.
pub struct ConversationRequestView {
    pub model: Seq<char>,
    pub messages: Seq<ChatMessageView>,
    pub stream: bool,
    pub temperature: Seq<char>,
}

impl View for ConversationRequest {
    type V = ConversationRequestView;

    open spec fn view(&self) -> ConversationRequestView {
        ConversationRequestView {
            model: self.model@,
            messages: message_views(self.messages@),
            stream: self.stream,
            temperature: self.temperature@,
        }
    }
}

/// The text with which every line of an OpenAI-compatible stream begins.
pub const DATA_PREFIX: &'static str = "data: ";

/// The text that ends an OpenAI-compatible stream.
pub const DONE_MARKER: &'static str = "[DONE]";

/// Whether a line holds nothing but white space.
pub open spec fn is_blank(line: Seq<char>) -> bool {
    forall|i: int| 0 <= i < line.len() ==> is_space(#[trigger] line[i])
}

/// A text without any of the copies of `prefix` at its beginning.
pub open spec fn without_beginnings(text: Seq<char>, prefix: Seq<char>) -> Seq<char>
    decreases text.len(),
{
    if prefix.len() > 0 && has_prefix(text, prefix) {
        without_beginnings(text.skip(prefix.len() as int), prefix)
    } else {
        text
    }
}

/// What a line of an OpenAI-compatible stream carries: what follows every
/// `data: ` at its beginning.
pub open spec fn after_prefix(line: Seq<char>) -> Seq<char> {
    without_beginnings(line, DATA_PREFIX@)
}

/// The document that a JSON text is.
pub open spec fn text_document(payload: Seq<char>) -> Option<JsonValue> {
    json_document(encode_utf8(payload))
}

/// The events of an Ollama frame: a token where it carries a message, then
/// `Done` where it says so.
pub open spec fn ollama_events(frame: Option<OllamaChatResponseView>) -> Seq<StreamEventView> {
    match frame {
        None => Seq::empty(),
        Some(f) => {
            let tokens: Seq<StreamEventView> = match f.message {
                Some(message) => seq![StreamEventView::Token { text: message.content }],
                None => Seq::empty(),
            };
            if f.done {
                tokens.push(StreamEventView::Done)
            } else {
                tokens
            }
        },
    }
}

/// The events of an OpenAI-compatible frame: a token where the partial
/// message of its first choice has content.
pub open spec fn openai_events(frame: Option<LMStudioResponseView>) -> Seq<StreamEventView> {
    match frame {
        Some(f) if f.choices.len() > 0 => match f.choices[0].delta {
            Some(delta) if delta.content.len() > 0 => seq![
                StreamEventView::Token { text: delta.content },
            ],
            _ => Seq::empty(),
        },
        _ => Seq::empty(),
    }
}

/// The frame that a line from Ollama carries.
pub open spec fn ollama_frame(line: Seq<char>) -> Option<OllamaChatResponseView> {
    if is_blank(line) {
        None
    } else {
        match text_document(line) {
            Some(doc) => OllamaChatResponse::parsed(doc),
            None => None,
        }
    }
}

/// The line of an OpenAI-compatible stream that carries `payload`.
pub open spec fn data_line(payload: Seq<char>) -> Seq<char> {
    DATA_PREFIX@ + payload
}

/// The text of the token that a line of an OpenAI-compatible stream carries:
/// the line begins with `data: `, what it carries is the JSON text of a
/// frame, and the partial message of the frame's first choice has content.
pub open spec fn openai_token(line: Seq<char>) -> Option<Seq<char>> {
    if has_prefix(line, DATA_PREFIX@) {
        match text_document(after_prefix(line)) {
            Some(doc) => match LMStudioResponse::parsed(doc) {
                Some(f) if f.choices.len() > 0 => match f.choices[0].delta {
                    Some(delta) if delta.content.len() > 0 => Some(delta.content),
                    _ => None,
                },
                _ => None,
            },
            None => None,
        }
    } else {
        None
    }
}

/// A backend that answers chat requests.
#[derive(Debug, Clone, Copy, PartialEq, Eq, Structural)]
pub enum ProviderKind {
    Ollama,
    OpenAICompatible,
}

impl ProviderKind {
    /// The provider that a selector names: `ollama` or `lmstudio`.
    pub open spec fn selected(selector: Seq<char>) -> Option<ProviderKind> {
        if selector == "ollama"@ {
            Some(ProviderKind::Ollama)
        } else if selector == "lmstudio"@ {
            Some(ProviderKind::OpenAICompatible)
        } else {
            None
        }
    }

    /// The address that takes chat requests.
    pub open spec fn endpoint(self) -> Seq<char> {
        match self {
            ProviderKind::Ollama => "http://localhost:11434/api/chat"@,
            ProviderKind::OpenAICompatible => "http://localhost:1234/v1/chat/completions"@,
        }
    }

    /// The provider's name in messages.
    pub open spec fn title(self) -> Seq<char> {
        match self {
            ProviderKind::Ollama => "Ollama"@,
            ProviderKind::OpenAICompatible => "LM Studio"@,
        }
    }

    /// The body of a request in this provider's form.
    pub open spec fn body(self, request: ConversationRequestView) -> Seq<char> {
        match self {
            ProviderKind::Ollama => crate::models::ollama::ollama_request_json(
                request.model,
                request.messages,
                request.stream,
            ),
            ProviderKind::OpenAICompatible => crate::models::ollama::lmstudio_request_json(
                request.model,
                request.messages,
                request.stream,
                request.temperature,
            ),
        }
    }

    /// The events of a parsed frame.
    pub open spec fn document_events(self, doc: JsonValue) -> Seq<StreamEventView> {
        match self {
            ProviderKind::Ollama => ollama_events(OllamaChatResponse::parsed(doc)),
            ProviderKind::OpenAICompatible => openai_events(LMStudioResponse::parsed(doc)),
        }
    }

    /// The events of the JSON text of a frame: none where it is no JSON.
    pub open spec fn payload_events(self, payload: Seq<char>) -> Seq<StreamEventView> {
        match text_document(payload) {
            Some(doc) => self.document_events(doc),
            None => Seq::empty(),
        }
    }

    /// The events of one line of the answer stream.
    ///
    /// A line of nothing but white space has none. A line from Ollama is the
    /// JSON text of a frame. A line from an OpenAI-compatible server counts
    /// only where it begins with `data: `; what it carries is `[DONE]`, which
    /// gives `Done`, or the JSON text of a frame.
    pub open spec fn frame_events(self, line: Seq<char>) -> Seq<StreamEventView> {
        if is_blank(line) {
            Seq::empty()
        } else {
            match self {
                ProviderKind::Ollama => self.payload_events(line),
                ProviderKind::OpenAICompatible => {
                    if !has_prefix(line, DATA_PREFIX@) {
                        Seq::empty()
                    } else if after_prefix(line) == DONE_MARKER@ {
                        seq![StreamEventView::Done]
                    } else {
                        self.payload_events(after_prefix(line))
                    }
                },
            }
        }
    }

    /// Finds the provider that a selector names.
    pub fn from_selector(selector: &str) -> (kind: Option<ProviderKind>)
        ensures
            kind == ProviderKind::selected(selector@),
    {
        if text_eq(selector, "ollama") {
            Some(ProviderKind::Ollama)
        } else if text_eq(selector, "lmstudio") {
            Some(ProviderKind::OpenAICompatible)
        } else {
            None
        }
    }

    /// The address that takes chat requests. It is fixed for each provider.
    pub fn endpoint_url(self) -> (url: &'static str)
        ensures
            url@ == self.endpoint(),
    {
        match self {
            ProviderKind::Ollama => "http://localhost:11434/api/chat",
            ProviderKind::OpenAICompatible => "http://localhost:1234/v1/chat/completions",
        }
    }

    /// The provider's name in messages.
    pub fn label(self) -> (label: &'static str)
        ensures
            label@ == self.title(),
    {
        match self {
            ProviderKind::Ollama => "Ollama",
            ProviderKind::OpenAICompatible => "LM Studio",
        }
    }

    /// Writes the body of a request in this provider's form.
    pub fn build_request_body(self, request: ConversationRequest) -> (body: String)
        ensures
            body@ == self.body(request@),
    {
        match self {
            ProviderKind::Ollama => {
                let wire = OllamaChatRequest {
                    model: request.model,
                    messages: request.messages,
                    stream: request.stream,
                };
                wire.to_json()
            },
            ProviderKind::OpenAICompatible => {
                let wire = LMStudioRequest {
                    model: request.model,
                    messages: request.messages,
                    stream: request.stream,
                    temperature: request.temperature,
                };
                wire.to_json()
            },
        }
    }

    /// The events of a parsed frame.
    pub fn decode_document(self, doc: &JsonValue) -> (events: Vec<StreamEvent>)
        ensures
            event_views(events@) == self.document_events(*doc),
    {
        let mut events: Vec<StreamEvent> = Vec::new();
        match self {
            ProviderKind::Ollama => {
                if let Some(frame) = OllamaChatResponse::from_json(doc) {
                    if let Some(message) = frame.message {
                        events.push(StreamEvent::Token { text: message.content });
                    }
                    if frame.done {
                        events.push(StreamEvent::Done);
                    }
                }
            },
            ProviderKind::OpenAICompatible => {
                if let Some(frame) = LMStudioResponse::from_json(doc) {
                    if frame.choices.len() > 0 {
                        if let Some(delta) = &frame.choices[0].delta {
                            if !delta.content.as_str().is_empty() {
                                events.push(StreamEvent::Token { text: delta.content.clone() });
                            }
                        }
                    }
                }
            },
        }
        events
    }

    /// The events of one line of the answer stream, in order.
    pub fn decode_frame(self, line: &str) -> (events: Vec<StreamEvent>)
        ensures
            event_views(events@) == self.frame_events(line@),
    {
        let chars = chars_of(line);
        if all_space(chars.as_slice()) {
            return Vec::new();
        }
        match self {
            ProviderKind::Ollama => self.decode_payload(line),
            ProviderKind::OpenAICompatible => {
                let prefix = chars_of(DATA_PREFIX);
                if !chars_start_with(chars.as_slice(), prefix.as_slice()) {
                    return Vec::new();
                }
                proof {
                    reveal_strlit("data: ");
                }
                let mut start: usize = 0;
                assert(chars@.skip(0) =~= chars@);
                while chars_start_with(
                    slice_subrange(chars.as_slice(), start, chars.len()),
                    prefix.as_slice(),
                )
                    invariant
                        start <= chars@.len(),
                        prefix@ == DATA_PREFIX@,
                        prefix@.len() == 6,
                        after_prefix(chars@) == without_beginnings(
                            chars@.skip(start as int),
                            prefix@,
                        ),
                    decreases chars@.len() - start,
                {
                    assert(chars@.skip(start as int).skip(6) =~= chars@.skip(start + 6));
                    start += 6;
                }
                let rest = slice_subrange(chars.as_slice(), start, chars.len());
                let marker = chars_of(DONE_MARKER);
                if chars_eq(rest, marker.as_slice()) {
                    let mut events: Vec<StreamEvent> = Vec::new();
                    events.push(StreamEvent::Done);
                    events
                } else {
                    let payload = text_of(rest);
                    self.decode_payload(payload.as_str())
                }
            },
        }
    }

    /// The events of the JSON text of a frame.
    pub fn decode_payload(self, payload: &str) -> (events: Vec<StreamEvent>)
        ensures
            event_views(events@) == self.payload_events(payload@),
    {
        match read_document(payload.as_bytes()) {
            Some(doc) => self.decode_document(&doc),
            None => Vec::new(),
        }
    }
}

} // verus!
