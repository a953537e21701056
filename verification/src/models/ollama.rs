//! Chat messages, and the requests and stream frames of the two providers:
//! Ollama's own API and the OpenAI-compatible API that LM Studio serves.

use vstd::prelude::*;
use crate::json::{json_string_literal, write_string_literal, JsonValue};

verus! {

/// One message of a conversation.
#[derive(Debug, Clone)]
pub struct ChatMessage {
    pub role: String,
    pub content: String,
}

/// What a `ChatMessage` holds.
pub struct ChatMessageView {
    pub role: Seq<char>,
    pub content: Seq<char>,
}

impl View for ChatMessage {
    type V = ChatMessageView;

    open spec fn view(&self) -> ChatMessageView {
        ChatMessageView { role: self.role@, content: self.content@ }
    }
}

/// What each message of a list holds.
pub open spec fn message_views(messages: Seq<ChatMessage>) -> Seq<ChatMessageView> {
    messages.map_values(|message: ChatMessage| message@)
}

/// What an optional message holds.
pub open spec fn optional_message_view(message: Option<ChatMessage>) -> Option<ChatMessageView> {
    match message {
        Some(m) => Some(m@),
        None => None,
    }
}

impl ChatMessage {
    /// The message that a JSON object with the texts `role` and `content`
    /// stands for. Other members are ignored.
    pub open spec fn parsed(doc: JsonValue) -> Option<ChatMessageView> {
        match (doc.text_field("role"@), doc.text_field("content"@)) {
            (Some(role), Some(content)) => Some(ChatMessageView { role, content }),
            _ => None,
        }
    }

    /// The partial message of a streamed choice: `content` is required,
    /// `role` may be missing or `null` and then counts as empty.
    pub open spec fn parsed_delta(doc: JsonValue) -> Option<ChatMessageView> {
        match (doc.present("role"@), doc.text_field("content"@)) {
            (None, Some(content)) => Some(ChatMessageView { role: Seq::empty(), content }),
            (Some(JsonValue::Text(role)), Some(content)) => Some(
                ChatMessageView { role: role@, content },
            ),
            _ => None,
        }
    }

    /// A message with the given role and content.
    pub fn new(role: &str, content: &str) -> (message: ChatMessage)
        ensures
            message@ == (ChatMessageView { role: role@, content: content@ }),
    {
        ChatMessage { role: role.to_owned(), content: content.to_owned() }
    }

    /// Reads a message from a JSON object.
    pub fn from_json(doc: &JsonValue) -> (message: Option<ChatMessage>)
        ensures
            optional_message_view(message) == ChatMessage::parsed(*doc),
    {
        match (doc.get_text("role"), doc.get_text("content")) {
            (Some(role), Some(content)) => Some(ChatMessage { role, content }),
            _ => None,
        }
    }

    /// Reads the partial message of a streamed choice from a JSON object.
    pub fn delta_from_json(doc: &JsonValue) -> (message: Option<ChatMessage>)
        ensures
            optional_message_view(message) == ChatMessage::parsed_delta(*doc),
    {
        let content = doc.get_text("content");
        match (doc.get_present("role"), content) {
            (None, Some(content)) => Some(ChatMessage { role: String::new(), content }),
            (Some(JsonValue::Text(role)), Some(content)) => Some(
                ChatMessage { role: role.clone(), content },
            ),
            _ => None,
        }
    }
}

/// The JSON text of one message: an object with `role` and `content`.
pub open spec fn message_json(message: ChatMessageView) -> Seq<char> {
    "{\"role\":"@ + json_string_literal(message.role) + ",\"content\":"@ + json_string_literal(
        message.content,
    ) + "}"@
}

/// The JSON texts of the messages, with a comma between neighbours.
pub open spec fn messages_json_items(messages: Seq<ChatMessageView>) -> Seq<char>
    decreases messages.len(),
{
    if messages.len() == 0 {
        Seq::empty()
    } else if messages.len() == 1 {
        message_json(messages[0])
    } else {
        messages_json_items(messages.drop_last()) + ","@ + message_json(messages.last())
    }
}

/// The JSON text of a list of messages: an array.
pub open spec fn messages_json(messages: Seq<ChatMessageView>) -> Seq<char> {
    "["@ + messages_json_items(messages) + "]"@
}

/// The JSON text of a truth value.
pub open spec fn flag_json(flag: bool) -> Seq<char> {
    if flag {
        "true"@
    } else {
        "false"@
    }
}

/// The JSON text of a request to Ollama: an object with `model`, `messages`
/// and `stream`, in this order and without white space.
pub open spec fn ollama_request_json(
    model: Seq<char>,
    messages: Seq<ChatMessageView>,
    stream: bool,
) -> Seq<char> {
    "{\"model\":"@ + json_string_literal(model) + ",\"messages\":"@ + messages_json(messages)
        + ",\"stream\":"@ + flag_json(stream) + "}"@
}

/// The JSON text of a request to an OpenAI-compatible server: an object with
/// `model`, `messages`, `stream` and `temperature`, in this order and without
/// white space.
pub open spec fn lmstudio_request_json(
    model: Seq<char>,
    messages: Seq<ChatMessageView>,
    stream: bool,
    temperature: Seq<char>,
) -> Seq<char> {
    "{\"model\":"@ + json_string_literal(model) + ",\"messages\":"@ + messages_json(messages)
        + ",\"stream\":"@ + flag_json(stream) + ",\"temperature\":"@ + temperature + "}"@
}

/// Writes the JSON text of a list of messages at the end of `out`.
pub fn write_messages(out: &mut String, messages: &Vec<ChatMessage>)
    ensures
        final(out)@ == old(out)@ + messages_json(message_views(messages@)),
{
    let ghost views = message_views(messages@);
    out.append("[");
    let mut i: usize = 0;
    while i < messages.len()
        invariant
            i <= messages@.len(),
            views == message_views(messages@),
            out@ == old(out)@ + "["@ + messages_json_items(views.take(i as int)),
        decreases messages@.len() - i,
    {
        if i > 0 {
            out.append(",");
        }
        out.append("{\"role\":");
        let role = write_string_literal(messages[i].role.as_str());
        out.append(role.as_str());
        out.append(",\"content\":");
        let content = write_string_literal(messages[i].content.as_str());
        out.append(content.as_str());
        out.append("}");
        assert(views.take(i + 1).drop_last() =~= views.take(i as int));
        i += 1;
    }
    assert(views.take(i as int) =~= views);
    out.append("]");
}

/// A chat request in the form that Ollama takes.
#[derive(Debug)]
pub struct OllamaChatRequest {
    pub model: String,
    pub messages: Vec<ChatMessage>,
    pub stream: bool,
}

impl OllamaChatRequest {
    /// The JSON text of the request.
    pub open spec fn json(self) -> Seq<char> {
        ollama_request_json(self.model@, message_views(self.messages@), self.stream)
    }

    /// Writes the request as JSON.
    pub fn to_json(&self) -> (body: String)
        ensures
            body@ == self.json(),
    {
        let mut body = String::new();
        body.append("{\"model\":");
        let model = write_string_literal(self.model.as_str());
        body.append(model.as_str());
        body.append(",\"messages\":");
        write_messages(&mut body, &self.messages);
        body.append(",\"stream\":");
        if self.stream {
            body.append("true");
        } else {
            body.append("false");
        }
        body.append("}");
        body
    }
}

/// A chat request in the form that an OpenAI-compatible server takes. The
/// sampling temperature is kept as the decimal numeral that goes into the
/// body.
#[derive(Debug)]
pub struct LMStudioRequest {
    pub model: String,
    pub messages: Vec<ChatMessage>,
    pub stream: bool,
    pub temperature: String,
}

impl LMStudioRequest {
    /// The JSON text of the request.
    pub open spec fn json(self) -> Seq<char> {
        lmstudio_request_json(
            self.model@,
            message_views(self.messages@),
            self.stream,
            self.temperature@,
        )
    }

    /// Writes the request as JSON.
    pub fn to_json(&self) -> (body: String)
        ensures
            body@ == self.json(),
    {
        let mut body = String::new();
        body.append("{\"model\":");
        let model = write_string_literal(self.model.as_str());
        body.append(model.as_str());
        body.append(",\"messages\":");
        write_messages(&mut body, &self.messages);
        body.append(",\"stream\":");
        if self.stream {
            body.append("true");
        } else {
            body.append("false");
        }
        body.append(",\"temperature\":");
        body.append(self.temperature.as_str());
        body.append("}");
        body
    }
}

/// One frame of Ollama's answer stream.
#[derive(Debug)]
pub struct OllamaChatResponse {
    pub model: String,
    pub created_at: String,
    pub message: Option<ChatMessage>,
    pub done: bool,
}

/// What an `OllamaChatResponse` holds.
pub struct OllamaChatResponseView {
    pub model: Seq<char>,
    pub created_at: Seq<char>,
    pub message: Option<ChatMessageView>,
    pub done: bool,
}

impl View for OllamaChatResponse {
    type V = OllamaChatResponseView;

    open spec fn view(&self) -> OllamaChatResponseView {
        OllamaChatResponseView {
            model: self.model@,
            created_at: self.created_at@,
            message: optional_message_view(self.message),
            done: self.done,
        }
    }
}

impl OllamaChatResponse {
    /// The frame that a JSON value stands for. It must be an object. Of its
    /// members, `model` and `created_at` are texts, `done` is a boolean and
    /// `message` is a message; each of them may be missing or `null`, and
    /// then counts as empty, as `false`, or as no message. A member of
    /// another type makes the whole no frame. Other members are ignored.
    pub open spec fn parsed(doc: JsonValue) -> Option<OllamaChatResponseView> {
        if !(doc is Object) {
            None
        } else {
            match (
                doc.text_or_empty("model"@),
                doc.text_or_empty("created_at"@),
                doc.flag_or_false("done"@),
            ) {
                (Some(model), Some(created_at), Some(done)) => match doc.present("message"@) {
                    None => Some(
                        OllamaChatResponseView { model, created_at, message: None, done },
                    ),
                    Some(inner) => match ChatMessage::parsed(inner) {
                        Some(message) => Some(
                            OllamaChatResponseView {
                                model,
                                created_at,
                                message: Some(message),
                                done,
                            },
                        ),
                        None => None,
                    },
                },
                _ => None,
            }
        }
    }

    /// Reads a frame from a JSON value.
    pub fn from_json(doc: &JsonValue) -> (frame: Option<OllamaChatResponse>)
        ensures
            match frame {
                Some(f) => OllamaChatResponse::parsed(*doc) == Some(f@),
                None => OllamaChatResponse::parsed(*doc) is None,
            },
    {
        if !doc.is_object() {
            return None;
        }
        match (
            doc.get_text_or_empty("model"),
            doc.get_text_or_empty("created_at"),
            doc.get_flag_or_false("done"),
        ) {
            (Some(model), Some(created_at), Some(done)) => match doc.get_present("message") {
                None => Some(OllamaChatResponse { model, created_at, message: None, done }),
                Some(inner) => match ChatMessage::from_json(inner) {
                    Some(message) => Some(
                        OllamaChatResponse { model, created_at, message: Some(message), done },
                    ),
                    None => None,
                },
            },
            _ => None,
        }
    }
}

/// One choice in a frame of an OpenAI-compatible answer stream.
#[derive(Debug)]
pub struct LMStudioChoice {
    pub index: u32,
    pub delta: Option<ChatMessage>,
    pub finish_reason: Option<String>,
}

/// What an `LMStudioChoice` holds.
pub struct LMStudioChoiceView {
    pub index: u32,
    pub delta: Option<ChatMessageView>,
    pub finish_reason: Option<Seq<char>>,
}

impl View for LMStudioChoice {
    type V = LMStudioChoiceView;

    open spec fn view(&self) -> LMStudioChoiceView {
        LMStudioChoiceView {
            index: self.index,
            delta: optional_message_view(self.delta),
            finish_reason: match self.finish_reason {
                Some(reason) => Some(reason@),
                None => None,
            },
        }
    }
}

/// What each choice of a list holds.
pub open spec fn choice_views(choices: Seq<LMStudioChoice>) -> Seq<LMStudioChoiceView> {
    choices.map_values(|choice: LMStudioChoice| choice@)
}

impl LMStudioChoice {
    /// The choice that a JSON value stands for. It must be an object. Of its
    /// members, `index` is an unsigned number of at most 32 bits, `delta` is
    /// a partial message and `finish_reason` is a text; each of them may be
    /// missing or `null`, and then counts as 0 or as not there. A member of
    /// another type makes the whole no choice. Other members are ignored.
    pub open spec fn parsed(doc: JsonValue) -> Option<LMStudioChoiceView> {
        if !(doc is Object) {
            None
        } else {
            match doc.number_or_zero("index"@) {
                Some(index) if index <= u32::MAX => {
                    let delta = match doc.present("delta"@) {
                        None => Some(None),
                        Some(inner) => match ChatMessage::parsed_delta(inner) {
                            Some(message) => Some(Some(message)),
                            None => None,
                        },
                    };
                    let finish_reason = match doc.present("finish_reason"@) {
                        None => Some(None),
                        Some(JsonValue::Text(reason)) => Some(Some(reason@)),
                        Some(_) => None,
                    };
                    match (delta, finish_reason) {
                        (Some(delta), Some(finish_reason)) => Some(
                            LMStudioChoiceView { index: index as u32, delta, finish_reason },
                        ),
                        _ => None,
                    }
                },
                _ => None,
            }
        }
    }

    /// Reads a choice from a JSON value.
    pub fn from_json(doc: &JsonValue) -> (choice: Option<LMStudioChoice>)
        ensures
            match choice {
                Some(c) => LMStudioChoice::parsed(*doc) == Some(c@),
                None => LMStudioChoice::parsed(*doc) is None,
            },
    {
        if !doc.is_object() {
            return None;
        }
        let index: u32 = match doc.get_number_or_zero("index") {
            Some(index) if index <= 0xffff_ffff => index as u32,
            _ => {
                return None;
            },
        };
        let delta = match doc.get_present("delta") {
            None => None,
            Some(inner) => match ChatMessage::delta_from_json(inner) {
                Some(message) => Some(message),
                None => {
                    return None;
                },
            },
        };
        let finish_reason = match doc.get_present("finish_reason") {
            None => None,
            Some(JsonValue::Text(reason)) => Some(reason.clone()),
            Some(_) => {
                return None;
            },
        };
        Some(LMStudioChoice { index, delta, finish_reason })
    }
}

/// The choices that the items of a JSON array stand for, if each of them
/// stands for one.
pub open spec fn parsed_choices(items: Seq<JsonValue>) -> Option<Seq<LMStudioChoiceView>> {
    if forall|i: int| 0 <= i < items.len() ==> LMStudioChoice::parsed(#[trigger] items[i]) is Some {
        Some(Seq::new(items.len(), |i: int| LMStudioChoice::parsed(items[i])->0))
    } else {
        None
    }
}

/// One frame of an OpenAI-compatible answer stream.
#[derive(Debug)]
pub struct LMStudioResponse {
    pub id: String,
    pub object: String,
    pub created: u64,
    pub model: String,
    pub choices: Vec<LMStudioChoice>,
}

/// What an `LMStudioResponse` holds.
pub struct LMStudioResponseView {
    pub id: Seq<char>,
    pub object: Seq<char>,
    pub created: u64,
    pub model: Seq<char>,
    pub choices: Seq<LMStudioChoiceView>,
}

impl View for LMStudioResponse {
    type V = LMStudioResponseView;

    open spec fn view(&self) -> LMStudioResponseView {
        LMStudioResponseView {
            id: self.id@,
            object: self.object@,
            created: self.created,
            model: self.model@,
            choices: choice_views(self.choices@),
        }
    }
}

impl LMStudioResponse {
    /// The frame that a JSON value stands for. It must be an object. Of its
    /// members, `id`, `object` and `model` are texts, `created` is an
    /// unsigned number of at most 64 bits and `choices` is an array of
    /// choices; each of them may be missing or `null`, and then counts as
    /// empty or as 0. A member of another type makes the whole no frame.
    /// Other members are ignored.
    pub open spec fn parsed(doc: JsonValue) -> Option<LMStudioResponseView> {
        if !(doc is Object) {
            None
        } else {
            let choices = match doc.present("choices"@) {
                None => Some(Seq::empty()),
                Some(JsonValue::List(items)) => parsed_choices(items@),
                Some(_) => None,
            };
            match (
                doc.text_or_empty("id"@),
                doc.text_or_empty("object"@),
                doc.number_or_zero("created"@),
                doc.text_or_empty("model"@),
                choices,
            ) {
                (Some(id), Some(object), Some(created), Some(model), Some(choices)) => Some(
                    LMStudioResponseView { id, object, created, model, choices },
                ),
                _ => None,
            }
        }
    }

    /// Reads a frame from a JSON value.
    pub fn from_json(doc: &JsonValue) -> (frame: Option<LMStudioResponse>)
        ensures
            match frame {
                Some(f) => LMStudioResponse::parsed(*doc) == Some(f@),
                None => LMStudioResponse::parsed(*doc) is None,
            },
    {
        if !doc.is_object() {
            return None;
        }
        let choices = match doc.get_present("choices") {
            None => {
                let none: Vec<LMStudioChoice> = Vec::new();
                assert(choice_views(none@) =~= Seq::<LMStudioChoiceView>::empty());
                none
            },
            Some(JsonValue::List(items)) => match read_choices(items) {
                Some(choices) => choices,
                None => {
                    return None;
                },
            },
            Some(_) => {
                return None;
            },
        };
        match (
            doc.get_text_or_empty("id"),
            doc.get_text_or_empty("object"),
            doc.get_number_or_zero("created"),
            doc.get_text_or_empty("model"),
        ) {
            (Some(id), Some(object), Some(created), Some(model)) => Some(
                LMStudioResponse { id, object, created, model, choices },
            ),
            _ => None,
        }
    }
}

/// Reads the choices of a frame from the items of a JSON array.
pub fn read_choices(items: &Vec<JsonValue>) -> (choices: Option<Vec<LMStudioChoice>>)
    ensures
        match choices {
            Some(found) => parsed_choices(items@) == Some(choice_views(found@)),
            None => parsed_choices(items@) is None,
        },
{
    let mut choices: Vec<LMStudioChoice> = Vec::new();
    let mut i: usize = 0;
    while i < items.len()
        invariant
            i <= items@.len(),
            choices@.len() == i,
            forall|k: int|
                0 <= k < i ==> LMStudioChoice::parsed(#[trigger] items@[k]) == Some(choices@[k]@),
        decreases items@.len() - i,
    {
        match LMStudioChoice::from_json(&items[i]) {
            Some(choice) => {
                choices.push(choice);
            },
            None => {
                return None;
            },
        }
        i += 1;
    }
    Some(choices)
}

} // verus!
