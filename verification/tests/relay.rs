use vibe_studio::provider::{ProviderKind, StreamEvent};
use vibe_studio::relay::{
    build_conversation, parse_history, Relay, RelayError, RelayInput, RelayPhase,
    DEFAULT_SYSTEM_PROMPT,
};

fn token(text: &str) -> StreamEvent {
    StreamEvent::Token { text: text.to_string() }
}

fn ollama_line(content: &str, done: bool) -> String {
    format!(
        "{{\"model\":\"m\",\"created_at\":\"2024-01-01T00:00:00Z\",\"message\":{{\"role\":\"assistant\",\"content\":\"{}\"}},\"done\":{}}}\n",
        content, done
    )
}

fn ollama_closing() -> String {
    "{\"model\":\"m\",\"created_at\":\"2024-01-01T00:00:00Z\",\"done\":true}\n".to_string()
}

fn openai_line(content: &str) -> String {
    format!(
        "data: {{\"id\":\"c1\",\"object\":\"chat.completion.chunk\",\"created\":1700000000,\"model\":\"m\",\"choices\":[{{\"index\":0,\"delta\":{{\"content\":\"{}\"}},\"finish_reason\":null}}]}}\n",
        content
    )
}

fn streaming(provider: &str) -> Relay {
    let (mut relay, _) = Relay::start(provider, "m", "hi", "").unwrap();
    let events = relay.step(&RelayInput::ResponseStatus { code: 200, status: "200 OK".to_string() });
    assert!(events.is_empty());
    assert_eq!(relay.phase(), RelayPhase::Streaming);
    relay
}

fn chunk(text: &str) -> RelayInput {
    RelayInput::Chunk { bytes: text.as_bytes().to_vec() }
}

#[test]
fn ollama_stream_gives_tokens_in_order_then_done() {
    let mut relay = streaming("ollama");
    let mut body = String::new();
    for word in ["a", "b", "c", "d"] {
        body.push_str(&ollama_line(word, false));
    }
    body.push_str(&ollama_closing());
    let events = relay.step(&chunk(&body));
    assert_eq!(events, vec![token("a"), token("b"), token("c"), token("d"), StreamEvent::Done]);
    assert_eq!(relay.phase(), RelayPhase::Completed);
    assert!(relay.is_over());
}

#[test]
fn ollama_stream_of_bare_frames_gives_tokens_in_order_then_done() {
    for count in [0usize, 1, 2, 7] {
        let mut relay = streaming("ollama");
        let mut body = String::new();
        let mut expected = Vec::new();
        for i in 0..count {
            let text = format!("x{}", i);
            body.push_str(&format!(
                "{{\"message\":{{\"role\":\"assistant\",\"content\":\"{}\"}},\"done\":false}}\n",
                text
            ));
            expected.push(token(&text));
        }
        body.push_str("{\"done\":true}\n");
        expected.push(StreamEvent::Done);
        assert_eq!(relay.step(&chunk(&body)), expected);
        assert_eq!(relay.phase(), RelayPhase::Completed);
    }
}

#[test]
fn openai_stream_of_bare_frames_gives_tokens_in_order_then_done() {
    let mut relay = streaming("lmstudio");
    let body = "data: {\"choices\":[{\"delta\":{\"content\":\"a\"}}]}\n\
                {\"choices\":[{\"delta\":{\"content\":\"ignored\"}}]}\n\
                data: {\"choices\":[{\"delta\":{\"content\":\"\"}}]}\n\
                data: {\"choices\":[{\"delta\":{\"content\":\"b\"}}]}\n\
                data: [DONE]\n";
    assert_eq!(relay.step(&chunk(body)), vec![token("a"), token("b"), StreamEvent::Done]);
}

#[test]
fn ollama_stream_of_no_tokens_gives_done_alone() {
    let mut relay = streaming("ollama");
    let events = relay.step(&chunk(&ollama_closing()));
    assert_eq!(events, vec![StreamEvent::Done]);
}

#[test]
fn ollama_frame_with_message_and_done_gives_both() {
    let events = ProviderKind::Ollama.decode_frame(ollama_line("last", true).trim_end());
    assert_eq!(events, vec![token("last"), StreamEvent::Done]);
}

#[test]
fn ollama_skips_lines_that_are_no_frames() {
    let kind = ProviderKind::Ollama;
    assert!(kind.decode_frame("").is_empty());
    assert!(kind.decode_frame("   \t").is_empty());
    assert!(kind.decode_frame("\u{a0}\u{2003}\r").is_empty());
    assert!(kind.decode_frame("{\"model\":\"m\",").is_empty());
    assert!(kind.decode_frame("not json").is_empty());
    assert!(kind.decode_frame("[1,2,3]").is_empty());
    assert!(kind.decode_frame("{\"model\":\"m\",\"created_at\":\"t\",\"done\":\"yes\"}").is_empty());
    assert!(kind.decode_frame("{\"model\":7,\"done\":true}").is_empty());
    assert!(kind.decode_frame("{}").is_empty());
    assert!(kind.decode_frame("true").is_empty());
    assert!(kind
        .decode_frame("{\"model\":\"m\",\"created_at\":\"t\",\"message\":{\"role\":\"assistant\"},\"done\":false}")
        .is_empty());
}

#[test]
fn ollama_null_message_counts_as_none() {
    let events = ProviderKind::Ollama
        .decode_frame("{\"model\":\"m\",\"created_at\":\"t\",\"message\":null,\"done\":true,\"extra\":1}");
    assert_eq!(events, vec![StreamEvent::Done]);
}

#[test]
fn openai_stream_gives_a_token_for_each_content_then_done() {
    let mut relay = streaming("lmstudio");
    let mut body = String::new();
    body.push_str(&openai_line("Hel"));
    body.push_str(": keep-alive\n");
    body.push_str(&openai_line(""));
    body.push_str("\n");
    body.push_str(&openai_line("lo"));
    body.push_str("event: ping\n");
    body.push_str("data: [DONE]\n");
    let events = relay.step(&chunk(&body));
    assert_eq!(events, vec![token("Hel"), token("lo"), StreamEvent::Done]);
    assert_eq!(relay.phase(), RelayPhase::Completed);
}

#[test]
fn openai_line_without_prefix_is_ignored() {
    let kind = ProviderKind::OpenAICompatible;
    let framed = openai_line("x");
    let bare = &framed.trim_end()["data: ".len()..];
    assert!(kind.decode_frame(bare).is_empty());
    assert!(kind.decode_frame("[DONE]").is_empty());
    assert!(kind.decode_frame("data:[DONE]").is_empty());
    assert_eq!(kind.decode_frame(framed.trim_end()), vec![token("x")]);
    assert_eq!(kind.decode_frame("data: [DONE]"), vec![StreamEvent::Done]);
}

#[test]
fn openai_delta_may_carry_a_role() {
    let line = "data: {\"id\":\"c\",\"object\":\"o\",\"created\":1,\"model\":\"m\",\"choices\":[{\"index\":0,\"delta\":{\"role\":\"assistant\",\"content\":\"hey\"}}]}";
    assert_eq!(ProviderKind::OpenAICompatible.decode_frame(line), vec![token("hey")]);
}

#[test]
fn openai_frame_without_choices_gives_nothing() {
    let line = "data: {\"id\":\"c\",\"object\":\"o\",\"created\":1,\"model\":\"m\",\"choices\":[]}";
    assert!(ProviderKind::OpenAICompatible.decode_frame(line).is_empty());
    let no_delta = "data: {\"id\":\"c\",\"object\":\"o\",\"created\":1,\"model\":\"m\",\"choices\":[{\"index\":0,\"finish_reason\":\"stop\"}]}";
    assert!(ProviderKind::OpenAICompatible.decode_frame(no_delta).is_empty());
}

#[test]
fn openai_strips_every_prefix() {
    let kind = ProviderKind::OpenAICompatible;
    assert_eq!(kind.decode_frame("data: data: [DONE]"), vec![StreamEvent::Done]);
    assert_eq!(
        kind.decode_frame("data: data: data: {\"choices\":[{\"delta\":{\"content\":\"x\"}}]}"),
        vec![token("x")]
    );
    assert!(kind.decode_frame("data: ").is_empty());
    assert!(kind.decode_frame("data: data: ").is_empty());
    assert!(kind.decode_frame("data: data:[DONE]").is_empty());
}

#[test]
fn status_500_gives_one_error_and_no_token() {
    let (mut relay, _) = Relay::start("ollama", "m", "hi", "").unwrap();
    let events = relay.step(&RelayInput::ResponseStatus {
        code: 500,
        status: "500 Internal Server Error".to_string(),
    });
    assert_eq!(
        events,
        vec![StreamEvent::Error { message: "Ollama API Error: 500 Internal Server Error".to_string() }]
    );
    assert_eq!(relay.phase(), RelayPhase::Failed);
    let mut body = ollama_line("late", false);
    body.push_str(&ollama_closing());
    assert!(relay.step(&chunk(&body)).is_empty());
    assert!(relay.step(&RelayInput::BodyClosed).is_empty());
    assert_eq!(relay.phase(), RelayPhase::Failed);
}

#[test]
fn status_error_names_the_provider() {
    let (mut relay, _) = Relay::start("lmstudio", "m", "hi", "").unwrap();
    let events = relay.step(&RelayInput::ResponseStatus { code: 404, status: "404 Not Found".to_string() });
    assert_eq!(
        events,
        vec![StreamEvent::Error { message: "LM Studio API Error: 404 Not Found".to_string() }]
    );
}

#[test]
fn status_is_success_from_200_to_299() {
    for (code, success) in [(199u16, false), (200, true), (204, true), (299, true), (300, false)] {
        let (mut relay, _) = Relay::start("ollama", "m", "hi", "").unwrap();
        let events = relay.step(&RelayInput::ResponseStatus { code, status: code.to_string() });
        assert_eq!(events.is_empty(), success);
        assert_eq!(relay.phase(), if success { RelayPhase::Streaming } else { RelayPhase::Failed });
    }
}

#[test]
fn failed_connection_gives_one_error() {
    let (mut relay, _) = Relay::start("ollama", "m", "hi", "").unwrap();
    let events = relay.step(&RelayInput::ConnectFailed { detail: "connection refused".to_string() });
    assert_eq!(
        events,
        vec![StreamEvent::Error { message: "Failed to connect to Ollama: connection refused".to_string() }]
    );
    assert_eq!(relay.phase(), RelayPhase::Failed);

    let (mut relay, _) = Relay::start("lmstudio", "m", "hi", "").unwrap();
    let events = relay.step(&RelayInput::ConnectFailed { detail: "timed out".to_string() });
    assert_eq!(
        events,
        vec![StreamEvent::Error { message: "Failed to connect to LM Studio: timed out".to_string() }]
    );
}

#[test]
fn unparseable_history_counts_as_empty() {
    for history in ["not json", "{\"role\":\"user\"}", "[{\"role\":\"user\"}]", "[1]", "[", "null"] {
        let request = build_conversation("m", "hello", history);
        assert_eq!(request.messages.len(), 2, "history {:?}", history);
        assert_eq!(request.messages[0].role, "system");
        assert_eq!(request.messages[0].content, DEFAULT_SYSTEM_PROMPT);
        assert_eq!(request.messages[1].role, "user");
        assert_eq!(request.messages[1].content, "hello");
        let empty = build_conversation("m", "hello", "");
        assert_eq!(empty.messages.len(), 2);
        assert!(parse_history(history).is_empty());
    }
}

#[test]
fn history_stands_between_system_and_user() {
    let history = "[{\"role\":\"user\",\"content\":\"one\"},{\"role\":\"assistant\",\"content\":\"two\",\"extra\":true}]";
    let request = build_conversation("llama3", "three", history);
    let seen: Vec<(&str, &str)> =
        request.messages.iter().map(|m| (m.role.as_str(), m.content.as_str())).collect();
    assert_eq!(
        seen,
        vec![
            ("system", DEFAULT_SYSTEM_PROMPT),
            ("user", "one"),
            ("assistant", "two"),
            ("user", "three"),
        ]
    );
    assert_eq!(request.model, "llama3");
    assert!(request.stream);
    assert_eq!(request.temperature, "0.7");
}

#[test]
fn split_line_decodes_as_if_whole() {
    let mut body = String::new();
    for word in ["alpha", "beta", "gamma"] {
        body.push_str(&ollama_line(word, false));
    }
    body.push_str(&ollama_closing());
    let mut whole = streaming("ollama");
    let expected = whole.step(&chunk(&body));
    assert_eq!(expected.len(), 4);
    for cut in 0..=body.len() {
        let mut relay = streaming("ollama");
        let mut events = relay.step(&RelayInput::Chunk { bytes: body.as_bytes()[..cut].to_vec() });
        events.extend(relay.step(&RelayInput::Chunk { bytes: body.as_bytes()[cut..].to_vec() }));
        assert_eq!(events, expected, "cut at {}", cut);
        assert_eq!(relay.phase(), RelayPhase::Completed);
    }
}

#[test]
fn split_sse_line_decodes_as_if_whole() {
    let mut body = openai_line("one");
    body.push_str(&openai_line("two"));
    body.push_str("data: [DONE]\n");
    for cut in 0..=body.len() {
        let mut relay = streaming("lmstudio");
        let mut events = relay.step(&RelayInput::Chunk { bytes: body.as_bytes()[..cut].to_vec() });
        events.extend(relay.step(&RelayInput::Chunk { bytes: body.as_bytes()[cut..].to_vec() }));
        assert_eq!(events, vec![token("one"), token("two"), StreamEvent::Done], "cut at {}", cut);
    }
}

#[test]
fn character_cut_by_a_chunk_boundary_stays_whole() {
    let body = ollama_line("caf\u{e9} \u{1f600}", false);
    for cut in 0..=body.len() {
        let mut relay = streaming("ollama");
        let mut events = relay.step(&RelayInput::Chunk { bytes: body.as_bytes()[..cut].to_vec() });
        events.extend(relay.step(&RelayInput::Chunk { bytes: body.as_bytes()[cut..].to_vec() }));
        assert_eq!(events, vec![token("caf\u{e9} \u{1f600}")], "cut at {}", cut);
    }
}

#[test]
fn bytes_that_are_no_text_are_replaced() {
    let mut relay = streaming("ollama");
    let mut bytes = b"{\"message\":{\"role\":\"assistant\",\"content\":\"a".to_vec();
    bytes.push(0xff);
    bytes.extend_from_slice(b"b\"},\"done\":false}\n");
    assert_eq!(relay.step(&RelayInput::Chunk { bytes }), vec![token("a\u{fffd}b")]);
}

#[test]
fn byte_by_byte_stream_decodes_as_if_whole() {
    let mut body = ollama_line("x", false);
    body.push_str(&ollama_line("y", false));
    body.push_str(&ollama_closing());
    let mut relay = streaming("ollama");
    let mut events = Vec::new();
    for byte in body.as_bytes() {
        events.extend(relay.step(&RelayInput::Chunk { bytes: vec![*byte] }));
    }
    assert_eq!(events, vec![token("x"), token("y"), StreamEvent::Done]);
}

#[test]
fn unknown_provider_fails_before_any_request() {
    match Relay::start("unknown", "m", "hi", "") {
        Err(error) => {
            assert_eq!(error, RelayError::UnknownProvider { selector: "unknown".to_string() });
            assert_eq!(error.message(), "Unknown provider: unknown");
        }
        Ok(_) => panic!("an unknown provider must be refused"),
    }
    assert!(Relay::start("", "m", "hi", "").is_err());
    assert!(Relay::start("Ollama", "m", "hi", "").is_err());
    assert_eq!(ProviderKind::from_selector("unknown"), None);
    assert_eq!(ProviderKind::from_selector("ollama"), Some(ProviderKind::Ollama));
    assert_eq!(ProviderKind::from_selector("lmstudio"), Some(ProviderKind::OpenAICompatible));
}

#[test]
fn nothing_follows_done() {
    let mut relay = streaming("ollama");
    let mut body = ollama_closing();
    body.push_str(&ollama_line("late", false));
    assert_eq!(relay.step(&chunk(&body)), vec![StreamEvent::Done]);
    assert!(relay.step(&chunk(&ollama_line("later", false))).is_empty());
    assert!(relay.step(&RelayInput::BodyClosed).is_empty());
    assert!(relay.step(&RelayInput::ChunkFailed { detail: "reset".to_string() }).is_empty());
    assert_eq!(relay.phase(), RelayPhase::Completed);
}

#[test]
fn body_that_closes_without_done_is_closed_by_the_relay() {
    let mut relay = streaming("ollama");
    assert_eq!(relay.step(&chunk(&ollama_line("a", false))), vec![token("a")]);
    assert_eq!(relay.step(&RelayInput::BodyClosed), vec![StreamEvent::Done]);
    assert_eq!(relay.phase(), RelayPhase::Completed);
}

#[test]
fn unfinished_last_line_is_decoded_when_the_body_closes() {
    let mut relay = streaming("ollama");
    let line = ollama_line("tail", false);
    assert!(relay.step(&chunk(line.trim_end())).is_empty());
    assert_eq!(relay.step(&RelayInput::BodyClosed), vec![token("tail"), StreamEvent::Done]);

    let mut relay = streaming("lmstudio");
    assert!(relay.step(&chunk("data: [DONE]")).is_empty());
    assert_eq!(relay.step(&RelayInput::BodyClosed), vec![StreamEvent::Done]);
}

#[test]
fn read_failure_gives_one_error() {
    let mut relay = streaming("ollama");
    assert_eq!(relay.step(&chunk(&ollama_line("a", false))), vec![token("a")]);
    let events = relay.step(&RelayInput::ChunkFailed { detail: "connection reset".to_string() });
    assert_eq!(events, vec![StreamEvent::Error { message: "connection reset".to_string() }]);
    assert_eq!(relay.phase(), RelayPhase::Failed);
    assert!(relay.step(&RelayInput::BodyClosed).is_empty());
}

#[test]
fn inputs_out_of_turn_change_nothing() {
    let mut relay = Relay::new(ProviderKind::Ollama);
    assert_eq!(relay.phase(), RelayPhase::Idle);
    assert!(relay.step(&chunk(&ollama_closing())).is_empty());
    assert!(relay.step(&RelayInput::ResponseStatus { code: 500, status: "500".to_string() }).is_empty());
    assert_eq!(relay.phase(), RelayPhase::Idle);

    let (mut relay, _) = Relay::start("ollama", "m", "hi", "").unwrap();
    assert!(relay.step(&chunk(&ollama_closing())).is_empty());
    assert!(relay.step(&RelayInput::BodyClosed).is_empty());
    assert_eq!(relay.phase(), RelayPhase::RequestSent);

    let mut relay = streaming("ollama");
    assert!(relay.step(&RelayInput::ResponseStatus { code: 500, status: "500".to_string() }).is_empty());
    assert!(relay.step(&RelayInput::ConnectFailed { detail: "x".to_string() }).is_empty());
    assert_eq!(relay.phase(), RelayPhase::Streaming);
}

#[test]
fn begin_hands_out_one_request() {
    let mut relay = Relay::new(ProviderKind::OpenAICompatible);
    let first = relay.begin(build_conversation("m", "hi", ""));
    assert!(first.is_some());
    assert_eq!(first.unwrap().url, "http://localhost:1234/v1/chat/completions");
    assert_eq!(relay.phase(), RelayPhase::RequestSent);
    assert!(relay.begin(build_conversation("m", "hi", "")).is_none());
    assert_eq!(relay.phase(), RelayPhase::RequestSent);
}

#[test]
fn start_builds_the_request_for_the_provider() {
    let (relay, out) = Relay::start("ollama", "llama3", "say \"hi\"", "").unwrap();
    assert_eq!(relay.kind(), ProviderKind::Ollama);
    assert_eq!(relay.phase(), RelayPhase::RequestSent);
    assert_eq!(out.url, "http://localhost:11434/api/chat");
    let body: serde_json::Value = serde_json::from_str(&out.body).unwrap();
    assert_eq!(body["model"], "llama3");
    assert_eq!(body["stream"], true);
    assert!(body.get("temperature").is_none());
    let messages = body["messages"].as_array().unwrap();
    assert_eq!(messages.len(), 2);
    assert_eq!(messages[0]["role"], "system");
    assert_eq!(messages[0]["content"], DEFAULT_SYSTEM_PROMPT);
    assert_eq!(messages[1]["role"], "user");
    assert_eq!(messages[1]["content"], "say \"hi\"");

    let (_, out) = Relay::start("lmstudio", "qwen", "hi", "[{\"role\":\"user\",\"content\":\"x\"}]").unwrap();
    assert_eq!(out.url, "http://localhost:1234/v1/chat/completions");
    let body: serde_json::Value = serde_json::from_str(&out.body).unwrap();
    assert_eq!(body["model"], "qwen");
    assert_eq!(body["temperature"].to_string(), "0.7");
    assert_eq!(body["messages"].as_array().unwrap().len(), 3);
}

#[test]
fn event_names() {
    assert_eq!(token("x").name(), "generate-token");
    assert_eq!(StreamEvent::Done.name(), "generate-finished");
    assert_eq!(StreamEvent::Error { message: "m".to_string() }.name(), "generate-error");
    assert!(!token("x").is_terminal());
    assert!(StreamEvent::Done.is_terminal());
    assert!(StreamEvent::Error { message: "m".to_string() }.is_terminal());
}
