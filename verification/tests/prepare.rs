use chat_runtime::request::{ChatMessage, ChatRequest, Role};
use chat_runtime::response::{rewrite_chunk, rewrite_response, request_labels, ChatResponse, StreamChunk, Usage};
use chat_runtime::values::{ParamValue, StreamOptions};
use chat_runtime::wrapper::{ChatWrapper, DefaultEntry};

fn user_msg(content: &str) -> ChatMessage {
    ChatMessage { role: Role::User, content: content.to_string() }
}

fn bare_request(messages: Vec<ChatMessage>) -> ChatRequest {
    ChatRequest::new("m".to_string(), messages)
}

fn entry(key: &str, value: ParamValue) -> DefaultEntry {
    DefaultEntry { key: key.to_string(), value }
}

#[test]
fn system_prompt_injected_first() {
    let w = ChatWrapper::new("public", Some("You are helpful".to_string()), Vec::new());
    let req = bare_request(vec![user_msg("hi there")]);
    let prepared = w.prepare_req(req);
    assert_eq!(prepared.messages.len(), 2);
    assert!(matches!(prepared.messages[0].role, Role::System));
    assert_eq!(prepared.messages[0].content, "You are helpful");
    assert!(matches!(prepared.messages[1].role, Role::User));
    assert_eq!(prepared.messages[1].content, "hi there");
}

#[test]
fn no_system_prompt_leaves_messages() {
    let w = ChatWrapper::new("public", None, Vec::new());
    let req = bare_request(vec![user_msg("a"), user_msg("b")]);
    let prepared = w.prepare_req(req);
    assert_eq!(prepared.messages.len(), 2);
    assert_eq!(prepared.messages[0].content, "a");
    assert_eq!(prepared.messages[1].content, "b");
}

#[test]
fn system_prompt_on_empty_conversation() {
    let w = ChatWrapper::new("public", Some("sys".to_string()), Vec::new());
    let prepared = w.prepare_req(bare_request(Vec::new()));
    assert_eq!(prepared.messages.len(), 1);
    assert!(matches!(prepared.messages[0].role, Role::System));
}

#[test]
fn existing_system_message_is_kept_and_shifted() {
    let w = ChatWrapper::new("public", Some("outer".to_string()), Vec::new());
    let req = bare_request(vec![
        ChatMessage { role: Role::System, content: "inner".to_string() },
        user_msg("q"),
    ]);
    let prepared = w.prepare_req(req);
    assert_eq!(prepared.messages.len(), 3);
    assert_eq!(prepared.messages[0].content, "outer");
    assert_eq!(prepared.messages[1].content, "inner");
    assert_eq!(prepared.messages[2].content, "q");
}

#[test]
fn default_fills_unset_field() {
    let defaults = vec![entry("temperature", ParamValue::Num("0.7".to_string()))];
    let w = ChatWrapper::new("public", None, defaults);
    let prepared = w.prepare_req(bare_request(vec![user_msg("x")]));
    assert!(matches!(&prepared.temperature, Some(ParamValue::Num(s)) if s == "0.7"));
}

#[test]
fn caller_value_wins_over_default() {
    let defaults = vec![entry("temperature", ParamValue::Num("0.7".to_string()))];
    let w = ChatWrapper::new("public", None, defaults);
    let mut req = bare_request(vec![user_msg("x")]);
    req.temperature = Some(ParamValue::Num("0.2".to_string()));
    let prepared = w.prepare_req(req);
    assert!(matches!(&prepared.temperature, Some(ParamValue::Num(s)) if s == "0.2"));
}

#[test]
fn unknown_default_name_is_ignored() {
    let defaults = vec![entry("not_a_field", ParamValue::Bool(true))];
    let w = ChatWrapper::new("public", None, defaults);
    let prepared = w.prepare_req(bare_request(vec![user_msg("x")]));
    assert!(prepared.temperature.is_none());
    assert!(prepared.stream.is_none());
}

#[test]
fn first_applicable_default_wins() {
    let defaults = vec![
        entry("seed", ParamValue::Int(1)),
        entry("seed", ParamValue::Int(2)),
    ];
    let w = ChatWrapper::new("public", None, defaults);
    let prepared = w.prepare_req(bare_request(vec![user_msg("x")]));
    assert!(matches!(prepared.seed, Some(ParamValue::Int(1))));
}

#[test]
fn stream_default_needs_a_bool() {
    let defaults = vec![
        entry("stream", ParamValue::Num("1".to_string())),
        entry("stream", ParamValue::Bool(true)),
    ];
    let w = ChatWrapper::new("public", None, defaults);
    let prepared = w.prepare_req(bare_request(vec![user_msg("x")]));
    // The first entry does not decode as a boolean, so the second applies,
    // and the streaming request then gets forced usage accounting.
    assert_eq!(prepared.stream, Some(true));
    assert_eq!(prepared.stream_options, Some(StreamOptions { include_usage: true }));
}

#[test]
fn streaming_forces_include_usage() {
    let w = ChatWrapper::new("public", None, Vec::new());
    let mut req = bare_request(vec![user_msg("x")]);
    req.stream = Some(true);
    req.stream_options = Some(StreamOptions { include_usage: false });
    let prepared = w.prepare_req(req);
    assert_eq!(prepared.stream_options, Some(StreamOptions { include_usage: true }));
}

#[test]
fn non_streaming_keeps_stream_options() {
    let w = ChatWrapper::new("public", None, Vec::new());
    let mut req = bare_request(vec![user_msg("x")]);
    req.stream = Some(false);
    req.stream_options = Some(StreamOptions { include_usage: false });
    let prepared = w.prepare_req(req);
    assert_eq!(prepared.stream, Some(false));
    assert_eq!(prepared.stream_options, Some(StreamOptions { include_usage: false }));
}

#[test]
fn stream_options_default_applies_when_not_streaming() {
    let defaults = vec![entry(
        "stream_options",
        ParamValue::Stream(StreamOptions { include_usage: false }),
    )];
    let w = ChatWrapper::new("public", None, defaults);
    let prepared = w.prepare_req(bare_request(vec![user_msg("x")]));
    assert_eq!(prepared.stream_options, Some(StreamOptions { include_usage: false }));
}

#[test]
fn response_reports_public_name() {
    let resp = ChatResponse {
        id: "r1".to_string(),
        model: "internal-model-v2".to_string(),
        choices: vec![ChatMessage { role: Role::Assistant, content: "hello".to_string() }],
        usage: Some(Usage { prompt_tokens: 1, completion_tokens: 2, total_tokens: 3 }),
    };
    let out = rewrite_response(resp, "public");
    assert_eq!(out.model, "public");
    assert_eq!(out.id, "r1");
    assert_eq!(out.choices.len(), 1);
    assert_eq!(out.choices[0].content, "hello");
    assert_eq!(out.usage, Some(Usage { prompt_tokens: 1, completion_tokens: 2, total_tokens: 3 }));
}

#[test]
fn chunk_reports_public_name_and_usage_decision() {
    let with_usage = StreamChunk {
        model: "internal".to_string(),
        delta: Some("tok".to_string()),
        usage: Some(Usage { prompt_tokens: 5, completion_tokens: 6, total_tokens: 11 }),
    };
    let (chunk, log) = rewrite_chunk(with_usage, "public");
    assert_eq!(chunk.model, "public");
    assert_eq!(chunk.delta.as_deref(), Some("tok"));
    assert!(log);

    let without_usage = StreamChunk { model: "internal".to_string(), delta: None, usage: None };
    let (chunk2, log2) = rewrite_chunk(without_usage, "public");
    assert_eq!(chunk2.model, "public");
    assert!(!log2);
}

#[test]
fn labels_derive_from_request() {
    let mut req = bare_request(vec![user_msg("x")]);
    req.stream = Some(true);
    let labels = request_labels(&req);
    assert_eq!(labels.model, "m");
    assert!(labels.stream);
    let mut req2 = bare_request(Vec::new());
    req2.stream = None;
    let labels2 = request_labels(&req2);
    assert!(!labels2.stream);
}
