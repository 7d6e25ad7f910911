//! Requests to the model and the events that come back.

use picrust::anthropic::{
    api_error, define_tool, parse_sse_event, AnthropicProvider, AuthConfig, AuthSource,
    EnvSettings, SseReader, StreamEvent, SystemPrompt, ThinkingConfig, ToolDefinition, DEFAULT_API_URL,
    DEFAULT_MAX_TOKENS,
};
use picrust::json::{object, parse};
use picrust::messages::Message;

fn env(key: Option<&str>, model: Option<&str>, max: Option<&str>) -> EnvSettings {
    EnvSettings {
        api_key: key.map(|s| s.to_string()),
        base_url: None,
        model: model.map(|s| s.to_string()),
        max_tokens: max.map(|s| s.to_string()),
    }
}

#[test]
fn the_environment_describes_a_provider() {
    assert_eq!(
        AnthropicProvider::from_env(env(None, Some("m"), None)).err(),
        Some("ANTHROPIC_API_KEY environment variable not set".to_string())
    );
    assert_eq!(
        AnthropicProvider::from_env(env(Some("k"), None, None)).err(),
        Some("ANTHROPIC_MODEL environment variable not set".to_string())
    );
    let p = AnthropicProvider::from_env(env(Some("k"), Some("m"), Some("17"))).ok().unwrap();
    assert_eq!(p.model(), "m");
    assert_eq!(p.max_tokens(), 17);
    assert_eq!(p.provider_name(), "anthropic");
    for odd in ["", "x", "-1", "4294967296"] {
        let p = AnthropicProvider::from_env(env(Some("k"), Some("m"), Some(odd))).ok().unwrap();
        assert_eq!(p.max_tokens(), DEFAULT_MAX_TOKENS);
    }
}

#[test]
fn overrides_keep_the_key() {
    let p = AnthropicProvider::new("k").with_model("a").with_max_tokens(10);
    let q = p.with_model_override("b");
    assert_eq!((q.model(), q.max_tokens()), ("b", 10));
    let q = p.with_model_and_tokens_override("c", 20);
    assert_eq!((q.model(), q.max_tokens()), ("c", 20));
    assert!(matches!(q.auth, AuthSource::Static(a) if a.api_key == "k"));
    assert!(matches!(AnthropicProvider::with_auth_provider().auth, AuthSource::Dynamic));
    assert_eq!(AuthConfig::new("k").api_url(), DEFAULT_API_URL);
    assert_eq!(AuthConfig::with_base_url("k", "u").api_url(), "u");
}

#[test]
fn a_message_goes_behind_the_history() {
    let p = AnthropicProvider::new("k").with_model("m");
    let call = p.send_message("new", &vec![Message::user("old")], Some("be brief"), Some("sid"));
    assert_eq!(call.request.messages.len(), 2);
    assert_eq!(call.request.messages[1].text(), "new");
    assert!(matches!(&call.request.system, Some(SystemPrompt::Text(s)) if s == "be brief"));
    assert!(call.request.tools.is_none());
    assert_eq!(call.request.stream, None);
    let headers = call.headers(&AuthConfig::new("k"));
    assert!(headers.contains(&("x-api-key".to_string(), "k".to_string())));
    assert!(headers.contains(&("agent-session-id".to_string(), "sid".to_string())));
    let streamed = p.stream_message("new", &vec![], None);
    assert_eq!(streamed.request.stream, Some(true));
}

#[test]
fn thinking_sets_the_temperature() {
    let p = AnthropicProvider::new("k").with_model("m");
    let tool = define_tool("t", "does", object(vec![]), vec!["a".to_string()]);
    assert!(matches!(&tool, ToolDefinition::Custom(t) if t.name == "t"));
    let call = p.send_with_tools(
        vec![Message::user("hi")],
        None,
        vec![tool],
        None,
        Some(ThinkingConfig::enabled(1000)),
    );
    assert_eq!(call.request.temperature, Some(1));
    assert_eq!(call.request.tools.as_ref().map(|t| t.len()), Some(1));
    let call = p.stream_with_tools_and_system(
        vec![Message::user("hi")],
        None,
        vec![],
        None,
        None,
        Some("sid"),
    );
    assert_eq!(call.request.temperature, None);
    assert!(call.request.tools.is_none());
    let headers = call.headers(&AuthConfig::new("k"));
    assert!(headers.contains(&("X-Agent-Session-Id".to_string(), "sid".to_string())));
}

#[test]
fn refusals_are_told() {
    assert_eq!(api_error(200, "200 OK", "x"), None);
    assert_eq!(
        api_error(429, "429 Too Many Requests", "slow down"),
        Some("Anthropic API error (429 Too Many Requests): slow down".to_string())
    );
}

#[test]
fn events_are_read_line_by_line() {
    let mut reader = SseReader::new();
    assert!(reader.next_event("event: ping").is_none());
    assert!(reader.next_event(": a comment").is_none());
    assert!(reader.next_event(r#"data: {"type": "ping"}"#).is_none());
    assert!(matches!(reader.next_event(""), Some(StreamEvent::Ping)));
    assert!(reader.next_event("").is_none());
    let lines: Vec<String> = ["event: a", "data: 1", "", "event: b", "data: 2", ""]
        .iter()
        .map(|s| s.to_string())
        .collect();
    let frames = reader.read_lines(&lines);
    assert_eq!(frames.len(), 2);
    assert_eq!((frames[0].event.as_str(), frames[0].data.as_str()), ("a", "1"));
    assert_eq!((frames[1].event.as_str(), frames[1].data.as_str()), ("b", "2"));
}

#[test]
fn data_of_events_is_read() {
    assert!(matches!(parse_sse_event("fly", "no JSON"), Ok(None)));
    assert!(parse_sse_event("error", "no JSON").is_err());
    let got = parse_sse_event("message_stop", r#"{"type": "message_stop"}"#).ok().unwrap();
    assert!(matches!(got, Some(StreamEvent::MessageStop)));
}

#[test]
fn data_that_is_no_event_is_refused() {
    for data in [
        "[]",
        r#"{"a": "b"}"#,
        r#"{"type": "fly"}"#,
        r#"{"type": "message_start"}"#,
        r#"{"type": "message_start", "message": "m"}"#,
        r#"{"type": "content_block_start", "index": 0}"#,
        r#"{"type": "content_block_start", "index": 0, "content_block": {}}"#,
        r#"{"type": "content_block_delta", "delta": {"type": "text_delta"}}"#,
        r#"{"type": "content_block_stop", "index": -1}"#,
        r#"{"type": "message_delta"}"#,
        r#"{"type": "message_delta", "delta": {}, "usage": 5}"#,
        r#"{"type": "error", "error": {"type": "overloaded_error"}}"#,
    ] {
        let e = parse_sse_event("ping", data).err().unwrap();
        assert_eq!(e.message, "not an event of a stream");
    }
    let mut reader = SseReader::new();
    assert!(reader.next_event("event: message_start").is_none());
    assert!(reader.next_event(r#"data: {"a": 1}"#).is_none());
    assert!(reader.next_event("").is_none());
}

#[test]
fn events_hold_what_their_data_says() {
    let read = |data: &str| parse_sse_event("ping", data).ok().unwrap().unwrap();
    match read(r#"{"type": "message_start", "message": {"id": "m1"}}"#) {
        StreamEvent::MessageStart { message } => assert_eq!(message.text_or_empty("id"), "m1"),
        _ => panic!("another event"),
    }
    match read(r#"{"type": "content_block_start", "index": 2, "content_block": {"type": "text"}}"#) {
        StreamEvent::ContentBlockStart { index, content_block } => {
            assert_eq!(index, 2);
            assert_eq!(content_block.text_or_empty("type"), "text");
        }
        _ => panic!("another event"),
    }
    match read(r#"{"type": "content_block_delta", "index": 1, "delta": {"type": "text_delta", "text": "hi"}}"#) {
        StreamEvent::ContentBlockDelta { index, delta } => {
            assert_eq!(index, 1);
            assert_eq!(delta.text_or_empty("text"), "hi");
        }
        _ => panic!("another event"),
    }
    let stop = read(r#"{"type": "content_block_stop", "index": 7}"#);
    assert!(matches!(stop, StreamEvent::ContentBlockStop { index: 7 }));
    match read(r#"{"type": "message_delta", "delta": {"stop_reason": "end_turn"}, "usage": {"output_tokens": 5}}"#) {
        StreamEvent::MessageDelta { delta, usage } => {
            assert_eq!(delta.text_or_empty("stop_reason"), "end_turn");
            assert_eq!(usage.unwrap().get_whole("output_tokens"), Some(5));
        }
        _ => panic!("another event"),
    }
    match read(r#"{"type": "error", "error": {"type": "overloaded_error", "message": "busy"}}"#) {
        StreamEvent::Error { kind, message } => {
            assert_eq!((kind.as_str(), message.as_str()), ("overloaded_error", "busy"));
        }
        _ => panic!("another event"),
    }
}

#[test]
fn json_reads_back_what_it_prints() {
    let v = parse(r#"{"b": [1, 2.5, true, null], "a": "x\n"}"#).ok().unwrap();
    let again = parse(&v.to_text()).ok().unwrap();
    assert_eq!(again.to_text(), v.to_text());
    assert_eq!(again.text_or_empty("a"), "x\n");
    assert!(parse("{").is_err());
    assert!(!parse("{").err().unwrap().message.is_empty());
}
