use chai_core::json::JsonValue;
use chai_core::llm::client::{
    build_request, decode_failure, read_reply, request_timeout_secs, send_failure, LlmError, SYSTEM_PROMPT,
};
use chai_core::llm::config::{ConfigError, LlmConfig, Provider};

fn s(x: &str) -> JsonValue {
    JsonValue::String(x.to_string())
}

fn obj(fields: Vec<(&str, JsonValue)>) -> JsonValue {
    JsonValue::Object(fields.into_iter().map(|(k, v)| (k.to_string(), v)).collect())
}

fn config(provider: Provider, key: Option<&str>) -> LlmConfig {
    LlmConfig { provider, api_key: key.map(|k| k.to_string()), model: "m1".to_string() }
}

#[test]
fn timeouts_per_provider() {
    assert_eq!(request_timeout_secs(Provider::Local), 60);
    assert_eq!(request_timeout_secs(Provider::OpenAI), 30);
    assert_eq!(request_timeout_secs(Provider::Gemini), 30);
}

#[test]
fn ollama_request_needs_no_key() {
    let r = build_request(&config(Provider::Local, None), "install vim").unwrap();
    assert_eq!(r.url, "http://localhost:11434/api/generate");
    assert!(r.authorization.is_none());
    assert_eq!(
        r.body,
        obj(vec![
            ("model", s("m1")),
            ("prompt", s("install vim")),
            ("stream", JsonValue::Bool(false)),
            ("system", s(SYSTEM_PROMPT)),
        ])
    );
}

#[test]
fn openai_request_carries_bearer_key() {
    let r = build_request(&config(Provider::OpenAI, Some("sk")), "p").unwrap();
    assert_eq!(r.url, "https://api.openai.com/v1/chat/completions");
    assert_eq!(r.authorization.as_deref(), Some("Bearer sk"));
    assert_eq!(
        r.body,
        obj(vec![
            (
                "messages",
                JsonValue::Array(vec![
                    obj(vec![("content", s(SYSTEM_PROMPT)), ("role", s("system"))]),
                    obj(vec![("content", s("p")), ("role", s("user"))]),
                ])
            ),
            ("model", s("m1")),
        ])
    );
}

#[test]
fn gemini_request_puts_key_in_url() {
    let r = build_request(&config(Provider::Gemini, Some("g-key")), "p").unwrap();
    assert_eq!(
        r.url,
        "https://generativelanguage.googleapis.com/v1beta/models/m1:generateContent?key=g-key"
    );
    assert!(r.authorization.is_none());
    let text = format!("{}\n\n{}", SYSTEM_PROMPT, "p");
    assert_eq!(
        r.body,
        obj(vec![(
            "contents",
            JsonValue::Array(vec![obj(vec![(
                "parts",
                JsonValue::Array(vec![obj(vec![("text", s(&text))])])
            )])])
        )])
    );
}

#[test]
fn cloud_providers_need_a_key() {
    match build_request(&config(Provider::OpenAI, None), "p") {
        Err(LlmError::ConfigError(m)) => assert_eq!(m, "OpenAI provider requires api_key"),
        other => panic!("unexpected {:?}", other),
    }
    match build_request(&config(Provider::Gemini, None), "p") {
        Err(LlmError::ConfigError(m)) => assert_eq!(m, "Gemini provider requires api_key"),
        other => panic!("unexpected {:?}", other),
    }
}

#[test]
fn send_failures() {
    match send_failure(Provider::Local, true, "ignored") {
        LlmError::ProviderUnavailable(m) => assert_eq!(m, "Ollama timeout after 60s"),
        other => panic!("unexpected {:?}", other),
    }
    match send_failure(Provider::Gemini, true, "ignored") {
        LlmError::ProviderUnavailable(m) => assert_eq!(m, "Gemini timeout after 30s"),
        other => panic!("unexpected {:?}", other),
    }
    match send_failure(Provider::OpenAI, false, "connection refused") {
        LlmError::ProviderUnavailable(m) => assert_eq!(m, "OpenAI error: connection refused"),
        other => panic!("unexpected {:?}", other),
    }
}

#[test]
fn decode_failures() {
    match decode_failure(Provider::Local, "eof") {
        LlmError::ParseError(m) => assert_eq!(m, "Failed to parse Ollama response: eof"),
        other => panic!("unexpected {:?}", other),
    }
}

#[test]
fn reads_ollama_reply() {
    let data = obj(vec![("response", s("{\"packages\":[]}"))]);
    assert_eq!(read_reply(Provider::Local, &data).unwrap(), "{\"packages\":[]}");
    match read_reply(Provider::Local, &obj(vec![("response", JsonValue::Number("1".to_string()))])) {
        Err(LlmError::ParseError(m)) => assert_eq!(m, "Missing 'response' field in Ollama output"),
        other => panic!("unexpected {:?}", other),
    }
}

#[test]
fn reads_openai_reply() {
    let data = obj(vec![(
        "choices",
        JsonValue::Array(vec![obj(vec![("message", obj(vec![("content", s("answer"))]))])]),
    )]);
    assert_eq!(read_reply(Provider::OpenAI, &data).unwrap(), "answer");
    match read_reply(Provider::OpenAI, &obj(vec![("choices", JsonValue::Array(vec![]))])) {
        Err(LlmError::ParseError(m)) => assert_eq!(m, "Missing content in OpenAI response"),
        other => panic!("unexpected {:?}", other),
    }
}

#[test]
fn reads_gemini_reply() {
    let data = obj(vec![(
        "candidates",
        JsonValue::Array(vec![obj(vec![(
            "content",
            obj(vec![("parts", JsonValue::Array(vec![obj(vec![("text", s("g"))])]))]),
        )])]),
    )]);
    assert_eq!(read_reply(Provider::Gemini, &data).unwrap(), "g");
    match read_reply(Provider::Gemini, &JsonValue::Null) {
        Err(LlmError::ParseError(m)) => assert_eq!(m, "Missing text in Gemini response"),
        other => panic!("unexpected {:?}", other),
    }
}

#[test]
fn error_messages() {
    assert_eq!(LlmError::ConfigError("c".to_string()).message(), "Configuration error: c");
    assert_eq!(LlmError::ProviderUnavailable("p".to_string()).message(), "Provider unavailable: p");
    assert_eq!(LlmError::ParseError("x".to_string()).message(), "Failed to parse LLM response: x");
    assert_eq!(ConfigError::Io("r".to_string()).message(), "I/O error: r");
    assert_eq!(ConfigError::Parse("q".to_string()).message(), "Parse error: q");
}

#[test]
fn settings_errors() {
    match ConfigError::read_failure("/etc/chai/config.json", "not found") {
        ConfigError::Io(m) => assert_eq!(m, "Failed to read /etc/chai/config.json: not found"),
        other => panic!("unexpected {:?}", other),
    }
    match ConfigError::invalid_settings("eof") {
        ConfigError::Parse(m) => assert_eq!(m, "Invalid config JSON: eof"),
        other => panic!("unexpected {:?}", other),
    }
}
