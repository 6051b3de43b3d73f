use chai_core::json::JsonValue;
use chai_core::llm::client::LlmError;
use chai_core::nix::parser::{NixPlan, NixService};
use chai_core::nix::validator::ValidationError;
use chai_core::rpc::JsonRpcRequest;
use chai_core::server::{
    after_decode, after_generate, after_write, classify_line, error_reply, parse_error_reply, route_request,
    success_reply, LineAction, Pending, Step, GENERATION_NAME,
};

fn s(x: &str) -> JsonValue {
    JsonValue::String(x.to_string())
}

fn num(x: &str) -> JsonValue {
    JsonValue::Number(x.to_string())
}

fn obj(fields: Vec<(&str, JsonValue)>) -> JsonValue {
    JsonValue::Object(fields.into_iter().map(|(k, v)| (k.to_string(), v)).collect())
}

fn error(code: &str, message: &str, id: JsonValue) -> JsonValue {
    obj(vec![
        ("error", obj(vec![("code", num(code)), ("message", s(message))])),
        ("id", id),
        ("jsonrpc", s("2.0")),
    ])
}

fn request(method: &str, prompt: Option<&str>, id: Option<JsonValue>) -> JsonRpcRequest {
    JsonRpcRequest {
        method: method.to_string(),
        params: prompt.map(|p| obj(vec![("prompt", s(p))])),
        id,
    }
}

fn pending(reply: bool) -> Pending {
    Pending { id: num("1"), reply, nix_content: String::new() }
}

fn done(step: Step) -> Option<JsonValue> {
    match step {
        Step::Done(r) => r,
        other => panic!("expected a reply, got {:?}", other),
    }
}

#[test]
fn unknown_method() {
    let r = done(route_request(request("ping", None, Some(num("3"))), true));
    assert_eq!(r, Some(error("-32601", "Method not found", num("3"))));
}

#[test]
fn missing_prompt() {
    let r = done(route_request(request("execute_intent", None, Some(s("a"))), true));
    assert_eq!(r, Some(error("-32602", "Missing 'prompt' parameter", s("a"))));
    let r = done(route_request(request("execute_intent", Some(""), Some(s("a"))), true));
    assert_eq!(r, Some(error("-32602", "Missing 'prompt' parameter", s("a"))));
    let not_a_string = JsonRpcRequest {
        method: "execute_intent".to_string(),
        params: Some(obj(vec![("prompt", num("5"))])),
        id: Some(num("1")),
    };
    let r = done(route_request(not_a_string, true));
    assert_eq!(r, Some(error("-32602", "Missing 'prompt' parameter", num("1"))));
}

#[test]
fn missing_prompt_wins_over_missing_client() {
    let r = done(route_request(request("execute_intent", None, Some(num("1"))), false));
    assert_eq!(r, Some(error("-32602", "Missing 'prompt' parameter", num("1"))));
}

#[test]
fn client_not_available() {
    let r = done(route_request(request("execute_intent", Some("vim"), Some(num("2"))), false));
    assert_eq!(r, Some(error("-32000", "LLM client not available", num("2"))));
}

#[test]
fn notification_gets_no_reply() {
    assert_eq!(done(route_request(request("ping", None, None), true)), None);
    assert_eq!(done(route_request(request("execute_intent", None, None), true)), None);
}

#[test]
fn valid_request_asks_the_model() {
    match route_request(request("execute_intent", Some("install vim"), Some(num("9"))), true) {
        Step::Generate(p, prompt) => {
            assert_eq!(prompt, "install vim");
            assert_eq!(p.id, num("9"));
            assert!(p.reply);
        }
        other => panic!("unexpected {:?}", other),
    }
    match route_request(request("execute_intent", Some("x"), None), true) {
        Step::Generate(p, _) => {
            assert_eq!(p.id, JsonValue::Null);
            assert!(!p.reply);
        }
        other => panic!("unexpected {:?}", other),
    }
}

#[test]
fn model_failure_is_reported() {
    let r = done(after_generate(pending(true), Err(LlmError::ProviderUnavailable("down".to_string()))));
    assert_eq!(r, Some(error("-32000", "LLM error: Provider unavailable: down", num("1"))));
    assert_eq!(done(after_generate(pending(false), Err(LlmError::ParseError("x".to_string())))), None);
}

#[test]
fn model_answer_is_decoded_next() {
    match after_generate(pending(true), Ok("{}".to_string())) {
        Step::DecodePlan(p, text) => {
            assert_eq!(text, "{}");
            assert_eq!(p.id, num("1"));
        }
        other => panic!("unexpected {:?}", other),
    }
}

#[test]
fn empty_plan_is_reported() {
    let r = done(after_decode(pending(true), Ok(NixPlan { packages: vec![], services: vec![] })));
    assert_eq!(
        r,
        Some(error(
            "-32000",
            "Failed to parse LLM output: LLM returned empty plan: no packages or services",
            num("1")
        ))
    );
}

#[test]
fn undecodable_answer_is_reported() {
    let e = serde_json::from_str::<serde_json::Value>("not json").unwrap_err();
    let text = e.to_string();
    let r = done(after_decode(pending(true), Err(e)));
    let expected = format!("Failed to parse LLM output: JSON parse error: {}", text);
    assert_eq!(r, Some(error("-32000", &expected, num("1"))));
}

#[test]
fn usable_plan_is_rendered_for_writing() {
    let plan = NixPlan {
        packages: vec!["vim".to_string()],
        services: vec![NixService { name: "ssh".to_string(), enabled: true }],
    };
    match after_decode(pending(true), Ok(plan)) {
        Step::WriteModule(p) => {
            assert_eq!(
                p.nix_content,
                "{ config, pkgs, ... }: {\n  environment.systemPackages = with pkgs; [ vim ];\n  services.openssh.enable = true;\n}\n"
            );
            assert!(p.reply);
        }
        other => panic!("unexpected {:?}", other),
    }
    assert_eq!(GENERATION_NAME, "chai-generation");
}

#[test]
fn written_module_is_reported() {
    let p = Pending { id: s("abc"), reply: true, nix_content: "{ }".to_string() };
    let r = done(after_write(p, Ok("/tmp/chai-generation/x.nix".to_string())));
    let expected = obj(vec![
        ("id", s("abc")),
        ("jsonrpc", s("2.0")),
        (
            "result",
            obj(vec![
                ("content", s("{ }")),
                ("nix_file", s("/tmp/chai-generation/x.nix")),
                ("status", s("success")),
            ]),
        ),
    ]);
    assert_eq!(r, Some(expected));
    assert_eq!(
        success_reply("/f".to_string(), "c".to_string(), num("1")),
        obj(vec![
            ("id", num("1")),
            ("jsonrpc", s("2.0")),
            ("result", obj(vec![("content", s("c")), ("nix_file", s("/f")), ("status", s("success"))])),
        ])
    );
}

#[test]
fn rejected_module_is_reported() {
    let r = done(after_write(pending(true), Err(ValidationError::NixParse("bad".to_string()))));
    assert_eq!(r, Some(error("-32000", "Nix generation error: Nix parse error: bad", num("1"))));
    let r = done(after_write(pending(true), Err(ValidationError::NixNotFound)));
    assert_eq!(r, Some(error("-32000", "Nix generation error: nix-instantiate binary not found", num("1"))));
    assert_eq!(done(after_write(pending(false), Err(ValidationError::NixNotFound))), None);
}

#[test]
fn parse_error_echoes_id() {
    assert_eq!(
        parse_error_reply(Some(obj(vec![("id", num("4")), ("method", num("1"))]))),
        error("-32700", "Parse error", num("4"))
    );
    assert_eq!(parse_error_reply(Some(obj(vec![("method", s("x"))]))), error("-32700", "Parse error", JsonValue::Null));
    assert_eq!(parse_error_reply(Some(JsonValue::Array(vec![]))), error("-32700", "Parse error", JsonValue::Null));
    assert_eq!(parse_error_reply(None), error("-32700", "Parse error", JsonValue::Null));
    assert_eq!(error_reply("-1", "m".to_string(), JsonValue::Null), error("-1", "m", JsonValue::Null));
}

#[test]
fn lines_are_classified() {
    assert_eq!(classify_line(0, ""), LineAction::Stop);
    assert_eq!(classify_line(3, "  \n"), LineAction::Skip);
    assert_eq!(classify_line(2, "\u{3000}\n"), LineAction::Skip);
    assert_eq!(classify_line(8, " {\"a\":1}\r\n"), LineAction::Handle("{\"a\":1}".to_string()));
    assert_eq!(classify_line(5, "a b\t\n"), LineAction::Handle("a b".to_string()));
}
