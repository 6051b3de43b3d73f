use chai_core::nix::parser::{default_enabled, parse_llm_output, NixPlan, NixService, ParseError};

fn json_error() -> serde_json::Error {
    serde_json::from_str::<serde_json::Value>("{").unwrap_err()
}

#[test]
fn services_default_to_enabled() {
    assert!(default_enabled());
}

#[test]
fn decoding_failure_is_a_json_error() {
    let r = parse_llm_output(Err(json_error()));
    assert!(matches!(r, Err(ParseError::Json(_))));
}

#[test]
fn empty_plan_is_refused() {
    let r = parse_llm_output(Ok(NixPlan { packages: vec![], services: vec![] }));
    assert!(matches!(r, Err(ParseError::EmptyPlan)));
}

#[test]
fn plan_with_packages_is_kept() {
    let r = parse_llm_output(Ok(NixPlan { packages: vec!["vim".to_string()], services: vec![] })).unwrap();
    assert_eq!(r.packages, vec!["vim".to_string()]);
    assert!(r.services.is_empty());
}

#[test]
fn plan_with_services_only_is_kept() {
    let r = parse_llm_output(Ok(NixPlan {
        packages: vec![],
        services: vec![NixService { name: "docker".to_string(), enabled: false }],
    }))
    .unwrap();
    assert_eq!(r.services.len(), 1);
    assert_eq!(r.services[0].name, "docker");
    assert!(!r.services[0].enabled);
}

#[test]
fn parse_error_messages() {
    assert_eq!(ParseError::EmptyPlan.message(), "LLM returned empty plan: no packages or services");
    let e = json_error();
    let text = e.to_string();
    assert_eq!(ParseError::Json(e).message(), format!("JSON parse error: {}", text));
    let from: ParseError = json_error().into();
    assert!(matches!(from, ParseError::Json(_)));
}
