use chai_core::nix::validator::{check_outcome, generation_file_name, ValidationError};

#[test]
fn file_name_carries_name_and_time() {
    assert_eq!(generation_file_name("chai-generation", 1700000000), "chai-generation-1700000000.nix");
    assert_eq!(generation_file_name("x", 0), "x-0.nix");
    assert_eq!(generation_file_name("m", 9), "m-9.nix");
    assert_eq!(generation_file_name("big", u64::MAX), "big-18446744073709551615.nix");
    assert_eq!(generation_file_name("n", 10), "n-10.nix");
}

#[test]
fn successful_check_keeps_path() {
    let r = check_outcome("/tmp/a.nix".to_string(), Some((true, "ignored".to_string())));
    assert_eq!(r.unwrap(), "/tmp/a.nix");
}

#[test]
fn failed_check_reports_stderr() {
    let r = check_outcome("/tmp/a.nix".to_string(), Some((false, "syntax error".to_string())));
    match r {
        Err(ValidationError::NixParse(s)) => assert_eq!(s, "syntax error"),
        other => panic!("unexpected {:?}", other),
    }
}

#[test]
fn missing_checker_is_reported() {
    let r = check_outcome("/tmp/a.nix".to_string(), None);
    assert!(matches!(r, Err(ValidationError::NixNotFound)));
}

#[test]
fn validation_messages() {
    assert_eq!(ValidationError::NixNotFound.message(), "nix-instantiate binary not found");
    assert_eq!(ValidationError::NixParse("bad".to_string()).message(), "Nix parse error: bad");
    let io = std::io::Error::new(std::io::ErrorKind::Other, "disk full");
    assert_eq!(ValidationError::Io(io).message(), "I/O error: disk full");
    let from: ValidationError = std::io::Error::new(std::io::ErrorKind::Other, "x").into();
    assert!(matches!(from, ValidationError::Io(_)));
}

#[test]
fn different_seconds_give_different_files() {
    assert_ne!(generation_file_name("x", 1), generation_file_name("x", 10));
    assert_ne!(generation_file_name("x", 12), generation_file_name("x", 21));
    assert_eq!(generation_file_name("x", 5), generation_file_name("x", 5));
}
