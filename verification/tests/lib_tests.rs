use std::borrow::Cow;
use vrc_keyboard::commands::{GlobalCommand, DEFAULT_CONTAINER_RUNTIME};
use vrc_keyboard::{available_locales_wrapped, select_locale, DEFAULT_LOCALE};

#[test]
fn shipped_locales() {
    assert_eq!(available_locales_wrapped(), &["en-US"][..]);
    assert_eq!(DEFAULT_LOCALE, "en-US");
}

#[test]
fn system_locale_is_used_when_available() {
    let available = ["en-US", "ja-JP"];
    assert_eq!(select_locale(Some("ja-JP".to_string()), &available), "ja-JP");
    assert_eq!(select_locale(Some("en-US".to_string()), &available), "en-US");
}

#[test]
fn unknown_or_missing_locale_falls_back() {
    let available = ["en-US", "ja-JP"];
    assert_eq!(select_locale(Some("fr-FR".to_string()), &available), "en-US");
    assert_eq!(select_locale(Some("ja".to_string()), &available), "en-US");
    assert_eq!(select_locale(None, &available), "en-US");
    assert_eq!(select_locale(Some("ja-JP".to_string()), &[]), "en-US");
}

#[test]
fn command_from_identifier_is_lower_case() {
    let cargo = GlobalCommand::from_identifier("CARGO");
    assert_eq!(cargo.name(), "cargo");
    assert!(cargo.args.is_none());
    let (program, args) = cargo.invocation();
    assert_eq!(program, "cargo");
    assert!(args.is_empty());
}

#[test]
fn command_new_keeps_name() {
    let c = GlobalCommand::new(Cow::from("podman"));
    assert_eq!(c.name(), "podman");
    assert!(c.args.is_none());
}

#[test]
fn command_invocation_with_arguments() {
    let mut c = GlobalCommand::new(Cow::from("cargo"));
    c.set_args(Some(vec![Cow::from("build"), Cow::Owned("--release".to_string())]));
    let copy = c.clone();
    let (program, args) = copy.invocation();
    assert_eq!(program, "cargo");
    assert_eq!(args, vec!["build", "--release"]);
}

#[test]
fn container_runtime_default_and_configured() {
    assert_eq!(GlobalCommand::container_runtime(None).name(), DEFAULT_CONTAINER_RUNTIME);
    assert_eq!(GlobalCommand::container_runtime(None).name(), "docker");
    assert_eq!(GlobalCommand::container_runtime(Some("podman".to_string())).name(), "podman");
}

#[test]
fn container_runtime_is_lower_case() {
    assert_eq!(GlobalCommand::container_runtime(Some("Podman".to_string())).name(), "podman");
    assert_eq!(GlobalCommand::container_runtime(Some("NERDCTL".to_string())).name(), "nerdctl");
}

#[test]
fn arguments_can_be_taken_away() {
    let mut c = GlobalCommand::new(Cow::from("cargo"));
    c.set_args(Some(vec![Cow::from("test")]));
    c.set_args(None);
    assert!(c.args.is_none());
    assert!(c.invocation().1.is_empty());
    assert_eq!(c.name(), "cargo");
}
