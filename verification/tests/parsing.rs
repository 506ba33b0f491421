//! Assembling an application and a payload configuration from raw
//! command-line tokens and manifest text.

use rocket::app::{App, Command};
use rocket::errors::{ConfigError, Error, ParseError};
use rocket::manifest::manifest_project_name;
use rocket::payload::{Loader, Payload, Runner, Source};

fn manifest() -> &'static str {
    "[package]\nname = \"payload_demo\"\nversion = \"0.1.0\"\n"
}

fn strings(tokens: &[&str]) -> Vec<String> {
    tokens.iter().map(|t| (*t).to_owned()).collect()
}

#[test]
fn composite_command_token_expands_in_order() {
    let app = App::new(strings(&["-br", "--target=x86_64"]), manifest()).unwrap();
    assert_eq!(app.commands, vec![Command::Build, Command::Run]);
    assert_eq!(app.payload.target.as_string(), "x86_64");
}

#[test]
fn separate_command_tokens_keep_their_order() {
    let app = App::new(strings(&["-c", "--target=x86_64", "-bd"]), manifest()).unwrap();
    assert_eq!(app.commands, vec![Command::Clean, Command::Build, Command::Doc]);
}

#[test]
fn every_letter_of_the_mapping_expands() {
    let app = App::new(strings(&["-cfpbdr", "--target=x86_64"]), manifest()).unwrap();
    assert_eq!(
        app.commands,
        vec![
            Command::Clean,
            Command::Fetch,
            Command::Pull,
            Command::Build,
            Command::Doc,
            Command::Run,
        ]
    );
}

#[test]
fn unknown_command_letter_is_named() {
    match App::new(strings(&["-bz", "--target=x86_64"]), manifest()) {
        Err(Error::Parse(ParseError::UnknownCommand(c))) => assert_eq!(c, 'z'),
        other => panic!("expected an unknown-command error, got {:?}", other),
    }
}

#[test]
fn unknown_option_key_is_named() {
    match Payload::new(strings(&["--bogus=1", "--target=x86_64"]), manifest()) {
        Err(Error::Parse(ParseError::UnknownOption(k))) => assert_eq!(k, "bogus"),
        other => panic!("expected an unknown-option error, got {:?}", other),
    }
}

#[test]
fn malformed_option_token_is_named() {
    match Payload::new(strings(&["notanoption"]), manifest()) {
        Err(Error::Parse(ParseError::MalformedOption(t))) => assert_eq!(t, "notanoption"),
        other => panic!("expected a malformed-option error, got {:?}", other),
    }
}

#[test]
fn empty_key_or_value_is_malformed() {
    assert!(matches!(
        Payload::new(strings(&["--=x"]), manifest()),
        Err(Error::Parse(ParseError::MalformedOption(_)))
    ));
    assert!(matches!(
        Payload::new(strings(&["--target="]), manifest()),
        Err(Error::Parse(ParseError::MalformedOption(_)))
    ));
}

#[test]
fn missing_target_is_a_config_error() {
    assert_eq!(
        Payload::new(strings(&[]), manifest()).unwrap_err(),
        Error::Config(ConfigError::NoTarget)
    );
    assert_eq!(
        Payload::new(strings(&["--loader=grub"]), manifest()).unwrap_err(),
        Error::Config(ConfigError::NoTarget)
    );
}

#[test]
fn later_occurrence_of_a_key_wins() {
    let p = Payload::new(strings(&["--target=aarch64", "--target=x86_64"]), manifest()).unwrap();
    assert_eq!(p.target.as_string(), "x86_64");
}

#[test]
fn unknown_loader_value_is_named() {
    match Payload::new(strings(&["--target=x86_64", "--loader=uboot"]), manifest()) {
        Err(Error::Parse(ParseError::UnknownLoader(v))) => assert_eq!(v, "uboot"),
        other => panic!("expected an unknown-loader error, got {:?}", other),
    }
}

#[test]
fn unknown_runner_value_is_named() {
    match Payload::new(strings(&["--target=x86_64", "--runner=bochs"]), manifest()) {
        Err(Error::Parse(ParseError::UnknownRunner(v))) => assert_eq!(v, "bochs"),
        other => panic!("expected an unknown-runner error, got {:?}", other),
    }
}

#[test]
fn all_options_land_in_the_configuration() {
    let p = Payload::new(
        strings(&[
            "--source=git@host:repo.git",
            "--target=targets/foo.json",
            "--loader=grub",
            "--runner=qemu",
        ]),
        manifest(),
    )
    .unwrap();
    assert!(matches!(p.source, Some(Source::Git(_))));
    assert_eq!(p.target.as_string(), "targets/foo");
    assert_eq!(p.loader, Some(Loader::GRUB));
    assert_eq!(p.runner, Some(Runner::Qemu));
    assert!(p.features.is_empty());
    assert_eq!(p.project_name, "payload_demo");
}

#[test]
fn manifest_name_is_extracted() {
    assert_eq!(manifest_project_name(manifest()).unwrap(), "payload_demo");
}

#[test]
fn manifest_without_package_name_is_fatal() {
    assert_eq!(
        manifest_project_name("[package]\nversion = \"0.1.0\"\n").unwrap_err(),
        Error::Config(ConfigError::NoProjectName)
    );
    assert_eq!(
        manifest_project_name("[dependencies]\n").unwrap_err(),
        Error::Config(ConfigError::NoProjectName)
    );
}

#[test]
fn manifest_with_non_string_name_is_fatal() {
    assert_eq!(
        manifest_project_name("[package]\nname = 5\n").unwrap_err(),
        Error::Config(ConfigError::NoProjectName)
    );
}

#[test]
fn unparsable_manifest_is_fatal() {
    assert_eq!(
        Payload::new(strings(&["--target=x86_64"]), "name = [unclosed").unwrap_err(),
        Error::Config(ConfigError::NoProjectName)
    );
}

#[test]
fn usage_names_every_command_and_option() {
    let usage = App::usage();
    assert!(usage.starts_with("Usage: rocket"));
    assert!(usage.contains("(b)uild"));
    assert!(usage.contains("(c)lean"));
    assert!(usage.contains("(r)un"));
    assert!(usage.contains("(f)etch"));
    assert!(usage.contains("(p)ull"));
    assert!(usage.contains("--source="));
    assert!(usage.contains("--target="));
    assert!(usage.contains("--loader=( grub )"));
    assert!(usage.contains("--runner=( qemu )"));
}
