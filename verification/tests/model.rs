//! The leaf model types: source and target classification, target
//! rendering, feature rendering, loader and runner parsing.

use rocket::errors::{Error, ParseError};
use rocket::payload::{Feature, Loader, Runner, Source, Target};

#[test]
fn builtin_target_canonical_and_stem() {
    let t = Target::from_str("x86_64");
    assert!(matches!(t, Target::BuiltIn(_)));
    assert_eq!(t.as_string(), "x86_64");
    assert_eq!(t.as_stem(), "x86_64");
}

#[test]
fn json_target_canonical_strips_extension_keeps_directory() {
    let t = Target::from_str("targets/foo.json");
    assert!(matches!(t, Target::Json(_)));
    assert_eq!(t.as_string(), "targets/foo");
}

#[test]
fn json_target_stem_is_bare_filename() {
    let t = Target::from_str("targets/foo.json");
    let stem = t.as_stem();
    assert_eq!(stem, "foo");
    assert!(!stem.contains('/'));
}

#[test]
fn json_target_without_directory() {
    let t = Target::from_str("bare.json");
    assert_eq!(t.as_string(), "bare");
    assert_eq!(t.as_stem(), "bare");
}

#[test]
fn hidden_file_named_like_the_extension_keeps_its_name() {
    let t = Target::from_str("targets/.json");
    assert!(matches!(t, Target::Json(_)));
    assert_eq!(t.as_string(), "targets/.json");
    assert_eq!(t.as_stem(), ".json");
}

#[test]
fn common_feature_renders_verbatim_for_any_target() {
    let f = Feature::Common("smp".to_owned());
    let t1 = Target::from_str("x86_64");
    let t2 = Target::from_str("targets/foo.json");
    assert_eq!(f.canonicalize(&t1), "smp");
    assert_eq!(f.canonicalize(&t2), "smp");
}

#[test]
fn arch_specific_feature_carries_target_stem() {
    let f = Feature::ArchSpecific("x".to_owned());
    let t = Target::from_str("x86_64");
    assert_eq!(f.canonicalize(&t), "_x86_64-x");
}

#[test]
fn arch_specific_feature_uses_stem_of_json_target() {
    let f = Feature::ArchSpecific("rt".to_owned());
    let t = Target::from_str("targets/foo.json");
    assert_eq!(f.canonicalize(&t), "_foo-rt");
}

#[test]
fn repository_shaped_source_is_git() {
    let s = Source::from_str("git@github.com:user/repo.git");
    match s {
        Source::Git(v) => assert_eq!(v, "git@github.com:user/repo.git"),
        Source::Local(_) => panic!("a host:path value after an @ must be a repository"),
    }
}

#[test]
fn plain_path_source_is_local() {
    let s = Source::from_str("payloads/demo");
    match s {
        Source::Local(v) => assert_eq!(v, "payloads/demo"),
        Source::Git(_) => panic!("a value with no @ must be a local path"),
    }
}

#[test]
fn at_sign_without_colon_is_local() {
    assert!(matches!(Source::from_str("foo@github.com/bar.git"), Source::Local(_)));
}

#[test]
fn colon_needs_text_on_both_sides() {
    assert!(matches!(Source::from_str("user@:path"), Source::Local(_)));
    assert!(matches!(Source::from_str("user@host:"), Source::Local(_)));
    assert!(matches!(Source::from_str("user@h:p"), Source::Git(_)));
}

#[test]
fn loader_parses_grub_only() {
    assert_eq!(Loader::from_str("grub"), Ok(Loader::GRUB));
    match Loader::from_str("uboot") {
        Err(Error::Parse(ParseError::UnknownLoader(v))) => assert_eq!(v, "uboot"),
        other => panic!("expected an unknown-loader error, got {:?}", other),
    }
}

#[test]
fn runner_parses_qemu_only() {
    assert_eq!(Runner::from_str("qemu"), Ok(Runner::Qemu));
    match Runner::from_str("bochs") {
        Err(Error::Parse(ParseError::UnknownRunner(v))) => assert_eq!(v, "bochs"),
        other => panic!("expected an unknown-runner error, got {:?}", other),
    }
}
