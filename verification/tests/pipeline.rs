//! The build pipeline: driver invocations, the effective feature set, the
//! image-assembly state machine, and command routing.

use rocket::app::{App, Command, Dispatch};
use rocket::errors::{AsmStep, BuildFailure, ConfigError, Error, Stage};
use rocket::payload::{credential_plan, CredentialPlan, FetchPlan, Payload};
use rocket::pipeline::{driver_result, BuildAction, BuildState, FsOutcome, StepOutcome, ToolOutcome};

fn manifest() -> &'static str {
    "[package]\nname = \"payload_demo\"\n"
}

fn payload(tokens: &[&str]) -> Payload {
    let options: Vec<String> = tokens.iter().map(|t| (*t).to_owned()).collect();
    Payload::new(options, manifest()).unwrap()
}

fn expect_tool(action: Option<BuildAction>) -> rocket::payload::ToolInvocation {
    match action {
        Some(BuildAction::RunTool(inv)) => inv,
        other => panic!("expected a tool invocation, got {:?}", other),
    }
}

#[test]
fn clean_invocation_argument_list() {
    let p = payload(&["--target=x86_64"]);
    let inv = p.clean();
    assert_eq!(inv.program, "xargo");
    assert_eq!(
        inv.args,
        vec![
            "clean".to_owned(),
            "--verbose".to_owned(),
            "--target".to_owned(),
            "x86_64".to_owned(),
            "--features".to_owned(),
            "".to_owned(),
        ]
    );
}

#[test]
fn doc_and_run_share_the_argument_shape() {
    let p = payload(&["--target=x86_64"]);
    assert_eq!(p.doc().args[0], "doc");
    assert_eq!(p.run().args[0], "run");
    assert_eq!(p.doc().args[1..], p.run().args[1..]);
}

#[test]
fn canonical_target_string_reaches_the_driver() {
    let p = payload(&["--target=targets/foo.json"]);
    let inv = p.doc();
    assert_eq!(inv.args[2], "--target");
    assert_eq!(inv.args[3], "targets/foo");
}

#[test]
fn grub_loader_adds_the_multiboot_marker_to_the_features_argument() {
    let p = payload(&["--target=x86_64", "--loader=grub"]);
    let inv = p.invocation("build");
    assert_eq!(inv.args[4], "--features");
    assert_eq!(inv.args[5], "_multiboot");
}

#[test]
fn marker_appears_once_per_invocation_and_never_accumulates() {
    let p = payload(&["--target=x86_64", "--loader=grub"]);
    let first = p.rendered_features();
    let second = p.rendered_features();
    assert_eq!(first, vec!["_multiboot".to_owned()]);
    assert_eq!(first, second);
    assert_eq!(first.iter().filter(|f| f.as_str() == "_multiboot").count(), 1);
    let one = p.invocation("build");
    let two = p.invocation("build");
    assert_eq!(one, two);
    assert_eq!(two.args[5], "_multiboot");
    assert!(p.features.is_empty());
}

#[test]
fn no_loader_means_no_marker() {
    let p = payload(&["--target=x86_64"]);
    assert_eq!(p.rendered_features(), Vec::<String>::new());
}

#[test]
fn artefact_path_follows_the_convention() {
    let p = payload(&["--target=x86_64"]);
    assert_eq!(p.build_type(), "debug");
    assert_eq!(p.artefact_path(), "./target/x86_64/debug/payload_demo");
    let q = payload(&["--target=targets/foo.json"]);
    assert_eq!(q.artefact_path(), "./target/targets/foo/debug/payload_demo");
}

#[test]
fn successful_build_with_grub_walks_assembly_in_order() {
    let p = payload(&["--target=x86_64", "--loader=grub"]);
    let st = p.build();
    assert_eq!(st, BuildState::Compiling);
    let inv = expect_tool(p.pending_action(&st));
    assert_eq!(inv.program, "xargo");
    assert_eq!(inv.args[0], "build");

    let st = p.advance(&st, StepOutcome::Tool(ToolOutcome::Exited(0)));
    assert_eq!(st, BuildState::Assembling(AsmStep::RemoveStale));
    match p.pending_action(&st) {
        Some(BuildAction::RemoveDir(d)) => assert_eq!(d, "./multiboot_image"),
        other => panic!("expected the stale-directory removal, got {:?}", other),
    }

    // A failed removal is tolerated: assembly moves on either way.
    let tolerated = p.advance(&st, StepOutcome::Fs(FsOutcome::Failed));
    let st = p.advance(&st, StepOutcome::Fs(FsOutcome::Succeeded));
    assert_eq!(tolerated, st);
    assert_eq!(st, BuildState::Assembling(AsmStep::CreateDirs));
    match p.pending_action(&st) {
        Some(BuildAction::CreateDir(d)) => assert_eq!(d, "./multiboot_image/boot/grub"),
        other => panic!("expected the directory creation, got {:?}", other),
    }

    let st = p.advance(&st, StepOutcome::Fs(FsOutcome::Succeeded));
    assert_eq!(st, BuildState::Assembling(AsmStep::WriteBootConfig));
    match p.pending_action(&st) {
        Some(BuildAction::WriteFile { path, contents }) => {
            assert_eq!(path, "./multiboot_image/boot/grub/grub.cfg");
            assert_eq!(
                contents,
                "set timeout=3\nset default=0\nmenuentry payload_demo {\n\tmultiboot /boot.bin\n\tboot\n}"
            );
        },
        other => panic!("expected the boot-configuration authoring, got {:?}", other),
    }

    let st = p.advance(&st, StepOutcome::Fs(FsOutcome::Succeeded));
    assert_eq!(st, BuildState::Assembling(AsmStep::CopyArtifact));
    match p.pending_action(&st) {
        Some(BuildAction::CopyFile { from, to }) => {
            assert_eq!(from, "./target/x86_64/debug/payload_demo");
            assert_eq!(to, "./multiboot_image/boot.bin");
        },
        other => panic!("expected the artifact copy, got {:?}", other),
    }

    let st = p.advance(&st, StepOutcome::Fs(FsOutcome::Succeeded));
    assert_eq!(st, BuildState::Assembling(AsmStep::MakeIso));
    let iso = expect_tool(p.pending_action(&st));
    assert_eq!(iso.program, "grub-mkrescue");
    assert_eq!(
        iso.args,
        vec!["./multiboot_image".to_owned(), "-o".to_owned(), "payload_demo.iso".to_owned()]
    );

    let st = p.advance(&st, StepOutcome::Tool(ToolOutcome::Exited(0)));
    assert_eq!(st, BuildState::Done);
    assert!(p.pending_action(&st).is_none());
}

#[test]
fn failed_artifact_copy_never_reaches_the_iso_tool() {
    let p = payload(&["--target=x86_64", "--loader=grub"]);
    let st = BuildState::Assembling(AsmStep::CopyArtifact);
    let st = p.advance(&st, StepOutcome::Fs(FsOutcome::Failed));
    assert_eq!(st, BuildState::Failed(BuildFailure::Fs(AsmStep::CopyArtifact)));
    assert!(p.pending_action(&st).is_none());
}

#[test]
fn fatal_directory_creation_failure() {
    let p = payload(&["--target=x86_64", "--loader=grub"]);
    let st = p.advance(
        &BuildState::Assembling(AsmStep::CreateDirs),
        StepOutcome::Fs(FsOutcome::Failed),
    );
    assert_eq!(st, BuildState::Failed(BuildFailure::Fs(AsmStep::CreateDirs)));
}

#[test]
fn compile_failure_carries_the_exit_code_and_stops_assembly() {
    let p = payload(&["--target=x86_64", "--loader=grub"]);
    let st = p.advance(&p.build(), StepOutcome::Tool(ToolOutcome::Exited(3)));
    assert_eq!(st, BuildState::Failed(BuildFailure::Exit(Stage::Compile, 3)));
    assert!(p.pending_action(&st).is_none());
}

#[test]
fn spawn_failure_is_fatal_at_both_stages() {
    let p = payload(&["--target=x86_64", "--loader=grub"]);
    let compile = p.advance(&p.build(), StepOutcome::Tool(ToolOutcome::SpawnFailed));
    assert_eq!(compile, BuildState::Failed(BuildFailure::Spawn(Stage::Compile)));
    let iso = p.advance(
        &BuildState::Assembling(AsmStep::MakeIso),
        StepOutcome::Tool(ToolOutcome::SpawnFailed),
    );
    assert_eq!(iso, BuildState::Failed(BuildFailure::Spawn(Stage::Assemble)));
}

#[test]
fn iso_exit_code_is_carried_at_the_assemble_stage() {
    let p = payload(&["--target=x86_64", "--loader=grub"]);
    let st = p.advance(
        &BuildState::Assembling(AsmStep::MakeIso),
        StepOutcome::Tool(ToolOutcome::Exited(9)),
    );
    assert_eq!(st, BuildState::Failed(BuildFailure::Exit(Stage::Assemble, 9)));
}

#[test]
fn build_without_loader_ends_at_the_compile() {
    let p = payload(&["--target=x86_64"]);
    let st = p.advance(&p.build(), StepOutcome::Tool(ToolOutcome::Exited(0)));
    assert_eq!(st, BuildState::Done);
    assert!(p.pending_action(&st).is_none());
}

#[test]
fn driver_result_checks_the_exit() {
    assert_eq!(driver_result(ToolOutcome::Exited(0)), Ok(()));
    assert_eq!(
        driver_result(ToolOutcome::Exited(5)),
        Err(Error::Build(BuildFailure::Exit(Stage::Compile, 5)))
    );
    assert_eq!(
        driver_result(ToolOutcome::Interrupted),
        Err(Error::Build(BuildFailure::Interrupted(Stage::Compile)))
    );
    assert_eq!(
        driver_result(ToolOutcome::SpawnFailed),
        Err(Error::Build(BuildFailure::Spawn(Stage::Compile)))
    );
}

#[test]
fn dispatch_routes_each_command() {
    let app = App::new(
        vec!["-cbdr".to_owned(), "--target=x86_64".to_owned()],
        manifest(),
    )
    .unwrap();
    match app.dispatch(0).unwrap() {
        Dispatch::RunDriver { invocation, check } => {
            assert_eq!(invocation.args[0], "clean");
            assert!(!check);
        },
        other => panic!("cleaning must run the driver, got {:?}", other),
    }
    assert_eq!(app.dispatch(1).unwrap(), Dispatch::StartBuild);
    match app.dispatch(2).unwrap() {
        Dispatch::RunDriver { invocation, check } => {
            assert_eq!(invocation.args[0], "doc");
            assert!(check);
        },
        other => panic!("documenting must run the driver, got {:?}", other),
    }
    match app.dispatch(3).unwrap() {
        Dispatch::RunDriver { invocation, check } => {
            assert_eq!(invocation.args[0], "run");
            assert!(check);
        },
        other => panic!("running must run the driver, got {:?}", other),
    }
}

#[test]
fn pull_has_no_defined_action() {
    let app = App::new(vec!["-p".to_owned(), "--target=x86_64".to_owned()], manifest()).unwrap();
    assert_eq!(app.dispatch(0).unwrap_err(), Error::Unsupported(Command::Pull));
}

#[test]
fn fetch_without_source_is_a_config_error() {
    let app = App::new(vec!["-f".to_owned(), "--target=x86_64".to_owned()], manifest()).unwrap();
    assert_eq!(app.dispatch(0).unwrap_err(), Error::Config(ConfigError::NoSource));
}

#[test]
fn fetch_of_a_local_source_hands_the_path_back() {
    let p = payload(&["--target=x86_64", "--source=payloads/demo"]);
    assert_eq!(p.fetch().unwrap(), FetchPlan::UseLocal("payloads/demo".to_owned()));
}

#[test]
fn fetch_of_a_repository_clones_into_the_payload_path() {
    let p = payload(&["--target=x86_64", "--source=git@host:repo.git"]);
    assert_eq!(
        p.fetch().unwrap(),
        FetchPlan::CloneRepo {
            url: "git@host:repo.git".to_owned(),
            dest: "./target/x86_64/debug/payload_demo".to_owned(),
        }
    );
}

#[test]
fn credential_plans() {
    assert_eq!(credential_plan(true, true), Some(CredentialPlan { prompt_username: false }));
    assert_eq!(credential_plan(false, true), Some(CredentialPlan { prompt_username: true }));
    assert_eq!(credential_plan(false, false), None);
    assert_eq!(credential_plan(true, false), None);
}
