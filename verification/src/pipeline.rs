//! The build pipeline: one compiler-driver invocation, followed — when a
//! GRUB loader is configured — by the assembly of a bootable image from
//! the produced artifact.
//!
//! The pipeline is a state machine. Each active state has exactly one
//! pending action, an external effect the caller performs (spawning a
//! tool, a filesystem step); the caller reports the outcome and the
//! machine decides the next state. `Done` and `Failed` are terminal and
//! have no pending action.

use vstd::prelude::*;
use vstd::string::*;

use crate::errors::{AsmStep, BuildFailure, Error, SpecError, Stage};
use crate::payload::{
    spec_artefact_path, spec_invocation, Loader, Payload, SpecInvocation, SpecPayload,
    ToolInvocation,
};

verus! {

/// How a spawned external tool ended.
#[derive(Clone, Copy, Debug, PartialEq, Eq, Structural)]
pub enum ToolOutcome {
    /// The tool exited with this code; zero is success.
    Exited(i32),
    /// The tool was terminated without reporting an exit code.
    Interrupted,
    /// The tool could not be spawned at all.
    SpawnFailed,
}

/// How a filesystem step ended.
#[derive(Clone, Copy, Debug, PartialEq, Eq, Structural)]
pub enum FsOutcome {
    Succeeded,
    Failed,
}

/// The outcome of performing one pending action.
#[derive(Clone, Copy, Debug, PartialEq, Eq, Structural)]
pub enum StepOutcome {
    Tool(ToolOutcome),
    Fs(FsOutcome),
}

/// Where one build stands.
#[derive(Clone, Copy, Debug, PartialEq, Eq, Structural)]
pub enum BuildState {
    /// The compiler driver is to run, or is running.
    Compiling,
    /// Image assembly is at the given step.
    Assembling(AsmStep),
    /// The build, and any image assembly it called for, succeeded.
    Done,
    /// The build failed; terminal.
    Failed(BuildFailure),
}

/// One external effect the caller performs for the machine.
#[derive(Clone, Debug, PartialEq, Eq)]
pub enum BuildAction {
    /// Spawn the program with the arguments and wait for it.
    RunTool(ToolInvocation),
    /// Remove the directory tree; failure is tolerated.
    RemoveDir(String),
    /// Create the directory and its parents.
    CreateDir(String),
    /// Author the file with exactly these contents.
    WriteFile { path: String, contents: String },
    /// Copy the first file to the second.
    CopyFile { from: String, to: String },
}

/// Mathematical model of a [`BuildAction`].
pub enum SpecBuildAction {
    RunTool(SpecInvocation),
    RemoveDir(Seq<char>),
    CreateDir(Seq<char>),
    WriteFile { path: Seq<char>, contents: Seq<char> },
    CopyFile { from: Seq<char>, to: Seq<char> },
}

impl View for BuildAction {
    type V = SpecBuildAction;

    open spec fn view(&self) -> SpecBuildAction {
        match self {
            BuildAction::RunTool(i) => SpecBuildAction::RunTool(i@),
            BuildAction::RemoveDir(p) => SpecBuildAction::RemoveDir(p@),
            BuildAction::CreateDir(p) => SpecBuildAction::CreateDir(p@),
            BuildAction::WriteFile { path, contents } => SpecBuildAction::WriteFile {
                path: path@,
                contents: contents@,
            },
            BuildAction::CopyFile { from, to } => SpecBuildAction::CopyFile {
                from: from@,
                to: to@,
            },
        }
    }
}

/// The model of an optional pending action.
pub open spec fn opt_action_view(o: Option<BuildAction>) -> Option<SpecBuildAction> {
    match o {
        Some(a) => Some(a@),
        None => None,
    }
}

/// The staging directory of the bootable image.
pub open spec fn spec_image_dir() -> Seq<char> {
    ("./multiboot_image")@
}

/// The boot-configuration directory inside the staging tree.
pub open spec fn spec_grub_dir() -> Seq<char> {
    ("./multiboot_image/boot/grub")@
}

/// Where the boot configuration is authored.
pub open spec fn spec_grub_cfg_path() -> Seq<char> {
    ("./multiboot_image/boot/grub/grub.cfg")@
}

/// Where the artifact is copied: the fixed in-image kernel path.
pub open spec fn spec_kernel_path() -> Seq<char> {
    ("./multiboot_image/boot.bin")@
}

/// The boot configuration: a fixed template with a boot timeout, a
/// default-entry index, and one menu entry named after the project that
/// declares a multiboot kernel and a boot action.
pub open spec fn spec_grub_cfg(name: Seq<char>) -> Seq<char> {
    ("set timeout=3\nset default=0\nmenuentry ")@ + name
        + (" {\n\tmultiboot /boot.bin\n\tboot\n}")@
}

/// The name of the produced image.
pub open spec fn spec_iso_name(name: Seq<char>) -> Seq<char> {
    name + (".iso")@
}

/// The ISO-authoring invocation over the staging directory.
pub open spec fn spec_iso_invocation(name: Seq<char>) -> SpecInvocation {
    SpecInvocation {
        program: ("grub-mkrescue")@,
        args: seq![spec_image_dir(), ("-o")@, spec_iso_name(name)],
    }
}

/// The single pending action of a state: the driver invocation while
/// compiling, the current assembly step while assembling, nothing once the
/// machine is done or failed.
pub open spec fn spec_pending(p: SpecPayload, st: BuildState) -> Option<SpecBuildAction> {
    match st {
        BuildState::Compiling => Some(SpecBuildAction::RunTool(spec_invocation(p, ("build")@))),
        BuildState::Assembling(step) => Some(
            match step {
                AsmStep::RemoveStale => SpecBuildAction::RemoveDir(spec_image_dir()),
                AsmStep::CreateDirs => SpecBuildAction::CreateDir(spec_grub_dir()),
                AsmStep::WriteBootConfig => SpecBuildAction::WriteFile {
                    path: spec_grub_cfg_path(),
                    contents: spec_grub_cfg(p.project_name),
                },
                AsmStep::CopyArtifact => SpecBuildAction::CopyFile {
                    from: spec_artefact_path(p),
                    to: spec_kernel_path(),
                },
                AsmStep::MakeIso => SpecBuildAction::RunTool(
                    spec_iso_invocation(p.project_name),
                ),
            },
        ),
        BuildState::Done => None,
        BuildState::Failed(_) => None,
    }
}

/// The outcomes a state's pending action can produce: tool states report
/// tool outcomes, filesystem steps report filesystem outcomes, terminal
/// states report nothing.
pub open spec fn outcome_fits(st: BuildState, outcome: StepOutcome) -> bool {
    match st {
        BuildState::Compiling => outcome is Tool,
        BuildState::Assembling(step) => match step {
            AsmStep::MakeIso => outcome is Tool,
            _ => outcome is Fs,
        },
        BuildState::Done => false,
        BuildState::Failed(_) => false,
    }
}

/// How a tool outcome resolves at a stage: success on exit code zero,
/// otherwise a failure carrying exactly what happened.
pub open spec fn spec_tool_failure(stage: Stage, t: ToolOutcome) -> Option<BuildFailure> {
    match t {
        ToolOutcome::Exited(c) => if c == 0 {
            None
        } else {
            Some(BuildFailure::Exit(stage, c))
        },
        ToolOutcome::Interrupted => Some(BuildFailure::Interrupted(stage)),
        ToolOutcome::SpawnFailed => Some(BuildFailure::Spawn(stage)),
    }
}

/// The transition relation of one build. A successful compile starts
/// image assembly exactly when a GRUB loader is configured; the removal of
/// a stale staging directory is tolerated either way; every other
/// filesystem failure is fatal at its step; the ISO tool's exit decides
/// the end of assembly.
pub open spec fn spec_advance(p: SpecPayload, st: BuildState, outcome: StepOutcome) -> BuildState {
    match (st, outcome) {
        (BuildState::Compiling, StepOutcome::Tool(t)) => match spec_tool_failure(
            Stage::Compile,
            t,
        ) {
            Some(f) => BuildState::Failed(f),
            None => if p.loader == Some(Loader::GRUB) {
                BuildState::Assembling(AsmStep::RemoveStale)
            } else {
                BuildState::Done
            },
        },
        (BuildState::Assembling(AsmStep::RemoveStale), StepOutcome::Fs(_)) => BuildState::Assembling(
            AsmStep::CreateDirs,
        ),
        (BuildState::Assembling(AsmStep::CreateDirs), StepOutcome::Fs(f)) => match f {
            FsOutcome::Succeeded => BuildState::Assembling(AsmStep::WriteBootConfig),
            FsOutcome::Failed => BuildState::Failed(BuildFailure::Fs(AsmStep::CreateDirs)),
        },
        (BuildState::Assembling(AsmStep::WriteBootConfig), StepOutcome::Fs(f)) => match f {
            FsOutcome::Succeeded => BuildState::Assembling(AsmStep::CopyArtifact),
            FsOutcome::Failed => BuildState::Failed(BuildFailure::Fs(AsmStep::WriteBootConfig)),
        },
        (BuildState::Assembling(AsmStep::CopyArtifact), StepOutcome::Fs(f)) => match f {
            FsOutcome::Succeeded => BuildState::Assembling(AsmStep::MakeIso),
            FsOutcome::Failed => BuildState::Failed(BuildFailure::Fs(AsmStep::CopyArtifact)),
        },
        (BuildState::Assembling(AsmStep::MakeIso), StepOutcome::Tool(t)) => match spec_tool_failure(
            Stage::Assemble,
            t,
        ) {
            Some(f) => BuildState::Failed(f),
            None => BuildState::Done,
        },
        _ => st,
    }
}

impl Payload {
    /// Start one build: the machine enters the compiling state, whose
    /// pending action is the driver invocation for the build subcommand.
    pub fn build(&self) -> (r: BuildState)
        ensures
            r == BuildState::Compiling,
    {
        BuildState::Compiling
    }

    /// The boot configuration authored for this payload.
    fn grub_cfg_contents(&self) -> (r: String)
        ensures
            r@ == spec_grub_cfg(self@.project_name),
    {
        let mut out = String::from_str("set timeout=3\nset default=0\nmenuentry ");
        out.append(self.project_name.as_str());
        out.append(" {\n\tmultiboot /boot.bin\n\tboot\n}");
        out
    }

    /// The ISO-authoring invocation for this payload.
    fn iso_invocation(&self) -> (r: ToolInvocation)
        ensures
            r@ == spec_iso_invocation(self@.project_name),
    {
        let mut iso_name = self.project_name.clone();
        iso_name.append(".iso");
        let mut args: Vec<String> = Vec::new();
        args.push(String::from_str("./multiboot_image"));
        args.push(String::from_str("-o"));
        args.push(iso_name);
        let r = ToolInvocation { program: String::from_str("grub-mkrescue"), args };
        proof {
            assert(r.args.deep_view() =~= spec_iso_invocation(self@.project_name).args);
        }
        r
    }

    /// The pending action of a state; see [`spec_pending`].
    pub fn pending_action(&self, st: &BuildState) -> (r: Option<BuildAction>)
        requires
            self.wf(),
        ensures
            opt_action_view(r) == spec_pending(self@, *st),
    {
        match st {
            BuildState::Compiling => Some(BuildAction::RunTool(self.invocation("build"))),
            BuildState::Assembling(step) => Some(
                match step {
                    AsmStep::RemoveStale => BuildAction::RemoveDir(
                        String::from_str("./multiboot_image"),
                    ),
                    AsmStep::CreateDirs => BuildAction::CreateDir(
                        String::from_str("./multiboot_image/boot/grub"),
                    ),
                    AsmStep::WriteBootConfig => BuildAction::WriteFile {
                        path: String::from_str("./multiboot_image/boot/grub/grub.cfg"),
                        contents: self.grub_cfg_contents(),
                    },
                    AsmStep::CopyArtifact => BuildAction::CopyFile {
                        from: self.artefact_path(),
                        to: String::from_str("./multiboot_image/boot.bin"),
                    },
                    AsmStep::MakeIso => BuildAction::RunTool(self.iso_invocation()),
                },
            ),
            BuildState::Done => None,
            BuildState::Failed(_) => None,
        }
    }

    /// Advance the machine by the outcome of its pending action; see
    /// [`spec_advance`].
    pub fn advance(&self, st: &BuildState, outcome: StepOutcome) -> (r: BuildState)
        requires
            outcome_fits(*st, outcome),
        ensures
            r == spec_advance(self@, *st, outcome),
    {
        match (st, outcome) {
            (BuildState::Compiling, StepOutcome::Tool(t)) => match Self::tool_failure(
                Stage::Compile,
                t,
            ) {
                Some(f) => BuildState::Failed(f),
                None => match &self.loader {
                    Some(l) => match l {
                        Loader::GRUB => BuildState::Assembling(AsmStep::RemoveStale),
                    },
                    None => BuildState::Done,
                },
            },
            (BuildState::Assembling(AsmStep::RemoveStale), StepOutcome::Fs(_)) => {
                BuildState::Assembling(AsmStep::CreateDirs)
            },
            (BuildState::Assembling(AsmStep::CreateDirs), StepOutcome::Fs(f)) => match f {
                FsOutcome::Succeeded => BuildState::Assembling(AsmStep::WriteBootConfig),
                FsOutcome::Failed => BuildState::Failed(BuildFailure::Fs(AsmStep::CreateDirs)),
            },
            (BuildState::Assembling(AsmStep::WriteBootConfig), StepOutcome::Fs(f)) => match f {
                FsOutcome::Succeeded => BuildState::Assembling(AsmStep::CopyArtifact),
                FsOutcome::Failed => BuildState::Failed(
                    BuildFailure::Fs(AsmStep::WriteBootConfig),
                ),
            },
            (BuildState::Assembling(AsmStep::CopyArtifact), StepOutcome::Fs(f)) => match f {
                FsOutcome::Succeeded => BuildState::Assembling(AsmStep::MakeIso),
                FsOutcome::Failed => BuildState::Failed(BuildFailure::Fs(AsmStep::CopyArtifact)),
            },
            (BuildState::Assembling(AsmStep::MakeIso), StepOutcome::Tool(t)) => {
                match Self::tool_failure(Stage::Assemble, t) {
                    Some(f) => BuildState::Failed(f),
                    None => BuildState::Done,
                }
            },
            _ => *st,
        }
    }

    /// Resolve a tool outcome at a stage; see [`spec_tool_failure`].
    fn tool_failure(stage: Stage, t: ToolOutcome) -> (r: Option<BuildFailure>)
        ensures
            r == spec_tool_failure(stage, t),
    {
        match t {
            ToolOutcome::Exited(c) => if c == 0 {
                None
            } else {
                Some(BuildFailure::Exit(stage, c))
            },
            ToolOutcome::Interrupted => Some(BuildFailure::Interrupted(stage)),
            ToolOutcome::SpawnFailed => Some(BuildFailure::Spawn(stage)),
        }
    }
}

/// Interpret the exit of one driver invocation made outside the build
/// machine (cleaning, documenting, running): success exactly on exit code
/// zero, every failure carried with what happened.
pub open spec fn spec_driver_result(outcome: ToolOutcome) -> Result<(), SpecError> {
    match spec_tool_failure(Stage::Compile, outcome) {
        None => Ok(()),
        Some(f) => Err(SpecError::Build(f)),
    }
}

/// See [`spec_driver_result`].
pub fn driver_result(outcome: ToolOutcome) -> (r: Result<(), Error>)
    ensures
        crate::payload::res_view(r) == spec_driver_result(outcome),
{
    match outcome {
        ToolOutcome::Exited(c) => if c == 0 {
            Ok(())
        } else {
            Err(Error::Build(BuildFailure::Exit(Stage::Compile, c)))
        },
        ToolOutcome::Interrupted => Err(Error::Build(BuildFailure::Interrupted(Stage::Compile))),
        ToolOutcome::SpawnFailed => Err(Error::Build(BuildFailure::Spawn(Stage::Compile))),
    }
}

/// A finished or failed build asks for nothing more: both terminal states
/// have no pending action.
pub proof fn lemma_terminal_states(p: SpecPayload, f: BuildFailure)
    ensures
        spec_pending(p, BuildState::Done) is None,
        spec_pending(p, BuildState::Failed(f)) is None,
{
}

/// A non-zero exit of the compiler driver fails the build with exactly
/// that code at the compile stage, and nothing is pending afterwards: in
/// particular, image assembly never starts.
pub proof fn lemma_compile_failure_is_terminal(p: SpecPayload, code: i32)
    requires
        code != 0,
    ensures
        spec_advance(p, BuildState::Compiling, StepOutcome::Tool(ToolOutcome::Exited(code)))
            == BuildState::Failed(BuildFailure::Exit(Stage::Compile, code)),
        spec_pending(p, BuildState::Failed(BuildFailure::Exit(Stage::Compile, code))) is None,
{
}

/// With a GRUB loader, a successful compile walks image assembly in
/// order: the stale staging directory is removed (and a failure of that
/// removal is tolerated), the directory tree is created, the boot
/// configuration is authored with the fixed template around the project
/// name, the artifact is copied to the in-image kernel path, and only
/// then is the ISO tool invoked. A failed artifact copy is fatal and
/// leaves nothing pending, so the ISO tool is never reached.
pub proof fn lemma_assembly_sequence(p: SpecPayload)
    requires
        p.loader == Some(Loader::GRUB),
    ensures
        spec_advance(p, BuildState::Compiling, StepOutcome::Tool(ToolOutcome::Exited(0)))
            == BuildState::Assembling(AsmStep::RemoveStale),
        spec_pending(p, BuildState::Assembling(AsmStep::RemoveStale)) == Some(
            SpecBuildAction::RemoveDir(spec_image_dir()),
        ),
        spec_advance(
            p,
            BuildState::Assembling(AsmStep::RemoveStale),
            StepOutcome::Fs(FsOutcome::Failed),
        ) == BuildState::Assembling(AsmStep::CreateDirs),
        spec_advance(
            p,
            BuildState::Assembling(AsmStep::RemoveStale),
            StepOutcome::Fs(FsOutcome::Succeeded),
        ) == BuildState::Assembling(AsmStep::CreateDirs),
        spec_pending(p, BuildState::Assembling(AsmStep::CreateDirs)) == Some(
            SpecBuildAction::CreateDir(spec_grub_dir()),
        ),
        spec_advance(
            p,
            BuildState::Assembling(AsmStep::CreateDirs),
            StepOutcome::Fs(FsOutcome::Succeeded),
        ) == BuildState::Assembling(AsmStep::WriteBootConfig),
        spec_pending(p, BuildState::Assembling(AsmStep::WriteBootConfig)) == Some(
            SpecBuildAction::WriteFile {
                path: spec_grub_cfg_path(),
                contents: spec_grub_cfg(p.project_name),
            },
        ),
        spec_advance(
            p,
            BuildState::Assembling(AsmStep::WriteBootConfig),
            StepOutcome::Fs(FsOutcome::Succeeded),
        ) == BuildState::Assembling(AsmStep::CopyArtifact),
        spec_pending(p, BuildState::Assembling(AsmStep::CopyArtifact)) == Some(
            SpecBuildAction::CopyFile { from: spec_artefact_path(p), to: spec_kernel_path() },
        ),
        spec_advance(
            p,
            BuildState::Assembling(AsmStep::CopyArtifact),
            StepOutcome::Fs(FsOutcome::Failed),
        ) == BuildState::Failed(BuildFailure::Fs(AsmStep::CopyArtifact)),
        spec_pending(p, BuildState::Failed(BuildFailure::Fs(AsmStep::CopyArtifact))) is None,
        spec_advance(
            p,
            BuildState::Assembling(AsmStep::CopyArtifact),
            StepOutcome::Fs(FsOutcome::Succeeded),
        ) == BuildState::Assembling(AsmStep::MakeIso),
        spec_pending(p, BuildState::Assembling(AsmStep::MakeIso)) == Some(
            SpecBuildAction::RunTool(spec_iso_invocation(p.project_name)),
        ),
{
}

/// Without a loader, a successful compile is the whole build: the machine
/// is done and image assembly is never entered.
pub proof fn lemma_no_loader_no_assembly(p: SpecPayload)
    requires
        p.loader is None,
    ensures
        spec_advance(p, BuildState::Compiling, StepOutcome::Tool(ToolOutcome::Exited(0)))
            == BuildState::Done,
        spec_pending(p, BuildState::Done) is None,
{
}

} // verus!
