//! Error taxonomy of the orchestrator.
//!
//! Every failure the library can report falls in one of four groups:
//! option/command parsing, configuration, the build pipeline (spawn
//! failures, non-zero tool exits, staging filesystem steps), and commands
//! whose action is deliberately left undefined.

use vstd::prelude::*;

verus! {

/// A lifecycle command, produced by expanding the letters of a `-[a-z]+`
/// command-line token.
#[derive(Clone, Copy, Debug, PartialEq, Eq, Structural)]
pub enum Command {
    Clean,
    Fetch,
    Pull,
    Build,
    Doc,
    Run,
}

/// The stage of the build pipeline at which an external tool was involved:
/// the cross-compiler driver, or the ISO-authoring tool that runs during
/// image assembly.
#[derive(Clone, Copy, Debug, PartialEq, Eq, Structural)]
pub enum Stage {
    Compile,
    Assemble,
}

/// One step of the bootable-image assembly sequence, in execution order.
#[derive(Clone, Copy, Debug, PartialEq, Eq, Structural)]
pub enum AsmStep {
    RemoveStale,
    CreateDirs,
    WriteBootConfig,
    CopyArtifact,
    MakeIso,
}

/// A malformed or unrecognized piece of the command line, named so the
/// caller can report exactly what was rejected.
#[derive(Clone, Debug, PartialEq, Eq)]
pub enum ParseError {
    /// A payload option token that does not have the `--key=value` shape.
    MalformedOption(String),
    /// A command letter outside the fixed letter-to-command mapping.
    UnknownCommand(char),
    /// A well-shaped option whose key is not recognized.
    UnknownOption(String),
    /// An unrecognized value for the loader option.
    UnknownLoader(String),
    /// An unrecognized value for the runner option.
    UnknownRunner(String),
}

/// A configuration that cannot drive any command.
#[derive(Clone, Copy, Debug, PartialEq, Eq, Structural)]
pub enum ConfigError {
    /// No target was configured by the option tokens.
    NoTarget,
    /// The build manifest yields no project name.
    NoProjectName,
    /// A fetch was requested but no source is configured.
    NoSource,
}

/// A failure of the build pipeline proper, with the stage it occurred at.
#[derive(Clone, Copy, Debug, PartialEq, Eq, Structural)]
pub enum BuildFailure {
    /// An external tool could not be spawned at all; never retried.
    Spawn(Stage),
    /// An external tool exited with the given non-zero code.
    Exit(Stage, i32),
    /// An external tool was terminated without reporting an exit code.
    Interrupted(Stage),
    /// A filesystem step of image assembly failed.
    Fs(AsmStep),
}

/// Any error the orchestrator reports.
#[derive(Clone, Debug, PartialEq, Eq)]
pub enum Error {
    Parse(ParseError),
    Config(ConfigError),
    Build(BuildFailure),
    /// The command is declared but has no defined action.
    Unsupported(Command),
}

/// Mathematical model of a [`ParseError`]: the carried strings as
/// character sequences.
pub enum SpecParseError {
    MalformedOption(Seq<char>),
    UnknownCommand(char),
    UnknownOption(Seq<char>),
    UnknownLoader(Seq<char>),
    UnknownRunner(Seq<char>),
}

/// Mathematical model of an [`Error`].
pub enum SpecError {
    Parse(SpecParseError),
    Config(ConfigError),
    Build(BuildFailure),
    Unsupported(Command),
}

impl View for ParseError {
    type V = SpecParseError;

    open spec fn view(&self) -> SpecParseError {
        match self {
            ParseError::MalformedOption(t) => SpecParseError::MalformedOption(t@),
            ParseError::UnknownCommand(c) => SpecParseError::UnknownCommand(*c),
            ParseError::UnknownOption(k) => SpecParseError::UnknownOption(k@),
            ParseError::UnknownLoader(v) => SpecParseError::UnknownLoader(v@),
            ParseError::UnknownRunner(v) => SpecParseError::UnknownRunner(v@),
        }
    }
}

impl View for Error {
    type V = SpecError;

    open spec fn view(&self) -> SpecError {
        match self {
            Error::Parse(p) => SpecError::Parse(p@),
            Error::Config(c) => SpecError::Config(*c),
            Error::Build(b) => SpecError::Build(*b),
            Error::Unsupported(c) => SpecError::Unsupported(*c),
        }
    }
}

} // verus!
