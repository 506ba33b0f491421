//! The application surface: expanding composite command tokens into the
//! ordered command queue, assembling the payload configuration, and
//! routing each command to the action that realizes it.

use vstd::prelude::*;
use vstd::string::*;

pub use crate::errors::Command;
use crate::errors::{Error, ParseError, SpecError, SpecParseError};
use crate::manifest::manifest_package_name;
use crate::payload::{
    res_view, spec_fetch, spec_invocation, spec_payload_new, FetchPlan, Payload, SpecFetchPlan,
    SpecInvocation, SpecPayload, ToolInvocation,
};
use crate::text::{is_lower, lower_char};

verus! {

/// A command token: a dash followed by at least one lowercase letter.
pub open spec fn is_command_token(t: Seq<char>) -> bool {
    t.len() >= 2 && t[0] == '-' && is_lower(t[1])
}

/// The fixed letter-to-command mapping.
pub open spec fn spec_letter_command(c: char) -> Option<Command> {
    if c == 'c' {
        Some(Command::Clean)
    } else if c == 'f' {
        Some(Command::Fetch)
    } else if c == 'p' {
        Some(Command::Pull)
    } else if c == 'b' {
        Some(Command::Build)
    } else if c == 'd' {
        Some(Command::Doc)
    } else if c == 'r' {
        Some(Command::Run)
    } else {
        None
    }
}

/// The letters of one command token appended to the queue, left to right;
/// a letter outside the mapping is named in the error.
pub open spec fn spec_expand_letters(cmds: Seq<Command>, letters: Seq<char>) -> Result<
    Seq<Command>,
    SpecError,
>
    decreases letters.len(),
{
    if letters.len() == 0 {
        Ok(cmds)
    } else {
        match spec_letter_command(letters[0]) {
            Some(c) => spec_expand_letters(cmds.push(c), letters.drop_first()),
            None => Err(SpecError::Parse(SpecParseError::UnknownCommand(letters[0]))),
        }
    }
}

/// The raw arguments split in order: command tokens expand the command
/// queue letter by letter, everything else is kept for the option parser.
pub open spec fn spec_split_args(
    cmds: Seq<Command>,
    popts: Seq<Seq<char>>,
    args: Seq<Seq<char>>,
) -> Result<(Seq<Command>, Seq<Seq<char>>), SpecError>
    decreases args.len(),
{
    if args.len() == 0 {
        Ok((cmds, popts))
    } else if is_command_token(args[0]) {
        match spec_expand_letters(cmds, args[0].drop_first()) {
            Ok(cmds2) => spec_split_args(cmds2, popts, args.drop_first()),
            Err(e) => Err(e),
        }
    } else {
        spec_split_args(cmds, popts.push(args[0]), args.drop_first())
    }
}

/// Mathematical model of an [`App`].
pub struct SpecApp {
    pub commands: Seq<Command>,
    pub payload: SpecPayload,
}

/// What constructing the application yields: the commands in order of
/// appearance, and the payload configuration built from the remaining
/// tokens and the manifest's package name.
pub open spec fn spec_app_new(args: Seq<Seq<char>>, name: Option<Seq<char>>) -> Result<
    SpecApp,
    SpecError,
> {
    match spec_split_args(Seq::empty(), Seq::empty(), args) {
        Ok(cp) => match spec_payload_new(cp.1, name) {
            Ok(p) => Ok(SpecApp { commands: cp.0, payload: p }),
            Err(e) => Err(e),
        },
        Err(e) => Err(e),
    }
}

/// The action that realizes one command.
#[derive(Clone, Debug, PartialEq, Eq)]
pub enum Dispatch {
    /// Run the driver invocation; `check` says whether a failing exit is
    /// reported or tolerated.
    RunDriver { invocation: ToolInvocation, check: bool },
    /// Enter the build machine at its starting state.
    StartBuild,
    /// Carry out the fetch plan.
    FetchSource(FetchPlan),
}

/// Mathematical model of a [`Dispatch`].
pub enum SpecDispatch {
    RunDriver { invocation: SpecInvocation, check: bool },
    StartBuild,
    FetchSource(SpecFetchPlan),
}

impl View for Dispatch {
    type V = SpecDispatch;

    open spec fn view(&self) -> SpecDispatch {
        match self {
            Dispatch::RunDriver { invocation, check } => SpecDispatch::RunDriver {
                invocation: invocation@,
                check: *check,
            },
            Dispatch::StartBuild => SpecDispatch::StartBuild,
            Dispatch::FetchSource(p) => SpecDispatch::FetchSource(p@),
        }
    }
}

/// One run of the orchestrator: the resolved command queue and the payload
/// configuration it drives.
#[derive(Debug)]
pub struct App {
    pub commands: Vec<Command>,
    pub payload: Payload,
}

impl View for App {
    type V = SpecApp;

    open spec fn view(&self) -> SpecApp {
        SpecApp { commands: self.commands@, payload: self.payload@ }
    }
}

/// Runtime test for [`is_command_token`].
fn command_token(t: &str) -> (r: bool)
    ensures
        r == is_command_token(t@),
{
    let n = t.unicode_len();
    if n < 2 {
        return false;
    }
    t.get_char(0) == '-' && lower_char(t.get_char(1))
}

/// Runtime mapping for [`spec_letter_command`].
fn letter_command(c: char) -> (r: Option<Command>)
    ensures
        r == spec_letter_command(c),
{
    match c {
        'c' => Some(Command::Clean),
        'f' => Some(Command::Fetch),
        'p' => Some(Command::Pull),
        'b' => Some(Command::Build),
        'd' => Some(Command::Doc),
        'r' => Some(Command::Run),
        _ => None,
    }
}

impl App {
    /// An application is well formed when its payload is.
    pub open spec fn wf(&self) -> bool {
        self.payload.wf()
    }

    /// Resolve the raw command-line tokens and the manifest text into an
    /// application: every command token is expanded letter by letter in
    /// order of appearance, and the remaining tokens configure the
    /// payload.
    #[verifier::loop_isolation(false)]
    pub fn new(args: Vec<String>, manifest_text: &str) -> (r: Result<App, Error>)
        ensures
            res_view(r) == spec_app_new(args.deep_view(), manifest_package_name(manifest_text@)),
            r matches Ok(a) ==> a.wf(),
    {
        let ghost av = args.deep_view();
        let mut commands: Vec<Command> = Vec::new();
        let mut payload_args: Vec<String> = Vec::new();
        let na = args.len();
        let mut i: usize = 0;
        proof {
            assert(av.skip(0) =~= av);
            assert(payload_args.deep_view() =~= Seq::<Seq<char>>::empty());
        }
        while i < na
            invariant
                i <= na,
                spec_split_args(commands@, payload_args.deep_view(), av.skip(i as int))
                    == spec_split_args(Seq::empty(), Seq::empty(), av),
            decreases na - i,
        {
            let arg = &args[i];
            let ghost cur_cmds = commands@;
            let ghost cur_popts = payload_args.deep_view();
            let ghost sk = av.skip(i as int);
            proof {
                assert(av[i as int] == arg@);
                assert(sk[0] == av[i as int]);
                assert(sk.drop_first() =~= av.skip(i as int + 1));
            }
            if command_token(arg.as_str()) {
                let ln = arg.as_str().unicode_len();
                let mut j: usize = 1;
                proof {
                    assert(arg@.skip(1) =~= arg@.drop_first());
                }
                while j < ln
                    invariant
                        1 <= j <= ln,
                        spec_expand_letters(commands@, arg@.skip(j as int))
                            == spec_expand_letters(cur_cmds, arg@.drop_first()),
                    decreases ln - j,
                {
                    let ch = arg.as_str().get_char(j);
                    proof {
                        assert(arg@.skip(j as int)[0] == arg@[j as int]);
                        assert(arg@.skip(j as int).drop_first() =~= arg@.skip(j as int + 1));
                    }
                    match letter_command(ch) {
                        Some(c) => {
                            commands.push(c);
                        },
                        None => {
                            return Err(Error::Parse(ParseError::UnknownCommand(ch)));
                        },
                    }
                    j = j + 1;
                }
                proof {
                    assert(arg@.skip(ln as int) =~= Seq::<char>::empty());
                }
            } else {
                payload_args.push(arg.clone());
                proof {
                    assert(payload_args.deep_view() =~= cur_popts.push(arg@));
                }
            }
            i = i + 1;
        }
        proof {
            assert(av.skip(na as int) =~= Seq::<Seq<char>>::empty());
        }
        let payload = match Payload::new(payload_args, manifest_text) {
            Ok(p) => p,
            Err(e) => {
                return Err(e);
            },
        };
        Ok(App { commands, payload })
    }

    /// Route the command at a queue position to the action that realizes
    /// it; see [`spec_dispatch`].
    pub fn dispatch(&self, idx: usize) -> (r: Result<Dispatch, Error>)
        requires
            self.wf(),
            idx < self.commands@.len(),
        ensures
            res_view(r) == spec_dispatch(self@.payload, self@.commands[idx as int]),
    {
        match self.commands[idx] {
            Command::Clean => Ok(
                Dispatch::RunDriver { invocation: self.payload.clean(), check: false },
            ),
            Command::Fetch => match self.payload.fetch() {
                Ok(plan) => Ok(Dispatch::FetchSource(plan)),
                Err(e) => Err(e),
            },
            Command::Pull => Err(Error::Unsupported(Command::Pull)),
            Command::Build => Ok(Dispatch::StartBuild),
            Command::Doc => Ok(Dispatch::RunDriver { invocation: self.payload.doc(), check: true }),
            Command::Run => Ok(Dispatch::RunDriver { invocation: self.payload.run(), check: true }),
        }
    }

    /// The usage text shown when the command line cannot be understood.
    pub fn usage() -> (r: String)
        ensures
            r@ == spec_usage(),
    {
        String::from_str(
            "Usage: rocket -[COMMAND,...] [PAYLOAD_OPTION_NAME=PAYLOAD_OPTION_VALUE,...]\nExample: rocket -br --source=foo@github.com/bar.git --target=x86_64 --loader=grub\nCommands:\n    (b)uild: Build the local copy of the payload, using any provided options.\n    (c)lean: Clean the local copy of the payload.\n    (r)un: Run the generated artefact using the specified runner.\n    (f)etch: Fetch a payload from a repository.\n    (p)ull: Update the local payload from the repository.\n\nPayload Options:\n    --source=( url | path )\n    --target=( target_name | target_json_path )\n    --loader=( grub )\n    --runner=( qemu )\n",
        )
    }
}

/// The usage text as a character sequence.
pub open spec fn spec_usage() -> Seq<char> {
    (
    "Usage: rocket -[COMMAND,...] [PAYLOAD_OPTION_NAME=PAYLOAD_OPTION_VALUE,...]\nExample: rocket -br --source=foo@github.com/bar.git --target=x86_64 --loader=grub\nCommands:\n    (b)uild: Build the local copy of the payload, using any provided options.\n    (c)lean: Clean the local copy of the payload.\n    (r)un: Run the generated artefact using the specified runner.\n    (f)etch: Fetch a payload from a repository.\n    (p)ull: Update the local payload from the repository.\n\nPayload Options:\n    --source=( url | path )\n    --target=( target_name | target_json_path )\n    --loader=( grub )\n    --runner=( qemu )\n"
    )@
}

/// How each command is realized: cleaning runs the driver with its exit
/// tolerated; documenting and running check the exit; building starts the
/// build machine; fetching follows the fetch plan; the update command has
/// no defined action and is reported as unsupported.
pub open spec fn spec_dispatch(p: SpecPayload, c: Command) -> Result<SpecDispatch, SpecError> {
    match c {
        Command::Clean => Ok(
            SpecDispatch::RunDriver { invocation: spec_invocation(p, ("clean")@), check: false },
        ),
        Command::Fetch => match spec_fetch(p) {
            Ok(plan) => Ok(SpecDispatch::FetchSource(plan)),
            Err(e) => Err(e),
        },
        Command::Pull => Err(SpecError::Unsupported(Command::Pull)),
        Command::Build => Ok(SpecDispatch::StartBuild),
        Command::Doc => Ok(
            SpecDispatch::RunDriver { invocation: spec_invocation(p, ("doc")@), check: true },
        ),
        Command::Run => Ok(
            SpecDispatch::RunDriver { invocation: spec_invocation(p, ("run")@), check: true },
        ),
    }
}

} // verus!
