//! The command registry and the dispatcher in front of it.
//!
//! The registry is fixed: four names, each bound to one handler. Dispatching
//! a request decides what it asks for. A greeting is answered at once; the
//! other commands need work from the host (a snapshot of the system, a file
//! read or written), which the dispatcher names as an `Action` for the caller
//! to carry out. A request that names no registered command, or lacks an
//! argument, is refused at the boundary with an `InvokeError`; that is never a
//! handler's failure.
use vstd::prelude::*;

use crate::handlers::{greet, greeting};

verus! {

/// The registered commands.
#[derive(Clone, Copy, Debug, PartialEq, Eq, Structural)]
pub enum CommandKind {
    Greet,
    GetSystemInfo,
    ReadFile,
    WriteFile,
}

impl CommandKind {
    /// The name under which the command is registered.
    pub open spec fn spec_name(self) -> Seq<char> {
        match self {
            CommandKind::Greet => "greet"@,
            CommandKind::GetSystemInfo => "get_system_info"@,
            CommandKind::ReadFile => "read_file"@,
            CommandKind::WriteFile => "write_file"@,
        }
    }

    /// The name under which the command is registered.
    pub fn name(&self) -> (r: &'static str)
        ensures
            r@ == self.spec_name(),
    {
        match self {
            CommandKind::Greet => "greet",
            CommandKind::GetSystemInfo => "get_system_info",
            CommandKind::ReadFile => "read_file",
            CommandKind::WriteFile => "write_file",
        }
    }

    /// Looks `name` up in the registry.
    pub fn from_name(name: &str) -> (r: Option<CommandKind>)
        ensures
            r == command_named(name@),
    {
        if same_text(name, "greet") {
            Some(CommandKind::Greet)
        } else if same_text(name, "get_system_info") {
            Some(CommandKind::GetSystemInfo)
        } else if same_text(name, "read_file") {
            Some(CommandKind::ReadFile)
        } else if same_text(name, "write_file") {
            Some(CommandKind::WriteFile)
        } else {
            None
        }
    }
}

/// The registry: the command registered under `name`, if any.
pub open spec fn command_named(name: Seq<char>) -> Option<CommandKind> {
    if name == "greet"@ {
        Some(CommandKind::Greet)
    } else if name == "get_system_info"@ {
        Some(CommandKind::GetSystemInfo)
    } else if name == "read_file"@ {
        Some(CommandKind::ReadFile)
    } else if name == "write_file"@ {
        Some(CommandKind::WriteFile)
    } else {
        None
    }
}

/// Whether two strings hold the same characters.
fn same_text(a: &str, b: &str) -> (r: bool)
    ensures
        r == (a@ == b@),
{
    let n = a.unicode_len();
    if n != b.unicode_len() {
        return false;
    }
    let mut i: usize = 0;
    while i < n
        invariant
            n == a@.len(),
            n == b@.len(),
            i <= n,
            forall|j: int| 0 <= j < i ==> a@[j] == b@[j],
        decreases n - i,
    {
        if a.get_char(i) != b.get_char(i) {
            return false;
        }
        i = i + 1;
    }
    assert(a@ =~= b@);
    true
}

/// One invocation as it crosses the boundary: a command name and named
/// arguments.
pub struct CommandRequest {
    pub name: String,
    pub arguments: Vec<(String, String)>,
}

/// The value of the first argument called `key`, if there is one.
pub open spec fn argument(args: Seq<(String, String)>, key: Seq<char>) -> Option<Seq<char>>
    decreases args.len(),
{
    if args.len() == 0 {
        None
    } else if args[0].0@ == key {
        Some(args[0].1@)
    } else {
        argument(args.drop_first(), key)
    }
}

/// The value of the first argument called `key`, if there is one.
pub fn find_argument(args: &Vec<(String, String)>, key: &str) -> (r: Option<String>)
    ensures
        r.deep_view() == argument(args@, key@),
{
    let mut i: usize = 0;
    assert(args@.subrange(0, args@.len() as int) =~= args@);
    while i < args.len()
        invariant
            i <= args@.len(),
            argument(args@, key@) == argument(args@.subrange(i as int, args@.len() as int), key@),
        decreases args@.len() - i,
    {
        let ghost rest = args@.subrange(i as int, args@.len() as int);
        assert(rest.drop_first() =~= args@.subrange(i + 1, args@.len() as int));
        if same_text(args[i].0.as_str(), key) {
            return Some(args[i].1.clone());
        }
        i = i + 1;
    }
    assert(args@.subrange(i as int, args@.len() as int).len() == 0);
    None
}

/// What a dispatched request asks for.
pub enum Action {
    /// Done: the command succeeds with this text.
    Reply(String),
    /// Take a snapshot of the host and answer with it.
    QuerySystem,
    /// Read the whole file at `path` as text; the reply is its contents.
    ReadFile { path: String },
    /// Create or overwrite the file at `path` with `content`; the reply is unit.
    WriteFile { path: String, content: String },
}

/// An `Action` with its strings seen as character sequences.
pub enum ActionModel {
    Reply(Seq<char>),
    QuerySystem,
    ReadFile(Seq<char>),
    WriteFile(Seq<char>, Seq<char>),
}

impl View for Action {
    type V = ActionModel;

    open spec fn view(&self) -> ActionModel {
        match self {
            Action::Reply(t) => ActionModel::Reply(t@),
            Action::QuerySystem => ActionModel::QuerySystem,
            Action::ReadFile { path } => ActionModel::ReadFile(path@),
            Action::WriteFile { path, content } => ActionModel::WriteFile(path@, content@),
        }
    }
}

/// A request refused at the boundary, before any handler ran.
pub enum InvokeError {
    /// No command is registered under this name.
    UnknownCommand(String),
    /// The command needs an argument that the request does not carry.
    MissingArgument { command: CommandKind, argument: &'static str },
}

/// An `InvokeError` with its strings seen as character sequences.
pub enum InvokeErrorModel {
    UnknownCommand(Seq<char>),
    MissingArgument(CommandKind, Seq<char>),
}

impl View for InvokeError {
    type V = InvokeErrorModel;

    open spec fn view(&self) -> InvokeErrorModel {
        match self {
            InvokeError::UnknownCommand(n) => InvokeErrorModel::UnknownCommand(n@),
            InvokeError::MissingArgument { command, argument } => InvokeErrorModel::MissingArgument(
                *command,
                argument@,
            ),
        }
    }
}

/// What dispatching the command `name` with arguments `args` yields.
pub open spec fn dispatched(name: Seq<char>, args: Seq<(String, String)>) -> Result<
    ActionModel,
    InvokeErrorModel,
> {
    match command_named(name) {
        None => Err(InvokeErrorModel::UnknownCommand(name)),
        Some(CommandKind::Greet) => match argument(args, "name"@) {
            Some(n) => Ok(ActionModel::Reply(greeting(n))),
            None => Err(InvokeErrorModel::MissingArgument(CommandKind::Greet, "name"@)),
        },
        Some(CommandKind::GetSystemInfo) => Ok(ActionModel::QuerySystem),
        Some(CommandKind::ReadFile) => match argument(args, "path"@) {
            Some(p) => Ok(ActionModel::ReadFile(p)),
            None => Err(InvokeErrorModel::MissingArgument(CommandKind::ReadFile, "path"@)),
        },
        Some(CommandKind::WriteFile) => match argument(args, "path"@) {
            None => Err(InvokeErrorModel::MissingArgument(CommandKind::WriteFile, "path"@)),
            Some(p) => match argument(args, "content"@) {
                Some(c) => Ok(ActionModel::WriteFile(p, c)),
                None => Err(InvokeErrorModel::MissingArgument(CommandKind::WriteFile, "content"@)),
            },
        },
    }
}

/// Dispatches `req` through the registry.
pub fn dispatch(req: &CommandRequest) -> (r: Result<Action, InvokeError>)
    ensures
        match r {
            Ok(a) => dispatched(req.name@, req.arguments@) == Ok::<ActionModel, InvokeErrorModel>(a@),
            Err(e) => dispatched(req.name@, req.arguments@) == Err::<ActionModel, InvokeErrorModel>(e@),
        },
{
    match CommandKind::from_name(req.name.as_str()) {
        None => Err(InvokeError::UnknownCommand(req.name.clone())),
        Some(CommandKind::Greet) => match find_argument(&req.arguments, "name") {
            Some(n) => Ok(Action::Reply(greet(n.as_str()))),
            None => Err(InvokeError::MissingArgument { command: CommandKind::Greet, argument: "name" }),
        },
        Some(CommandKind::GetSystemInfo) => Ok(Action::QuerySystem),
        Some(CommandKind::ReadFile) => match find_argument(&req.arguments, "path") {
            Some(path) => Ok(Action::ReadFile { path }),
            None => Err(InvokeError::MissingArgument { command: CommandKind::ReadFile, argument: "path" }),
        },
        Some(CommandKind::WriteFile) => match find_argument(&req.arguments, "path") {
            None => Err(
                InvokeError::MissingArgument { command: CommandKind::WriteFile, argument: "path" },
            ),
            Some(path) => match find_argument(&req.arguments, "content") {
                Some(content) => Ok(Action::WriteFile { path, content }),
                None => Err(
                    InvokeError::MissingArgument {
                        command: CommandKind::WriteFile,
                        argument: "content",
                    },
                ),
            },
        },
    }
}

/// Every registered command is found again under its own name, so no two
/// commands share a name.
pub proof fn lemma_registry_names_unique(k: CommandKind)
    ensures
        command_named(k.spec_name()) == Some(k),
{
    reveal_strlit("greet");
    reveal_strlit("get_system_info");
    reveal_strlit("read_file");
    reveal_strlit("write_file");
    assert("greet"@.len() == 5);
    assert("get_system_info"@.len() == 15);
    assert("read_file"@.len() == 9);
    assert("write_file"@.len() == 10);
}

/// A name outside the registry is refused at the boundary as an unknown
/// command, whatever the arguments; no action is asked for and no handler
/// runs, so no handler failure can come of it.
pub proof fn lemma_unknown_command_refused(name: Seq<char>, args: Seq<(String, String)>)
    requires
        command_named(name) is None,
    ensures
        dispatched(name, args) == Err::<ActionModel, InvokeErrorModel>(
            InvokeErrorModel::UnknownCommand(name),
        ),
{
}

/// A write of `c` to `p` and a later read of `p` are dispatched to the same
/// file: the write stores exactly `c` at `p`, and the read fetches `p`.
pub proof fn lemma_write_then_read_same_file(
    write_args: Seq<(String, String)>,
    read_args: Seq<(String, String)>,
    p: Seq<char>,
    c: Seq<char>,
)
    requires
        argument(write_args, "path"@) == Some(p),
        argument(write_args, "content"@) == Some(c),
        argument(read_args, "path"@) == Some(p),
    ensures
        dispatched("write_file"@, write_args) == Ok::<ActionModel, InvokeErrorModel>(
            ActionModel::WriteFile(p, c),
        ),
        dispatched("read_file"@, read_args) == Ok::<ActionModel, InvokeErrorModel>(
            ActionModel::ReadFile(p),
        ),
{
    lemma_registry_names_unique(CommandKind::WriteFile);
    lemma_registry_names_unique(CommandKind::ReadFile);
}

} // verus!
