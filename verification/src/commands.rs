//! The command registry and the built-in scripting command.
//!
//! A node executes a received instruction only through this registry: a
//! table, filled once at startup, from lowercase command name to handler.
//! The one built-in handler runs a script in an embedded Lua interpreter
//! that lives for the whole process, so consecutive scripts can build up
//! shared interpreter state. A handler's own failure is reported in the
//! dispatch outcome and never propagates further.

use vstd::prelude::*;

use crate::text::{lower_of, lowercase};

verus! {

#[verifier::external_type_specification]
#[verifier::external_body]
pub struct ExLua(mlua::Lua);

/// Relies on mlua `Lua::new`: a fresh interpreter loaded with the safe
/// standard libraries.
#[verifier::external_body]
fn lua_new() -> mlua::Lua {
    mlua::Lua::new()
}

/// Relies on mlua `Lua::load` and `Chunk::exec`: compiles and runs the
/// script in the given interpreter; a compilation or execution error comes
/// back as its report, never as a panic. What a script does is up to the
/// script, so nothing is stated of the outcome.
#[verifier::external_body]
fn lua_exec(lua: &mlua::Lua, script: &String) -> Result<(), String> {
    match lua.load(script.as_str()).exec() {
        Ok(()) => Ok(()),
        Err(e) => Err(format!("{e}")),
    }
}

/// Why a command could not be constructed or did not complete.
#[derive(Debug)]
pub enum CommandError {
    /// The scripting command was invoked without its one required argument.
    MissingScript,
    /// The script ran and failed; the report is the interpreter's.
    ScriptFailed(String),
}

impl CommandError {
    /// The failure as a line of text for the operator's log.
    pub fn message(&self) -> (r: String)
        ensures
            self is MissingScript ==> r@ == "Missing required argument: 'script'"@,
            self matches CommandError::ScriptFailed(m) ==> r@ == m@,
    {
        match self {
            CommandError::MissingScript => String::from_str("Missing required argument: 'script'"),
            CommandError::ScriptFailed(m) => m.clone(),
        }
    }
}

/// An executable command: fallibly constructed once at registration, then
/// invoked with an argument list on each dispatch.
pub trait Command: Sized {
    /// Construct the handler; failure here aborts startup.
    fn new() -> Result<Self, CommandError>;

    /// Run the command on `args`; failures are reported, not raised.
    fn execute(&self, args: &Vec<String>) -> Result<(), CommandError>;
}

/// The built-in scripting command: one interpreter, created at
/// registration, shared by every invocation for the life of the process.
pub struct LuaCommand {
    lua: mlua::Lua,
}

impl LuaCommand {
    /// Construct the command and its interpreter. Interpreter creation
    /// itself never fails, so construction always succeeds.
    pub fn create() -> (r: Result<LuaCommand, CommandError>)
        ensures
            r is Ok,
    {
        Ok(LuaCommand { lua: lua_new() })
    }

    /// Run a script: exactly one argument, the script text, is required.
    /// The missing-argument failure arises exactly on an empty argument
    /// list; with a script present the interpreter runs it, and only the
    /// script's own failure is reported.
    pub fn run(&self, args: &Vec<String>) -> (r: Result<(), CommandError>)
        ensures
            (r matches Err(e) && e is MissingScript) <==> args@.len() == 0,
            args@.len() > 0 ==> (r is Ok || (r matches Err(e) && e is ScriptFailed)),
    {
        if args.len() == 0 {
            return Err(CommandError::MissingScript);
        }
        match lua_exec(&self.lua, &args[0]) {
            Ok(()) => Ok(()),
            Err(report) => Err(CommandError::ScriptFailed(report)),
        }
    }
}

impl Command for LuaCommand {
    fn new() -> Result<LuaCommand, CommandError> {
        LuaCommand::create()
    }

    fn execute(&self, args: &Vec<String>) -> Result<(), CommandError> {
        self.run(args)
    }
}

/// A registered handler. Dispatch is by this closed set of variants, so
/// every handler the registry can hold is known to the verifier.
pub enum RegisteredCommand {
    Lua(LuaCommand),
}

impl RegisteredCommand {
    /// Invoke the handler on `args`. Every registered handler demands at
    /// least one argument and reports an execution failure as its own.
    pub fn run(&self, args: &Vec<String>) -> (r: Result<(), CommandError>)
        ensures
            (r matches Err(e) && e is MissingScript) <==> args@.len() == 0,
            args@.len() > 0 ==> (r is Ok || (r matches Err(e) && e is ScriptFailed)),
    {
        match self {
            RegisteredCommand::Lua(c) => c.run(args),
        }
    }
}

/// What dispatching a command came to.
pub enum ExecOutcome {
    /// The command was empty: nothing to look up.
    Empty,
    /// No handler of that name is registered; nothing was invoked.
    Unregistered,
    /// The handler ran and completed.
    Completed,
    /// The handler ran and reported this failure.
    Failed(CommandError),
}

/// The table of executable commands, keyed by lowercase name. Filled once
/// at startup and read-only thereafter, apart from whatever state a handler
/// keeps for itself.
pub struct CommandHandler {
    commands: Vec<(String, RegisteredCommand)>,
}

impl CommandHandler {
    /// The registered names, in registration order.
    pub closed spec fn names(&self) -> Seq<Seq<char>> {
        Seq::new(self.commands@.len(), |i: int| self.commands@[i].0@)
    }

    /// Whether a handler is registered under `name`.
    pub open spec fn registered(&self, name: Seq<char>) -> bool {
        exists|i: int| 0 <= i < self.names().len() && #[trigger] self.names()[i] == name
    }

    /// An empty registry.
    pub fn new() -> (r: CommandHandler)
        ensures
            forall|n: Seq<char>| !(#[trigger] r.registered(n)),
    {
        CommandHandler { commands: Vec::new() }
    }

    /// Register the built-in command set: the scripting command, under
    /// `"lua"`. Construction of every handler must succeed; a failure
    /// would be a deployment error and aborts startup.
    pub fn register_commands(&mut self) -> (r: Result<(), CommandError>)
        ensures
            r is Ok,
            final(self).registered("lua"@),
            forall|n: Seq<char>|
                #[trigger] final(self).registered(n) <==> (old(self).registered(n) || n == "lua"@),
    {
        let lua = match LuaCommand::create() {
            Ok(c) => c,
            Err(e) => {
                return Err(e);
            },
        };
        let ghost before = self.names();
        self.commands.push((String::from_str("lua"), RegisteredCommand::Lua(lua)));
        proof {
            assert(self.names() =~= before.push("lua"@));
            assert(self.registered("lua"@)) by {
                assert(self.names()[before.len() as int] == "lua"@);
            }
            assert forall|n: Seq<char>| #[trigger] self.registered(n) implies (old(
                self,
            ).registered(n) || n == "lua"@) by {
                let i = choose|i: int|
                    0 <= i < self.names().len() && #[trigger] self.names()[i] == n;
                if i < before.len() {
                    assert(old(self).names()[i] == n);
                }
            }
            assert forall|n: Seq<char>| old(self).registered(n) implies #[trigger] self.registered(
                n,
            ) by {
                let i = choose|i: int|
                    0 <= i < old(self).names().len() && #[trigger] old(self).names()[i] == n;
                assert(self.names()[i] == n);
            }
        }
        Ok(())
    }

    /// Case-insensitive membership test for a command name.
    pub fn command_exists(&self, command_name: &String) -> (r: bool)
        ensures
            r == self.registered(lower_of(command_name@)),
    {
        let lowered = lowercase(command_name);
        self.lookup(&lowered).is_some()
    }

    /// Find the handler registered under an already-lowercased name.
    fn lookup(&self, lowered: &String) -> (r: Option<&RegisteredCommand>)
        ensures
            r is Some <==> self.registered(lowered@),
    {
        let mut i: usize = 0;
        while i < self.commands.len()
            invariant
                i <= self.commands@.len(),
                forall|j: int| 0 <= j < i ==> #[trigger] self.names()[j] != lowered@,
            decreases self.commands@.len() - i,
        {
            if self.commands[i].0.eq(lowered) {
                assert(self.names()[i as int] == lowered@);
                return Some(&self.commands[i].1);
            }
            assert(self.names()[i as int] != lowered@);
            i = i + 1;
        }
        None
    }

    /// Dispatch a command: the first word names the handler
    /// (case-insensitively), the remaining words, in their original order
    /// and case, are its arguments. An empty command and an unregistered
    /// name are reported and invoke nothing. A registered handler runs on
    /// the remaining words: with none it reports its missing argument
    /// (exactly then), and otherwise only its own execution failure is
    /// contained in the outcome.
    pub fn execute_command(&self, command: &Vec<String>) -> (r: ExecOutcome)
        ensures
            r is Empty <==> command@.len() == 0,
            command@.len() > 0 ==> ((r is Unregistered) <==> !self.registered(
                lower_of(command.deep_view()[0]),
            )),
            command@.len() > 0 && self.registered(lower_of(command.deep_view()[0])) ==> ((
            r matches ExecOutcome::Failed(e) && e is MissingScript) <==> command@.len() == 1),
            command@.len() >= 2 && self.registered(lower_of(command.deep_view()[0])) ==> (
            r is Completed || (r matches ExecOutcome::Failed(e) && e is ScriptFailed)),
    {
        if command.len() == 0 {
            return ExecOutcome::Empty;
        }
        let lowered = lowercase(&command[0]);
        assert(command@[0]@ == command.deep_view()[0]);
        let handler = match self.lookup(&lowered) {
            Some(h) => h,
            None => {
                return ExecOutcome::Unregistered;
            },
        };
        let mut args: Vec<String> = Vec::new();
        let mut i: usize = 1;
        while i < command.len()
            invariant
                1 <= i <= command@.len(),
                args@ =~= command@.subrange(1, i as int),
            decreases command@.len() - i,
        {
            args.push(command[i].clone());
            proof {
                assert(args@ =~= command@.subrange(1, i + 1));
            }
            i = i + 1;
        }
        assert(args@.len() == command@.len() - 1);
        match handler.run(&args) {
            Ok(()) => ExecOutcome::Completed,
            Err(e) => ExecOutcome::Failed(e),
        }
    }
}

} // verus!
