//! Commands and their mathematical view.

use vstd::prelude::*;

verus! {

/// The abstract value of a [`Command`]: its name and arguments as sequences
/// of characters.
pub struct CommandView {
    pub name: Seq<char>,
    pub args: Seq<Seq<char>>,
}

/// A command sent from a front end to the dispatch worker: a name and its
/// ordered arguments.  Consumed exactly once by the worker.
pub struct Command {
    pub name: String,
    pub args: Vec<String>,
}

impl View for Command {
    type V = CommandView;

    open spec fn view(&self) -> CommandView {
        CommandView { name: self.name@, args: self.args@.map_values(|a: String| a@) }
    }
}

impl CommandView {
    /// Whether this command asks the worker to shut down.
    pub open spec fn is_quit(self) -> bool {
        self.name == "quit"@
    }
}

impl Command {
    pub fn new(name: String, args: Vec<String>) -> (r: Command)
        ensures
            r@.name == name@,
            r@.args == args@.map_values(|a: String| a@),
    {
        Command { name, args }
    }

    /// Whether this command asks the worker to shut down.
    pub fn is_quit(&self) -> (r: bool)
        ensures
            r == self@.is_quit(),
    {
        let quit: String = "quit".to_owned();
        self.name == quit
    }
}

/// The command that asks the engine to persist the wallet: `("save", [])`.
pub fn save_command() -> (r: Command)
    ensures
        r@.name == "save"@,
        r@.args =~= Seq::<Seq<char>>::empty(),
{
    let r = Command { name: "save".to_owned(), args: Vec::new() };
    proof {
        assert(r@.args =~= Seq::<Seq<char>>::empty());
    }
    r
}

/// The fixed plan of one-shot dispatch: the user's requested command, then
/// always a trailing `("save", [])` — whatever the first command was and
/// whatever its response will say.  The front end sends both, in order, and
/// waits for one response to each.
pub fn oneshot_plan(cmd: Command) -> (r: Vec<Command>)
    ensures
        r@.len() == 2,
        r@[0] == cmd,
        r@[1]@.name == "save"@,
        r@[1]@.args =~= Seq::<Seq<char>>::empty(),
{
    let save = save_command();
    let mut v: Vec<Command> = Vec::new();
    v.push(cmd);
    v.push(save);
    v
}

} // verus!
