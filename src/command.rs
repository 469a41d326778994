//! The commands that the web UI may call by name.
use vstd::prelude::*;

verus! {

/// A native operation that the UI may call.
#[derive(Debug, Clone, Copy, PartialEq, Eq)]
pub enum Command {
    /// Returns the path given on the command line.
    GetCliTextPath,
    /// Closes the calling window.
    MenuFileExit,
    /// Shows the version dialog.
    MenuHelpAbout,
}

/// The name under which the UI calls a command.
pub open spec fn command_name(c: Command) -> Seq<char> {
    match c {
        Command::GetCliTextPath => "get_cli_text_path"@,
        Command::MenuFileExit => "menu_file_exit"@,
        Command::MenuHelpAbout => "menu_help_about"@,
    }
}

/// The command registered under `name`, if any.
pub open spec fn command_named(name: Seq<char>) -> Option<Command> {
    if name == "get_cli_text_path"@ {
        Some(Command::GetCliTextPath)
    } else if name == "menu_file_exit"@ {
        Some(Command::MenuFileExit)
    } else if name == "menu_help_about"@ {
        Some(Command::MenuHelpAbout)
    } else {
        None
    }
}

/// Whether `name` is one of the registered command names.
pub open spec fn is_command_name(name: Seq<char>) -> bool {
    exists|c: Command| command_name(c) == name
}

/// Looking a command up by name finds exactly the registered ones, and each
/// command is found under its own name.
pub proof fn lemma_command_names(name: Seq<char>, c: Command)
    ensures
        command_named(name) is Some <==> is_command_name(name),
        command_named(name) matches Some(d) ==> command_name(d) == name,
        command_named(command_name(c)) == Some(c),
{
    reveal_strlit("get_cli_text_path");
    reveal_strlit("menu_file_exit");
    reveal_strlit("menu_help_about");
    assert(command_name(Command::GetCliTextPath).len() == 17);
    assert(command_name(Command::MenuFileExit).len() == 14);
    assert(command_name(Command::MenuHelpAbout).len() == 15);
    if is_command_name(name) {
        let d = choose|d: Command| command_name(d) == name;
        assert(command_name(d) == name);
    }
    if let Some(d) = command_named(name) {
        assert(command_name(d) == name);
    }
}

impl Command {
    /// Looks up the command registered under `name`.
    pub fn from_name(name: &str) -> (r: Option<Command>)
        ensures
            r == command_named(name@),
    {
        let n = name.to_string();
        if n == "get_cli_text_path".to_string() {
            Some(Command::GetCliTextPath)
        } else if n == "menu_file_exit".to_string() {
            Some(Command::MenuFileExit)
        } else if n == "menu_help_about".to_string() {
            Some(Command::MenuHelpAbout)
        } else {
            None
        }
    }

    /// The name under which the UI calls this command.
    pub fn name(&self) -> (r: String)
        ensures
            r@ == command_name(*self),
    {
        match self {
            Command::GetCliTextPath => "get_cli_text_path".to_string(),
            Command::MenuFileExit => "menu_file_exit".to_string(),
            Command::MenuHelpAbout => "menu_help_about".to_string(),
        }
    }
}

} // verus!
