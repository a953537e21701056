//! The rules behind the terminal commands: which shell runs a command on
//! which platform, and what is reported when it ends.

use vstd::prelude::*;

verus! {

/// The platform that the application runs on.
#[derive(Debug, Clone, Copy, PartialEq, Eq, Structural)]
pub enum Platform {
    Windows,
    MacOs,
    Other,
}

/// The exit code that is reported of a command that was ended by a signal.
pub const NO_EXIT_CODE: i32 = -1;

/// The event that carries a line of a command's output.
pub const OUTPUT_EVENT: &'static str = "terminal-output";

/// The event that carries a line of a command's error output.
pub const ERROR_EVENT: &'static str = "terminal-error";

/// The event that carries a command's exit code.
pub const EXIT_EVENT: &'static str = "terminal-exit";

impl Platform {
    /// The program that runs commands.
    pub open spec fn shell(self) -> Seq<char> {
        match self {
            Platform::Windows => "powershell"@,
            _ => "bash"@,
        }
    }

    /// The argument that stands before the command.
    pub open spec fn shell_flag(self) -> Seq<char> {
        match self {
            Platform::Windows => "-Command"@,
            _ => "-c"@,
        }
    }

    /// The name under which the user knows the platform's shell.
    pub open spec fn shell_title(self) -> Seq<char> {
        match self {
            Platform::Windows => "PowerShell"@,
            Platform::MacOs => "zsh"@,
            Platform::Other => "bash"@,
        }
    }

    /// The program that runs commands, and the argument that stands before
    /// the command.
    pub fn shell_command(self) -> (command: (&'static str, &'static str))
        ensures
            command.0@ == self.shell(),
            command.1@ == self.shell_flag(),
    {
        match self {
            Platform::Windows => ("powershell", "-Command"),
            _ => ("bash", "-c"),
        }
    }

    /// The name under which the user knows the platform's shell.
    pub fn shell_name(self) -> (name: &'static str)
        ensures
            name@ == self.shell_title(),
    {
        match self {
            Platform::Windows => "PowerShell",
            Platform::MacOs => "zsh",
            Platform::Other => "bash",
        }
    }
}

/// The exit code that is reported of a command.
pub fn exit_code(code: Option<i32>) -> (reported: i32)
    ensures
        reported == match code {
            Some(c) => c,
            None => NO_EXIT_CODE,
        },
{
    match code {
        Some(c) => c,
        None => NO_EXIT_CODE,
    }
}

} // verus!
