//! The command line with which the editor starts the language server.

use vstd::prelude::*;

verus! {

/// A program to start, its arguments and the changes to its environment.
#[derive(Debug, PartialEq, Eq)]
pub struct LaunchCommand {
    pub command: String,
    pub args: Vec<String>,
    pub env: Vec<(String, String)>,
}

/// The command for a resolved binary: the binary itself, without arguments
/// and with the environment left alone. A failed resolution is passed on.
pub fn language_server_command(resolved: Result<String, String>) -> (launch: Result<LaunchCommand, String>)
    ensures
        match resolved {
            Ok(path) => launch matches Ok(command) && command.command@ == path@
                && command.args@.len() == 0 && command.env@.len() == 0,
            Err(message) => launch matches Err(passed) && passed@ == message@,
        },
{
    match resolved {
        Ok(path) => Ok(LaunchCommand { command: path, args: Vec::new(), env: Vec::new() }),
        Err(message) => Err(message),
    }
}

} // verus!
