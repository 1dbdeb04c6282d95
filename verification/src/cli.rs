//! The command line: which journey an invocation asks for.

use crate::text::same_text;
use vstd::prelude::*;
use vstd::string::*;

verus! {

/// A subcommand.
#[derive(Clone, Copy, Debug, PartialEq, Eq, Structural)]
pub enum Command {
    /// List the worktrees, to enter or delete one.
    W,
    /// Delete the worktrees that are clean and pushed.
    Clean,
}

/// A parsed command line.
#[derive(Clone, Copy, Debug, PartialEq, Eq, Structural)]
pub struct Cli {
    pub command: Option<Command>,
}

/// What an invocation asks for.
#[derive(Clone, Copy, Debug, PartialEq, Eq, Structural)]
pub enum Invocation {
    /// Print the version.
    Version,
    /// Print the help text.
    Help,
    /// Run a subcommand.
    Run(Command),
    /// Pick a remote branch and create a branch or a worktree from it.
    Pick,
}

/// The subcommand that a word names, if it names one.
pub open spec fn spec_command_for(word: Seq<char>) -> Option<Command> {
    if word == "clean"@ {
        Some(Command::Clean)
    } else if word == "w"@ {
        Some(Command::W)
    } else {
        None
    }
}

/// What the first argument asks for. A flag for the version or the help wins;
/// then a subcommand; anything else, and no argument at all, asks for a pick.
pub open spec fn spec_invocation(first: Option<Seq<char>>) -> Invocation {
    match first {
        None => Invocation::Pick,
        Some(word) => if word == "-v"@ || word == "--version"@ {
            Invocation::Version
        } else if word == "-h"@ || word == "--help"@ {
            Invocation::Help
        } else {
            match spec_command_for(word) {
                Some(command) => Invocation::Run(command),
                None => Invocation::Pick,
            }
        },
    }
}

/// What a parsed command line asks for.
pub open spec fn spec_invocation_of(cli: Cli) -> Invocation {
    match cli.command {
        Some(command) => Invocation::Run(command),
        None => Invocation::Pick,
    }
}

/// The subcommand that a word names, if it names one.
pub fn command_for(word: &str) -> (command: Option<Command>)
    ensures
        command == spec_command_for(word@),
{
    if same_text(word, "clean") {
        Some(Command::Clean)
    } else if same_text(word, "w") {
        Some(Command::W)
    } else {
        None
    }
}

/// What the first argument of an invocation asks for.
pub fn invocation(first: Option<&str>) -> (asked: Invocation)
    ensures
        asked == spec_invocation(
            match first {
                Some(word) => Some(word@),
                None => None,
            },
        ),
{
    match first {
        None => Invocation::Pick,
        Some(word) => {
            if same_text(word, "-v") || same_text(word, "--version") {
                Invocation::Version
            } else if same_text(word, "-h") || same_text(word, "--help") {
                Invocation::Help
            } else {
                match command_for(word) {
                    Some(command) => Invocation::Run(command),
                    None => Invocation::Pick,
                }
            }
        },
    }
}

/// What a parsed command line asks for.
pub fn invocation_of(cli: &Cli) -> (asked: Invocation)
    ensures
        asked == spec_invocation_of(*cli),
{
    match cli.command {
        Some(command) => Invocation::Run(command),
        None => Invocation::Pick,
    }
}

} // verus!
