//! Argument dispatch: no argument enters the interactive editor, `list`
//! enumerates saved notes, anything else is reported as an unknown command.

use vstd::prelude::*;

verus! {

/// What the command line asks for. `Unknown` carries the unrecognised
/// argument so the caller can report it.
#[derive(Debug, PartialEq, Eq)]
pub enum CliCommand {
    Edit,
    List,
    Unknown(String),
}

/// Maps the argument vector (program name first) to a command: no argument
/// means the editor, a first argument `list` means listing, and any other
/// first argument is unknown and is handed back verbatim.
pub fn parse_command(args: &Vec<String>) -> (c: CliCommand)
    ensures
        args@.len() <= 1 ==> c is Edit,
        args@.len() > 1 ==> (c is List <==> args@[1]@ == "list"@),
        args@.len() > 1 ==> (c matches CliCommand::Unknown(a) ==> a@ == args@[1]@),
        args@.len() > 1 && args@[1]@ != "list"@ ==> c is Unknown,
{
    if args.len() <= 1 {
        CliCommand::Edit
    } else {
        let list_word = String::from_str("list");
        if args[1] == list_word {
            CliCommand::List
        } else {
            CliCommand::Unknown(args[1].clone())
        }
    }
}

} // verus!
