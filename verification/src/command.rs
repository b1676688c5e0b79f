//! The command line: which operation a list of arguments asks for.

use crate::ident::{parse_id, parsed_id, InvalidId};
use vstd::prelude::*;
use vstd::string::*;

verus! {

/// Which usage text an ill-formed command line calls for.
#[derive(Debug, Clone, Copy, PartialEq, Eq)]
pub enum Usage {
    /// No command was given.
    General,
    /// `mint` takes exactly four arguments.
    Mint,
    /// `verify` takes exactly one argument.
    Verify,
    /// `recall` takes exactly one argument.
    Recall,
    /// The command is none of `mint`, `verify`, `recall`.
    UnknownCommand,
}

/// The two operations that take an identifier.
#[derive(Debug, Clone, Copy, PartialEq, Eq)]
pub enum Lookup {
    Verify,
    Recall,
}

/// What a command line asks for, as mathematical values.
pub enum CommandView {
    Mint {
        name: Seq<char>,
        manufacturer: Seq<char>,
        batch_number: Seq<char>,
        expiry_date: Seq<char>,
    },
    Verify { id: u128 },
    Recall { id: u128 },
    InvalidId { text: Seq<char> },
    Usage(Usage),
}

/// What a command line asks for.
#[derive(Debug)]
pub enum Command {
    Mint { name: String, manufacturer: String, batch_number: String, expiry_date: String },
    Verify { id: u128 },
    Recall { id: u128 },
    /// The argument of `verify` or `recall` is no identifier.
    InvalidId { text: String },
    /// The arguments fit no command: nothing is to be done but to show the
    /// usage text.
    Usage(Usage),
}

impl View for Command {
    type V = CommandView;

    open spec fn view(&self) -> CommandView {
        match self {
            Command::Mint { name, manufacturer, batch_number, expiry_date } => CommandView::Mint {
                name: name@,
                manufacturer: manufacturer@,
                batch_number: batch_number@,
                expiry_date: expiry_date@,
            },
            Command::Verify { id } => CommandView::Verify { id: *id },
            Command::Recall { id } => CommandView::Recall { id: *id },
            Command::InvalidId { text } => CommandView::InvalidId { text: text@ },
            Command::Usage(usage) => CommandView::Usage(*usage),
        }
    }
}

/// The command that `lookup` makes of an argument, given what the argument
/// parses to: the operation on the identifier, or the argument itself as an
/// invalid identifier.
pub open spec fn lookup_command(lookup: Lookup, text: Seq<char>, parsed: Option<u128>) -> CommandView {
    match parsed {
        Some(id) => match lookup {
            Lookup::Verify => CommandView::Verify { id },
            Lookup::Recall => CommandView::Recall { id },
        },
        None => CommandView::InvalidId { text },
    }
}

/// The command that a list of arguments asks for. The first argument is the
/// program's own name; the second names the command; the number of the rest
/// must fit the command exactly. The four texts of `mint` are taken as they
/// are.
pub open spec fn command_of(args: Seq<Seq<char>>) -> CommandView {
    if args.len() < 2 {
        CommandView::Usage(Usage::General)
    } else if args[1] == "mint"@ {
        if args.len() == 6 {
            CommandView::Mint {
                name: args[2],
                manufacturer: args[3],
                batch_number: args[4],
                expiry_date: args[5],
            }
        } else {
            CommandView::Usage(Usage::Mint)
        }
    } else if args[1] == "verify"@ {
        if args.len() == 3 {
            lookup_command(Lookup::Verify, args[2], parsed_id(args[2]))
        } else {
            CommandView::Usage(Usage::Verify)
        }
    } else if args[1] == "recall"@ {
        if args.len() == 3 {
            lookup_command(Lookup::Recall, args[2], parsed_id(args[2]))
        } else {
            CommandView::Usage(Usage::Recall)
        }
    } else {
        CommandView::Usage(Usage::UnknownCommand)
    }
}

/// The texts of a list of arguments.
pub open spec fn texts(args: Seq<String>) -> Seq<Seq<char>> {
    args.map_values(|arg: String| arg@)
}

impl Command {
    /// The command for an operation on an identifier, once its argument has
    /// been parsed.
    pub fn for_lookup(lookup: Lookup, outcome: Result<u128, InvalidId>) -> (command: Command)
        ensures
            command@ == match outcome {
                Ok(id) => match lookup {
                    Lookup::Verify => CommandView::Verify { id },
                    Lookup::Recall => CommandView::Recall { id },
                },
                Err(e) => CommandView::InvalidId { text: e.text@ },
            },
    {
        match outcome {
            Ok(id) => match lookup {
                Lookup::Verify => Command::Verify { id },
                Lookup::Recall => Command::Recall { id },
            },
            Err(e) => Command::InvalidId { text: e.text },
        }
    }

    /// Reads a command line. Never fails: arguments that fit no command give
    /// the usage text to show, and an identifier that cannot be read gives
    /// `InvalidId` with the offending text.
    pub fn parse(args: &Vec<String>) -> (command: Command)
        ensures
            command@ == command_of(texts(args@)),
    {
        if args.len() < 2 {
            return Command::Usage(Usage::General);
        }
        let verb = &args[1];
        if *verb == String::from_str("mint") {
            if args.len() == 6 {
                Command::Mint {
                    name: args[2].clone(),
                    manufacturer: args[3].clone(),
                    batch_number: args[4].clone(),
                    expiry_date: args[5].clone(),
                }
            } else {
                Command::Usage(Usage::Mint)
            }
        } else if *verb == String::from_str("verify") {
            if args.len() == 3 {
                Command::for_lookup(Lookup::Verify, parse_id(args[2].as_str()))
            } else {
                Command::Usage(Usage::Verify)
            }
        } else if *verb == String::from_str("recall") {
            if args.len() == 3 {
                Command::for_lookup(Lookup::Recall, parse_id(args[2].as_str()))
            } else {
                Command::Usage(Usage::Recall)
            }
        } else {
            Command::Usage(Usage::UnknownCommand)
        }
    }
}

} // verus!
