//! What the platform asks of the process: its arguments, and random bytes.

use crate::text::{copy_of, same_text};
use vstd::prelude::*;

verus! {

/// The page that is loaded where none is asked for.
pub const DEFAULT_LOCATION: &'static str = "https://example.com/";

/// What the arguments of the process ask for.
#[derive(Debug, PartialEq, Eq)]
pub enum Arguments {
    /// Say how the program is used.
    Help,
    /// Load the page at this address.
    Open(String),
    /// Something that is not understood, with the message about it.
    Unexpected(String),
}

/// What the arguments ask for, as plain values.
pub ghost enum ArgumentParts {
    Help,
    Open(Seq<char>),
    Unexpected(Seq<char>),
}

impl View for Arguments {
    type V = ArgumentParts;

    open spec fn view(&self) -> ArgumentParts {
        match self {
            Arguments::Help => ArgumentParts::Help,
            Arguments::Open(location) => ArgumentParts::Open(location@),
            Arguments::Unexpected(message) => ArgumentParts::Unexpected(message@),
        }
    }
}

/// What the arguments after the name of the program ask for.
pub open spec fn asked_for(arguments: Seq<String>) -> ArgumentParts {
    if arguments.len() == 0 {
        ArgumentParts::Open(DEFAULT_LOCATION@)
    } else if arguments[0]@ == "-h"@ || arguments[0]@ == "--help"@ {
        ArgumentParts::Help
    } else if arguments.len() > 1 {
        ArgumentParts::Unexpected("unexpected argument: "@ + arguments[1]@)
    } else {
        ArgumentParts::Open(arguments[0]@)
    }
}

/// Understand the arguments after the name of the program.
pub fn parse_arguments(arguments: &Vec<String>) -> (result: Arguments)
    ensures
        result@ == asked_for(arguments@),
{
    if arguments.len() == 0 {
        return Arguments::Open(copy_of(DEFAULT_LOCATION));
    }
    if same_text(arguments[0].as_str(), "-h") || same_text(arguments[0].as_str(), "--help") {
        return Arguments::Help;
    }
    if arguments.len() > 1 {
        let mut message = copy_of("unexpected argument: ");
        message.push_str(arguments[1].as_str());
        return Arguments::Unexpected(message);
    }
    Arguments::Open(copy_of(arguments[0].as_str()))
}

/// How much of a buffer is filled once the platform has answered that it put
/// `answer` random bytes at `offset`: nothing where the answer is none that it
/// can give.
pub open spec fn filled_to(offset: int, length: int, answer: usize) -> Option<int> {
    if answer == 0 || answer == usize::MAX || answer > length - offset {
        None
    } else {
        Some(offset + answer)
    }
}

/// Take the platform's answer about random bytes at `offset` in a buffer of the
/// given length; returns how much of the buffer is filled, or nothing where the
/// platform has failed.
pub fn random_progress(offset: usize, length: usize, answer: usize) -> (result: Option<usize>)
    requires
        offset <= length,
    ensures
        match (result, filled_to(offset as int, length as int, answer)) {
            (Some(filled), Some(expected)) => filled == expected,
            (None, None) => true,
            _ => false,
        },
{
    if answer == usize::MAX || answer == 0 || answer > length - offset {
        None
    } else {
        Some(offset + answer)
    }
}

/// Filling a buffer gets on with every answer and never goes beyond its end.
pub proof fn filling_makes_progress(offset: int, length: int, answer: usize)
    requires
        0 <= offset <= length,
    ensures
        filled_to(offset, length, answer) matches Some(filled) ==> offset < filled <= length,
{
}

/// Asking for help comes first, whatever else is given; without arguments the
/// browser opens its default page, and with one argument the page of that
/// address; of more arguments the second is not understood.
pub proof fn arguments_are_understood(arguments: Seq<String>)
    ensures
        ({
            let help = arguments.len() > 0 && (arguments[0]@ == "-h"@ || arguments[0]@
                == "--help"@);
            &&& asked_for(arguments) is Help <==> help
            &&& arguments.len() == 0 ==> asked_for(arguments) == ArgumentParts::Open(
                "https://example.com/"@,
            )
            &&& arguments.len() == 1 && !help ==> asked_for(arguments) == ArgumentParts::Open(
                arguments[0]@,
            )
            &&& arguments.len() >= 2 && !help ==> asked_for(arguments)
                == ArgumentParts::Unexpected("unexpected argument: "@ + arguments[1]@)
        }),
{
}

/// An answer counts exactly if it is a number of bytes that were still missing,
/// and not none; the bytes that it counts are those after the ones before.
pub proof fn answers_count_bytes(offset: int, length: int, answer: usize)
    requires
        0 <= offset <= length < usize::MAX,
    ensures
        filled_to(offset, length, answer) is Some <==> 1 <= answer <= length - offset,
        filled_to(offset, length, answer) matches Some(filled) ==> filled - offset == answer,
{
}

} // verus!
