//! Message categories for terminal output and the prefix each one is
//! printed with; the colouring and the writing happen outside this
//! crate.

use vstd::prelude::*;

verus! {

/// The categories a terminal message falls into.
#[derive(Clone, Copy, Debug, PartialEq, Eq, Structural)]
pub enum PrintMessageType {
    Warning,
    Error,
    Success,
}

/// The answer to input no prompt accepts.
pub fn invalid_input_message() -> (r: &'static str)
    ensures
        r@ == "Invalid input. Please try again."@,
{
    "Invalid input. Please try again."
}

/// The prefix a message category is printed with.
pub fn message_prefix(kind: PrintMessageType) -> (r: &'static str)
    ensures
        r@ == match kind {
            PrintMessageType::Warning => "Warning: "@,
            PrintMessageType::Error => "Error: "@,
            PrintMessageType::Success => "Success: "@,
        },
{
    match kind {
        PrintMessageType::Warning => "Warning: ",
        PrintMessageType::Error => "Error: ",
        PrintMessageType::Success => "Success: ",
    }
}

} // verus!
