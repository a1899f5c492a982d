//! What the policy interpreter hands to the error type.

use vstd::prelude::*;

verus! {

/// The failure of the policy interpreter: the cause for which it turned a
/// spending condition down, or could not evaluate it.
///
/// The interpreter numbers its causes. The client never looks at the number:
/// it carries the value to its caller as it came.
#[derive(Debug, Clone, Copy, PartialEq, Eq, Structural)]
pub struct InterpreterError {
    pub cause: u32,
}

} // verus!
