//! What the command layer hands to the error type.

use vstd::prelude::*;

verus! {

/// The status word that closes every response of the device: its two status
/// bytes, read as one number.
///
/// Every value of two bytes is a status word; which of them the device uses,
/// and what each means, is the firmware's business.
#[derive(Debug, Clone, Copy, PartialEq, Eq, Structural)]
pub struct StatusWord {
    pub code: u16,
}

} // verus!
