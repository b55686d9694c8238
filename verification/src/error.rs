//! The faults that end an actor.

use vstd::prelude::*;

verus! {

/// Why an actor had to stop.  Faults of the script itself are not among
/// these: the harness around a script catches and prints them.
#[derive(Clone, Copy, Debug, PartialEq, Eq, Structural)]
pub enum HostError {
    /// A bootstrap or script resource could not be read.
    ResourceError,
    /// A message was malformed: a required field is missing or has the wrong
    /// shape, or an opcode or event level is not known.
    ProtocolError,
    /// A message addresses the document in a way its state does not allow.
    InvariantViolation,
}

} // verus!
