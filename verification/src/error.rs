//! What can go wrong while the bridge handles an intercepted operation.

use vstd::prelude::*;

use crate::event::Operation;

verus! {

/// A defect in how the bridge was set up. None of these is recovered from.
#[derive(Clone, Copy, Debug, PartialEq, Eq, Structural)]
pub enum BridgeError {
    /// An operation arrived for a surface that has no handler attached.
    MissingHandler { surface: u64 },
    /// The platform has no stock routine for the operation.
    UnresolvableDefault { kind: Operation },
}

impl BridgeError {
    /// The diagnostic that goes with this error.
    pub open spec fn spec_message(self) -> Seq<char> {
        match self {
            BridgeError::MissingHandler { .. } => "no drag-and-drop handler is attached to the surface"@,
            BridgeError::UnresolvableDefault { .. } => "the platform has no stock routine for the drag operation"@,
        }
    }

    /// The diagnostic that goes with this error.
    pub fn message(&self) -> (text: &'static str)
        ensures
            text@ == self.spec_message(),
    {
        match self {
            BridgeError::MissingHandler { .. } => "no drag-and-drop handler is attached to the surface",
            BridgeError::UnresolvableDefault { .. } => "the platform has no stock routine for the drag operation",
        }
    }
}

} // verus!
