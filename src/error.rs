//! The error that ends the application loop.
use vstd::prelude::*;
use vstd::string::StringExecFns;

verus! {

/// The reason given when the event channel has no sender left.
pub const RECEIVE_FAILED: &'static str = "Can't receive events from parent";

/// Why a tick of the application loop failed.
#[derive(Clone, Copy, Debug, PartialEq, Eq)]
pub enum UpdateError {
    /// Every sender of the event channel is gone.
    Disconnected(&'static str),
}

impl UpdateError {
    /// A sentence for the user, naming the reason.
    pub fn message(&self) -> (r: String)
        ensures
            match *self {
                UpdateError::Disconnected(s) => r@ == "Disconnected from parent: "@ + s@,
            },
    {
        match *self {
            UpdateError::Disconnected(s) => {
                let mut m = String::from_str("Disconnected from parent: ");
                m.append(s);
                m
            },
        }
    }
}

} // verus!
