//! Lower-layer failures that a failure domain wraps.
use vstd::prelude::*;

verus! {

/// A failure of a lower layer (an I/O error, a network error, a decoder
/// error), kept as the two texts that describe it: the message meant for
/// people and the full internal rendering.
#[derive(Debug, PartialEq, Eq)]
pub struct Cause {
    /// The message of the failure.
    pub message: String,
    /// The internal rendering of the failure, with its structure.
    pub debug: String,
}

impl Cause {
    /// Makes a cause from its two texts.
    pub fn new(message: &str, debug: &str) -> (r: Cause)
        ensures
            r.message@ == message@,
            r.debug@ == debug@,
    {
        Cause { message: String::from_str(message), debug: String::from_str(debug) }
    }
}

} // verus!
