use vstd::prelude::*;

verus! {

/// The failures that the driver reports to its caller.
pub enum Error {
    /// The identity endpoint could not be reached, or its answer could not be read.
    Auth(String),
    /// The delivery endpoint could not be reached, or its answer could not be read.
    Transport(String),
    /// The event does not fit its schema, or the schema itself is malformed.
    Encoding(String),
}

} // verus!
