use vstd::prelude::*;

verus! {

/// The client credentials that the driver authenticates with.
pub struct Config {
    pub client_id: String,
    pub client_secret: String,
}

} // verus!
