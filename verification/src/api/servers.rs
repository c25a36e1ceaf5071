use vstd::prelude::*;

verus! {

/// The body of a request to register a server.
#[derive(Clone, Debug)]
pub struct CreateServerReq {
    pub name: String,
}

} // verus!
