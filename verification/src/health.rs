//! The liveness endpoint: one route with a fixed plain-text body.
//!
//! It shares nothing with the dispatcher. It is there so that the process
//! presents an open port to its host.

use vstd::prelude::*;

verus! {

/// gotham's `State`, the container that the web framework hands to a handler
/// with each request. It is opaque here: the relay hands it through untouched
/// and never looks inside.
#[verifier::external_type_specification]
#[verifier::external_body]
pub struct ExRequestState(gotham::state::State);

/// The body of every reply.
pub const HELLO_WORLD: &'static str = "Hello World!";

/// Handles a request to the liveness route: the state goes back as it came,
/// with the fixed body.
pub fn say_hello(state: gotham::state::State) -> (reply: (gotham::state::State, &'static str))
    ensures
        reply.0 == state,
        reply.1@ == HELLO_WORLD@,
{
    (state, HELLO_WORLD)
}

} // verus!
