//! Sign-in logic of a gRPC account service: which identity provider is asked and
//! with what, how the provider's answers and the user store's answer decide the
//! outcome, and how the signed-in user's identifier and token claims are derived.
//! The network, the database and token signing are performed by the caller, which
//! drives [`login::LoginFlow`] one event at a time.

use vstd::prelude::*;

pub mod error;
pub mod identity;
pub mod clock;
pub mod json_object;
pub mod oauth;
pub mod user_store;
pub mod login;
pub mod laws;

verus! {

/// An empty hook of the service module: it takes nothing, returns nothing and does no work.
pub fn test() {
}

} // verus!
