//! The randomness source the service consumes: a high-entropy unique
//! identifier generator for session ids, and a uniformly random bit
//! for the initial turn assignment. Nothing can be promised of a
//! random value, so neither call carries a contract; every caller
//! states what holds of whatever came back.

use vstd::prelude::*;

verus! {

/// Relies on `uuid::Uuid::new_v4` (with `Uuid::as_u128`): a freshly
/// generated version-4 UUID, 122 random bits, returned as its 128-bit
/// integer value. The result is random, so nothing is promised of it;
/// the store still checks the identifier for collisions.
#[verifier::external_body]
pub(crate) fn fresh_session_id() -> u128 {
    uuid::Uuid::new_v4().as_u128()
}

/// Relies on `rand::random::<bool>`: a uniformly random boolean drawn
/// from the thread-local generator. The result is random, so nothing
/// is promised of it.
#[verifier::external_body]
pub(crate) fn random_bool() -> bool {
    rand::random::<bool>()
}

} // verus!
