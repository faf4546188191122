//! The session core of a real-time exchange server: the per-connection
//! state machine, the command dispatcher and its effects, subscription
//! routing, and the streaming join that builds the initial snapshot.

use vstd::prelude::*;

pub mod decimal;
pub mod messages;
pub mod store;
pub mod dispatch;
pub mod effects;
pub mod session;
pub mod hub;
pub mod snapshot;

verus! {

} // verus!
