//! GitCoach: the verified logic of an AI mentor for first open-source
//! contributions, shared by its chat service and its browser client.
use vstd::prelude::*;

pub mod text;
pub mod model;
pub mod errors;
pub mod context;
pub mod fallback;
pub mod links;
pub mod agent;
pub mod service;
pub mod client;

verus! {

} // verus!
