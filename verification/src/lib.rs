//! Core logic of a rollup operator node: transaction admission with fee
//! enforcement, and ordered, atomic block commit / proof application.

use vstd::prelude::*;

pub mod admission;
pub mod batch;
pub mod codec;
pub mod committer;
pub mod decimal;
pub mod error;
pub mod types;

verus! {

/// Mode in which the operator process is started: either perform the one-time
/// genesis initialization, or launch the long-running services.
#[derive(Debug, Clone, Copy)]
pub enum ServerCommand {
    Genesis,
    Launch,
}

} // verus!
