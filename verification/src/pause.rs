//! What the agent tells the layer about pausing the target container.

use vstd::prelude::*;

verus! {

/// Messages from the agent to the layer about the pause feature.
#[derive(Debug, PartialEq, Eq, Clone, Copy, Structural)]
pub enum DaemonPauseTarget {
    /// The answer to a request to pause or unpause the container.
    PauseResponse {
        /// The container changed its state.
        changed: bool,
        /// The state the container is in now.
        container_paused: bool,
    },
}

} // verus!
