//! The role of a tunnel endpoint and whether it is forwarding.

use vstd::prelude::*;

verus! {

/// The role of an endpoint.
#[derive(Clone, Copy, Debug, PartialEq, Eq, Structural)]
pub enum Mode {
    Server,
    Client,
}

/// Whether an endpoint is forwarding.
#[derive(Clone, Copy, Debug, PartialEq, Eq, Structural)]
pub enum State {
    Running,
    Down,
}

} // verus!
