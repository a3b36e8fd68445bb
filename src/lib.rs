//! A multiplexed pseudo-terminal session manager: shell resolution, the session table,
//! control-message routing, the output pump's batching rules and the binary frame layout.
use vstd::prelude::*;

pub mod frame;
pub mod handler;
pub mod message;
pub mod pump;
pub mod shell;
pub mod text;

verus! {

} // verus!
