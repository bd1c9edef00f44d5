//! A client of the IPC protocol of a tiling window manager: requests and
//! replies over its socket, and the stream of events that it reports to a
//! subscriber.
use vstd::prelude::*;

pub mod errors;
pub mod events;
pub mod grammar;
pub mod numbers;
pub mod parser;
pub mod properties;
pub mod query;
pub mod selectors;
pub mod settings;
pub mod socket;
pub mod text;

mod desktop_events;
mod monitor_events;
mod node_events;
mod pointer_events;

verus! {

/// Identifier of a monitor, desktop or node.
pub type Id = u32;

} // verus!
