//! A verified core for an interactive serial-terminal session: the frame
//! codec that turns composed commands into byte frames and renders received
//! bytes, and the event-driven session controller that owns the port
//! lifecycle, the polled listener, and the append-only activity log.

pub mod codec;
pub mod controller;
pub mod events;
pub mod text;

use vstd::prelude::*;

verus! {

} // verus!
