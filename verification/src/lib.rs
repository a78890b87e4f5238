//! Keyboard teleoperation bridge, verified core.
//!
//! The library holds everything the bridge decides or computes: how a raw
//! terminal key press is classified, how a directional key becomes a velocity
//! command, the wire format of the commands it publishes and of the log
//! records it receives, and the state machine of the event-multiplexing loop.
//! The surrounding process (terminal, transport session, async executor) hands
//! plain values in and carries the chosen actions out.

pub mod keys;
pub mod mux;
pub mod rosout;
pub mod twist;
pub mod wire;
