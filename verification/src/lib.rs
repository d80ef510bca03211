//! Realtime state-synchronization core for a live slide presenter.
//!
//! The library holds the shared presentation state (slide counter, current
//! position, deleted slides), the decision logic that turns input events into
//! capture and position changes, the fan-out hub that delivers state updates
//! to every subscriber, the per-connection protocol state machine, and the
//! JSON wire encoding of state-update messages.

pub mod codec;
pub mod connection;
pub mod dispatch;
pub mod hub;
pub mod pipeline;
pub mod message;
pub mod state;
pub mod supervisor;
pub mod text;
