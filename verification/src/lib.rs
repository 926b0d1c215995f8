//! Core of a chat bridge between a persistent virtual-world chat and a team
//! relay channel: command parsing, relay-binding lookup, message forwarding in
//! both directions, command bridging, and the navigate-then-interact task
//! state machine.  Network transports and the movement collaborator are
//! external; this crate works on plain event values and returns the actions
//! the surrounding process must perform.

pub mod command;
pub mod dispatch;
pub mod registry;
pub mod relay;
pub mod task;
pub mod text;
