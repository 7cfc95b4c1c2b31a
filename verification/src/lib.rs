//! The protocol engine of a reverse-tunnel client: the envelopes exchanged
//! with the relay, their JSON text, the decision what to do with an inbound
//! command, and the reconnect cycle as a state machine.

pub mod json;
pub mod codec;
pub mod dispatch;
pub mod settings;
pub mod supervisor;

