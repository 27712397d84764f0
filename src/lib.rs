//! Typed notifications of a SIP server's event interface: the event model,
//! its JSON wire form, and the decisions of the datagram receiver loop.
pub mod codec;
pub mod events;
pub mod json;
pub mod receiver;
