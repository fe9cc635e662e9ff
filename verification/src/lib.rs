//! The client side of the RPKI to Router protocol, RTR for short.
//!
//! A [`client::Client`] keeps a set of validated RPKI payload, the VRPs, in
//! sync with a server. It decides what to send, what to read next, how to
//! treat what was read and when to ask again. The socket and the timers are
//! the business of a driver: it carries out the [`session::Command`]s that the
//! client hands out and reports back with [`session::Event`]s.
//!
//! * [`client`] holds the client itself.
//! * [`target`] holds the two traits through which received data leaves it.
//! * [`session`] holds what a client remembers of its conversation and the
//!   vocabulary of commands and events.
//! * [`pdu`] turns protocol data units into bytes and back.
//! * [`laws`] states what holds of a conversation as a whole.
//! * [`step_laws`] states what each step of a conversation does.
//! * [`pdu_laws`] states where on the wire the fields of a PDU are.
//! * [`function_laws`] states what the functions make of what they are given.

pub mod client;
pub mod clock;
pub mod failure;
pub mod function_laws;
pub mod laws;
pub mod payload;
pub mod pdu;
pub mod pdu_laws;
pub mod session;
pub mod state;
pub mod step_laws;
pub mod target;
pub mod wire;
