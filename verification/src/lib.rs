//! A bridge between a host that issues requests from its own event loop and a
//! remote-control playback session that lives on a dedicated thread.
//!
//! The crate holds the rules of that bridge as plain state machines: the
//! encoding of player events into host records, the FIFO command channel with
//! its dispatcher, the event forwarder, and the start-up sequence. Threads,
//! locks and the host runtime are supplied by the embedding program.

pub mod track;
pub mod record;
pub mod event;
pub mod command;
pub mod fifo;
pub mod forwarder;
pub mod bootstrap;
