//! A real-time message relay: posted messages are fanned out over a bounded
//! broadcast channel to every open streaming connection.
//!
//! * [`message`] holds the one domain value, a `Message`.
//! * [`wire`] turns a message into the text frame sent to a streaming peer.
//! * [`channel`] is the broadcast channel with its subscriptions.
//! * [`adapter`] is the per-connection state machine that pumps messages from
//!   a subscription to its transport.
//!
//! # What is proved, and what is taken on trust
//!
//! The adapter and the framing of a message are verified against their
//! contracts, and the laws of the adapter (frames follow receipts in order, a
//! lag is tolerated, closed is final) are proved in [`adapter`].
//!
//! Two things are called, not proved. The broadcast queue is
//! `tokio::sync::broadcast`; its state is shared between all holders of a
//! handle, so the contracts in [`channel`] claim of a call only what holds
//! whatever the other holders did. The JSON string literal of a text is
//! written by `serde_json`; [`wire`] gives its outcome a name and claims only
//! that it depends on the text alone.

pub mod message;
pub mod wire;
pub mod channel;
pub mod adapter;
