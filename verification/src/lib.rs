//! A typed command/event client layer over an opaque, asynchronous,
//! JSON-shaped transport.
//!
//! The library is organised leaf-first:
//!
//! * [`wire`] models the untyped, JSON-shaped values the transport
//!   understands;
//! * [`errors`] is the error taxonomy (transport, encode, decode,
//!   lifecycle);
//! * [`types`] is the schema catalog: the typed request/response and
//!   event-payload shapes, each with its mathematical view;
//! * [`codec`] encodes and decodes every schema to and from wire values,
//!   with proved round trips;
//! * [`events`] is the closed catalog of event tags and the decode-and-
//!   dispatch path for incoming events;
//! * [`client`] builds the transport requests for every command and
//!   interprets every transport outcome;
//! * [`handle`] is the subscription handle and its teardown state machine.
//!
//! The asynchronous foreign boundary itself is not part of the library: a
//! caller performs each built request against its transport and hands the
//! outcome back, so every decision the layer makes is a verified function
//! from plain values to plain values.

pub mod client;
pub mod codec;
pub mod errors;
pub mod events;
pub mod handle;
pub mod types;
pub mod wire;
