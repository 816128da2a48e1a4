//! Client-side state engine for a terminal chat application.
//!
//! The crate keeps a local mirror of remote chat entities (guilds,
//! channels, messages, members) synchronized against an inbound event
//! stream and fetch results, and drives a modal keyboard controller that
//! turns key presses into editing operations and outbound intents.  All
//! transport and terminal work lives outside this crate; everything here
//! is pure logic on plain values.
//!
//! - [`store`] — the entity store and its invariants,
//! - [`sync`] — applying push events and fetch results to the store,
//! - [`mode`] — the modal key-dispatch state machine,
//! - [`input_buffer`] — the dual-cursor UTF-8 text buffer,
//! - [`auth`] — the step-based login negotiator,
//! - [`session`] — the persisted session record,
//! - [`event`] — keys in, intents out,
//! - [`text`] — character-sequence utilities and number parsing.

pub mod auth;
pub mod event;
pub mod input_buffer;
pub mod mode;
pub mod session;
pub mod store;
pub mod sync;
pub mod text;
