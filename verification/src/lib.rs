//! Clipboard sharing pipeline: classify what the clipboard holds, build the
//! matching upload request, interpret the service's reply, and serialise
//! hotkey presses into sequential runs.
//!
//! Everything here works on plain values. Reading and writing the clipboard,
//! reading files, and the network exchange are performed by the caller, which
//! feeds their outcomes to the state machines of [`pipeline`] and
//! [`dispatcher`].

pub mod classify;
pub mod config;
pub mod dispatcher;
pub mod encode;
pub mod hotkey;
pub mod pipeline;
pub mod snapshot;
pub mod upload;
