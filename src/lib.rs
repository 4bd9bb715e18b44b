//! GPU rendering-context lifecycle: capability negotiation, device selection,
//! presentation planning and an ordered, idempotent teardown sequencer.
//!
//! Every decision is made here on plain values; the driver calls themselves
//! are made by the application shell, which reports the handles it obtained.

mod handle_list;
pub mod error;
pub mod lifecycle;
pub mod presentation;
pub mod names;
pub mod negotiate;
pub mod selection;
pub mod diagnostics;
