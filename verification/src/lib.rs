//! A small in-process record/message mini-system: a validated record type,
//! an append-only generic container, a closed message model with a total
//! dispatcher, a guarded shared counter, and the coordinator flow that ties
//! them together.

pub mod record;
pub mod container;
pub mod numeral;
pub mod message;
pub mod counter;
pub mod config;
pub mod coordinator;
pub mod util;
