//! A small HTTP request engine: declarative actions are resolved into
//! outgoing requests whose shape is proved, and a batch of them is driven
//! one action at a time by a state machine that halts on the first failure.
pub mod action;
pub mod batch;
pub mod cli;
pub mod error;
pub mod header;
pub mod method;
pub mod request;
pub mod save;
