//! The messages of the `pgoutput` protocol.
pub mod base;
pub mod message;
pub mod origin;
pub mod stream;
pub mod stream_and_two_phase;
pub mod twophase;
pub mod event;
