//! Decoding of the messages of PostgreSQL's `pgoutput` logical replication
//! plugin.
pub mod wire;
pub mod options;
pub mod utils;
pub mod events;
