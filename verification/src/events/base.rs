//! The messages that every configuration of `pgoutput` sends.
pub mod begin;
pub mod commit;
pub mod tuple_data;
pub mod insert;
pub mod update;
pub mod delete;
pub mod relation_column;
pub mod relation;
pub mod truncate;
pub mod type_;
pub mod event;
