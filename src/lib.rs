//! Transport core of a CQL-style database client: frame body encoding,
//! body compression and the decisions that keep one node's connection alive.

pub mod compression;
pub mod types;
pub mod query;
pub mod frame;
pub mod reconnection;
pub mod connection;
pub mod cluster;
