//! Travel distance and duration between two addresses, remembered in a
//! file-backed cache so that a pair of addresses is asked of the mapping
//! service only once.
//!
//! The crate holds the decisions of that program: the cache and its rules,
//! the reading of a distance-matrix reply, the resolution of the command line
//! and the two printed lines. Reading files, the environment and the network
//! is left to the caller, which hands over what it read as plain values.

pub mod caching;
pub mod cli;
pub mod configs;
pub mod data;
pub mod lookup;
pub mod reply;
