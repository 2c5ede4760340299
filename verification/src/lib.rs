//! A sharded key-value store: a fixed set of nodes, each owning the keys
//! whose hash falls on its partition. Any node takes any request: it serves
//! the keys it owns from its own store and has every other request
//! forwarded to the owner.
//!
//! - `sharding`: the mapping from keys to partitions, and the topology.
//! - `db`: the store of one node.
//! - `dispatch`: what a node does with a request.
//! - `cluster`: what the nodes of a cluster do together.
//! - `error`: the kinds of failure, with their status codes and messages.

pub mod cluster;
pub mod db;
pub mod dispatch;
pub mod error;
pub mod sharding;
