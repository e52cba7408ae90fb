//! Ingestion logic of a chain indexer: locating the oldest block a node still
//! holds, planning and retrying range downloads, classifying the messages of
//! each transaction and naming the records under which they are stored.

pub mod checkpoint;
pub mod classify;
pub mod codec;
pub mod controller;
pub mod counters;
pub mod fetch;
pub mod key;
pub mod locator;
pub mod message;
pub mod scan;
pub mod schedule;
pub mod store;
