//! Bridges MongoDB change-stream events into Redis pub/sub messages in the
//! `cultofcoders:redis-oplog` protocol: a server-side aggregation pipeline
//! normalizes each change, a batched publisher fans every event out to its
//! Redis channels, and an EJSON encoder produces the exact payload shape
//! Meteor clients expect.

pub mod config;
pub mod csv;
pub mod ejson;
pub mod event;
pub mod json;
pub mod mongo;
pub mod redis;
pub mod value;
