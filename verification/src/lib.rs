//! A fan-out producer/consumer coordination library.
//!
//! Producers emit uniquely identified messages onto a broadcast channel;
//! every consumer observes every message, and the fleet deduplicates so
//! that exactly one consumer processes each message. A shared registry
//! records each message's emit time and first-consumption time, and a
//! reporting step turns the finished registry into per-message latencies.

pub mod consumed;
pub mod consumer;
pub mod coordinator;
pub mod delay;
pub mod producer;
pub mod registry;
