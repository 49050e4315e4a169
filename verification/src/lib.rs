//! Event-forwarding bridge: consumes events from a partitioned log or a
//! persistent socket stream, normalizes them into a canonical envelope, and
//! forwards each one to a single HTTP sink with a bounded, classified retry
//! policy.
//!
//! This crate holds the verified core: outcome classification, the retry
//! engine, the two ingestion state machines, and configuration parsing.
//! The surrounding process (transport clients, HTTP calls, sleeping) drives
//! these state machines from outside.

pub mod config;
pub mod envelope;
pub mod pipeline;
pub mod sender;
pub mod strutil;
