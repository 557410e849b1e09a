//! A read-only query gateway core for a proof-of-stake chain node.
//!
//! The crate holds the request-scoped logic of the gateway: resolving a
//! consistent epoch for a request, aggregating per-validator queries into a
//! single denormalized record, resolving a consensus-layer address to a
//! chain-native validator address, slicing the validator address space into
//! pages, and mapping errors to client-facing status codes and messages.
//! Network transport and the raw RPC plumbing live outside the crate and feed
//! the functions here with plain values.

pub mod aggregator;
pub mod config;
pub mod consensus;
pub mod epoch;
pub mod error;
pub mod listing;
pub mod pagination;
pub mod pos;
pub mod text;
pub mod token;
