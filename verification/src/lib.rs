//! A replenishing pool of pre-derived hierarchical-deterministic key-derivation
//! handles ("factor instances") for a multi-factor wallet.
//!
//! The crate is organised leaves-first:
//! - [`assoc`] models lookup in the key/value containers the crate keeps;
//! - [`base`] holds the error type and the small identifier and tag types;
//! - [`derivation`] holds the derivation-path value model;
//! - [`instances`] holds the validated handle types, each constructible only
//!   through a checked factory;
//! - [`index_set`] holds the contracts assumed of indexmap's `IndexSet`, which
//!   backs the per-template groups of unused handles;
//! - [`collections`] groups validated handles per (network, factor source);
//! - [`profile`] is the read-only durable wallet state;
//! - [`index_assigner`] hands out fresh derivation indices;
//! - [`fill_cache`] sizes replenishment batches;
//! - [`cache`] is the two-level cache of unused handles;
//! - [`keys_collector`] is the batch derivation step;
//! - [`provider`] orchestrates one request end to end;
//! - [`laws`] proves the properties that relate several operations.

pub mod assoc;
pub mod base;
pub mod cache;
pub mod collections;
pub mod derivation;
pub mod fill_cache;
pub mod index_assigner;
pub mod index_set;
pub mod instances;
pub mod keys_collector;
pub mod laws;
pub mod profile;
pub mod provider;
