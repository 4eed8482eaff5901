//! Subscriber intake pipeline for a newsletter service.
//!
//! The library validates a subscriber's display name and email address,
//! aggregates them into a trusted record, prepares the row that the storage
//! backend persists, and maps every pipeline outcome onto the external
//! HTTP status contract.

pub mod domain;
pub mod error;
pub mod persistence;
pub mod routes;
