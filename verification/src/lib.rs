//! A layered error taxonomy and resolution engine.
//!
//! The library turns heterogeneous internal failure signals (validation
//! failures, storage-backend errors, domain conditions) into one stable,
//! externally observable error representation: a numeric code, a resolved
//! human-readable message, and a transport status category, serialized
//! consistently at the service boundary.

pub mod aggregate;
pub mod catalog;
pub mod config;
pub mod codes;
pub mod document;
pub mod dto;
pub mod error;
pub mod health;
pub mod numbers;
pub mod status;
pub mod strutil;
pub mod table;
pub mod translate;

pub use status::StatusCategory;
