//! Validation core of a small post store: value objects, constraint
//! violations, validated DTOs, the post entity, the repository port and the
//! application operations built on it.

pub mod application;
pub mod auth;
pub mod error;
pub mod ids;
pub mod memory;
pub mod pagination;
pub mod posts;
pub mod repository;
pub mod timestamp;
pub mod validation;
