//! Authentication core: credential verification, session issuance and
//! validation, and identity hand-off across the cookie/header trust boundary.
//!
//! Durable state lives behind the repository ports; the engine itself is
//! stateless between calls apart from its immutable configuration.

pub mod boundary;
pub mod constants;
pub mod domain;
pub mod hashing;
pub mod memory;
pub mod registration;
pub mod repository;
pub mod service;
pub mod text;
pub mod validation;

