//! Scan orchestration engine for a fleet compliance audit: a check registry
//! with exclusion and ordered execution, a credential vault over an AEAD
//! cipher, the per-device scan lifecycle, and the pattern-matching utility
//! exposed to check scripts.

pub mod models;
pub mod text;
pub mod crypto;
pub mod scanner;
pub mod lifecycle;
pub mod pattern;
pub mod config;
