//! Domain core of a newsletter-subscription service.
//!
//! Raw form input is parsed into validated subscriber names and e-mail
//! addresses; a record pairing the two can only be built through the
//! validating assembler, so every live record holds already-valid fields.

pub mod config;
pub mod domain;
