//! The entities the core works on.

pub mod conditionals;
pub mod db;
pub mod payloads;
