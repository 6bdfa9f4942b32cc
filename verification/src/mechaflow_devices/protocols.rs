//! Protocol implementations.
pub mod mqtt;
