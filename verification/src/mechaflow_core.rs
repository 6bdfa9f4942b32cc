//! Foundational types: errors, values and identifiers, configuration,
//! events, the runtime's registries and time utilities.
pub mod config;
pub mod error;
pub mod event;
pub mod runtime;
pub mod types;
pub mod utils;

use vstd::prelude::*;

verus! {

/// The version of the framework.
pub const VERSION: &'static str = "0.1.0";

} // verus!
