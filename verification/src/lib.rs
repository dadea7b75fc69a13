//! Recommended configurations for automatic setup: per launcher, which
//! capabilities may be enabled automatically and which catalog models fill
//! each of a capability's model slots, together with the rule that decides
//! which entry applies to a launcher.

pub mod schema;
pub mod string_match;
pub mod resolution;
pub mod laws;
pub mod builtin;
