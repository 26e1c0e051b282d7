//! Short paths to common items.

pub mod env;
