//! Dispatchers for the standard scoped effects Bracket, Local and Span.

pub mod bracket;
pub mod local;
pub mod span;
