//! Standard scoped-effect handler values.

pub mod bracket;
pub mod catch;
pub mod ref_bracket;
pub mod ref_local;
pub mod span;
pub mod raw_replacers;
