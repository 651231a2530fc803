//! Scoped effects as verified programs: a small effect language, the
//! scoped dispatchers and the standard scoped handlers that elaborate
//! scoped layers into it.

pub mod program;
pub mod scoped;
pub mod shift;
pub mod span;
pub mod scoped_dispatchers;
pub mod standard_scoped_handlers;
pub mod laws;
