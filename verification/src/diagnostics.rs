//! What an installation is, whether its daemon answers, and how both are
//! reported to a person.

pub mod daemon;
pub mod identity;
pub mod render;
pub mod report;
