//! Pages of the interface.

pub mod settings;
pub mod other_tools;
