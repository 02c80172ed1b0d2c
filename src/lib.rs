//! Orchestration and query layer over an opaque thermodynamic equilibrium solver.

pub mod bracket;
pub mod datafile;
pub mod error;
pub mod native;
pub mod query;
pub mod search;
pub mod session;

pub use crate::error::ChemAppError;
pub use crate::native::SystemDimensions;
