//! Keys, the values they name, and the factors that tie them together.

pub mod factor;
pub mod graph;
pub mod key;
pub mod layout;
pub mod values;

pub use factor::{Factor, FactorBuilder, FactorError, FactorModel, GraphError, Linearization};
pub use graph::Graph;
pub use key::Key;
pub use values::Values;
