//! Residuals: what a factor measures of its variables.

pub mod between;
pub mod prior;
pub mod residual;
pub mod traits;

pub use between::BetweenResidual;
pub use prior::PriorResidual;
pub use residual::{CoreResidual, ResidualModel};
pub use traits::{Liftable, Residual};
