//! Noise models: how a residual and its Jacobian are whitened.

pub mod any;
pub mod gaussian;
pub mod unit;

pub use any::{Noise, NoiseKind};
pub use gaussian::{is_diagonal, is_isotropic, GaussianNoise, NoiseError, NoiseLayout};
pub use unit::UnitNoise;
