//! The optimisers: Gauss-Newton and Levenberg-Marquardt.
//!
//! Both start at the values they are given and repeat one iteration until
//! the step or the change of the error is small, the iterations run out, or
//! the linear system cannot be solved.

pub mod gauss_newton;
pub mod leven_marquardt;
pub mod params;

pub use gauss_newton::GaussNewton;
pub use leven_marquardt::{LevenMarquardt, LmParams};
pub use params::{OptError, OptParams, Outcome};
