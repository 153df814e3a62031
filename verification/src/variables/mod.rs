//! The variables that are optimised over: elements of Lie groups.
//!
//! Every variable type has an identity, an inverse, a composition, and the
//! maps `exp` and `log` between the group and its tangent space. The
//! retraction is the right one: `x (+) xi = x * exp(xi)` and
//! `x (-) y = log(y^-1 * x)`.


pub mod se2;
pub mod se3;
pub mod so2;
pub mod so3;
pub mod traits;
pub mod var;
pub mod vector;


pub use se2::SE2;
pub use se3::SE3;
pub use so2::SO2;
pub use so3::SO3;
pub use var::{Var, VarModel};
pub use vector::VectorVar;
pub use traits::{MatrixLieGroup, Variable, VariableSafe};
