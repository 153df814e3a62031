//! Nonlinear least squares over factor graphs, for sensor fusion in
//! robotics.
//!
//! The library finds the variables that minimise the sum, over the factors
//! of a graph, of a robust loss of the whitened residual of each factor:
//!
//! - [`variables`]: the unknowns, elements of the Lie groups SO(2), SE(2),
//!   SO(3) and SE(3), and vectors. Steps are taken in the tangent space and
//!   retracted onto the variable from the right.
//! - [`residuals`], [`noise`], [`robust`]: what a factor measures, how its
//!   residual is whitened, and how much a residual of a given size counts.
//! - [`containers`]: the keys, the values under them in the order of their
//!   insertion, the factors, and the graph of the factors.
//! - [`linear`]: the Jacobian and the error of all factors, laid out by the
//!   order of the variables and of the factors, and the step they give.
//! - [`optimizers`]: Gauss-Newton and Levenberg-Marquardt.
//! - [`linalg`]: scalars, dual numbers, dense matrices, the Cholesky
//!   factorisation, and differentiation in forward mode.
//! - [`dsl`]: the rules of the shorthand that builds a factor.
//!
//! Everything is written once, for every scalar type that implements
//! [`linalg::Numeric`]: a floating-point number to evaluate, and a
//! [`linalg::dual::Dual`] number over it to differentiate. A scalar has a
//! model, its mathematical value, and every contract states the result of a
//! function over the models of its arguments. No law of the arithmetic is
//! assumed, so what is proved holds for rounding arithmetic as it does for
//! exact arithmetic: that each function computes the formula that its
//! contract names, on vectors and matrices of the right shapes, without
//! running out of bounds.
//!
//! One thing is asked of a scalar type: that the result of an operation is
//! a function of its operands. IEEE 754 gives that for the four basic
//! operations and the square root of floating-point numbers. Rust's
//! standard library does not give it for the sine, the cosine, the
//! arctangent, the exponential and the logarithm; see [`linalg::numeric`].

pub mod containers;
pub mod dsl;
pub mod linalg;
pub mod linear;
pub mod noise;
pub mod optimizers;
pub mod residuals;
pub mod robust;
pub mod variables;
