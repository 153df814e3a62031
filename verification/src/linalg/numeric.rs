//! The capability set that every scalar type provides.
//!
//! The library computes with any type that implements [`Numeric`]. Such a
//! type names the mathematical values that its scalars hold, a type that
//! implements [`Scalar`], and promises of each operation that it returns a
//! scalar holding what the operation of the same name gives on the values
//! of the operands. That promise is all that the library takes on trust of
//! a scalar type, and it is not checked where the type is implemented
//! outside verified code. It says that an operation's result is a function
//! of its operands. For floating-point numbers that holds of addition,
//! subtraction, multiplication, division and the square root, whose results
//! IEEE 754 fixes. It is not given for the sine, the cosine, the
//! arctangent, the exponential and the logarithm of Rust's standard
//! library, whose precision is documented as open, from platform to
//! platform and from call to call: what is proved of a function that uses
//! one of these five holds of floating-point numbers as far as the
//! platform's mathematical library returns one result for one operand.

use vstd::prelude::*;

verus! {

/// The arithmetic of a scalar's mathematical values.
///
/// Nothing is assumed of the operations, no law of a field and no order:
/// an implementor with rounding arithmetic satisfies this trait as well as
/// one with exact arithmetic does.
pub trait Scalar: Sized {
    /// The value closest to `num / den`.
    spec fn ratio(num: i64, den: i64) -> Self;

    spec fn add(self, rhs: Self) -> Self;

    spec fn sub(self, rhs: Self) -> Self;

    spec fn mul(self, rhs: Self) -> Self;

    spec fn div(self, rhs: Self) -> Self;

    spec fn neg(self) -> Self;

    spec fn sqrt(self) -> Self;

    spec fn sin(self) -> Self;

    spec fn cos(self) -> Self;

    /// The angle of the point `(rhs, self)`, with `self` the ordinate.
    spec fn atan2(self, rhs: Self) -> Self;

    spec fn exp(self) -> Self;

    spec fn ln(self) -> Self;

    /// Strictly less than.
    spec fn lt(self, rhs: Self) -> bool;

    /// Numerically equal, which two different values can be, and a value
    /// need not be to itself.
    spec fn equals(self, rhs: Self) -> bool;

    /// Whether the sign is positive (a positive zero included).
    spec fn is_sign_positive(self) -> bool;
}

/// A scalar that can be computed with: each operation returns the value that
/// the model's operation of the same name gives on the operands' values.
pub trait Numeric: Sized {
    /// The mathematical values of this scalar type.
    type M: Scalar;

    /// The value that `self` holds.
    spec fn view(&self) -> Self::M;

    /// The scalar closest to `num / den`.
    fn from_ratio(num: i64, den: i64) -> (r: Self)
        ensures
            r@ == Self::M::ratio(num, den),
    ;

    fn copy(&self) -> (r: Self)
        ensures
            r@ == self@,
    ;

    fn add(&self, rhs: &Self) -> (r: Self)
        ensures
            r@ == self@.add(rhs@),
    ;

    fn sub(&self, rhs: &Self) -> (r: Self)
        ensures
            r@ == self@.sub(rhs@),
    ;

    fn mul(&self, rhs: &Self) -> (r: Self)
        ensures
            r@ == self@.mul(rhs@),
    ;

    fn div(&self, rhs: &Self) -> (r: Self)
        ensures
            r@ == self@.div(rhs@),
    ;

    fn neg(&self) -> (r: Self)
        ensures
            r@ == self@.neg(),
    ;

    fn sqrt(&self) -> (r: Self)
        ensures
            r@ == self@.sqrt(),
    ;

    fn sin(&self) -> (r: Self)
        ensures
            r@ == self@.sin(),
    ;

    fn cos(&self) -> (r: Self)
        ensures
            r@ == self@.cos(),
    ;

    fn atan2(&self, rhs: &Self) -> (r: Self)
        ensures
            r@ == self@.atan2(rhs@),
    ;

    fn exp(&self) -> (r: Self)
        ensures
            r@ == self@.exp(),
    ;

    fn ln(&self) -> (r: Self)
        ensures
            r@ == self@.ln(),
    ;

    fn lt(&self, rhs: &Self) -> (r: bool)
        ensures
            r == self@.lt(rhs@),
    ;

    fn equals(&self, rhs: &Self) -> (r: bool)
        ensures
            r == self@.equals(rhs@),
    ;

    fn is_sign_positive(&self) -> (r: bool)
        ensures
            r == self@.is_sign_positive(),
    ;
}

/// The model's zero.
pub open spec fn zero<V: Scalar>() -> V {
    V::ratio(0, 1)
}

/// The model's one.
pub open spec fn one<V: Scalar>() -> V {
    V::ratio(1, 1)
}

/// The values that a sequence of scalars holds.
pub open spec fn models<T: Numeric>(v: Seq<T>) -> Seq<T::M> {
    Seq::new(v.len(), |i: int| v[i]@)
}

/// The absolute value, by the sign test of the order.
pub open spec fn abs_model<V: Scalar>(x: V) -> V {
    if x.lt(zero()) {
        x.neg()
    } else {
        x
    }
}

/// The greater of two values; the first where neither is less.
pub open spec fn max_model<V: Scalar>(a: V, b: V) -> V {
    if a.lt(b) {
        b
    } else {
        a
    }
}

/// The absolute value.
pub fn abs<T: Numeric>(x: &T) -> (r: T)
    ensures
        r@ == abs_model(x@),
{
    let z = T::from_ratio(0, 1);
    if x.lt(&z) {
        x.neg()
    } else {
        x.copy()
    }
}

/// The greater of two scalars; the first where neither is less.
pub fn max<T: Numeric>(a: &T, b: &T) -> (r: T)
    ensures
        r@ == max_model(a@, b@),
{
    if a.lt(b) {
        b.copy()
    } else {
        a.copy()
    }
}

} // verus!
