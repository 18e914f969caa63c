//! The scalar type of the filter and the facts the contracts rely on.
use vstd::prelude::*;
use core::cmp::Ordering;
use core::ops::{Add, Div, Mul, Neg, Sub};
use vstd::std_specs::cmp::PartialOrdSpec;
use vstd::std_specs::convert::FromSpec;
use vstd::std_specs::ops::{AddSpec, DivSpec, MulSpec, NegSpec, SubSpec};

verus! {

/// A real-number type: field operations, an order, small integer constants,
/// and the few functions that the parameter compiler and pole matching need.
///
/// Nothing is assumed of `pi`. Each of `abs`, `sqrt`, `exp`, `cos` and
/// `cosh` relates its argument to its result by a relation of the type's own
/// (`exp_rel`, ...): a relation, not a function, so that a result need not
/// be the same on every call.
pub trait Real: Copy + PartialOrd + From<u8> + Add<Output = Self> + Sub<Output = Self> + Mul<
    Output = Self,
> + Div<Output = Self> + Neg<Output = Self> {
    /// The ratio of a circle's circumference to its diameter.
    fn pi() -> Self;

    /// `r` is an absolute value of `self`, as `abs` computes it.
    spec fn abs_rel(self, r: Self) -> bool;

    /// `r` is a square root of `self`, as `sqrt` computes it.
    spec fn sqrt_rel(self, r: Self) -> bool;

    /// `r` is an exponential of `self`, as `exp` computes it.
    spec fn exp_rel(self, r: Self) -> bool;

    /// `r` is a cosine of `self`, as `cos` computes it.
    spec fn cos_rel(self, r: Self) -> bool;

    /// `r` is a hyperbolic cosine of `self`, as `cosh` computes it.
    spec fn cosh_rel(self, r: Self) -> bool;

    /// The absolute value.
    fn abs(self) -> (r: Self)
        ensures
            self.abs_rel(r),
    ;

    /// The square root.
    fn sqrt(self) -> (r: Self)
        ensures
            self.sqrt_rel(r),
    ;

    /// The natural exponential.
    fn exp(self) -> (r: Self)
        ensures
            self.exp_rel(r),
    ;

    /// The cosine.
    fn cos(self) -> (r: Self)
        ensures
            self.cos_rel(r),
    ;

    /// The hyperbolic cosine.
    fn cosh(self) -> (r: Self)
        ensures
            self.cosh_rel(r),
    ;
}

/// The scalar `n`, as `From<u8>` gives it.
pub open spec fn num<S: Real>(n: u8) -> S {
    S::from_spec(n)
}

/// `a < b` under the order of `S`.
pub open spec fn lt<S: Real>(a: S, b: S) -> bool {
    a.partial_cmp_spec(&b) == Some(Ordering::Less)
}

/// `a <= b` under the order of `S`.
pub open spec fn le<S: Real>(a: S, b: S) -> bool {
    a.partial_cmp_spec(&b) matches Some(Ordering::Less | Ordering::Equal)
}

/// `a` is not zero: it does not compare equal to it.
pub open spec fn nonzero<S: Real>(a: S) -> bool {
    a.partial_cmp_spec(&num(0)) != Some(Ordering::Equal)
}

/// The larger of two scalars; the first where neither is below the other.
pub open spec fn max_spec<S: Real>(a: S, b: S) -> S {
    if lt(a, b) {
        b
    } else {
        a
    }
}

/// Every operator that the filter applies is defined on all operands:
/// none of them has a precondition that could fail.
pub open spec fn ops_total<S: Real, T: Copy + Add<Output = T> + Sub<Output = T> + Mul<
    S,
    Output = T,
> + Div<S, Output = T>>() -> bool {
    &&& forall|a: S, b: S| #[trigger] a.add_req(b)
    &&& forall|a: S, b: S| #[trigger] a.sub_req(b)
    &&& forall|a: S, b: S| #[trigger] a.mul_req(b)
    &&& forall|a: S, b: S| #[trigger] a.div_req(b)
    &&& forall|a: S| #[trigger] a.neg_req()
    &&& forall|a: T, b: T| #[trigger] a.add_req(b)
    &&& forall|a: T, b: T| #[trigger] a.sub_req(b)
    &&& forall|a: T, b: S| #[trigger] a.mul_req(b)
    &&& forall|a: T, b: S| #[trigger] a.div_req(b)
}

/// The operators of `S` and `T` compute what their abstract specifications
/// (`add_spec`, `partial_cmp_spec`, `from_spec`, ...) say.
pub open spec fn ops_obey<S: Real, T: Copy + Add<Output = T> + Sub<Output = T> + Mul<
    S,
    Output = T,
> + Div<S, Output = T>>() -> bool {
    &&& <S as AddSpec>::obeys_add_spec()
    &&& <S as SubSpec>::obeys_sub_spec()
    &&& <S as MulSpec>::obeys_mul_spec()
    &&& <S as DivSpec>::obeys_div_spec()
    &&& <S as NegSpec>::obeys_neg_spec()
    &&& <S as PartialOrdSpec>::obeys_partial_cmp_spec()
    &&& <S as FromSpec<u8>>::obeys_from_spec()
    &&& <T as AddSpec>::obeys_add_spec()
    &&& <T as SubSpec>::obeys_sub_spec()
    &&& <T as MulSpec<S>>::obeys_mul_spec()
    &&& <T as DivSpec<S>>::obeys_div_spec()
}

/// The larger of two scalars, compared as `max_spec` does.
pub fn max_of<S: Real>(a: S, b: S) -> (r: S)
    ensures
        S::obeys_partial_cmp_spec() ==> r == max_spec(a, b),
        r == a || r == b,
{
    if a < b {
        b
    } else {
        a
    }
}

} // verus!
