//! The operators on references, and the operators that assign.  Each hands
//! its operands to the operator on values, and requires and gives what that
//! operator requires and gives.
use crate::element::GF;
use std::ops::{Add, AddAssign, Div, DivAssign, Mul, MulAssign, Sub, SubAssign};
use vstd::prelude::*;
use vstd::std_specs::ops::{
    AddSpec, AddSpecImpl, DivSpec, DivSpecImpl, MulSpec, MulSpecImpl, SubSpec, SubSpecImpl,
};

verus! {

impl<T> Add<&GF<T>> for GF<T> where GF<T>: Copy, GF<T>: Add<GF<T>, Output = GF<T>> {
    type Output = GF<T>;

    /// The sum of a value and a reference.
    fn add(self, rhs: &GF<T>) -> (r: GF<T>) {
        self.add(*rhs)
    }
}

impl<T> AddSpecImpl<&GF<T>> for GF<T> where GF<T>: Copy, GF<T>: Add<GF<T>, Output = GF<T>> {
    open spec fn obeys_add_spec() -> bool {
        <GF<T> as AddSpec<GF<T>>>::obeys_add_spec()
    }

    open spec fn add_req(self, rhs: &GF<T>) -> bool {
        <GF<T> as AddSpec<GF<T>>>::add_req(self, *rhs)
    }

    open spec fn add_spec(self, rhs: &GF<T>) -> GF<T> {
        <GF<T> as AddSpec<GF<T>>>::add_spec(self, *rhs)
    }
}

impl<T> Add<GF<T>> for &GF<T> where GF<T>: Copy, GF<T>: Add<GF<T>, Output = GF<T>> {
    type Output = GF<T>;

    /// The sum of a reference and a value.
    fn add(self, rhs: GF<T>) -> (r: GF<T>) {
        (*self).add(rhs)
    }
}

impl<T> AddSpecImpl<GF<T>> for &GF<T> where GF<T>: Copy, GF<T>: Add<GF<T>, Output = GF<T>> {
    open spec fn obeys_add_spec() -> bool {
        <GF<T> as AddSpec<GF<T>>>::obeys_add_spec()
    }

    open spec fn add_req(self, rhs: GF<T>) -> bool {
        <GF<T> as AddSpec<GF<T>>>::add_req(*self, rhs)
    }

    open spec fn add_spec(self, rhs: GF<T>) -> GF<T> {
        <GF<T> as AddSpec<GF<T>>>::add_spec(*self, rhs)
    }
}

impl<T> Add<&GF<T>> for &GF<T> where GF<T>: Copy, GF<T>: Add<GF<T>, Output = GF<T>> {
    type Output = GF<T>;

    /// The sum of two references.
    fn add(self, rhs: &GF<T>) -> (r: GF<T>) {
        (*self).add(*rhs)
    }
}

impl<T> AddSpecImpl<&GF<T>> for &GF<T> where GF<T>: Copy, GF<T>: Add<GF<T>, Output = GF<T>> {
    open spec fn obeys_add_spec() -> bool {
        <GF<T> as AddSpec<GF<T>>>::obeys_add_spec()
    }

    open spec fn add_req(self, rhs: &GF<T>) -> bool {
        <GF<T> as AddSpec<GF<T>>>::add_req(*self, *rhs)
    }

    open spec fn add_spec(self, rhs: &GF<T>) -> GF<T> {
        <GF<T> as AddSpec<GF<T>>>::add_spec(*self, *rhs)
    }
}

impl<T> Sub<&GF<T>> for GF<T> where GF<T>: Copy, GF<T>: Sub<GF<T>, Output = GF<T>> {
    type Output = GF<T>;

    /// The difference of a value and a reference.
    fn sub(self, rhs: &GF<T>) -> (r: GF<T>) {
        self.sub(*rhs)
    }
}

impl<T> SubSpecImpl<&GF<T>> for GF<T> where GF<T>: Copy, GF<T>: Sub<GF<T>, Output = GF<T>> {
    open spec fn obeys_sub_spec() -> bool {
        <GF<T> as SubSpec<GF<T>>>::obeys_sub_spec()
    }

    open spec fn sub_req(self, rhs: &GF<T>) -> bool {
        <GF<T> as SubSpec<GF<T>>>::sub_req(self, *rhs)
    }

    open spec fn sub_spec(self, rhs: &GF<T>) -> GF<T> {
        <GF<T> as SubSpec<GF<T>>>::sub_spec(self, *rhs)
    }
}

impl<T> Sub<GF<T>> for &GF<T> where GF<T>: Copy, GF<T>: Sub<GF<T>, Output = GF<T>> {
    type Output = GF<T>;

    /// The difference of a reference and a value.
    fn sub(self, rhs: GF<T>) -> (r: GF<T>) {
        (*self).sub(rhs)
    }
}

impl<T> SubSpecImpl<GF<T>> for &GF<T> where GF<T>: Copy, GF<T>: Sub<GF<T>, Output = GF<T>> {
    open spec fn obeys_sub_spec() -> bool {
        <GF<T> as SubSpec<GF<T>>>::obeys_sub_spec()
    }

    open spec fn sub_req(self, rhs: GF<T>) -> bool {
        <GF<T> as SubSpec<GF<T>>>::sub_req(*self, rhs)
    }

    open spec fn sub_spec(self, rhs: GF<T>) -> GF<T> {
        <GF<T> as SubSpec<GF<T>>>::sub_spec(*self, rhs)
    }
}

impl<T> Sub<&GF<T>> for &GF<T> where GF<T>: Copy, GF<T>: Sub<GF<T>, Output = GF<T>> {
    type Output = GF<T>;

    /// The difference of two references.
    fn sub(self, rhs: &GF<T>) -> (r: GF<T>) {
        (*self).sub(*rhs)
    }
}

impl<T> SubSpecImpl<&GF<T>> for &GF<T> where GF<T>: Copy, GF<T>: Sub<GF<T>, Output = GF<T>> {
    open spec fn obeys_sub_spec() -> bool {
        <GF<T> as SubSpec<GF<T>>>::obeys_sub_spec()
    }

    open spec fn sub_req(self, rhs: &GF<T>) -> bool {
        <GF<T> as SubSpec<GF<T>>>::sub_req(*self, *rhs)
    }

    open spec fn sub_spec(self, rhs: &GF<T>) -> GF<T> {
        <GF<T> as SubSpec<GF<T>>>::sub_spec(*self, *rhs)
    }
}

impl<T> Mul<&GF<T>> for GF<T> where GF<T>: Copy, GF<T>: Mul<GF<T>, Output = GF<T>> {
    type Output = GF<T>;

    /// The product of a value and a reference.
    fn mul(self, rhs: &GF<T>) -> (r: GF<T>) {
        self.mul(*rhs)
    }
}

impl<T> MulSpecImpl<&GF<T>> for GF<T> where GF<T>: Copy, GF<T>: Mul<GF<T>, Output = GF<T>> {
    open spec fn obeys_mul_spec() -> bool {
        <GF<T> as MulSpec<GF<T>>>::obeys_mul_spec()
    }

    open spec fn mul_req(self, rhs: &GF<T>) -> bool {
        <GF<T> as MulSpec<GF<T>>>::mul_req(self, *rhs)
    }

    open spec fn mul_spec(self, rhs: &GF<T>) -> GF<T> {
        <GF<T> as MulSpec<GF<T>>>::mul_spec(self, *rhs)
    }
}

impl<T> Mul<GF<T>> for &GF<T> where GF<T>: Copy, GF<T>: Mul<GF<T>, Output = GF<T>> {
    type Output = GF<T>;

    /// The product of a reference and a value.
    fn mul(self, rhs: GF<T>) -> (r: GF<T>) {
        (*self).mul(rhs)
    }
}

impl<T> MulSpecImpl<GF<T>> for &GF<T> where GF<T>: Copy, GF<T>: Mul<GF<T>, Output = GF<T>> {
    open spec fn obeys_mul_spec() -> bool {
        <GF<T> as MulSpec<GF<T>>>::obeys_mul_spec()
    }

    open spec fn mul_req(self, rhs: GF<T>) -> bool {
        <GF<T> as MulSpec<GF<T>>>::mul_req(*self, rhs)
    }

    open spec fn mul_spec(self, rhs: GF<T>) -> GF<T> {
        <GF<T> as MulSpec<GF<T>>>::mul_spec(*self, rhs)
    }
}

impl<T> Mul<&GF<T>> for &GF<T> where GF<T>: Copy, GF<T>: Mul<GF<T>, Output = GF<T>> {
    type Output = GF<T>;

    /// The product of two references.
    fn mul(self, rhs: &GF<T>) -> (r: GF<T>) {
        (*self).mul(*rhs)
    }
}

impl<T> MulSpecImpl<&GF<T>> for &GF<T> where GF<T>: Copy, GF<T>: Mul<GF<T>, Output = GF<T>> {
    open spec fn obeys_mul_spec() -> bool {
        <GF<T> as MulSpec<GF<T>>>::obeys_mul_spec()
    }

    open spec fn mul_req(self, rhs: &GF<T>) -> bool {
        <GF<T> as MulSpec<GF<T>>>::mul_req(*self, *rhs)
    }

    open spec fn mul_spec(self, rhs: &GF<T>) -> GF<T> {
        <GF<T> as MulSpec<GF<T>>>::mul_spec(*self, *rhs)
    }
}

impl<T> Div<&GF<T>> for GF<T> where GF<T>: Copy, GF<T>: Div<GF<T>, Output = GF<T>> {
    type Output = GF<T>;

    /// The quotient of a value and a reference.
    fn div(self, rhs: &GF<T>) -> (r: GF<T>) {
        self.div(*rhs)
    }
}

impl<T> DivSpecImpl<&GF<T>> for GF<T> where GF<T>: Copy, GF<T>: Div<GF<T>, Output = GF<T>> {
    open spec fn obeys_div_spec() -> bool {
        <GF<T> as DivSpec<GF<T>>>::obeys_div_spec()
    }

    open spec fn div_req(self, rhs: &GF<T>) -> bool {
        <GF<T> as DivSpec<GF<T>>>::div_req(self, *rhs)
    }

    open spec fn div_spec(self, rhs: &GF<T>) -> GF<T> {
        <GF<T> as DivSpec<GF<T>>>::div_spec(self, *rhs)
    }
}

impl<T> Div<GF<T>> for &GF<T> where GF<T>: Copy, GF<T>: Div<GF<T>, Output = GF<T>> {
    type Output = GF<T>;

    /// The quotient of a reference and a value.
    fn div(self, rhs: GF<T>) -> (r: GF<T>) {
        (*self).div(rhs)
    }
}

impl<T> DivSpecImpl<GF<T>> for &GF<T> where GF<T>: Copy, GF<T>: Div<GF<T>, Output = GF<T>> {
    open spec fn obeys_div_spec() -> bool {
        <GF<T> as DivSpec<GF<T>>>::obeys_div_spec()
    }

    open spec fn div_req(self, rhs: GF<T>) -> bool {
        <GF<T> as DivSpec<GF<T>>>::div_req(*self, rhs)
    }

    open spec fn div_spec(self, rhs: GF<T>) -> GF<T> {
        <GF<T> as DivSpec<GF<T>>>::div_spec(*self, rhs)
    }
}

impl<T> Div<&GF<T>> for &GF<T> where GF<T>: Copy, GF<T>: Div<GF<T>, Output = GF<T>> {
    type Output = GF<T>;

    /// The quotient of two references.
    fn div(self, rhs: &GF<T>) -> (r: GF<T>) {
        (*self).div(*rhs)
    }
}

impl<T> DivSpecImpl<&GF<T>> for &GF<T> where GF<T>: Copy, GF<T>: Div<GF<T>, Output = GF<T>> {
    open spec fn obeys_div_spec() -> bool {
        <GF<T> as DivSpec<GF<T>>>::obeys_div_spec()
    }

    open spec fn div_req(self, rhs: &GF<T>) -> bool {
        <GF<T> as DivSpec<GF<T>>>::div_req(*self, *rhs)
    }

    open spec fn div_spec(self, rhs: &GF<T>) -> GF<T> {
        <GF<T> as DivSpec<GF<T>>>::div_spec(*self, *rhs)
    }
}

impl<T, U> AddAssign<U> for GF<T> where GF<T>: Copy, GF<T>: Add<U, Output = GF<T>> {
    /// Adds `rhs` to `self` in place.
    fn add_assign(&mut self, rhs: U)
        requires
            <GF<T> as AddSpec<U>>::add_req(*old(self), rhs),
        ensures
            <GF<T> as AddSpec<U>>::obeys_add_spec() ==> *final(self) == <GF<T> as AddSpec<U>>::add_spec(*old(self), rhs),
    {
        *self = (*self).add(rhs);
    }
}

impl<T, U> SubAssign<U> for GF<T> where GF<T>: Copy, GF<T>: Sub<U, Output = GF<T>> {
    /// Subtracts `rhs` from `self` in place.
    fn sub_assign(&mut self, rhs: U)
        requires
            <GF<T> as SubSpec<U>>::sub_req(*old(self), rhs),
        ensures
            <GF<T> as SubSpec<U>>::obeys_sub_spec() ==> *final(self) == <GF<T> as SubSpec<U>>::sub_spec(*old(self), rhs),
    {
        *self = (*self).sub(rhs);
    }
}

impl<T, U> MulAssign<U> for GF<T> where GF<T>: Copy, GF<T>: Mul<U, Output = GF<T>> {
    /// Multiplies `self` by `rhs` in place.
    fn mul_assign(&mut self, rhs: U)
        requires
            <GF<T> as MulSpec<U>>::mul_req(*old(self), rhs),
        ensures
            <GF<T> as MulSpec<U>>::obeys_mul_spec() ==> *final(self) == <GF<T> as MulSpec<U>>::mul_spec(*old(self), rhs),
    {
        *self = (*self).mul(rhs);
    }
}

impl<T, U> DivAssign<U> for GF<T> where GF<T>: Copy, GF<T>: Div<U, Output = GF<T>> {
    /// Divides `self` by `rhs` in place.
    fn div_assign(&mut self, rhs: U)
        requires
            <GF<T> as DivSpec<U>>::div_req(*old(self), rhs),
        ensures
            <GF<T> as DivSpec<U>>::obeys_div_spec() ==> *final(self) == <GF<T> as DivSpec<U>>::div_spec(*old(self), rhs),
    {
        *self = (*self).div(rhs);
    }
}

} // verus!
