//! The wrapper of `bool`. In the order of `bool`, `false` comes before `true`.
use crate::contract::ConstOrValue;
use crate::contract::ConstWrap;
use crate::ConstSeal;
use core::cmp::Ordering;
use vstd::prelude::*;
use vstd::std_specs::cmp::PartialEqSpecImpl;
use vstd::std_specs::cmp::PartialOrdSpecImpl;
use vstd::std_specs::convert::FromSpec;
use vstd::std_specs::convert::FromSpecImpl;

verus! {

/// A `bool` fixed in the type: `WrapBOOL<T>` has no storage and stands for `T`.
#[derive(Clone, Copy, Debug, Eq, Hash, Ord)]
pub struct WrapBOOL<const T: bool>;

impl<const T: bool> Default for WrapBOOL<T> {
    /// The one instance of the type.
    fn default() -> (r: Self)
        ensures
            r == (WrapBOOL::<T>),
    {
        WrapBOOL
    }
}

impl<const T: bool> PartialEq for WrapBOOL<T> {
    /// Two instances of one wrapper type are equal.
    fn eq(&self, other: &Self) -> (r: bool)
        ensures
            r,
    {
        true
    }
}

impl<const T: bool> PartialEqSpecImpl for WrapBOOL<T> {
    open spec fn obeys_eq_spec() -> bool {
        true
    }

    open spec fn eq_spec(&self, other: &Self) -> bool {
        true
    }
}

impl<const T: bool> PartialOrd for WrapBOOL<T> {
    /// Two instances of one wrapper type are equal in order.
    fn partial_cmp(&self, other: &Self) -> (r: Option<Ordering>)
        ensures
            r == Some(Ordering::Equal),
    {
        Some(Ordering::Equal)
    }
}

impl<const T: bool> PartialOrdSpecImpl for WrapBOOL<T> {
    open spec fn obeys_partial_cmp_spec() -> bool {
        true
    }

    open spec fn partial_cmp_spec(&self, other: &Self) -> Option<Ordering> {
        Some(Ordering::Equal)
    }
}

impl<const T: bool> ConstSeal for WrapBOOL<T> {
}

impl<const T: bool> ConstWrap for WrapBOOL<T> {
    type BaseType = bool;

    const VALUE: bool = T;
}

impl<const T: bool> ConstOrValue<bool> for WrapBOOL<T> {
    const IS_CONST: bool = true;

    open spec fn val(self) -> bool {
        T
    }

    fn get_val(self) -> (r: bool) {
        self.into()
    }
}

impl<const T: bool> From<WrapBOOL<T>> for bool {
    /// Unwraps the constant.
    fn from(w: WrapBOOL<T>) -> (r: bool)
        ensures
            r == T,
    {
        T
    }
}

impl<const T: bool> FromSpecImpl<WrapBOOL<T>> for bool {
    open spec fn obeys_from_spec() -> bool {
        true
    }

    open spec fn from_spec(w: WrapBOOL<T>) -> bool {
        T
    }
}

impl<'a, const T: bool> From<WrapBOOL<T>> for &'a bool {
    /// Borrows the constant for as long as the caller likes.
    fn from(w: WrapBOOL<T>) -> (r: &'a bool)
        ensures
            *r == T,
    {
        &T
    }
}

impl<'a, const T: bool> FromSpecImpl<WrapBOOL<T>> for &'a bool {
    open spec fn obeys_from_spec() -> bool {
        true
    }

    open spec fn from_spec(w: WrapBOOL<T>) -> &'a bool {
        &T
    }
}

impl<const T: bool> PartialEq<bool> for WrapBOOL<T> {
    /// Whether the constant equals `other`.
    fn eq(&self, other: &bool) -> (r: bool)
        ensures
            r <==> T == *other,
    {
        T.eq(other)
    }
}

impl<const T: bool> PartialEqSpecImpl<bool> for WrapBOOL<T> {
    open spec fn obeys_eq_spec() -> bool {
        true
    }

    open spec fn eq_spec(&self, other: &bool) -> bool {
        T == *other
    }
}

impl<const T: bool> PartialOrd<bool> for WrapBOOL<T> {
    /// How the constant compares with `other`.
    fn partial_cmp(&self, other: &bool) -> (r: Option<Ordering>)
        ensures
            r == Some(Ordering::Less) <==> !T && *other,
            r == Some(Ordering::Equal) <==> T == *other,
            r == Some(Ordering::Greater) <==> T && !*other,
    {
        if !T && *other {
            Some(Ordering::Less)
        } else if T && !*other {
            Some(Ordering::Greater)
        } else {
            Some(Ordering::Equal)
        }
    }
}

impl<const T: bool> PartialOrdSpecImpl<bool> for WrapBOOL<T> {
    open spec fn obeys_partial_cmp_spec() -> bool {
        true
    }

    open spec fn partial_cmp_spec(&self, other: &bool) -> Option<Ordering> {
        if !T && *other {
            Some(Ordering::Less)
        } else if T && !*other {
            Some(Ordering::Greater)
        } else {
            Some(Ordering::Equal)
        }
    }
}

impl<const T: bool> WrapBOOL<T> {
    /// Unwrapping gives the constant of the type, by value and by reference, and that
    /// constant is `VALUE`.
    pub proof fn law_unwrap(w: Self)
        ensures
            <bool as FromSpec<Self>>::obeys_from_spec(),
            <bool as FromSpec<Self>>::from_spec(w) == T,
            <&bool as FromSpec<Self>>::obeys_from_spec(),
            *<&bool as FromSpec<Self>>::from_spec(w) == T,
            <Self as ConstWrap>::VALUE == T,
    {
    }

    /// A wrapper is a constant, and `get_val` hands out the constant of the type.
    pub proof fn law_is_const(w: Self)
        ensures
            <Self as ConstOrValue<bool>>::IS_CONST,
            <Self as ConstOrValue<bool>>::val(w) == T,
            <Self as ConstOrValue<bool>>::val(w) == <Self as ConstWrap>::VALUE,
    {
    }

    /// A wrapper type has one instance.
    pub proof fn law_single_instance(a: Self, b: Self)
        ensures
            a == b,
    {
    }
}

} // verus!
