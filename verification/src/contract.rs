//! The two contracts: a type that wraps a constant, and a type that is either such a
//! wrapper or a plain value.
use crate::seal::ConstSeal;
use vstd::prelude::*;
use vstd::std_specs::convert::IntoSpec;

verus! {

/// A type that carries one constant of its `BaseType` in its type and nothing at run
/// time. Only the wrappers of this crate implement it.
pub trait ConstWrap:
    Clone + Copy + Default + Eq + core::hash::Hash + PartialEq + PartialOrd + Ord + ConstSeal
{
    /// The kind of the wrapped constant.
    type BaseType;

    /// The wrapped constant.
    const VALUE: Self::BaseType;
}

/// Either a `T` fixed in a wrapper's type or a plain `T`: code that is generic over
/// `ConstOrValue<T>` takes both and gets a `T` out of each.
pub trait ConstOrValue<T>: Into<T> {
    /// Whether `Self` fixes the value at compile time.
    const IS_CONST: bool;

    /// The `T` that `self` stands for: unless an implementation says otherwise, what
    /// `into` makes of `self`.
    open spec fn val(self) -> T {
        self.into_spec()
    }

    /// Hands out the `T` that `self` stands for.
    fn get_val(self) -> (r: T)
        ensures
            r == self.val(),
    ;
}

impl<T> ConstOrValue<T> for T {
    const IS_CONST: bool = false;

    open spec fn val(self) -> T {
        self
    }

    fn get_val(self) -> (r: T)
        ensures
            r == self,
    {
        self
    }
}

/// A plain value is no constant and stands for itself.
pub proof fn law_plain_value<T>(x: T)
    ensures
        !<T as ConstOrValue<T>>::IS_CONST,
        <T as ConstOrValue<T>>::val(x) == x,
{
}

} // verus!
