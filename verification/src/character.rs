//! The wrapper of `char`. A `char` is ordered by its code point.
use crate::casts::char_from_code;
use crate::casts::code_as_char;
use crate::contract::ConstOrValue;
use crate::contract::ConstWrap;
use crate::ConstSeal;
use core::cmp::Ordering;
use vstd::prelude::*;
use vstd::std_specs::cmp::PartialEqSpecImpl;
use vstd::std_specs::cmp::PartialOrdSpecImpl;
use vstd::std_specs::convert::FromSpec;
use vstd::std_specs::convert::FromSpecImpl;

verus! {

/// A `char` fixed in the type: `WrapCHAR<T>` has no storage and stands for the `char`
/// with the code point `T`, one of U+0000 to U+00FF. `WrapCHAR<65>` stands for `'A'`.
#[derive(Clone, Copy, Debug, Eq, Hash, Ord)]
pub struct WrapCHAR<const T: u8>;

impl<const T: u8> Default for WrapCHAR<T> {
    /// The one instance of the type.
    fn default() -> (r: Self)
        ensures
            r == (WrapCHAR::<T>),
    {
        WrapCHAR
    }
}

impl<const T: u8> PartialEq for WrapCHAR<T> {
    /// Two instances of one wrapper type are equal.
    fn eq(&self, other: &Self) -> (r: bool)
        ensures
            r,
    {
        true
    }
}

impl<const T: u8> PartialEqSpecImpl for WrapCHAR<T> {
    open spec fn obeys_eq_spec() -> bool {
        true
    }

    open spec fn eq_spec(&self, other: &Self) -> bool {
        true
    }
}

impl<const T: u8> PartialOrd for WrapCHAR<T> {
    /// Two instances of one wrapper type are equal in order.
    fn partial_cmp(&self, other: &Self) -> (r: Option<Ordering>)
        ensures
            r == Some(Ordering::Equal),
    {
        Some(Ordering::Equal)
    }
}

impl<const T: u8> PartialOrdSpecImpl for WrapCHAR<T> {
    open spec fn obeys_partial_cmp_spec() -> bool {
        true
    }

    open spec fn partial_cmp_spec(&self, other: &Self) -> Option<Ordering> {
        Some(Ordering::Equal)
    }
}

impl<const T: u8> ConstSeal for WrapCHAR<T> {
}

impl<const T: u8> ConstWrap for WrapCHAR<T> {
    type BaseType = char;

    const VALUE: char = T as char;
}

impl<const T: u8> ConstOrValue<char> for WrapCHAR<T> {
    const IS_CONST: bool = true;

    open spec fn val(self) -> char {
        code_as_char(T)
    }

    fn get_val(self) -> (r: char) {
        self.into()
    }
}

impl<const T: u8> From<WrapCHAR<T>> for char {
    /// Unwraps the constant.
    fn from(w: WrapCHAR<T>) -> (r: char)
        ensures
            r == code_as_char(T),
    {
        char_from_code(T)
    }
}

impl<const T: u8> FromSpecImpl<WrapCHAR<T>> for char {
    open spec fn obeys_from_spec() -> bool {
        true
    }

    open spec fn from_spec(w: WrapCHAR<T>) -> char {
        code_as_char(T)
    }
}

impl<'a, const T: u8> From<WrapCHAR<T>> for &'a char {
    /// Borrows the constant for as long as the caller likes.
    fn from(w: WrapCHAR<T>) -> (r: &'a char)
        ensures
            *r == code_as_char(T),
    {
        &(T as char)
    }
}

impl<'a, const T: u8> FromSpecImpl<WrapCHAR<T>> for &'a char {
    open spec fn obeys_from_spec() -> bool {
        true
    }

    open spec fn from_spec(w: WrapCHAR<T>) -> &'a char {
        &code_as_char(T)
    }
}

impl<const T: u8> PartialEq<char> for WrapCHAR<T> {
    /// Whether the constant equals `other`.
    fn eq(&self, other: &char) -> (r: bool)
        ensures
            r <==> code_as_char(T) == *other,
    {
        char_from_code(T) == *other
    }
}

impl<const T: u8> PartialEqSpecImpl<char> for WrapCHAR<T> {
    open spec fn obeys_eq_spec() -> bool {
        true
    }

    open spec fn eq_spec(&self, other: &char) -> bool {
        code_as_char(T) == *other
    }
}

impl<const T: u8> PartialOrd<char> for WrapCHAR<T> {
    /// How the constant compares with `other`.
    fn partial_cmp(&self, other: &char) -> (r: Option<Ordering>)
        ensures
            r == Some(Ordering::Less) <==> code_as_char(T) < *other,
            r == Some(Ordering::Equal) <==> code_as_char(T) == *other,
            r == Some(Ordering::Greater) <==> code_as_char(T) > *other,
    {
        let c = char_from_code(T);
        if c < *other {
            Some(Ordering::Less)
        } else if c > *other {
            Some(Ordering::Greater)
        } else {
            Some(Ordering::Equal)
        }
    }
}

impl<const T: u8> PartialOrdSpecImpl<char> for WrapCHAR<T> {
    open spec fn obeys_partial_cmp_spec() -> bool {
        true
    }

    open spec fn partial_cmp_spec(&self, other: &char) -> Option<Ordering> {
        if code_as_char(T) < *other {
            Some(Ordering::Less)
        } else if code_as_char(T) > *other {
            Some(Ordering::Greater)
        } else {
            Some(Ordering::Equal)
        }
    }
}

impl<const T: u8> WrapCHAR<T> {
    /// Unwrapping gives the constant of the type, by value and by reference, and that
    /// constant is `VALUE`.
    pub proof fn law_unwrap(w: Self)
        ensures
            <char as FromSpec<Self>>::obeys_from_spec(),
            <char as FromSpec<Self>>::from_spec(w) == code_as_char(T),
            <&char as FromSpec<Self>>::obeys_from_spec(),
            *<&char as FromSpec<Self>>::from_spec(w) == code_as_char(T),
            <Self as ConstWrap>::VALUE == code_as_char(T),
    {
    }

    /// A wrapper is a constant, and `get_val` hands out the constant of the type.
    pub proof fn law_is_const(w: Self)
        ensures
            <Self as ConstOrValue<char>>::IS_CONST,
            <Self as ConstOrValue<char>>::val(w) == code_as_char(T),
            <Self as ConstOrValue<char>>::val(w) == <Self as ConstWrap>::VALUE,
    {
    }

    /// A wrapper type has one instance.
    pub proof fn law_single_instance(a: Self, b: Self)
        ensures
            a == b,
    {
    }
}

} // verus!
