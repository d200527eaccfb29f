//! The wrappers of the unsigned kinds.
use crate::contract::ConstOrValue;
use crate::contract::ConstWrap;
use crate::ConstSeal;
use core::cmp::Ordering;
use vstd::prelude::*;
use vstd::std_specs::cmp::PartialEqSpecImpl;
use vstd::std_specs::cmp::PartialOrdSpecImpl;
use vstd::std_specs::convert::FromSpec;
use vstd::std_specs::convert::FromSpecImpl;

verus! {

/// A `u8` fixed in the type: `WrapU8<T>` has no storage and stands for `T`.
#[derive(Clone, Copy, Debug, Eq, Hash, Ord)]
pub struct WrapU8<const T: u8>;

impl<const T: u8> Default for WrapU8<T> {
    /// The one instance of the type.
    fn default() -> (r: Self)
        ensures
            r == (WrapU8::<T>),
    {
        WrapU8
    }
}

impl<const T: u8> PartialEq for WrapU8<T> {
    /// Two instances of one wrapper type are equal.
    fn eq(&self, other: &Self) -> (r: bool)
        ensures
            r,
    {
        true
    }
}

impl<const T: u8> PartialEqSpecImpl for WrapU8<T> {
    open spec fn obeys_eq_spec() -> bool {
        true
    }

    open spec fn eq_spec(&self, other: &Self) -> bool {
        true
    }
}

impl<const T: u8> PartialOrd for WrapU8<T> {
    /// Two instances of one wrapper type are equal in order.
    fn partial_cmp(&self, other: &Self) -> (r: Option<Ordering>)
        ensures
            r == Some(Ordering::Equal),
    {
        Some(Ordering::Equal)
    }
}

impl<const T: u8> PartialOrdSpecImpl for WrapU8<T> {
    open spec fn obeys_partial_cmp_spec() -> bool {
        true
    }

    open spec fn partial_cmp_spec(&self, other: &Self) -> Option<Ordering> {
        Some(Ordering::Equal)
    }
}

impl<const T: u8> ConstSeal for WrapU8<T> {
}

impl<const T: u8> ConstWrap for WrapU8<T> {
    type BaseType = u8;

    const VALUE: u8 = T;
}

impl<const T: u8> ConstOrValue<u8> for WrapU8<T> {
    const IS_CONST: bool = true;

    open spec fn val(self) -> u8 {
        T
    }

    fn get_val(self) -> (r: u8) {
        self.into()
    }
}

impl<const T: u8> From<WrapU8<T>> for u8 {
    /// Unwraps the constant.
    fn from(w: WrapU8<T>) -> (r: u8)
        ensures
            r == T,
    {
        T
    }
}

impl<const T: u8> FromSpecImpl<WrapU8<T>> for u8 {
    open spec fn obeys_from_spec() -> bool {
        true
    }

    open spec fn from_spec(w: WrapU8<T>) -> u8 {
        T
    }
}

impl<'a, const T: u8> From<WrapU8<T>> for &'a u8 {
    /// Borrows the constant for as long as the caller likes.
    fn from(w: WrapU8<T>) -> (r: &'a u8)
        ensures
            *r == T,
    {
        &T
    }
}

impl<'a, const T: u8> FromSpecImpl<WrapU8<T>> for &'a u8 {
    open spec fn obeys_from_spec() -> bool {
        true
    }

    open spec fn from_spec(w: WrapU8<T>) -> &'a u8 {
        &T
    }
}

impl<const T: u8> PartialEq<u8> for WrapU8<T> {
    /// Whether the constant equals `other`.
    fn eq(&self, other: &u8) -> (r: bool)
        ensures
            r <==> T == *other,
    {
        T.eq(other)
    }
}

impl<const T: u8> PartialEqSpecImpl<u8> for WrapU8<T> {
    open spec fn obeys_eq_spec() -> bool {
        true
    }

    open spec fn eq_spec(&self, other: &u8) -> bool {
        T == *other
    }
}

impl<const T: u8> PartialOrd<u8> for WrapU8<T> {
    /// How the constant compares with `other`.
    fn partial_cmp(&self, other: &u8) -> (r: Option<Ordering>)
        ensures
            r == Some(Ordering::Less) <==> T < *other,
            r == Some(Ordering::Equal) <==> T == *other,
            r == Some(Ordering::Greater) <==> T > *other,
    {
        T.partial_cmp(other)
    }
}

impl<const T: u8> PartialOrdSpecImpl<u8> for WrapU8<T> {
    open spec fn obeys_partial_cmp_spec() -> bool {
        true
    }

    open spec fn partial_cmp_spec(&self, other: &u8) -> Option<Ordering> {
        if T < *other {
            Some(Ordering::Less)
        } else if T > *other {
            Some(Ordering::Greater)
        } else {
            Some(Ordering::Equal)
        }
    }
}

impl<const T: u8> WrapU8<T> {
    /// Unwrapping gives the constant of the type, by value and by reference, and that
    /// constant is `VALUE`.
    pub proof fn law_unwrap(w: Self)
        ensures
            <u8 as FromSpec<Self>>::obeys_from_spec(),
            <u8 as FromSpec<Self>>::from_spec(w) == T,
            <&u8 as FromSpec<Self>>::obeys_from_spec(),
            *<&u8 as FromSpec<Self>>::from_spec(w) == T,
            <Self as ConstWrap>::VALUE == T,
    {
    }

    /// A wrapper is a constant, and `get_val` hands out the constant of the type.
    pub proof fn law_is_const(w: Self)
        ensures
            <Self as ConstOrValue<u8>>::IS_CONST,
            <Self as ConstOrValue<u8>>::val(w) == T,
            <Self as ConstOrValue<u8>>::val(w) == <Self as ConstWrap>::VALUE,
    {
    }

    /// A wrapper type has one instance.
    pub proof fn law_single_instance(a: Self, b: Self)
        ensures
            a == b,
    {
    }
}

/// A `u16` fixed in the type: `WrapU16<T>` has no storage and stands for `T`.
#[derive(Clone, Copy, Debug, Eq, Hash, Ord)]
pub struct WrapU16<const T: u16>;

impl<const T: u16> Default for WrapU16<T> {
    /// The one instance of the type.
    fn default() -> (r: Self)
        ensures
            r == (WrapU16::<T>),
    {
        WrapU16
    }
}

impl<const T: u16> PartialEq for WrapU16<T> {
    /// Two instances of one wrapper type are equal.
    fn eq(&self, other: &Self) -> (r: bool)
        ensures
            r,
    {
        true
    }
}

impl<const T: u16> PartialEqSpecImpl for WrapU16<T> {
    open spec fn obeys_eq_spec() -> bool {
        true
    }

    open spec fn eq_spec(&self, other: &Self) -> bool {
        true
    }
}

impl<const T: u16> PartialOrd for WrapU16<T> {
    /// Two instances of one wrapper type are equal in order.
    fn partial_cmp(&self, other: &Self) -> (r: Option<Ordering>)
        ensures
            r == Some(Ordering::Equal),
    {
        Some(Ordering::Equal)
    }
}

impl<const T: u16> PartialOrdSpecImpl for WrapU16<T> {
    open spec fn obeys_partial_cmp_spec() -> bool {
        true
    }

    open spec fn partial_cmp_spec(&self, other: &Self) -> Option<Ordering> {
        Some(Ordering::Equal)
    }
}

impl<const T: u16> ConstSeal for WrapU16<T> {
}

impl<const T: u16> ConstWrap for WrapU16<T> {
    type BaseType = u16;

    const VALUE: u16 = T;
}

impl<const T: u16> ConstOrValue<u16> for WrapU16<T> {
    const IS_CONST: bool = true;

    open spec fn val(self) -> u16 {
        T
    }

    fn get_val(self) -> (r: u16) {
        self.into()
    }
}

impl<const T: u16> From<WrapU16<T>> for u16 {
    /// Unwraps the constant.
    fn from(w: WrapU16<T>) -> (r: u16)
        ensures
            r == T,
    {
        T
    }
}

impl<const T: u16> FromSpecImpl<WrapU16<T>> for u16 {
    open spec fn obeys_from_spec() -> bool {
        true
    }

    open spec fn from_spec(w: WrapU16<T>) -> u16 {
        T
    }
}

impl<'a, const T: u16> From<WrapU16<T>> for &'a u16 {
    /// Borrows the constant for as long as the caller likes.
    fn from(w: WrapU16<T>) -> (r: &'a u16)
        ensures
            *r == T,
    {
        &T
    }
}

impl<'a, const T: u16> FromSpecImpl<WrapU16<T>> for &'a u16 {
    open spec fn obeys_from_spec() -> bool {
        true
    }

    open spec fn from_spec(w: WrapU16<T>) -> &'a u16 {
        &T
    }
}

impl<const T: u16> PartialEq<u16> for WrapU16<T> {
    /// Whether the constant equals `other`.
    fn eq(&self, other: &u16) -> (r: bool)
        ensures
            r <==> T == *other,
    {
        T.eq(other)
    }
}

impl<const T: u16> PartialEqSpecImpl<u16> for WrapU16<T> {
    open spec fn obeys_eq_spec() -> bool {
        true
    }

    open spec fn eq_spec(&self, other: &u16) -> bool {
        T == *other
    }
}

impl<const T: u16> PartialOrd<u16> for WrapU16<T> {
    /// How the constant compares with `other`.
    fn partial_cmp(&self, other: &u16) -> (r: Option<Ordering>)
        ensures
            r == Some(Ordering::Less) <==> T < *other,
            r == Some(Ordering::Equal) <==> T == *other,
            r == Some(Ordering::Greater) <==> T > *other,
    {
        T.partial_cmp(other)
    }
}

impl<const T: u16> PartialOrdSpecImpl<u16> for WrapU16<T> {
    open spec fn obeys_partial_cmp_spec() -> bool {
        true
    }

    open spec fn partial_cmp_spec(&self, other: &u16) -> Option<Ordering> {
        if T < *other {
            Some(Ordering::Less)
        } else if T > *other {
            Some(Ordering::Greater)
        } else {
            Some(Ordering::Equal)
        }
    }
}

impl<const T: u16> WrapU16<T> {
    /// Unwrapping gives the constant of the type, by value and by reference, and that
    /// constant is `VALUE`.
    pub proof fn law_unwrap(w: Self)
        ensures
            <u16 as FromSpec<Self>>::obeys_from_spec(),
            <u16 as FromSpec<Self>>::from_spec(w) == T,
            <&u16 as FromSpec<Self>>::obeys_from_spec(),
            *<&u16 as FromSpec<Self>>::from_spec(w) == T,
            <Self as ConstWrap>::VALUE == T,
    {
    }

    /// A wrapper is a constant, and `get_val` hands out the constant of the type.
    pub proof fn law_is_const(w: Self)
        ensures
            <Self as ConstOrValue<u16>>::IS_CONST,
            <Self as ConstOrValue<u16>>::val(w) == T,
            <Self as ConstOrValue<u16>>::val(w) == <Self as ConstWrap>::VALUE,
    {
    }

    /// A wrapper type has one instance.
    pub proof fn law_single_instance(a: Self, b: Self)
        ensures
            a == b,
    {
    }
}

/// A `u32` fixed in the type: `WrapU32<T>` has no storage and stands for `T`.
#[derive(Clone, Copy, Debug, Eq, Hash, Ord)]
pub struct WrapU32<const T: u32>;

impl<const T: u32> Default for WrapU32<T> {
    /// The one instance of the type.
    fn default() -> (r: Self)
        ensures
            r == (WrapU32::<T>),
    {
        WrapU32
    }
}

impl<const T: u32> PartialEq for WrapU32<T> {
    /// Two instances of one wrapper type are equal.
    fn eq(&self, other: &Self) -> (r: bool)
        ensures
            r,
    {
        true
    }
}

impl<const T: u32> PartialEqSpecImpl for WrapU32<T> {
    open spec fn obeys_eq_spec() -> bool {
        true
    }

    open spec fn eq_spec(&self, other: &Self) -> bool {
        true
    }
}

impl<const T: u32> PartialOrd for WrapU32<T> {
    /// Two instances of one wrapper type are equal in order.
    fn partial_cmp(&self, other: &Self) -> (r: Option<Ordering>)
        ensures
            r == Some(Ordering::Equal),
    {
        Some(Ordering::Equal)
    }
}

impl<const T: u32> PartialOrdSpecImpl for WrapU32<T> {
    open spec fn obeys_partial_cmp_spec() -> bool {
        true
    }

    open spec fn partial_cmp_spec(&self, other: &Self) -> Option<Ordering> {
        Some(Ordering::Equal)
    }
}

impl<const T: u32> ConstSeal for WrapU32<T> {
}

impl<const T: u32> ConstWrap for WrapU32<T> {
    type BaseType = u32;

    const VALUE: u32 = T;
}

impl<const T: u32> ConstOrValue<u32> for WrapU32<T> {
    const IS_CONST: bool = true;

    open spec fn val(self) -> u32 {
        T
    }

    fn get_val(self) -> (r: u32) {
        self.into()
    }
}

impl<const T: u32> From<WrapU32<T>> for u32 {
    /// Unwraps the constant.
    fn from(w: WrapU32<T>) -> (r: u32)
        ensures
            r == T,
    {
        T
    }
}

impl<const T: u32> FromSpecImpl<WrapU32<T>> for u32 {
    open spec fn obeys_from_spec() -> bool {
        true
    }

    open spec fn from_spec(w: WrapU32<T>) -> u32 {
        T
    }
}

impl<'a, const T: u32> From<WrapU32<T>> for &'a u32 {
    /// Borrows the constant for as long as the caller likes.
    fn from(w: WrapU32<T>) -> (r: &'a u32)
        ensures
            *r == T,
    {
        &T
    }
}

impl<'a, const T: u32> FromSpecImpl<WrapU32<T>> for &'a u32 {
    open spec fn obeys_from_spec() -> bool {
        true
    }

    open spec fn from_spec(w: WrapU32<T>) -> &'a u32 {
        &T
    }
}

impl<const T: u32> PartialEq<u32> for WrapU32<T> {
    /// Whether the constant equals `other`.
    fn eq(&self, other: &u32) -> (r: bool)
        ensures
            r <==> T == *other,
    {
        T.eq(other)
    }
}

impl<const T: u32> PartialEqSpecImpl<u32> for WrapU32<T> {
    open spec fn obeys_eq_spec() -> bool {
        true
    }

    open spec fn eq_spec(&self, other: &u32) -> bool {
        T == *other
    }
}

impl<const T: u32> PartialOrd<u32> for WrapU32<T> {
    /// How the constant compares with `other`.
    fn partial_cmp(&self, other: &u32) -> (r: Option<Ordering>)
        ensures
            r == Some(Ordering::Less) <==> T < *other,
            r == Some(Ordering::Equal) <==> T == *other,
            r == Some(Ordering::Greater) <==> T > *other,
    {
        T.partial_cmp(other)
    }
}

impl<const T: u32> PartialOrdSpecImpl<u32> for WrapU32<T> {
    open spec fn obeys_partial_cmp_spec() -> bool {
        true
    }

    open spec fn partial_cmp_spec(&self, other: &u32) -> Option<Ordering> {
        if T < *other {
            Some(Ordering::Less)
        } else if T > *other {
            Some(Ordering::Greater)
        } else {
            Some(Ordering::Equal)
        }
    }
}

impl<const T: u32> WrapU32<T> {
    /// Unwrapping gives the constant of the type, by value and by reference, and that
    /// constant is `VALUE`.
    pub proof fn law_unwrap(w: Self)
        ensures
            <u32 as FromSpec<Self>>::obeys_from_spec(),
            <u32 as FromSpec<Self>>::from_spec(w) == T,
            <&u32 as FromSpec<Self>>::obeys_from_spec(),
            *<&u32 as FromSpec<Self>>::from_spec(w) == T,
            <Self as ConstWrap>::VALUE == T,
    {
    }

    /// A wrapper is a constant, and `get_val` hands out the constant of the type.
    pub proof fn law_is_const(w: Self)
        ensures
            <Self as ConstOrValue<u32>>::IS_CONST,
            <Self as ConstOrValue<u32>>::val(w) == T,
            <Self as ConstOrValue<u32>>::val(w) == <Self as ConstWrap>::VALUE,
    {
    }

    /// A wrapper type has one instance.
    pub proof fn law_single_instance(a: Self, b: Self)
        ensures
            a == b,
    {
    }
}

/// A `u64` fixed in the type: `WrapU64<T>` has no storage and stands for `T`.
#[derive(Clone, Copy, Debug, Eq, Hash, Ord)]
pub struct WrapU64<const T: u64>;

impl<const T: u64> Default for WrapU64<T> {
    /// The one instance of the type.
    fn default() -> (r: Self)
        ensures
            r == (WrapU64::<T>),
    {
        WrapU64
    }
}

impl<const T: u64> PartialEq for WrapU64<T> {
    /// Two instances of one wrapper type are equal.
    fn eq(&self, other: &Self) -> (r: bool)
        ensures
            r,
    {
        true
    }
}

impl<const T: u64> PartialEqSpecImpl for WrapU64<T> {
    open spec fn obeys_eq_spec() -> bool {
        true
    }

    open spec fn eq_spec(&self, other: &Self) -> bool {
        true
    }
}

impl<const T: u64> PartialOrd for WrapU64<T> {
    /// Two instances of one wrapper type are equal in order.
    fn partial_cmp(&self, other: &Self) -> (r: Option<Ordering>)
        ensures
            r == Some(Ordering::Equal),
    {
        Some(Ordering::Equal)
    }
}

impl<const T: u64> PartialOrdSpecImpl for WrapU64<T> {
    open spec fn obeys_partial_cmp_spec() -> bool {
        true
    }

    open spec fn partial_cmp_spec(&self, other: &Self) -> Option<Ordering> {
        Some(Ordering::Equal)
    }
}

impl<const T: u64> ConstSeal for WrapU64<T> {
}

impl<const T: u64> ConstWrap for WrapU64<T> {
    type BaseType = u64;

    const VALUE: u64 = T;
}

impl<const T: u64> ConstOrValue<u64> for WrapU64<T> {
    const IS_CONST: bool = true;

    open spec fn val(self) -> u64 {
        T
    }

    fn get_val(self) -> (r: u64) {
        self.into()
    }
}

impl<const T: u64> From<WrapU64<T>> for u64 {
    /// Unwraps the constant.
    fn from(w: WrapU64<T>) -> (r: u64)
        ensures
            r == T,
    {
        T
    }
}

impl<const T: u64> FromSpecImpl<WrapU64<T>> for u64 {
    open spec fn obeys_from_spec() -> bool {
        true
    }

    open spec fn from_spec(w: WrapU64<T>) -> u64 {
        T
    }
}

impl<'a, const T: u64> From<WrapU64<T>> for &'a u64 {
    /// Borrows the constant for as long as the caller likes.
    fn from(w: WrapU64<T>) -> (r: &'a u64)
        ensures
            *r == T,
    {
        &T
    }
}

impl<'a, const T: u64> FromSpecImpl<WrapU64<T>> for &'a u64 {
    open spec fn obeys_from_spec() -> bool {
        true
    }

    open spec fn from_spec(w: WrapU64<T>) -> &'a u64 {
        &T
    }
}

impl<const T: u64> PartialEq<u64> for WrapU64<T> {
    /// Whether the constant equals `other`.
    fn eq(&self, other: &u64) -> (r: bool)
        ensures
            r <==> T == *other,
    {
        T.eq(other)
    }
}

impl<const T: u64> PartialEqSpecImpl<u64> for WrapU64<T> {
    open spec fn obeys_eq_spec() -> bool {
        true
    }

    open spec fn eq_spec(&self, other: &u64) -> bool {
        T == *other
    }
}

impl<const T: u64> PartialOrd<u64> for WrapU64<T> {
    /// How the constant compares with `other`.
    fn partial_cmp(&self, other: &u64) -> (r: Option<Ordering>)
        ensures
            r == Some(Ordering::Less) <==> T < *other,
            r == Some(Ordering::Equal) <==> T == *other,
            r == Some(Ordering::Greater) <==> T > *other,
    {
        T.partial_cmp(other)
    }
}

impl<const T: u64> PartialOrdSpecImpl<u64> for WrapU64<T> {
    open spec fn obeys_partial_cmp_spec() -> bool {
        true
    }

    open spec fn partial_cmp_spec(&self, other: &u64) -> Option<Ordering> {
        if T < *other {
            Some(Ordering::Less)
        } else if T > *other {
            Some(Ordering::Greater)
        } else {
            Some(Ordering::Equal)
        }
    }
}

impl<const T: u64> WrapU64<T> {
    /// Unwrapping gives the constant of the type, by value and by reference, and that
    /// constant is `VALUE`.
    pub proof fn law_unwrap(w: Self)
        ensures
            <u64 as FromSpec<Self>>::obeys_from_spec(),
            <u64 as FromSpec<Self>>::from_spec(w) == T,
            <&u64 as FromSpec<Self>>::obeys_from_spec(),
            *<&u64 as FromSpec<Self>>::from_spec(w) == T,
            <Self as ConstWrap>::VALUE == T,
    {
    }

    /// A wrapper is a constant, and `get_val` hands out the constant of the type.
    pub proof fn law_is_const(w: Self)
        ensures
            <Self as ConstOrValue<u64>>::IS_CONST,
            <Self as ConstOrValue<u64>>::val(w) == T,
            <Self as ConstOrValue<u64>>::val(w) == <Self as ConstWrap>::VALUE,
    {
    }

    /// A wrapper type has one instance.
    pub proof fn law_single_instance(a: Self, b: Self)
        ensures
            a == b,
    {
    }
}

/// A `usize` fixed in the type: `WrapUSIZE<T>` has no storage and stands for `T`.
#[derive(Clone, Copy, Debug, Eq, Hash, Ord)]
pub struct WrapUSIZE<const T: usize>;

impl<const T: usize> Default for WrapUSIZE<T> {
    /// The one instance of the type.
    fn default() -> (r: Self)
        ensures
            r == (WrapUSIZE::<T>),
    {
        WrapUSIZE
    }
}

impl<const T: usize> PartialEq for WrapUSIZE<T> {
    /// Two instances of one wrapper type are equal.
    fn eq(&self, other: &Self) -> (r: bool)
        ensures
            r,
    {
        true
    }
}

impl<const T: usize> PartialEqSpecImpl for WrapUSIZE<T> {
    open spec fn obeys_eq_spec() -> bool {
        true
    }

    open spec fn eq_spec(&self, other: &Self) -> bool {
        true
    }
}

impl<const T: usize> PartialOrd for WrapUSIZE<T> {
    /// Two instances of one wrapper type are equal in order.
    fn partial_cmp(&self, other: &Self) -> (r: Option<Ordering>)
        ensures
            r == Some(Ordering::Equal),
    {
        Some(Ordering::Equal)
    }
}

impl<const T: usize> PartialOrdSpecImpl for WrapUSIZE<T> {
    open spec fn obeys_partial_cmp_spec() -> bool {
        true
    }

    open spec fn partial_cmp_spec(&self, other: &Self) -> Option<Ordering> {
        Some(Ordering::Equal)
    }
}

impl<const T: usize> ConstSeal for WrapUSIZE<T> {
}

impl<const T: usize> ConstWrap for WrapUSIZE<T> {
    type BaseType = usize;

    const VALUE: usize = T;
}

impl<const T: usize> ConstOrValue<usize> for WrapUSIZE<T> {
    const IS_CONST: bool = true;

    open spec fn val(self) -> usize {
        T
    }

    fn get_val(self) -> (r: usize) {
        self.into()
    }
}

impl<const T: usize> From<WrapUSIZE<T>> for usize {
    /// Unwraps the constant.
    fn from(w: WrapUSIZE<T>) -> (r: usize)
        ensures
            r == T,
    {
        T
    }
}

impl<const T: usize> FromSpecImpl<WrapUSIZE<T>> for usize {
    open spec fn obeys_from_spec() -> bool {
        true
    }

    open spec fn from_spec(w: WrapUSIZE<T>) -> usize {
        T
    }
}

impl<'a, const T: usize> From<WrapUSIZE<T>> for &'a usize {
    /// Borrows the constant for as long as the caller likes.
    fn from(w: WrapUSIZE<T>) -> (r: &'a usize)
        ensures
            *r == T,
    {
        &T
    }
}

impl<'a, const T: usize> FromSpecImpl<WrapUSIZE<T>> for &'a usize {
    open spec fn obeys_from_spec() -> bool {
        true
    }

    open spec fn from_spec(w: WrapUSIZE<T>) -> &'a usize {
        &T
    }
}

impl<const T: usize> PartialEq<usize> for WrapUSIZE<T> {
    /// Whether the constant equals `other`.
    fn eq(&self, other: &usize) -> (r: bool)
        ensures
            r <==> T == *other,
    {
        T.eq(other)
    }
}

impl<const T: usize> PartialEqSpecImpl<usize> for WrapUSIZE<T> {
    open spec fn obeys_eq_spec() -> bool {
        true
    }

    open spec fn eq_spec(&self, other: &usize) -> bool {
        T == *other
    }
}

impl<const T: usize> PartialOrd<usize> for WrapUSIZE<T> {
    /// How the constant compares with `other`.
    fn partial_cmp(&self, other: &usize) -> (r: Option<Ordering>)
        ensures
            r == Some(Ordering::Less) <==> T < *other,
            r == Some(Ordering::Equal) <==> T == *other,
            r == Some(Ordering::Greater) <==> T > *other,
    {
        T.partial_cmp(other)
    }
}

impl<const T: usize> PartialOrdSpecImpl<usize> for WrapUSIZE<T> {
    open spec fn obeys_partial_cmp_spec() -> bool {
        true
    }

    open spec fn partial_cmp_spec(&self, other: &usize) -> Option<Ordering> {
        if T < *other {
            Some(Ordering::Less)
        } else if T > *other {
            Some(Ordering::Greater)
        } else {
            Some(Ordering::Equal)
        }
    }
}

impl<const T: usize> WrapUSIZE<T> {
    /// Unwrapping gives the constant of the type, by value and by reference, and that
    /// constant is `VALUE`.
    pub proof fn law_unwrap(w: Self)
        ensures
            <usize as FromSpec<Self>>::obeys_from_spec(),
            <usize as FromSpec<Self>>::from_spec(w) == T,
            <&usize as FromSpec<Self>>::obeys_from_spec(),
            *<&usize as FromSpec<Self>>::from_spec(w) == T,
            <Self as ConstWrap>::VALUE == T,
    {
    }

    /// A wrapper is a constant, and `get_val` hands out the constant of the type.
    pub proof fn law_is_const(w: Self)
        ensures
            <Self as ConstOrValue<usize>>::IS_CONST,
            <Self as ConstOrValue<usize>>::val(w) == T,
            <Self as ConstOrValue<usize>>::val(w) == <Self as ConstWrap>::VALUE,
    {
    }

    /// A wrapper type has one instance.
    pub proof fn law_single_instance(a: Self, b: Self)
        ensures
            a == b,
    {
    }
}

} // verus!
