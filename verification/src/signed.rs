//! The wrappers of the signed kinds.
//!
//! A signed wrapper is named by the bit pattern of its value, an unsigned number as wide
//! as the kind: a value that is not negative is named by itself.
use crate::casts::bits_as_i16;
use crate::casts::bits_as_i32;
use crate::casts::bits_as_i64;
use crate::casts::bits_as_i8;
use crate::casts::bits_as_isize;
use crate::casts::i16_from_bits;
use crate::casts::i32_from_bits;
use crate::casts::i64_from_bits;
use crate::casts::i8_from_bits;
use crate::casts::isize_from_bits;
use crate::casts::lemma_casts_of_i16;
use crate::casts::lemma_casts_of_i32;
use crate::casts::lemma_casts_of_i64;
use crate::casts::lemma_casts_of_i8;
use crate::casts::lemma_casts_of_isize;
use crate::contract::ConstOrValue;
use crate::contract::ConstWrap;
use crate::ConstSeal;
use core::cmp::Ordering;
use vstd::prelude::*;
use vstd::std_specs::cmp::PartialEqSpecImpl;
use vstd::std_specs::cmp::PartialOrdSpecImpl;
use vstd::std_specs::convert::FromSpec;
use vstd::std_specs::convert::FromSpecImpl;

verus! {

/// An `i8` fixed in the type: `WrapI8<T>` has no storage and stands for the `i8` whose
/// two's-complement bit pattern is `T`. `WrapI8<3>` stands for 3 and `WrapI8<0xFF>` for -1.
#[derive(Clone, Copy, Debug, Eq, Hash, Ord)]
pub struct WrapI8<const T: u8>;

impl<const T: u8> Default for WrapI8<T> {
    /// The one instance of the type.
    fn default() -> (r: Self)
        ensures
            r == (WrapI8::<T>),
    {
        WrapI8
    }
}

impl<const T: u8> PartialEq for WrapI8<T> {
    /// Two instances of one wrapper type are equal.
    fn eq(&self, other: &Self) -> (r: bool)
        ensures
            r,
    {
        true
    }
}

impl<const T: u8> PartialEqSpecImpl for WrapI8<T> {
    open spec fn obeys_eq_spec() -> bool {
        true
    }

    open spec fn eq_spec(&self, other: &Self) -> bool {
        true
    }
}

impl<const T: u8> PartialOrd for WrapI8<T> {
    /// Two instances of one wrapper type are equal in order.
    fn partial_cmp(&self, other: &Self) -> (r: Option<Ordering>)
        ensures
            r == Some(Ordering::Equal),
    {
        Some(Ordering::Equal)
    }
}

impl<const T: u8> PartialOrdSpecImpl for WrapI8<T> {
    open spec fn obeys_partial_cmp_spec() -> bool {
        true
    }

    open spec fn partial_cmp_spec(&self, other: &Self) -> Option<Ordering> {
        Some(Ordering::Equal)
    }
}

impl<const T: u8> ConstSeal for WrapI8<T> {
}

impl<const T: u8> ConstWrap for WrapI8<T> {
    type BaseType = i8;

    const VALUE: i8 = T as i8;
}

impl<const T: u8> ConstOrValue<i8> for WrapI8<T> {
    const IS_CONST: bool = true;

    open spec fn val(self) -> i8 {
        bits_as_i8(T)
    }

    fn get_val(self) -> (r: i8) {
        self.into()
    }
}

impl<const T: u8> From<WrapI8<T>> for i8 {
    /// Unwraps the constant.
    fn from(w: WrapI8<T>) -> (r: i8)
        ensures
            r == bits_as_i8(T),
    {
        i8_from_bits(T)
    }
}

impl<const T: u8> FromSpecImpl<WrapI8<T>> for i8 {
    open spec fn obeys_from_spec() -> bool {
        true
    }

    open spec fn from_spec(w: WrapI8<T>) -> i8 {
        bits_as_i8(T)
    }
}

impl<'a, const T: u8> From<WrapI8<T>> for &'a i8 {
    /// Borrows the constant for as long as the caller likes.
    fn from(w: WrapI8<T>) -> (r: &'a i8)
        ensures
            *r == bits_as_i8(T),
    {
        proof {
            lemma_casts_of_i8(T);
        }
        &(T as i8)
    }
}

impl<'a, const T: u8> FromSpecImpl<WrapI8<T>> for &'a i8 {
    open spec fn obeys_from_spec() -> bool {
        true
    }

    open spec fn from_spec(w: WrapI8<T>) -> &'a i8 {
        &bits_as_i8(T)
    }
}

impl<const T: u8> PartialEq<i8> for WrapI8<T> {
    /// Whether the constant equals `other`.
    fn eq(&self, other: &i8) -> (r: bool)
        ensures
            r <==> bits_as_i8(T) == *other,
    {
        i8_from_bits(T).eq(other)
    }
}

impl<const T: u8> PartialEqSpecImpl<i8> for WrapI8<T> {
    open spec fn obeys_eq_spec() -> bool {
        true
    }

    open spec fn eq_spec(&self, other: &i8) -> bool {
        bits_as_i8(T) == *other
    }
}

impl<const T: u8> PartialOrd<i8> for WrapI8<T> {
    /// How the constant compares with `other`.
    fn partial_cmp(&self, other: &i8) -> (r: Option<Ordering>)
        ensures
            r == Some(Ordering::Less) <==> bits_as_i8(T) < *other,
            r == Some(Ordering::Equal) <==> bits_as_i8(T) == *other,
            r == Some(Ordering::Greater) <==> bits_as_i8(T) > *other,
    {
        i8_from_bits(T).partial_cmp(other)
    }
}

impl<const T: u8> PartialOrdSpecImpl<i8> for WrapI8<T> {
    open spec fn obeys_partial_cmp_spec() -> bool {
        true
    }

    open spec fn partial_cmp_spec(&self, other: &i8) -> Option<Ordering> {
        if bits_as_i8(T) < *other {
            Some(Ordering::Less)
        } else if bits_as_i8(T) > *other {
            Some(Ordering::Greater)
        } else {
            Some(Ordering::Equal)
        }
    }
}

impl<const T: u8> WrapI8<T> {
    /// Unwrapping gives the constant of the type, by value and by reference, and that
    /// constant is `VALUE`.
    pub proof fn law_unwrap(w: Self)
        ensures
            <i8 as FromSpec<Self>>::obeys_from_spec(),
            <i8 as FromSpec<Self>>::from_spec(w) == bits_as_i8(T),
            <&i8 as FromSpec<Self>>::obeys_from_spec(),
            *<&i8 as FromSpec<Self>>::from_spec(w) == bits_as_i8(T),
            <Self as ConstWrap>::VALUE == bits_as_i8(T),
    {
        lemma_casts_of_i8(T);
    }

    /// A wrapper is a constant, and `get_val` hands out the constant of the type.
    pub proof fn law_is_const(w: Self)
        ensures
            <Self as ConstOrValue<i8>>::IS_CONST,
            <Self as ConstOrValue<i8>>::val(w) == bits_as_i8(T),
            <Self as ConstOrValue<i8>>::val(w) == <Self as ConstWrap>::VALUE,
    {
        lemma_casts_of_i8(T);
    }

    /// A wrapper type has one instance.
    pub proof fn law_single_instance(a: Self, b: Self)
        ensures
            a == b,
    {
    }
}

/// An `i16` fixed in the type: `WrapI16<T>` has no storage and stands for the `i16` whose
/// two's-complement bit pattern is `T`. `WrapI16<3>` stands for 3 and `WrapI16<0xFFFF>` for -1.
#[derive(Clone, Copy, Debug, Eq, Hash, Ord)]
pub struct WrapI16<const T: u16>;

impl<const T: u16> Default for WrapI16<T> {
    /// The one instance of the type.
    fn default() -> (r: Self)
        ensures
            r == (WrapI16::<T>),
    {
        WrapI16
    }
}

impl<const T: u16> PartialEq for WrapI16<T> {
    /// Two instances of one wrapper type are equal.
    fn eq(&self, other: &Self) -> (r: bool)
        ensures
            r,
    {
        true
    }
}

impl<const T: u16> PartialEqSpecImpl for WrapI16<T> {
    open spec fn obeys_eq_spec() -> bool {
        true
    }

    open spec fn eq_spec(&self, other: &Self) -> bool {
        true
    }
}

impl<const T: u16> PartialOrd for WrapI16<T> {
    /// Two instances of one wrapper type are equal in order.
    fn partial_cmp(&self, other: &Self) -> (r: Option<Ordering>)
        ensures
            r == Some(Ordering::Equal),
    {
        Some(Ordering::Equal)
    }
}

impl<const T: u16> PartialOrdSpecImpl for WrapI16<T> {
    open spec fn obeys_partial_cmp_spec() -> bool {
        true
    }

    open spec fn partial_cmp_spec(&self, other: &Self) -> Option<Ordering> {
        Some(Ordering::Equal)
    }
}

impl<const T: u16> ConstSeal for WrapI16<T> {
}

impl<const T: u16> ConstWrap for WrapI16<T> {
    type BaseType = i16;

    const VALUE: i16 = T as i16;
}

impl<const T: u16> ConstOrValue<i16> for WrapI16<T> {
    const IS_CONST: bool = true;

    open spec fn val(self) -> i16 {
        bits_as_i16(T)
    }

    fn get_val(self) -> (r: i16) {
        self.into()
    }
}

impl<const T: u16> From<WrapI16<T>> for i16 {
    /// Unwraps the constant.
    fn from(w: WrapI16<T>) -> (r: i16)
        ensures
            r == bits_as_i16(T),
    {
        i16_from_bits(T)
    }
}

impl<const T: u16> FromSpecImpl<WrapI16<T>> for i16 {
    open spec fn obeys_from_spec() -> bool {
        true
    }

    open spec fn from_spec(w: WrapI16<T>) -> i16 {
        bits_as_i16(T)
    }
}

impl<'a, const T: u16> From<WrapI16<T>> for &'a i16 {
    /// Borrows the constant for as long as the caller likes.
    fn from(w: WrapI16<T>) -> (r: &'a i16)
        ensures
            *r == bits_as_i16(T),
    {
        proof {
            lemma_casts_of_i16(T);
        }
        &(T as i16)
    }
}

impl<'a, const T: u16> FromSpecImpl<WrapI16<T>> for &'a i16 {
    open spec fn obeys_from_spec() -> bool {
        true
    }

    open spec fn from_spec(w: WrapI16<T>) -> &'a i16 {
        &bits_as_i16(T)
    }
}

impl<const T: u16> PartialEq<i16> for WrapI16<T> {
    /// Whether the constant equals `other`.
    fn eq(&self, other: &i16) -> (r: bool)
        ensures
            r <==> bits_as_i16(T) == *other,
    {
        i16_from_bits(T).eq(other)
    }
}

impl<const T: u16> PartialEqSpecImpl<i16> for WrapI16<T> {
    open spec fn obeys_eq_spec() -> bool {
        true
    }

    open spec fn eq_spec(&self, other: &i16) -> bool {
        bits_as_i16(T) == *other
    }
}

impl<const T: u16> PartialOrd<i16> for WrapI16<T> {
    /// How the constant compares with `other`.
    fn partial_cmp(&self, other: &i16) -> (r: Option<Ordering>)
        ensures
            r == Some(Ordering::Less) <==> bits_as_i16(T) < *other,
            r == Some(Ordering::Equal) <==> bits_as_i16(T) == *other,
            r == Some(Ordering::Greater) <==> bits_as_i16(T) > *other,
    {
        i16_from_bits(T).partial_cmp(other)
    }
}

impl<const T: u16> PartialOrdSpecImpl<i16> for WrapI16<T> {
    open spec fn obeys_partial_cmp_spec() -> bool {
        true
    }

    open spec fn partial_cmp_spec(&self, other: &i16) -> Option<Ordering> {
        if bits_as_i16(T) < *other {
            Some(Ordering::Less)
        } else if bits_as_i16(T) > *other {
            Some(Ordering::Greater)
        } else {
            Some(Ordering::Equal)
        }
    }
}

impl<const T: u16> WrapI16<T> {
    /// Unwrapping gives the constant of the type, by value and by reference, and that
    /// constant is `VALUE`.
    pub proof fn law_unwrap(w: Self)
        ensures
            <i16 as FromSpec<Self>>::obeys_from_spec(),
            <i16 as FromSpec<Self>>::from_spec(w) == bits_as_i16(T),
            <&i16 as FromSpec<Self>>::obeys_from_spec(),
            *<&i16 as FromSpec<Self>>::from_spec(w) == bits_as_i16(T),
            <Self as ConstWrap>::VALUE == bits_as_i16(T),
    {
        lemma_casts_of_i16(T);
    }

    /// A wrapper is a constant, and `get_val` hands out the constant of the type.
    pub proof fn law_is_const(w: Self)
        ensures
            <Self as ConstOrValue<i16>>::IS_CONST,
            <Self as ConstOrValue<i16>>::val(w) == bits_as_i16(T),
            <Self as ConstOrValue<i16>>::val(w) == <Self as ConstWrap>::VALUE,
    {
        lemma_casts_of_i16(T);
    }

    /// A wrapper type has one instance.
    pub proof fn law_single_instance(a: Self, b: Self)
        ensures
            a == b,
    {
    }
}

/// An `i32` fixed in the type: `WrapI32<T>` has no storage and stands for the `i32` whose
/// two's-complement bit pattern is `T`. `WrapI32<3>` stands for 3 and `WrapI32<0xFFFF_FFFF>` for -1.
#[derive(Clone, Copy, Debug, Eq, Hash, Ord)]
pub struct WrapI32<const T: u32>;

impl<const T: u32> Default for WrapI32<T> {
    /// The one instance of the type.
    fn default() -> (r: Self)
        ensures
            r == (WrapI32::<T>),
    {
        WrapI32
    }
}

impl<const T: u32> PartialEq for WrapI32<T> {
    /// Two instances of one wrapper type are equal.
    fn eq(&self, other: &Self) -> (r: bool)
        ensures
            r,
    {
        true
    }
}

impl<const T: u32> PartialEqSpecImpl for WrapI32<T> {
    open spec fn obeys_eq_spec() -> bool {
        true
    }

    open spec fn eq_spec(&self, other: &Self) -> bool {
        true
    }
}

impl<const T: u32> PartialOrd for WrapI32<T> {
    /// Two instances of one wrapper type are equal in order.
    fn partial_cmp(&self, other: &Self) -> (r: Option<Ordering>)
        ensures
            r == Some(Ordering::Equal),
    {
        Some(Ordering::Equal)
    }
}

impl<const T: u32> PartialOrdSpecImpl for WrapI32<T> {
    open spec fn obeys_partial_cmp_spec() -> bool {
        true
    }

    open spec fn partial_cmp_spec(&self, other: &Self) -> Option<Ordering> {
        Some(Ordering::Equal)
    }
}

impl<const T: u32> ConstSeal for WrapI32<T> {
}

impl<const T: u32> ConstWrap for WrapI32<T> {
    type BaseType = i32;

    const VALUE: i32 = T as i32;
}

impl<const T: u32> ConstOrValue<i32> for WrapI32<T> {
    const IS_CONST: bool = true;

    open spec fn val(self) -> i32 {
        bits_as_i32(T)
    }

    fn get_val(self) -> (r: i32) {
        self.into()
    }
}

impl<const T: u32> From<WrapI32<T>> for i32 {
    /// Unwraps the constant.
    fn from(w: WrapI32<T>) -> (r: i32)
        ensures
            r == bits_as_i32(T),
    {
        i32_from_bits(T)
    }
}

impl<const T: u32> FromSpecImpl<WrapI32<T>> for i32 {
    open spec fn obeys_from_spec() -> bool {
        true
    }

    open spec fn from_spec(w: WrapI32<T>) -> i32 {
        bits_as_i32(T)
    }
}

impl<'a, const T: u32> From<WrapI32<T>> for &'a i32 {
    /// Borrows the constant for as long as the caller likes.
    fn from(w: WrapI32<T>) -> (r: &'a i32)
        ensures
            *r == bits_as_i32(T),
    {
        proof {
            lemma_casts_of_i32(T);
        }
        &(T as i32)
    }
}

impl<'a, const T: u32> FromSpecImpl<WrapI32<T>> for &'a i32 {
    open spec fn obeys_from_spec() -> bool {
        true
    }

    open spec fn from_spec(w: WrapI32<T>) -> &'a i32 {
        &bits_as_i32(T)
    }
}

impl<const T: u32> PartialEq<i32> for WrapI32<T> {
    /// Whether the constant equals `other`.
    fn eq(&self, other: &i32) -> (r: bool)
        ensures
            r <==> bits_as_i32(T) == *other,
    {
        i32_from_bits(T).eq(other)
    }
}

impl<const T: u32> PartialEqSpecImpl<i32> for WrapI32<T> {
    open spec fn obeys_eq_spec() -> bool {
        true
    }

    open spec fn eq_spec(&self, other: &i32) -> bool {
        bits_as_i32(T) == *other
    }
}

impl<const T: u32> PartialOrd<i32> for WrapI32<T> {
    /// How the constant compares with `other`.
    fn partial_cmp(&self, other: &i32) -> (r: Option<Ordering>)
        ensures
            r == Some(Ordering::Less) <==> bits_as_i32(T) < *other,
            r == Some(Ordering::Equal) <==> bits_as_i32(T) == *other,
            r == Some(Ordering::Greater) <==> bits_as_i32(T) > *other,
    {
        i32_from_bits(T).partial_cmp(other)
    }
}

impl<const T: u32> PartialOrdSpecImpl<i32> for WrapI32<T> {
    open spec fn obeys_partial_cmp_spec() -> bool {
        true
    }

    open spec fn partial_cmp_spec(&self, other: &i32) -> Option<Ordering> {
        if bits_as_i32(T) < *other {
            Some(Ordering::Less)
        } else if bits_as_i32(T) > *other {
            Some(Ordering::Greater)
        } else {
            Some(Ordering::Equal)
        }
    }
}

impl<const T: u32> WrapI32<T> {
    /// Unwrapping gives the constant of the type, by value and by reference, and that
    /// constant is `VALUE`.
    pub proof fn law_unwrap(w: Self)
        ensures
            <i32 as FromSpec<Self>>::obeys_from_spec(),
            <i32 as FromSpec<Self>>::from_spec(w) == bits_as_i32(T),
            <&i32 as FromSpec<Self>>::obeys_from_spec(),
            *<&i32 as FromSpec<Self>>::from_spec(w) == bits_as_i32(T),
            <Self as ConstWrap>::VALUE == bits_as_i32(T),
    {
        lemma_casts_of_i32(T);
    }

    /// A wrapper is a constant, and `get_val` hands out the constant of the type.
    pub proof fn law_is_const(w: Self)
        ensures
            <Self as ConstOrValue<i32>>::IS_CONST,
            <Self as ConstOrValue<i32>>::val(w) == bits_as_i32(T),
            <Self as ConstOrValue<i32>>::val(w) == <Self as ConstWrap>::VALUE,
    {
        lemma_casts_of_i32(T);
    }

    /// A wrapper type has one instance.
    pub proof fn law_single_instance(a: Self, b: Self)
        ensures
            a == b,
    {
    }
}

/// An `i64` fixed in the type: `WrapI64<T>` has no storage and stands for the `i64` whose
/// two's-complement bit pattern is `T`. `WrapI64<3>` stands for 3 and `WrapI64<0xFFFF_FFFF_FFFF_FFFF>` for -1.
#[derive(Clone, Copy, Debug, Eq, Hash, Ord)]
pub struct WrapI64<const T: u64>;

impl<const T: u64> Default for WrapI64<T> {
    /// The one instance of the type.
    fn default() -> (r: Self)
        ensures
            r == (WrapI64::<T>),
    {
        WrapI64
    }
}

impl<const T: u64> PartialEq for WrapI64<T> {
    /// Two instances of one wrapper type are equal.
    fn eq(&self, other: &Self) -> (r: bool)
        ensures
            r,
    {
        true
    }
}

impl<const T: u64> PartialEqSpecImpl for WrapI64<T> {
    open spec fn obeys_eq_spec() -> bool {
        true
    }

    open spec fn eq_spec(&self, other: &Self) -> bool {
        true
    }
}

impl<const T: u64> PartialOrd for WrapI64<T> {
    /// Two instances of one wrapper type are equal in order.
    fn partial_cmp(&self, other: &Self) -> (r: Option<Ordering>)
        ensures
            r == Some(Ordering::Equal),
    {
        Some(Ordering::Equal)
    }
}

impl<const T: u64> PartialOrdSpecImpl for WrapI64<T> {
    open spec fn obeys_partial_cmp_spec() -> bool {
        true
    }

    open spec fn partial_cmp_spec(&self, other: &Self) -> Option<Ordering> {
        Some(Ordering::Equal)
    }
}

impl<const T: u64> ConstSeal for WrapI64<T> {
}

impl<const T: u64> ConstWrap for WrapI64<T> {
    type BaseType = i64;

    const VALUE: i64 = T as i64;
}

impl<const T: u64> ConstOrValue<i64> for WrapI64<T> {
    const IS_CONST: bool = true;

    open spec fn val(self) -> i64 {
        bits_as_i64(T)
    }

    fn get_val(self) -> (r: i64) {
        self.into()
    }
}

impl<const T: u64> From<WrapI64<T>> for i64 {
    /// Unwraps the constant.
    fn from(w: WrapI64<T>) -> (r: i64)
        ensures
            r == bits_as_i64(T),
    {
        i64_from_bits(T)
    }
}

impl<const T: u64> FromSpecImpl<WrapI64<T>> for i64 {
    open spec fn obeys_from_spec() -> bool {
        true
    }

    open spec fn from_spec(w: WrapI64<T>) -> i64 {
        bits_as_i64(T)
    }
}

impl<'a, const T: u64> From<WrapI64<T>> for &'a i64 {
    /// Borrows the constant for as long as the caller likes.
    fn from(w: WrapI64<T>) -> (r: &'a i64)
        ensures
            *r == bits_as_i64(T),
    {
        proof {
            lemma_casts_of_i64(T);
        }
        &(T as i64)
    }
}

impl<'a, const T: u64> FromSpecImpl<WrapI64<T>> for &'a i64 {
    open spec fn obeys_from_spec() -> bool {
        true
    }

    open spec fn from_spec(w: WrapI64<T>) -> &'a i64 {
        &bits_as_i64(T)
    }
}

impl<const T: u64> PartialEq<i64> for WrapI64<T> {
    /// Whether the constant equals `other`.
    fn eq(&self, other: &i64) -> (r: bool)
        ensures
            r <==> bits_as_i64(T) == *other,
    {
        i64_from_bits(T).eq(other)
    }
}

impl<const T: u64> PartialEqSpecImpl<i64> for WrapI64<T> {
    open spec fn obeys_eq_spec() -> bool {
        true
    }

    open spec fn eq_spec(&self, other: &i64) -> bool {
        bits_as_i64(T) == *other
    }
}

impl<const T: u64> PartialOrd<i64> for WrapI64<T> {
    /// How the constant compares with `other`.
    fn partial_cmp(&self, other: &i64) -> (r: Option<Ordering>)
        ensures
            r == Some(Ordering::Less) <==> bits_as_i64(T) < *other,
            r == Some(Ordering::Equal) <==> bits_as_i64(T) == *other,
            r == Some(Ordering::Greater) <==> bits_as_i64(T) > *other,
    {
        i64_from_bits(T).partial_cmp(other)
    }
}

impl<const T: u64> PartialOrdSpecImpl<i64> for WrapI64<T> {
    open spec fn obeys_partial_cmp_spec() -> bool {
        true
    }

    open spec fn partial_cmp_spec(&self, other: &i64) -> Option<Ordering> {
        if bits_as_i64(T) < *other {
            Some(Ordering::Less)
        } else if bits_as_i64(T) > *other {
            Some(Ordering::Greater)
        } else {
            Some(Ordering::Equal)
        }
    }
}

impl<const T: u64> WrapI64<T> {
    /// Unwrapping gives the constant of the type, by value and by reference, and that
    /// constant is `VALUE`.
    pub proof fn law_unwrap(w: Self)
        ensures
            <i64 as FromSpec<Self>>::obeys_from_spec(),
            <i64 as FromSpec<Self>>::from_spec(w) == bits_as_i64(T),
            <&i64 as FromSpec<Self>>::obeys_from_spec(),
            *<&i64 as FromSpec<Self>>::from_spec(w) == bits_as_i64(T),
            <Self as ConstWrap>::VALUE == bits_as_i64(T),
    {
        lemma_casts_of_i64(T);
    }

    /// A wrapper is a constant, and `get_val` hands out the constant of the type.
    pub proof fn law_is_const(w: Self)
        ensures
            <Self as ConstOrValue<i64>>::IS_CONST,
            <Self as ConstOrValue<i64>>::val(w) == bits_as_i64(T),
            <Self as ConstOrValue<i64>>::val(w) == <Self as ConstWrap>::VALUE,
    {
        lemma_casts_of_i64(T);
    }

    /// A wrapper type has one instance.
    pub proof fn law_single_instance(a: Self, b: Self)
        ensures
            a == b,
    {
    }
}

/// An `isize` fixed in the type: `WrapISIZE<T>` has no storage and stands for the `isize` whose
/// two's-complement bit pattern is `T`. `WrapISIZE<3>` stands for 3 and `WrapISIZE<{ usize::MAX }>` for -1.
#[derive(Clone, Copy, Debug, Eq, Hash, Ord)]
pub struct WrapISIZE<const T: usize>;

impl<const T: usize> Default for WrapISIZE<T> {
    /// The one instance of the type.
    fn default() -> (r: Self)
        ensures
            r == (WrapISIZE::<T>),
    {
        WrapISIZE
    }
}

impl<const T: usize> PartialEq for WrapISIZE<T> {
    /// Two instances of one wrapper type are equal.
    fn eq(&self, other: &Self) -> (r: bool)
        ensures
            r,
    {
        true
    }
}

impl<const T: usize> PartialEqSpecImpl for WrapISIZE<T> {
    open spec fn obeys_eq_spec() -> bool {
        true
    }

    open spec fn eq_spec(&self, other: &Self) -> bool {
        true
    }
}

impl<const T: usize> PartialOrd for WrapISIZE<T> {
    /// Two instances of one wrapper type are equal in order.
    fn partial_cmp(&self, other: &Self) -> (r: Option<Ordering>)
        ensures
            r == Some(Ordering::Equal),
    {
        Some(Ordering::Equal)
    }
}

impl<const T: usize> PartialOrdSpecImpl for WrapISIZE<T> {
    open spec fn obeys_partial_cmp_spec() -> bool {
        true
    }

    open spec fn partial_cmp_spec(&self, other: &Self) -> Option<Ordering> {
        Some(Ordering::Equal)
    }
}

impl<const T: usize> ConstSeal for WrapISIZE<T> {
}

impl<const T: usize> ConstWrap for WrapISIZE<T> {
    type BaseType = isize;

    const VALUE: isize = T as isize;
}

impl<const T: usize> ConstOrValue<isize> for WrapISIZE<T> {
    const IS_CONST: bool = true;

    open spec fn val(self) -> isize {
        bits_as_isize(T)
    }

    fn get_val(self) -> (r: isize) {
        self.into()
    }
}

impl<const T: usize> From<WrapISIZE<T>> for isize {
    /// Unwraps the constant.
    fn from(w: WrapISIZE<T>) -> (r: isize)
        ensures
            r == bits_as_isize(T),
    {
        isize_from_bits(T)
    }
}

impl<const T: usize> FromSpecImpl<WrapISIZE<T>> for isize {
    open spec fn obeys_from_spec() -> bool {
        true
    }

    open spec fn from_spec(w: WrapISIZE<T>) -> isize {
        bits_as_isize(T)
    }
}

impl<'a, const T: usize> From<WrapISIZE<T>> for &'a isize {
    /// Borrows the constant for as long as the caller likes.
    fn from(w: WrapISIZE<T>) -> (r: &'a isize)
        ensures
            *r == bits_as_isize(T),
    {
        proof {
            lemma_casts_of_isize(T);
        }
        &(T as isize)
    }
}

impl<'a, const T: usize> FromSpecImpl<WrapISIZE<T>> for &'a isize {
    open spec fn obeys_from_spec() -> bool {
        true
    }

    open spec fn from_spec(w: WrapISIZE<T>) -> &'a isize {
        &bits_as_isize(T)
    }
}

impl<const T: usize> PartialEq<isize> for WrapISIZE<T> {
    /// Whether the constant equals `other`.
    fn eq(&self, other: &isize) -> (r: bool)
        ensures
            r <==> bits_as_isize(T) == *other,
    {
        isize_from_bits(T).eq(other)
    }
}

impl<const T: usize> PartialEqSpecImpl<isize> for WrapISIZE<T> {
    open spec fn obeys_eq_spec() -> bool {
        true
    }

    open spec fn eq_spec(&self, other: &isize) -> bool {
        bits_as_isize(T) == *other
    }
}

impl<const T: usize> PartialOrd<isize> for WrapISIZE<T> {
    /// How the constant compares with `other`.
    fn partial_cmp(&self, other: &isize) -> (r: Option<Ordering>)
        ensures
            r == Some(Ordering::Less) <==> bits_as_isize(T) < *other,
            r == Some(Ordering::Equal) <==> bits_as_isize(T) == *other,
            r == Some(Ordering::Greater) <==> bits_as_isize(T) > *other,
    {
        isize_from_bits(T).partial_cmp(other)
    }
}

impl<const T: usize> PartialOrdSpecImpl<isize> for WrapISIZE<T> {
    open spec fn obeys_partial_cmp_spec() -> bool {
        true
    }

    open spec fn partial_cmp_spec(&self, other: &isize) -> Option<Ordering> {
        if bits_as_isize(T) < *other {
            Some(Ordering::Less)
        } else if bits_as_isize(T) > *other {
            Some(Ordering::Greater)
        } else {
            Some(Ordering::Equal)
        }
    }
}

impl<const T: usize> WrapISIZE<T> {
    /// Unwrapping gives the constant of the type, by value and by reference, and that
    /// constant is `VALUE`.
    pub proof fn law_unwrap(w: Self)
        ensures
            <isize as FromSpec<Self>>::obeys_from_spec(),
            <isize as FromSpec<Self>>::from_spec(w) == bits_as_isize(T),
            <&isize as FromSpec<Self>>::obeys_from_spec(),
            *<&isize as FromSpec<Self>>::from_spec(w) == bits_as_isize(T),
            <Self as ConstWrap>::VALUE == bits_as_isize(T),
    {
        lemma_casts_of_isize(T);
    }

    /// A wrapper is a constant, and `get_val` hands out the constant of the type.
    pub proof fn law_is_const(w: Self)
        ensures
            <Self as ConstOrValue<isize>>::IS_CONST,
            <Self as ConstOrValue<isize>>::val(w) == bits_as_isize(T),
            <Self as ConstOrValue<isize>>::val(w) == <Self as ConstWrap>::VALUE,
    {
        lemma_casts_of_isize(T);
    }

    /// A wrapper type has one instance.
    pub proof fn law_single_instance(a: Self, b: Self)
        ensures
            a == b,
    {
    }
}

} // verus!
