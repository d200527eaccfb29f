//! The unsigned wrappers as unsigned type-level numbers.
use crate::casts::cast_i16;
use crate::casts::cast_i32;
use crate::casts::cast_i64;
use crate::casts::cast_i8;
use crate::casts::cast_isize;
use crate::casts::cast_u16;
use crate::casts::cast_u32;
use crate::casts::cast_u64;
use crate::casts::cast_u8;
use crate::casts::cast_usize;
use crate::casts::lemma_casts_of_u16;
use crate::casts::lemma_casts_of_u32;
use crate::casts::lemma_casts_of_u64;
use crate::casts::lemma_casts_of_u8;
use crate::casts::lemma_casts_of_usize;
use crate::contract::ConstWrap;
use crate::unsigned::WrapU16;
use crate::unsigned::WrapU32;
use crate::unsigned::WrapU64;
use crate::unsigned::WrapU8;
use crate::unsigned::WrapUSIZE;
use vstd::prelude::*;
use vstd::std_specs::convert::FromSpec;

verus! {

/// The constant of an unsigned wrapper in each integer type, as associated constants and
/// as functions without arguments. A type that cannot hold the constant gets its low
/// bits: `WrapU32<260>` has `U32 == 260` and `U8 == 4`.
pub trait UnsignedConst: ConstWrap {
    /// The constant, cast to `u8`.
    const U8: u8;

    /// The constant, cast to `u16`.
    const U16: u16;

    /// The constant, cast to `u32`.
    const U32: u32;

    /// The constant, cast to `u64`.
    const U64: u64;

    /// The constant, cast to `usize`.
    const USIZE: usize;

    /// The constant, cast to `i8`.
    const I8: i8;

    /// The constant, cast to `i16`.
    const I16: i16;

    /// The constant, cast to `i32`.
    const I32: i32;

    /// The constant, cast to `i64`.
    const I64: i64;

    /// The constant, cast to `isize`.
    const ISIZE: isize;

    /// The constant of the type, as a mathematical integer.
    spec fn carried() -> int;

    /// Each associated constant is the constant of the type, cast as `as` casts it.
    proof fn constants_are_casts()
        ensures
            Self::U8 == cast_u8(Self::carried()),
            Self::U16 == cast_u16(Self::carried()),
            Self::U32 == cast_u32(Self::carried()),
            Self::U64 == cast_u64(Self::carried()),
            Self::USIZE == cast_usize(Self::carried()),
            Self::I8 == cast_i8(Self::carried()),
            Self::I16 == cast_i16(Self::carried()),
            Self::I32 == cast_i32(Self::carried()),
            Self::I64 == cast_i64(Self::carried()),
            Self::ISIZE == cast_isize(Self::carried()),
    ;

    /// The constant, cast to `u8`.
    fn to_u8() -> (r: u8)
        ensures
            r == cast_u8(Self::carried()),
            r == Self::U8,
    ;

    /// The constant, cast to `u16`.
    fn to_u16() -> (r: u16)
        ensures
            r == cast_u16(Self::carried()),
            r == Self::U16,
    ;

    /// The constant, cast to `u32`.
    fn to_u32() -> (r: u32)
        ensures
            r == cast_u32(Self::carried()),
            r == Self::U32,
    ;

    /// The constant, cast to `u64`.
    fn to_u64() -> (r: u64)
        ensures
            r == cast_u64(Self::carried()),
            r == Self::U64,
    ;

    /// The constant, cast to `usize`.
    fn to_usize() -> (r: usize)
        ensures
            r == cast_usize(Self::carried()),
            r == Self::USIZE,
    ;

    /// The constant, cast to `i8`.
    fn to_i8() -> (r: i8)
        ensures
            r == cast_i8(Self::carried()),
            r == Self::I8,
    ;

    /// The constant, cast to `i16`.
    fn to_i16() -> (r: i16)
        ensures
            r == cast_i16(Self::carried()),
            r == Self::I16,
    ;

    /// The constant, cast to `i32`.
    fn to_i32() -> (r: i32)
        ensures
            r == cast_i32(Self::carried()),
            r == Self::I32,
    ;

    /// The constant, cast to `i64`.
    fn to_i64() -> (r: i64)
        ensures
            r == cast_i64(Self::carried()),
            r == Self::I64,
    ;

    /// The constant, cast to `isize`.
    fn to_isize() -> (r: isize)
        ensures
            r == cast_isize(Self::carried()),
            r == Self::ISIZE,
    ;
}

impl<const T: u8> UnsignedConst for WrapU8<T> {
    const U8: u8 = T as u8;

    const U16: u16 = T as u16;

    const U32: u32 = T as u32;

    const U64: u64 = T as u64;

    const USIZE: usize = T as usize;

    const I8: i8 = T as i8;

    const I16: i16 = T as i16;

    const I32: i32 = T as i32;

    const I64: i64 = T as i64;

    const ISIZE: isize = T as isize;

    open spec fn carried() -> int {
        T as int
    }

    proof fn constants_are_casts() {
        lemma_casts_of_u8(T);
    }

    fn to_u8() -> (r: u8) {
        proof {
            Self::constants_are_casts();
        }
        Self::U8
    }

    fn to_u16() -> (r: u16) {
        proof {
            Self::constants_are_casts();
        }
        Self::U16
    }

    fn to_u32() -> (r: u32) {
        proof {
            Self::constants_are_casts();
        }
        Self::U32
    }

    fn to_u64() -> (r: u64) {
        proof {
            Self::constants_are_casts();
        }
        Self::U64
    }

    fn to_usize() -> (r: usize) {
        proof {
            Self::constants_are_casts();
        }
        Self::USIZE
    }

    fn to_i8() -> (r: i8) {
        proof {
            Self::constants_are_casts();
        }
        Self::I8
    }

    fn to_i16() -> (r: i16) {
        proof {
            Self::constants_are_casts();
        }
        Self::I16
    }

    fn to_i32() -> (r: i32) {
        proof {
            Self::constants_are_casts();
        }
        Self::I32
    }

    fn to_i64() -> (r: i64) {
        proof {
            Self::constants_are_casts();
        }
        Self::I64
    }

    fn to_isize() -> (r: isize) {
        proof {
            Self::constants_are_casts();
        }
        Self::ISIZE
    }
}

impl<const T: u8> WrapU8<T> {
    /// The number that the projections cast is the constant that unwrapping gives.
    pub proof fn law_projects_the_constant(w: Self)
        ensures
            <Self as UnsignedConst>::carried() == <u8 as FromSpec<Self>>::from_spec(w),
    {
    }
}

impl<const T: u16> UnsignedConst for WrapU16<T> {
    const U8: u8 = T as u8;

    const U16: u16 = T as u16;

    const U32: u32 = T as u32;

    const U64: u64 = T as u64;

    const USIZE: usize = T as usize;

    const I8: i8 = T as i8;

    const I16: i16 = T as i16;

    const I32: i32 = T as i32;

    const I64: i64 = T as i64;

    const ISIZE: isize = T as isize;

    open spec fn carried() -> int {
        T as int
    }

    proof fn constants_are_casts() {
        lemma_casts_of_u16(T);
    }

    fn to_u8() -> (r: u8) {
        proof {
            Self::constants_are_casts();
        }
        Self::U8
    }

    fn to_u16() -> (r: u16) {
        proof {
            Self::constants_are_casts();
        }
        Self::U16
    }

    fn to_u32() -> (r: u32) {
        proof {
            Self::constants_are_casts();
        }
        Self::U32
    }

    fn to_u64() -> (r: u64) {
        proof {
            Self::constants_are_casts();
        }
        Self::U64
    }

    fn to_usize() -> (r: usize) {
        proof {
            Self::constants_are_casts();
        }
        Self::USIZE
    }

    fn to_i8() -> (r: i8) {
        proof {
            Self::constants_are_casts();
        }
        Self::I8
    }

    fn to_i16() -> (r: i16) {
        proof {
            Self::constants_are_casts();
        }
        Self::I16
    }

    fn to_i32() -> (r: i32) {
        proof {
            Self::constants_are_casts();
        }
        Self::I32
    }

    fn to_i64() -> (r: i64) {
        proof {
            Self::constants_are_casts();
        }
        Self::I64
    }

    fn to_isize() -> (r: isize) {
        proof {
            Self::constants_are_casts();
        }
        Self::ISIZE
    }
}

impl<const T: u16> WrapU16<T> {
    /// The number that the projections cast is the constant that unwrapping gives.
    pub proof fn law_projects_the_constant(w: Self)
        ensures
            <Self as UnsignedConst>::carried() == <u16 as FromSpec<Self>>::from_spec(w),
    {
    }
}

impl<const T: u32> UnsignedConst for WrapU32<T> {
    const U8: u8 = T as u8;

    const U16: u16 = T as u16;

    const U32: u32 = T as u32;

    const U64: u64 = T as u64;

    const USIZE: usize = T as usize;

    const I8: i8 = T as i8;

    const I16: i16 = T as i16;

    const I32: i32 = T as i32;

    const I64: i64 = T as i64;

    const ISIZE: isize = T as isize;

    open spec fn carried() -> int {
        T as int
    }

    proof fn constants_are_casts() {
        lemma_casts_of_u32(T);
    }

    fn to_u8() -> (r: u8) {
        proof {
            Self::constants_are_casts();
        }
        Self::U8
    }

    fn to_u16() -> (r: u16) {
        proof {
            Self::constants_are_casts();
        }
        Self::U16
    }

    fn to_u32() -> (r: u32) {
        proof {
            Self::constants_are_casts();
        }
        Self::U32
    }

    fn to_u64() -> (r: u64) {
        proof {
            Self::constants_are_casts();
        }
        Self::U64
    }

    fn to_usize() -> (r: usize) {
        proof {
            Self::constants_are_casts();
        }
        Self::USIZE
    }

    fn to_i8() -> (r: i8) {
        proof {
            Self::constants_are_casts();
        }
        Self::I8
    }

    fn to_i16() -> (r: i16) {
        proof {
            Self::constants_are_casts();
        }
        Self::I16
    }

    fn to_i32() -> (r: i32) {
        proof {
            Self::constants_are_casts();
        }
        Self::I32
    }

    fn to_i64() -> (r: i64) {
        proof {
            Self::constants_are_casts();
        }
        Self::I64
    }

    fn to_isize() -> (r: isize) {
        proof {
            Self::constants_are_casts();
        }
        Self::ISIZE
    }
}

impl<const T: u32> WrapU32<T> {
    /// The number that the projections cast is the constant that unwrapping gives.
    pub proof fn law_projects_the_constant(w: Self)
        ensures
            <Self as UnsignedConst>::carried() == <u32 as FromSpec<Self>>::from_spec(w),
    {
    }
}

impl<const T: u64> UnsignedConst for WrapU64<T> {
    const U8: u8 = T as u8;

    const U16: u16 = T as u16;

    const U32: u32 = T as u32;

    const U64: u64 = T as u64;

    const USIZE: usize = T as usize;

    const I8: i8 = T as i8;

    const I16: i16 = T as i16;

    const I32: i32 = T as i32;

    const I64: i64 = T as i64;

    const ISIZE: isize = T as isize;

    open spec fn carried() -> int {
        T as int
    }

    proof fn constants_are_casts() {
        lemma_casts_of_u64(T);
    }

    fn to_u8() -> (r: u8) {
        proof {
            Self::constants_are_casts();
        }
        Self::U8
    }

    fn to_u16() -> (r: u16) {
        proof {
            Self::constants_are_casts();
        }
        Self::U16
    }

    fn to_u32() -> (r: u32) {
        proof {
            Self::constants_are_casts();
        }
        Self::U32
    }

    fn to_u64() -> (r: u64) {
        proof {
            Self::constants_are_casts();
        }
        Self::U64
    }

    fn to_usize() -> (r: usize) {
        proof {
            Self::constants_are_casts();
        }
        Self::USIZE
    }

    fn to_i8() -> (r: i8) {
        proof {
            Self::constants_are_casts();
        }
        Self::I8
    }

    fn to_i16() -> (r: i16) {
        proof {
            Self::constants_are_casts();
        }
        Self::I16
    }

    fn to_i32() -> (r: i32) {
        proof {
            Self::constants_are_casts();
        }
        Self::I32
    }

    fn to_i64() -> (r: i64) {
        proof {
            Self::constants_are_casts();
        }
        Self::I64
    }

    fn to_isize() -> (r: isize) {
        proof {
            Self::constants_are_casts();
        }
        Self::ISIZE
    }
}

impl<const T: u64> WrapU64<T> {
    /// The number that the projections cast is the constant that unwrapping gives.
    pub proof fn law_projects_the_constant(w: Self)
        ensures
            <Self as UnsignedConst>::carried() == <u64 as FromSpec<Self>>::from_spec(w),
    {
    }
}

impl<const T: usize> UnsignedConst for WrapUSIZE<T> {
    const U8: u8 = T as u8;

    const U16: u16 = T as u16;

    const U32: u32 = T as u32;

    const U64: u64 = T as u64;

    const USIZE: usize = T as usize;

    const I8: i8 = T as i8;

    const I16: i16 = T as i16;

    const I32: i32 = T as i32;

    const I64: i64 = T as i64;

    const ISIZE: isize = T as isize;

    open spec fn carried() -> int {
        T as int
    }

    proof fn constants_are_casts() {
        lemma_casts_of_usize(T);
    }

    fn to_u8() -> (r: u8) {
        proof {
            Self::constants_are_casts();
        }
        Self::U8
    }

    fn to_u16() -> (r: u16) {
        proof {
            Self::constants_are_casts();
        }
        Self::U16
    }

    fn to_u32() -> (r: u32) {
        proof {
            Self::constants_are_casts();
        }
        Self::U32
    }

    fn to_u64() -> (r: u64) {
        proof {
            Self::constants_are_casts();
        }
        Self::U64
    }

    fn to_usize() -> (r: usize) {
        proof {
            Self::constants_are_casts();
        }
        Self::USIZE
    }

    fn to_i8() -> (r: i8) {
        proof {
            Self::constants_are_casts();
        }
        Self::I8
    }

    fn to_i16() -> (r: i16) {
        proof {
            Self::constants_are_casts();
        }
        Self::I16
    }

    fn to_i32() -> (r: i32) {
        proof {
            Self::constants_are_casts();
        }
        Self::I32
    }

    fn to_i64() -> (r: i64) {
        proof {
            Self::constants_are_casts();
        }
        Self::I64
    }

    fn to_isize() -> (r: isize) {
        proof {
            Self::constants_are_casts();
        }
        Self::ISIZE
    }
}

impl<const T: usize> WrapUSIZE<T> {
    /// The number that the projections cast is the constant that unwrapping gives.
    pub proof fn law_projects_the_constant(w: Self)
        ensures
            <Self as UnsignedConst>::carried() == <usize as FromSpec<Self>>::from_spec(w),
    {
    }
}

} // verus!
