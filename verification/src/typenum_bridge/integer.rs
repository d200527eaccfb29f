//! The signed wrappers as signed type-level numbers.
use crate::casts::bits_as_i16;
use crate::casts::bits_as_i32;
use crate::casts::bits_as_i64;
use crate::casts::bits_as_i8;
use crate::casts::bits_as_isize;
use crate::casts::cast_i16;
use crate::casts::cast_i32;
use crate::casts::cast_i64;
use crate::casts::cast_i8;
use crate::casts::cast_isize;
use crate::casts::lemma_casts_of_i16;
use crate::casts::lemma_casts_of_i32;
use crate::casts::lemma_casts_of_i64;
use crate::casts::lemma_casts_of_i8;
use crate::casts::lemma_casts_of_isize;
use crate::contract::ConstWrap;
use crate::signed::WrapI16;
use crate::signed::WrapI32;
use crate::signed::WrapI64;
use crate::signed::WrapI8;
use crate::signed::WrapISIZE;
use vstd::prelude::*;
use vstd::std_specs::convert::FromSpec;

verus! {

/// The constant of a signed wrapper in each signed integer type, as associated constants
/// and as functions without arguments. A type that cannot hold the constant gets its low
/// bits, read as two's complement: `WrapI32<260>` has `I32 == 260` and `I8 == 4`.
pub trait IntegerConst: ConstWrap {
    /// The constant, cast to `i8`.
    const I8: i8;

    /// The constant, cast to `i16`.
    const I16: i16;

    /// The constant, cast to `i32`.
    const I32: i32;

    /// The constant, cast to `i64`.
    const I64: i64;

    /// The constant, cast to `isize`.
    const ISIZE: isize;

    /// The constant of the type, as a mathematical integer.
    spec fn carried() -> int;

    /// Each associated constant is the constant of the type, cast as `as` casts it.
    proof fn constants_are_casts()
        ensures
            Self::I8 == cast_i8(Self::carried()),
            Self::I16 == cast_i16(Self::carried()),
            Self::I32 == cast_i32(Self::carried()),
            Self::I64 == cast_i64(Self::carried()),
            Self::ISIZE == cast_isize(Self::carried()),
    ;

    /// The constant, cast to `i8`.
    fn to_i8() -> (r: i8)
        ensures
            r == cast_i8(Self::carried()),
            r == Self::I8,
    ;

    /// The constant, cast to `i16`.
    fn to_i16() -> (r: i16)
        ensures
            r == cast_i16(Self::carried()),
            r == Self::I16,
    ;

    /// The constant, cast to `i32`.
    fn to_i32() -> (r: i32)
        ensures
            r == cast_i32(Self::carried()),
            r == Self::I32,
    ;

    /// The constant, cast to `i64`.
    fn to_i64() -> (r: i64)
        ensures
            r == cast_i64(Self::carried()),
            r == Self::I64,
    ;

    /// The constant, cast to `isize`.
    fn to_isize() -> (r: isize)
        ensures
            r == cast_isize(Self::carried()),
            r == Self::ISIZE,
    ;
}

impl<const T: u8> IntegerConst for WrapI8<T> {
    const I8: i8 = T as i8;

    const I16: i16 = T as i8 as i16;

    const I32: i32 = T as i8 as i32;

    const I64: i64 = T as i8 as i64;

    const ISIZE: isize = T as i8 as isize;

    open spec fn carried() -> int {
        bits_as_i8(T) as int
    }

    proof fn constants_are_casts() {
        lemma_casts_of_i8(T);
    }

    fn to_i8() -> (r: i8) {
        proof {
            Self::constants_are_casts();
        }
        Self::I8
    }

    fn to_i16() -> (r: i16) {
        proof {
            Self::constants_are_casts();
        }
        Self::I16
    }

    fn to_i32() -> (r: i32) {
        proof {
            Self::constants_are_casts();
        }
        Self::I32
    }

    fn to_i64() -> (r: i64) {
        proof {
            Self::constants_are_casts();
        }
        Self::I64
    }

    fn to_isize() -> (r: isize) {
        proof {
            Self::constants_are_casts();
        }
        Self::ISIZE
    }
}

impl<const T: u8> WrapI8<T> {
    /// The number that the projections cast is the constant that unwrapping gives.
    pub proof fn law_projects_the_constant(w: Self)
        ensures
            <Self as IntegerConst>::carried() == <i8 as FromSpec<Self>>::from_spec(w),
    {
    }
}

impl<const T: u16> IntegerConst for WrapI16<T> {
    const I8: i8 = T as i16 as i8;

    const I16: i16 = T as i16;

    const I32: i32 = T as i16 as i32;

    const I64: i64 = T as i16 as i64;

    const ISIZE: isize = T as i16 as isize;

    open spec fn carried() -> int {
        bits_as_i16(T) as int
    }

    proof fn constants_are_casts() {
        lemma_casts_of_i16(T);
    }

    fn to_i8() -> (r: i8) {
        proof {
            Self::constants_are_casts();
        }
        Self::I8
    }

    fn to_i16() -> (r: i16) {
        proof {
            Self::constants_are_casts();
        }
        Self::I16
    }

    fn to_i32() -> (r: i32) {
        proof {
            Self::constants_are_casts();
        }
        Self::I32
    }

    fn to_i64() -> (r: i64) {
        proof {
            Self::constants_are_casts();
        }
        Self::I64
    }

    fn to_isize() -> (r: isize) {
        proof {
            Self::constants_are_casts();
        }
        Self::ISIZE
    }
}

impl<const T: u16> WrapI16<T> {
    /// The number that the projections cast is the constant that unwrapping gives.
    pub proof fn law_projects_the_constant(w: Self)
        ensures
            <Self as IntegerConst>::carried() == <i16 as FromSpec<Self>>::from_spec(w),
    {
    }
}

impl<const T: u32> IntegerConst for WrapI32<T> {
    const I8: i8 = T as i32 as i8;

    const I16: i16 = T as i32 as i16;

    const I32: i32 = T as i32;

    const I64: i64 = T as i32 as i64;

    const ISIZE: isize = T as i32 as isize;

    open spec fn carried() -> int {
        bits_as_i32(T) as int
    }

    proof fn constants_are_casts() {
        lemma_casts_of_i32(T);
    }

    fn to_i8() -> (r: i8) {
        proof {
            Self::constants_are_casts();
        }
        Self::I8
    }

    fn to_i16() -> (r: i16) {
        proof {
            Self::constants_are_casts();
        }
        Self::I16
    }

    fn to_i32() -> (r: i32) {
        proof {
            Self::constants_are_casts();
        }
        Self::I32
    }

    fn to_i64() -> (r: i64) {
        proof {
            Self::constants_are_casts();
        }
        Self::I64
    }

    fn to_isize() -> (r: isize) {
        proof {
            Self::constants_are_casts();
        }
        Self::ISIZE
    }
}

impl<const T: u32> WrapI32<T> {
    /// The number that the projections cast is the constant that unwrapping gives.
    pub proof fn law_projects_the_constant(w: Self)
        ensures
            <Self as IntegerConst>::carried() == <i32 as FromSpec<Self>>::from_spec(w),
    {
    }
}

impl<const T: u64> IntegerConst for WrapI64<T> {
    const I8: i8 = T as i64 as i8;

    const I16: i16 = T as i64 as i16;

    const I32: i32 = T as i64 as i32;

    const I64: i64 = T as i64;

    const ISIZE: isize = T as i64 as isize;

    open spec fn carried() -> int {
        bits_as_i64(T) as int
    }

    proof fn constants_are_casts() {
        lemma_casts_of_i64(T);
    }

    fn to_i8() -> (r: i8) {
        proof {
            Self::constants_are_casts();
        }
        Self::I8
    }

    fn to_i16() -> (r: i16) {
        proof {
            Self::constants_are_casts();
        }
        Self::I16
    }

    fn to_i32() -> (r: i32) {
        proof {
            Self::constants_are_casts();
        }
        Self::I32
    }

    fn to_i64() -> (r: i64) {
        proof {
            Self::constants_are_casts();
        }
        Self::I64
    }

    fn to_isize() -> (r: isize) {
        proof {
            Self::constants_are_casts();
        }
        Self::ISIZE
    }
}

impl<const T: u64> WrapI64<T> {
    /// The number that the projections cast is the constant that unwrapping gives.
    pub proof fn law_projects_the_constant(w: Self)
        ensures
            <Self as IntegerConst>::carried() == <i64 as FromSpec<Self>>::from_spec(w),
    {
    }
}

impl<const T: usize> IntegerConst for WrapISIZE<T> {
    const I8: i8 = T as isize as i8;

    const I16: i16 = T as isize as i16;

    const I32: i32 = T as isize as i32;

    const I64: i64 = T as isize as i64;

    const ISIZE: isize = T as isize;

    open spec fn carried() -> int {
        bits_as_isize(T) as int
    }

    proof fn constants_are_casts() {
        lemma_casts_of_isize(T);
    }

    fn to_i8() -> (r: i8) {
        proof {
            Self::constants_are_casts();
        }
        Self::I8
    }

    fn to_i16() -> (r: i16) {
        proof {
            Self::constants_are_casts();
        }
        Self::I16
    }

    fn to_i32() -> (r: i32) {
        proof {
            Self::constants_are_casts();
        }
        Self::I32
    }

    fn to_i64() -> (r: i64) {
        proof {
            Self::constants_are_casts();
        }
        Self::I64
    }

    fn to_isize() -> (r: isize) {
        proof {
            Self::constants_are_casts();
        }
        Self::ISIZE
    }
}

impl<const T: usize> WrapISIZE<T> {
    /// The number that the projections cast is the constant that unwrapping gives.
    pub proof fn law_projects_the_constant(w: Self)
        ensures
            <Self as IntegerConst>::carried() == <isize as FromSpec<Self>>::from_spec(w),
    {
    }
}

} // verus!
