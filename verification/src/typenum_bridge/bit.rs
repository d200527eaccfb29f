//! The two boolean wrappers as type-level bits.
use crate::boolean::WrapBOOL;
use crate::contract::ConstWrap;
use vstd::prelude::*;
use vstd::std_specs::convert::FromSpec;

verus! {

/// The number that stands for a bit: 1 for `true`, 0 for `false`.
pub open spec fn bit_as_u8(b: bool) -> u8 {
    if b {
        1
    } else {
        0
    }
}

/// The constant of a boolean wrapper as a bit, as associated constants and as functions
/// without arguments.
pub trait BitConst: ConstWrap {
    /// The bit as a number: 1 for `true`, 0 for `false`.
    const U8: u8;

    /// The bit as a `bool`.
    const BOOL: bool;

    /// The constant of the type.
    spec fn carried() -> bool;

    /// The associated constants are the constant of the type, as a `bool` and as a
    /// number.
    proof fn constants_are_casts()
        ensures
            Self::BOOL == Self::carried(),
            Self::U8 == bit_as_u8(Self::carried()),
    ;

    /// The one instance of the type.
    fn new() -> (r: Self)
    ;

    /// The bit as a number: 1 for `true`, 0 for `false`.
    fn to_u8() -> (r: u8)
        ensures
            r == bit_as_u8(Self::carried()),
            r == Self::U8,
    ;

    /// The bit as a `bool`.
    fn to_bool() -> (r: bool)
        ensures
            r == Self::carried(),
            r == Self::BOOL,
    ;
}

impl BitConst for WrapBOOL<false> {
    const U8: u8 = 0;

    const BOOL: bool = false;

    open spec fn carried() -> bool {
        false
    }

    proof fn constants_are_casts() {
    }

    fn new() -> (r: Self)
        ensures
            r == (WrapBOOL::<false>),
    {
        WrapBOOL
    }

    fn to_u8() -> (r: u8) {
        0
    }

    fn to_bool() -> (r: bool) {
        false
    }
}

impl BitConst for WrapBOOL<true> {
    const U8: u8 = 1;

    const BOOL: bool = true;

    open spec fn carried() -> bool {
        true
    }

    proof fn constants_are_casts() {
    }

    fn new() -> (r: Self)
        ensures
            r == (WrapBOOL::<true>),
    {
        WrapBOOL
    }

    fn to_u8() -> (r: u8) {
        1
    }

    fn to_bool() -> (r: bool) {
        true
    }
}

impl WrapBOOL<false> {
    /// The bit that the projections show is the constant that unwrapping gives.
    pub proof fn law_projects_the_constant(w: Self)
        ensures
            <Self as BitConst>::carried() == <bool as FromSpec<Self>>::from_spec(w),
    {
    }
}

impl WrapBOOL<true> {
    /// The bit that the projections show is the constant that unwrapping gives.
    pub proof fn law_projects_the_constant(w: Self)
        ensures
            <Self as BitConst>::carried() == <bool as FromSpec<Self>>::from_spec(w),
    {
    }
}

} // verus!
