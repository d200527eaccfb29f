//! The wrappers of zero carry typenum's marker of zero: of each integer kind the wrapper
//! named with 0, and no other.
use crate::signed::WrapI16;
use crate::signed::WrapI32;
use crate::signed::WrapI64;
use crate::signed::WrapI8;
use crate::signed::WrapISIZE;
use crate::unsigned::WrapU16;
use crate::unsigned::WrapU32;
use crate::unsigned::WrapU64;
use crate::unsigned::WrapU8;
use crate::unsigned::WrapUSIZE;
use typenum::marker_traits::Zero;
use vstd::prelude::*;

verus! {

impl Zero for WrapU8<0> {
}

impl Zero for WrapU16<0> {
}

impl Zero for WrapU32<0> {
}

impl Zero for WrapU64<0> {
}

impl Zero for WrapUSIZE<0> {
}

impl Zero for WrapI8<0> {
}

impl Zero for WrapI16<0> {
}

impl Zero for WrapI32<0> {
}

impl Zero for WrapI64<0> {
}

impl Zero for WrapISIZE<0> {
}

} // verus!
