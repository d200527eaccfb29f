//! The seal that keeps `ConstWrap` to the wrappers of this crate.
use vstd::prelude::*;

verus! {

/// Implemented by the wrappers of this crate and, the module being private, by nothing
/// else.
pub trait ConstSeal {
}

} // verus!
