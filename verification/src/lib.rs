//! Constants carried in types.
//!
//! A wrapper such as `WrapU32<12>` has no storage: the constant 12 is part of its type.
//! `ConstWrap` gives the constant of a wrapper, and `ConstOrValue<T>` is implemented by
//! the wrappers of a `T` and by `T` itself, so that generic code can take a number that
//! is fixed at compile time or one that is known at run time.
//!
//! There is a wrapper for each of `u8`, `u16`, `u32`, `u64`, `usize`, `i8`, `i16`, `i32`,
//! `i64`, `isize`, `bool` and `char`. Verus takes const parameters of the unsigned types
//! and of `bool`, so an unsigned or boolean wrapper is named with its constant, a signed
//! wrapper with the bit pattern of its constant, and `WrapCHAR` with a code point up to
//! U+00FF.
//!
//! What a wrapper gives back is stated in contracts: converting it gives its constant,
//! it compares with a plain value as its constant does, and its projections into the
//! integer types are the casts of its constant.
pub mod boolean;
pub mod casts;
pub mod character;
pub mod compare;
pub mod contract;
mod seal;
pub mod signed;
pub mod typenum_bridge;
pub mod unsigned;

pub use boolean::WrapBOOL;
pub use character::WrapCHAR;
pub use contract::ConstOrValue;
pub use contract::ConstWrap;
pub(crate) use seal::ConstSeal;
pub use signed::WrapI16;
pub use signed::WrapI32;
pub use signed::WrapI64;
pub use signed::WrapI8;
pub use signed::WrapISIZE;
pub use typenum_bridge::bit::BitConst;
pub use typenum_bridge::integer::IntegerConst;
pub use typenum_bridge::unsigned::UnsignedConst;
pub use unsigned::WrapU16;
pub use unsigned::WrapU32;
pub use unsigned::WrapU64;
pub use unsigned::WrapU8;
pub use unsigned::WrapUSIZE;
