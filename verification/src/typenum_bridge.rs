//! The wrappers as type-level numbers in the manner of typenum: a boolean wrapper is a
//! bit, an unsigned wrapper an unsigned number, a signed wrapper a signed number, and
//! the wrappers of zero carry typenum's `Zero`.
//!
//! `BitConst`, `UnsignedConst` and `IntegerConst` have the constants and functions of
//! typenum's `Bit`, `Unsigned` and `Integer`, each with its contract. typenum's own three
//! traits hold associated constants, which Verus does not take in an impl of a trait from
//! another crate: code that needs them implements them for a type of its own and hands
//! on the constants and functions that are proved here.
pub mod bit;
pub mod integer;
pub mod unsigned;
pub mod zero;
