//! What Rust's integer casts compute, as functions on mathematical integers.
//!
//! A cast between integer types never fails: it keeps the low bits of its argument and
//! reads them in the target type. The `cast_` functions say this with `%`, and the lemmas
//! tie each `as` that the crate uses to them.
use vstd::prelude::*;

verus! {

/// What a cast to `u8` makes of the integer `v`: its residue modulo 2^8.
pub open spec fn cast_u8(v: int) -> int {
    v % 0x100
}

/// What a cast to `u16` makes of the integer `v`: its residue modulo 2^16.
pub open spec fn cast_u16(v: int) -> int {
    v % 0x1_0000
}

/// What a cast to `u32` makes of the integer `v`: its residue modulo 2^32.
pub open spec fn cast_u32(v: int) -> int {
    v % 0x1_0000_0000
}

/// What a cast to `u64` makes of the integer `v`: its residue modulo 2^64.
pub open spec fn cast_u64(v: int) -> int {
    v % 0x1_0000_0000_0000_0000
}

/// What a cast to `usize` makes of the integer `v`: `usize` is as wide as `u32` on a
/// 32-bit target and as wide as `u64` otherwise.
pub open spec fn cast_usize(v: int) -> int {
    if usize::BITS == 32 {
        cast_u32(v)
    } else {
        cast_u64(v)
    }
}

/// What a cast to `i8` makes of the integer `v`: the residue modulo 2^8, read as
/// two's complement.
pub open spec fn cast_i8(v: int) -> int {
    let m = v % 0x100;
    if m < 0x80 {
        m
    } else {
        m - 0x100
    }
}

/// What a cast to `i16` makes of the integer `v`: the residue modulo 2^16, read as
/// two's complement.
pub open spec fn cast_i16(v: int) -> int {
    let m = v % 0x1_0000;
    if m < 0x8000 {
        m
    } else {
        m - 0x1_0000
    }
}

/// What a cast to `i32` makes of the integer `v`: the residue modulo 2^32, read as
/// two's complement.
pub open spec fn cast_i32(v: int) -> int {
    let m = v % 0x1_0000_0000;
    if m < 0x8000_0000 {
        m
    } else {
        m - 0x1_0000_0000
    }
}

/// What a cast to `i64` makes of the integer `v`: the residue modulo 2^64, read as
/// two's complement.
pub open spec fn cast_i64(v: int) -> int {
    let m = v % 0x1_0000_0000_0000_0000;
    if m < 0x8000_0000_0000_0000 {
        m
    } else {
        m - 0x1_0000_0000_0000_0000
    }
}

/// What a cast to `isize` makes of the integer `v`: `isize` is as wide as `i32` on a
/// 32-bit target and as wide as `i64` otherwise.
pub open spec fn cast_isize(v: int) -> int {
    if usize::BITS == 32 {
        cast_i32(v)
    } else {
        cast_i64(v)
    }
}

/// The `i8` whose two's-complement bit pattern is `bits`.
pub open spec fn bits_as_i8(bits: u8) -> i8 {
    cast_i8(bits as int) as i8
}

/// The `i16` whose two's-complement bit pattern is `bits`.
pub open spec fn bits_as_i16(bits: u16) -> i16 {
    cast_i16(bits as int) as i16
}

/// The `i32` whose two's-complement bit pattern is `bits`.
pub open spec fn bits_as_i32(bits: u32) -> i32 {
    cast_i32(bits as int) as i32
}

/// The `i64` whose two's-complement bit pattern is `bits`.
pub open spec fn bits_as_i64(bits: u64) -> i64 {
    cast_i64(bits as int) as i64
}

/// The `isize` whose two's-complement bit pattern is `bits`.
pub open spec fn bits_as_isize(bits: usize) -> isize {
    cast_isize(bits as int) as isize
}

/// The `char` with the code point `code`, one of U+0000 to U+00FF.
pub open spec fn code_as_char(code: u8) -> char {
    code as char
}

/// A cast lands in the range of its target type.
pub proof fn lemma_cast_in_range(v: int)
    ensures
        u8::MIN <= cast_u8(v) <= u8::MAX,
        u16::MIN <= cast_u16(v) <= u16::MAX,
        u32::MIN <= cast_u32(v) <= u32::MAX,
        u64::MIN <= cast_u64(v) <= u64::MAX,
        usize::MIN <= cast_usize(v) <= usize::MAX,
        i8::MIN <= cast_i8(v) <= i8::MAX,
        i16::MIN <= cast_i16(v) <= i16::MAX,
        i32::MIN <= cast_i32(v) <= i32::MAX,
        i64::MIN <= cast_i64(v) <= i64::MAX,
        isize::MIN <= cast_isize(v) <= isize::MAX,
{
    lemma_pointer_width();
}

/// A cast keeps a value that its target type can hold.
pub proof fn lemma_cast_keeps_fitting(v: int)
    ensures
        u8::MIN <= v <= u8::MAX ==> cast_u8(v) == v,
        u16::MIN <= v <= u16::MAX ==> cast_u16(v) == v,
        u32::MIN <= v <= u32::MAX ==> cast_u32(v) == v,
        u64::MIN <= v <= u64::MAX ==> cast_u64(v) == v,
        usize::MIN <= v <= usize::MAX ==> cast_usize(v) == v,
        i8::MIN <= v <= i8::MAX ==> cast_i8(v) == v,
        i16::MIN <= v <= i16::MAX ==> cast_i16(v) == v,
        i32::MIN <= v <= i32::MAX ==> cast_i32(v) == v,
        i64::MIN <= v <= i64::MAX ==> cast_i64(v) == v,
        isize::MIN <= v <= isize::MAX ==> cast_isize(v) == v,
{
    lemma_pointer_width();
}

/// Every `i8` has one bit pattern: reading a pattern as an `i8` and casting an `i8` to
/// `u8` undo each other.
pub proof fn lemma_bit_pattern_of_i8(bits: u8, v: i8)
    ensures
        cast_u8(bits_as_i8(bits) as int) == bits,
        bits_as_i8(cast_u8(v as int) as u8) == v,
{
    lemma_pointer_width();
}

/// Every `i16` has one bit pattern: reading a pattern as an `i16` and casting an `i16` to
/// `u16` undo each other.
pub proof fn lemma_bit_pattern_of_i16(bits: u16, v: i16)
    ensures
        cast_u16(bits_as_i16(bits) as int) == bits,
        bits_as_i16(cast_u16(v as int) as u16) == v,
{
    lemma_pointer_width();
}

/// Every `i32` has one bit pattern: reading a pattern as an `i32` and casting an `i32` to
/// `u32` undo each other.
pub proof fn lemma_bit_pattern_of_i32(bits: u32, v: i32)
    ensures
        cast_u32(bits_as_i32(bits) as int) == bits,
        bits_as_i32(cast_u32(v as int) as u32) == v,
{
    lemma_pointer_width();
}

/// Every `i64` has one bit pattern: reading a pattern as an `i64` and casting an `i64` to
/// `u64` undo each other.
pub proof fn lemma_bit_pattern_of_i64(bits: u64, v: i64)
    ensures
        cast_u64(bits_as_i64(bits) as int) == bits,
        bits_as_i64(cast_u64(v as int) as u64) == v,
{
    lemma_pointer_width();
}

/// Every `isize` has one bit pattern: reading a pattern as an `isize` and casting an `isize` to
/// `usize` undo each other.
pub proof fn lemma_bit_pattern_of_isize(bits: usize, v: isize)
    ensures
        cast_usize(bits_as_isize(bits) as int) == bits,
        bits_as_isize(cast_usize(v as int) as usize) == v,
{
    lemma_pointer_width();
}

/// `code_as_char` gives the `char` that has the code point, and so a different `char`
/// for each code point.
pub proof fn lemma_code_of_char(code: u8, other: u8)
    ensures
        code_as_char(code) as u32 == code,
        code_as_char(code) == code_as_char(other) ==> code == other,
{
}

/// The two widths that `usize` and `isize` can have, with their bounds.
pub proof fn lemma_pointer_width()
    ensures
        usize::BITS == 32 || usize::BITS == 64,
        usize::BITS == 32 ==> usize::MAX == 0xFFFF_FFFF && isize::MAX == 0x7FFF_FFFF && isize::MIN
            == -0x8000_0000,
        usize::BITS == 64 ==> usize::MAX == 0xFFFF_FFFF_FFFF_FFFF && isize::MAX
            == 0x7FFF_FFFF_FFFF_FFFF && isize::MIN == -0x8000_0000_0000_0000,
{
}

/// Each cast of a `u8` gives what the `cast_` function of its target says.
pub proof fn lemma_casts_of_u8(x: u8)
    ensures
        (x as u8) as int == cast_u8(x as int),
        (x as u16) as int == cast_u16(x as int),
        (x as u32) as int == cast_u32(x as int),
        (x as u64) as int == cast_u64(x as int),
        (x as usize) as int == cast_usize(x as int),
        (x as i8) as int == cast_i8(x as int),
        (x as i16) as int == cast_i16(x as int),
        (x as i32) as int == cast_i32(x as int),
        (x as i64) as int == cast_i64(x as int),
        (x as isize) as int == cast_isize(x as int),
{
    lemma_pointer_width();
    assert((x as i8) as int == (if x < 0x80 {
        x as int
    } else {
        x - 0x100
    })) by (bit_vector);
}

/// Each cast of a `u16` gives what the `cast_` function of its target says.
pub proof fn lemma_casts_of_u16(x: u16)
    ensures
        (x as u8) as int == cast_u8(x as int),
        (x as u16) as int == cast_u16(x as int),
        (x as u32) as int == cast_u32(x as int),
        (x as u64) as int == cast_u64(x as int),
        (x as usize) as int == cast_usize(x as int),
        (x as i8) as int == cast_i8(x as int),
        (x as i16) as int == cast_i16(x as int),
        (x as i32) as int == cast_i32(x as int),
        (x as i64) as int == cast_i64(x as int),
        (x as isize) as int == cast_isize(x as int),
{
    lemma_pointer_width();
    assert((x as u8) as int == x % 0x100) by (bit_vector);
    assert((x as i8) as int == (if x % 0x100 < 0x80 {
        (x % 0x100) as int
    } else {
        x % 0x100 - 0x100
    })) by (bit_vector);
    assert((x as i16) as int == (if x < 0x8000 {
        x as int
    } else {
        x - 0x1_0000
    })) by (bit_vector);
}

/// Each cast of a `u32` gives what the `cast_` function of its target says.
pub proof fn lemma_casts_of_u32(x: u32)
    ensures
        (x as u8) as int == cast_u8(x as int),
        (x as u16) as int == cast_u16(x as int),
        (x as u32) as int == cast_u32(x as int),
        (x as u64) as int == cast_u64(x as int),
        (x as usize) as int == cast_usize(x as int),
        (x as i8) as int == cast_i8(x as int),
        (x as i16) as int == cast_i16(x as int),
        (x as i32) as int == cast_i32(x as int),
        (x as i64) as int == cast_i64(x as int),
        (x as isize) as int == cast_isize(x as int),
{
    lemma_pointer_width();
    assert((x as u8) as int == x % 0x100) by (bit_vector);
    assert((x as u16) as int == x % 0x1_0000) by (bit_vector);
    assert((x as i8) as int == (if x % 0x100 < 0x80 {
        (x % 0x100) as int
    } else {
        x % 0x100 - 0x100
    })) by (bit_vector);
    assert((x as i16) as int == (if x % 0x1_0000 < 0x8000 {
        (x % 0x1_0000) as int
    } else {
        x % 0x1_0000 - 0x1_0000
    })) by (bit_vector);
    assert((x as i32) as int == (if x < 0x8000_0000 {
        x as int
    } else {
        x - 0x1_0000_0000
    })) by (bit_vector);
    assert((x as isize) as int == (if usize::BITS == 32 {
        if x < 0x8000_0000 {
            x as int
        } else {
            x - 0x1_0000_0000
        }
    } else {
        x as int
    })) by (bit_vector);
}

/// Each cast of a `u64` gives what the `cast_` function of its target says.
pub proof fn lemma_casts_of_u64(x: u64)
    ensures
        (x as u8) as int == cast_u8(x as int),
        (x as u16) as int == cast_u16(x as int),
        (x as u32) as int == cast_u32(x as int),
        (x as u64) as int == cast_u64(x as int),
        (x as usize) as int == cast_usize(x as int),
        (x as i8) as int == cast_i8(x as int),
        (x as i16) as int == cast_i16(x as int),
        (x as i32) as int == cast_i32(x as int),
        (x as i64) as int == cast_i64(x as int),
        (x as isize) as int == cast_isize(x as int),
{
    lemma_pointer_width();
    assert((x as u8) as int == x % 0x100) by (bit_vector);
    assert((x as u16) as int == x % 0x1_0000) by (bit_vector);
    assert((x as u32) as int == x % 0x1_0000_0000) by (bit_vector);
    assert((x as usize) as int == (if usize::BITS == 32 {
        (x % 0x1_0000_0000) as int
    } else {
        x as int
    })) by (bit_vector);
    assert((x as i8) as int == (if x % 0x100 < 0x80 {
        (x % 0x100) as int
    } else {
        x % 0x100 - 0x100
    })) by (bit_vector);
    assert((x as i16) as int == (if x % 0x1_0000 < 0x8000 {
        (x % 0x1_0000) as int
    } else {
        x % 0x1_0000 - 0x1_0000
    })) by (bit_vector);
    assert((x as i32) as int == (if x % 0x1_0000_0000 < 0x8000_0000 {
        (x % 0x1_0000_0000) as int
    } else {
        x % 0x1_0000_0000 - 0x1_0000_0000
    })) by (bit_vector);
    assert((x as i64) as int == (if x < 0x8000_0000_0000_0000 {
        x as int
    } else {
        x - 0x1_0000_0000_0000_0000
    })) by (bit_vector);
    assert((x as isize) as int == (if usize::BITS == 32 {
        if x % 0x1_0000_0000 < 0x8000_0000 {
            (x % 0x1_0000_0000) as int
        } else {
            x % 0x1_0000_0000 - 0x1_0000_0000
        }
    } else {
        if x < 0x8000_0000_0000_0000 {
            x as int
        } else {
            x - 0x1_0000_0000_0000_0000
        }
    })) by (bit_vector);
}

/// Each cast of a `usize` gives what the `cast_` function of its target says.
pub proof fn lemma_casts_of_usize(x: usize)
    ensures
        (x as u8) as int == cast_u8(x as int),
        (x as u16) as int == cast_u16(x as int),
        (x as u32) as int == cast_u32(x as int),
        (x as u64) as int == cast_u64(x as int),
        (x as usize) as int == cast_usize(x as int),
        (x as i8) as int == cast_i8(x as int),
        (x as i16) as int == cast_i16(x as int),
        (x as i32) as int == cast_i32(x as int),
        (x as i64) as int == cast_i64(x as int),
        (x as isize) as int == cast_isize(x as int),
{
    lemma_pointer_width();
    assert((x as u8) as int == (x as u64) % 0x100) by (bit_vector);
    assert((x as u16) as int == (x as u64) % 0x1_0000) by (bit_vector);
    assert((x as u32) as int == (x as u64) % 0x1_0000_0000) by (bit_vector);
    assert((x as i8) as int == (if (x as u64) % 0x100 < 0x80 {
        ((x as u64) % 0x100) as int
    } else {
        (x as u64) % 0x100 - 0x100
    })) by (bit_vector);
    assert((x as i16) as int == (if (x as u64) % 0x1_0000 < 0x8000 {
        ((x as u64) % 0x1_0000) as int
    } else {
        (x as u64) % 0x1_0000 - 0x1_0000
    })) by (bit_vector);
    assert((x as i32) as int == (if (x as u64) % 0x1_0000_0000 < 0x8000_0000 {
        ((x as u64) % 0x1_0000_0000) as int
    } else {
        (x as u64) % 0x1_0000_0000 - 0x1_0000_0000
    })) by (bit_vector);
    assert((x as i64) as int == (if usize::BITS == 32 {
        (x as u64) as int
    } else {
        if (x as u64) < 0x8000_0000_0000_0000 {
            (x as u64) as int
        } else {
            (x as u64) - 0x1_0000_0000_0000_0000
        }
    })) by (bit_vector);
    assert((x as isize) as int == (if usize::BITS == 32 {
        if (x as u64) < 0x8000_0000 {
            (x as u64) as int
        } else {
            (x as u64) - 0x1_0000_0000
        }
    } else {
        if (x as u64) < 0x8000_0000_0000_0000 {
            (x as u64) as int
        } else {
            (x as u64) - 0x1_0000_0000_0000_0000
        }
    })) by (bit_vector);
}

/// Taking a multiple of `modulus` away from `v` leaves the residue of `v`.
proof fn lemma_residue_ignores_multiples(v: int, k: int, modulus: int)
    requires
        modulus > 0,
    ensures
        (v - k * modulus) % modulus == v % modulus,
{
    vstd::arithmetic::div_mod::lemma_mod_multiples_vanish(-k, v, modulus);
    assert(modulus * (-k) + v == v - k * modulus) by (nonlinear_arith);
}

/// Reading `bits` as an `i8` gives `bits_as_i8(bits)`, and each cast of that `i8` to a
/// signed type gives what the `cast_` function of its target says.
pub proof fn lemma_casts_of_i8(bits: u8)
    ensures
        (bits as i8) == bits_as_i8(bits),
        ((bits as i8) as i8) as int == cast_i8(bits_as_i8(bits) as int),
        ((bits as i8) as i16) as int == cast_i16(bits_as_i8(bits) as int),
        ((bits as i8) as i32) as int == cast_i32(bits_as_i8(bits) as int),
        ((bits as i8) as i64) as int == cast_i64(bits_as_i8(bits) as int),
        ((bits as i8) as isize) as int == cast_isize(bits_as_i8(bits) as int),
{
    lemma_casts_of_u8(bits);

}

/// Reading `bits` as an `i16` gives `bits_as_i16(bits)`, and each cast of that `i16` to a
/// signed type gives what the `cast_` function of its target says.
pub proof fn lemma_casts_of_i16(bits: u16)
    ensures
        (bits as i16) == bits_as_i16(bits),
        ((bits as i16) as i8) as int == cast_i8(bits_as_i16(bits) as int),
        ((bits as i16) as i16) as int == cast_i16(bits_as_i16(bits) as int),
        ((bits as i16) as i32) as int == cast_i32(bits_as_i16(bits) as int),
        ((bits as i16) as i64) as int == cast_i64(bits_as_i16(bits) as int),
        ((bits as i16) as isize) as int == cast_isize(bits_as_i16(bits) as int),
{
    lemma_casts_of_u16(bits);
    lemma_residue_ignores_multiples(bits as int, 0x100, 0x100);
    assert(((bits as i16) as i8) as int == (if bits % 0x100 < 0x80 {
        (bits % 0x100) as int
    } else {
        bits % 0x100 - 0x100
    })) by (bit_vector);
}

/// Reading `bits` as an `i32` gives `bits_as_i32(bits)`, and each cast of that `i32` to a
/// signed type gives what the `cast_` function of its target says.
pub proof fn lemma_casts_of_i32(bits: u32)
    ensures
        (bits as i32) == bits_as_i32(bits),
        ((bits as i32) as i8) as int == cast_i8(bits_as_i32(bits) as int),
        ((bits as i32) as i16) as int == cast_i16(bits_as_i32(bits) as int),
        ((bits as i32) as i32) as int == cast_i32(bits_as_i32(bits) as int),
        ((bits as i32) as i64) as int == cast_i64(bits_as_i32(bits) as int),
        ((bits as i32) as isize) as int == cast_isize(bits_as_i32(bits) as int),
{
    lemma_casts_of_u32(bits);
    lemma_residue_ignores_multiples(bits as int, 0x100_0000, 0x100);
    lemma_residue_ignores_multiples(bits as int, 0x1_0000, 0x1_0000);
    assert(((bits as i32) as i8) as int == (if bits % 0x100 < 0x80 {
        (bits % 0x100) as int
    } else {
        bits % 0x100 - 0x100
    })) by (bit_vector);
    assert(((bits as i32) as i16) as int == (if bits % 0x1_0000 < 0x8000 {
        (bits % 0x1_0000) as int
    } else {
        bits % 0x1_0000 - 0x1_0000
    })) by (bit_vector);
}

/// Reading `bits` as an `i64` gives `bits_as_i64(bits)`, and each cast of that `i64` to a
/// signed type gives what the `cast_` function of its target says.
pub proof fn lemma_casts_of_i64(bits: u64)
    ensures
        (bits as i64) == bits_as_i64(bits),
        ((bits as i64) as i8) as int == cast_i8(bits_as_i64(bits) as int),
        ((bits as i64) as i16) as int == cast_i16(bits_as_i64(bits) as int),
        ((bits as i64) as i32) as int == cast_i32(bits_as_i64(bits) as int),
        ((bits as i64) as i64) as int == cast_i64(bits_as_i64(bits) as int),
        ((bits as i64) as isize) as int == cast_isize(bits_as_i64(bits) as int),
{
    lemma_casts_of_u64(bits);
    lemma_residue_ignores_multiples(bits as int, 0x100_0000_0000_0000, 0x100);
    lemma_residue_ignores_multiples(bits as int, 0x1_0000_0000_0000, 0x1_0000);
    lemma_residue_ignores_multiples(bits as int, 0x1_0000_0000, 0x1_0000_0000);
    assert(((bits as i64) as i8) as int == (if bits % 0x100 < 0x80 {
        (bits % 0x100) as int
    } else {
        bits % 0x100 - 0x100
    })) by (bit_vector);
    assert(((bits as i64) as i16) as int == (if bits % 0x1_0000 < 0x8000 {
        (bits % 0x1_0000) as int
    } else {
        bits % 0x1_0000 - 0x1_0000
    })) by (bit_vector);
    assert(((bits as i64) as i32) as int == (if bits % 0x1_0000_0000 < 0x8000_0000 {
        (bits % 0x1_0000_0000) as int
    } else {
        bits % 0x1_0000_0000 - 0x1_0000_0000
    })) by (bit_vector);
    assert(((bits as i64) as isize) as int == (if usize::BITS == 32 {
        if bits % 0x1_0000_0000 < 0x8000_0000 {
            (bits % 0x1_0000_0000) as int
        } else {
            bits % 0x1_0000_0000 - 0x1_0000_0000
        }
    } else {
        if bits < 0x8000_0000_0000_0000 {
            bits as int
        } else {
            bits - 0x1_0000_0000_0000_0000
        }
    })) by (bit_vector);
}

/// Reading `bits` as an `isize` gives `bits_as_isize(bits)`, and each cast of that `isize` to a
/// signed type gives what the `cast_` function of its target says.
pub proof fn lemma_casts_of_isize(bits: usize)
    ensures
        (bits as isize) == bits_as_isize(bits),
        ((bits as isize) as i8) as int == cast_i8(bits_as_isize(bits) as int),
        ((bits as isize) as i16) as int == cast_i16(bits_as_isize(bits) as int),
        ((bits as isize) as i32) as int == cast_i32(bits_as_isize(bits) as int),
        ((bits as isize) as i64) as int == cast_i64(bits_as_isize(bits) as int),
        ((bits as isize) as isize) as int == cast_isize(bits_as_isize(bits) as int),
{
    lemma_casts_of_usize(bits);
    lemma_residue_ignores_multiples(bits as int, 0x100_0000, 0x100);
    lemma_residue_ignores_multiples(bits as int, 0x100_0000_0000_0000, 0x100);
    lemma_residue_ignores_multiples(bits as int, 0x1_0000, 0x1_0000);
    lemma_residue_ignores_multiples(bits as int, 0x1_0000_0000_0000, 0x1_0000);
    lemma_residue_ignores_multiples(bits as int, 0x1_0000_0000, 0x1_0000_0000);
    assert(((bits as isize) as i8) as int == (if (bits as u64) % 0x100 < 0x80 {
        ((bits as u64) % 0x100) as int
    } else {
        (bits as u64) % 0x100 - 0x100
    })) by (bit_vector);
    assert(((bits as isize) as i16) as int == (if (bits as u64) % 0x1_0000 < 0x8000 {
        ((bits as u64) % 0x1_0000) as int
    } else {
        (bits as u64) % 0x1_0000 - 0x1_0000
    })) by (bit_vector);
    assert(((bits as isize) as i32) as int == (if (bits as u64) % 0x1_0000_0000 < 0x8000_0000 {
        ((bits as u64) % 0x1_0000_0000) as int
    } else {
        (bits as u64) % 0x1_0000_0000 - 0x1_0000_0000
    })) by (bit_vector);
}

/// Reads the bit pattern `bits` as an `i8`.
pub fn i8_from_bits(bits: u8) -> (v: i8)
    ensures
        v == bits_as_i8(bits),
{
    proof {
        lemma_casts_of_i8(bits);
    }
    bits as i8
}

/// Reads the bit pattern `bits` as an `i16`.
pub fn i16_from_bits(bits: u16) -> (v: i16)
    ensures
        v == bits_as_i16(bits),
{
    proof {
        lemma_casts_of_i16(bits);
    }
    bits as i16
}

/// Reads the bit pattern `bits` as an `i32`.
pub fn i32_from_bits(bits: u32) -> (v: i32)
    ensures
        v == bits_as_i32(bits),
{
    proof {
        lemma_casts_of_i32(bits);
    }
    bits as i32
}

/// Reads the bit pattern `bits` as an `i64`.
pub fn i64_from_bits(bits: u64) -> (v: i64)
    ensures
        v == bits_as_i64(bits),
{
    proof {
        lemma_casts_of_i64(bits);
    }
    bits as i64
}

/// Reads the bit pattern `bits` as an `isize`.
pub fn isize_from_bits(bits: usize) -> (v: isize)
    ensures
        v == bits_as_isize(bits),
{
    proof {
        lemma_casts_of_isize(bits);
    }
    bits as isize
}

/// The `char` with the code point `code`.
pub fn char_from_code(code: u8) -> (c: char)
    ensures
        c == code_as_char(code),
        c as u32 == code,
{
    code as char
}

} // verus!
