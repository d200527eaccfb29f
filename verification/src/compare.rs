//! How a wrapper compares with a plain value, stated once for each kind.
use crate::boolean::WrapBOOL;
use crate::casts::bits_as_i16;
use crate::casts::bits_as_i32;
use crate::casts::bits_as_i64;
use crate::casts::bits_as_i8;
use crate::casts::bits_as_isize;
use crate::casts::code_as_char;
use crate::character::WrapCHAR;
use crate::signed::WrapI16;
use crate::signed::WrapI32;
use crate::signed::WrapI64;
use crate::signed::WrapI8;
use crate::signed::WrapISIZE;
use crate::unsigned::WrapU16;
use crate::unsigned::WrapU32;
use crate::unsigned::WrapU64;
use crate::unsigned::WrapU8;
use crate::unsigned::WrapUSIZE;
use core::cmp::Ordering;
use vstd::prelude::*;
use vstd::std_specs::cmp::PartialEqSpec;
use vstd::std_specs::cmp::PartialOrdSpec;

verus! {

impl<const T: u8> WrapU8<T> {
    /// A wrapper compares with a plain `u8` as its constant does.
    pub proof fn law_compare(w: Self, x: u8)
        ensures
            w.eq_spec(&x) <==> T == x,
            w.partial_cmp_spec(&x) == T.partial_cmp_spec(&x),
            w.partial_cmp_spec(&x) == Some(Ordering::Less) <==> T < x,
            w.partial_cmp_spec(&x) == Some(Ordering::Equal) <==> T == x,
            w.partial_cmp_spec(&x) == Some(Ordering::Greater) <==> T > x,
    {
    }

    /// Two instances of a wrapper type compare as equal.
    pub proof fn law_compare_instances(a: Self, b: Self)
        ensures
            a.eq_spec(&b),
            a.partial_cmp_spec(&b) == Some(Ordering::Equal),
    {
    }
}

impl<const T: u16> WrapU16<T> {
    /// A wrapper compares with a plain `u16` as its constant does.
    pub proof fn law_compare(w: Self, x: u16)
        ensures
            w.eq_spec(&x) <==> T == x,
            w.partial_cmp_spec(&x) == T.partial_cmp_spec(&x),
            w.partial_cmp_spec(&x) == Some(Ordering::Less) <==> T < x,
            w.partial_cmp_spec(&x) == Some(Ordering::Equal) <==> T == x,
            w.partial_cmp_spec(&x) == Some(Ordering::Greater) <==> T > x,
    {
    }

    /// Two instances of a wrapper type compare as equal.
    pub proof fn law_compare_instances(a: Self, b: Self)
        ensures
            a.eq_spec(&b),
            a.partial_cmp_spec(&b) == Some(Ordering::Equal),
    {
    }
}

impl<const T: u32> WrapU32<T> {
    /// A wrapper compares with a plain `u32` as its constant does.
    pub proof fn law_compare(w: Self, x: u32)
        ensures
            w.eq_spec(&x) <==> T == x,
            w.partial_cmp_spec(&x) == T.partial_cmp_spec(&x),
            w.partial_cmp_spec(&x) == Some(Ordering::Less) <==> T < x,
            w.partial_cmp_spec(&x) == Some(Ordering::Equal) <==> T == x,
            w.partial_cmp_spec(&x) == Some(Ordering::Greater) <==> T > x,
    {
    }

    /// Two instances of a wrapper type compare as equal.
    pub proof fn law_compare_instances(a: Self, b: Self)
        ensures
            a.eq_spec(&b),
            a.partial_cmp_spec(&b) == Some(Ordering::Equal),
    {
    }
}

impl<const T: u64> WrapU64<T> {
    /// A wrapper compares with a plain `u64` as its constant does.
    pub proof fn law_compare(w: Self, x: u64)
        ensures
            w.eq_spec(&x) <==> T == x,
            w.partial_cmp_spec(&x) == T.partial_cmp_spec(&x),
            w.partial_cmp_spec(&x) == Some(Ordering::Less) <==> T < x,
            w.partial_cmp_spec(&x) == Some(Ordering::Equal) <==> T == x,
            w.partial_cmp_spec(&x) == Some(Ordering::Greater) <==> T > x,
    {
    }

    /// Two instances of a wrapper type compare as equal.
    pub proof fn law_compare_instances(a: Self, b: Self)
        ensures
            a.eq_spec(&b),
            a.partial_cmp_spec(&b) == Some(Ordering::Equal),
    {
    }
}

impl<const T: usize> WrapUSIZE<T> {
    /// A wrapper compares with a plain `usize` as its constant does.
    pub proof fn law_compare(w: Self, x: usize)
        ensures
            w.eq_spec(&x) <==> T == x,
            w.partial_cmp_spec(&x) == T.partial_cmp_spec(&x),
            w.partial_cmp_spec(&x) == Some(Ordering::Less) <==> T < x,
            w.partial_cmp_spec(&x) == Some(Ordering::Equal) <==> T == x,
            w.partial_cmp_spec(&x) == Some(Ordering::Greater) <==> T > x,
    {
    }

    /// Two instances of a wrapper type compare as equal.
    pub proof fn law_compare_instances(a: Self, b: Self)
        ensures
            a.eq_spec(&b),
            a.partial_cmp_spec(&b) == Some(Ordering::Equal),
    {
    }
}

impl<const T: u8> WrapI8<T> {
    /// A wrapper compares with a plain `i8` as its constant does.
    pub proof fn law_compare(w: Self, x: i8)
        ensures
            w.eq_spec(&x) <==> bits_as_i8(T) == x,
            w.partial_cmp_spec(&x) == bits_as_i8(T).partial_cmp_spec(&x),
            w.partial_cmp_spec(&x) == Some(Ordering::Less) <==> bits_as_i8(T) < x,
            w.partial_cmp_spec(&x) == Some(Ordering::Equal) <==> bits_as_i8(T) == x,
            w.partial_cmp_spec(&x) == Some(Ordering::Greater) <==> bits_as_i8(T) > x,
    {
    }

    /// Two instances of a wrapper type compare as equal.
    pub proof fn law_compare_instances(a: Self, b: Self)
        ensures
            a.eq_spec(&b),
            a.partial_cmp_spec(&b) == Some(Ordering::Equal),
    {
    }
}

impl<const T: u16> WrapI16<T> {
    /// A wrapper compares with a plain `i16` as its constant does.
    pub proof fn law_compare(w: Self, x: i16)
        ensures
            w.eq_spec(&x) <==> bits_as_i16(T) == x,
            w.partial_cmp_spec(&x) == bits_as_i16(T).partial_cmp_spec(&x),
            w.partial_cmp_spec(&x) == Some(Ordering::Less) <==> bits_as_i16(T) < x,
            w.partial_cmp_spec(&x) == Some(Ordering::Equal) <==> bits_as_i16(T) == x,
            w.partial_cmp_spec(&x) == Some(Ordering::Greater) <==> bits_as_i16(T) > x,
    {
    }

    /// Two instances of a wrapper type compare as equal.
    pub proof fn law_compare_instances(a: Self, b: Self)
        ensures
            a.eq_spec(&b),
            a.partial_cmp_spec(&b) == Some(Ordering::Equal),
    {
    }
}

impl<const T: u32> WrapI32<T> {
    /// A wrapper compares with a plain `i32` as its constant does.
    pub proof fn law_compare(w: Self, x: i32)
        ensures
            w.eq_spec(&x) <==> bits_as_i32(T) == x,
            w.partial_cmp_spec(&x) == bits_as_i32(T).partial_cmp_spec(&x),
            w.partial_cmp_spec(&x) == Some(Ordering::Less) <==> bits_as_i32(T) < x,
            w.partial_cmp_spec(&x) == Some(Ordering::Equal) <==> bits_as_i32(T) == x,
            w.partial_cmp_spec(&x) == Some(Ordering::Greater) <==> bits_as_i32(T) > x,
    {
    }

    /// Two instances of a wrapper type compare as equal.
    pub proof fn law_compare_instances(a: Self, b: Self)
        ensures
            a.eq_spec(&b),
            a.partial_cmp_spec(&b) == Some(Ordering::Equal),
    {
    }
}

impl<const T: u64> WrapI64<T> {
    /// A wrapper compares with a plain `i64` as its constant does.
    pub proof fn law_compare(w: Self, x: i64)
        ensures
            w.eq_spec(&x) <==> bits_as_i64(T) == x,
            w.partial_cmp_spec(&x) == bits_as_i64(T).partial_cmp_spec(&x),
            w.partial_cmp_spec(&x) == Some(Ordering::Less) <==> bits_as_i64(T) < x,
            w.partial_cmp_spec(&x) == Some(Ordering::Equal) <==> bits_as_i64(T) == x,
            w.partial_cmp_spec(&x) == Some(Ordering::Greater) <==> bits_as_i64(T) > x,
    {
    }

    /// Two instances of a wrapper type compare as equal.
    pub proof fn law_compare_instances(a: Self, b: Self)
        ensures
            a.eq_spec(&b),
            a.partial_cmp_spec(&b) == Some(Ordering::Equal),
    {
    }
}

impl<const T: usize> WrapISIZE<T> {
    /// A wrapper compares with a plain `isize` as its constant does.
    pub proof fn law_compare(w: Self, x: isize)
        ensures
            w.eq_spec(&x) <==> bits_as_isize(T) == x,
            w.partial_cmp_spec(&x) == bits_as_isize(T).partial_cmp_spec(&x),
            w.partial_cmp_spec(&x) == Some(Ordering::Less) <==> bits_as_isize(T) < x,
            w.partial_cmp_spec(&x) == Some(Ordering::Equal) <==> bits_as_isize(T) == x,
            w.partial_cmp_spec(&x) == Some(Ordering::Greater) <==> bits_as_isize(T) > x,
    {
    }

    /// Two instances of a wrapper type compare as equal.
    pub proof fn law_compare_instances(a: Self, b: Self)
        ensures
            a.eq_spec(&b),
            a.partial_cmp_spec(&b) == Some(Ordering::Equal),
    {
    }
}

impl<const T: bool> WrapBOOL<T> {
    /// A wrapper compares with a plain `bool` as its constant does.
    pub proof fn law_compare(w: Self, x: bool)
        ensures
            w.eq_spec(&x) <==> T == x,
            w.partial_cmp_spec(&x) == Some(Ordering::Less) <==> !T && x,
            w.partial_cmp_spec(&x) == Some(Ordering::Equal) <==> T == x,
            w.partial_cmp_spec(&x) == Some(Ordering::Greater) <==> T && !x,
    {
    }

    /// Two instances of a wrapper type compare as equal.
    pub proof fn law_compare_instances(a: Self, b: Self)
        ensures
            a.eq_spec(&b),
            a.partial_cmp_spec(&b) == Some(Ordering::Equal),
    {
    }
}

impl<const T: u8> WrapCHAR<T> {
    /// A wrapper compares with a plain `char` as its constant does.
    pub proof fn law_compare(w: Self, x: char)
        ensures
            w.eq_spec(&x) <==> code_as_char(T) == x,
            w.partial_cmp_spec(&x) == Some(Ordering::Less) <==> code_as_char(T) < x,
            w.partial_cmp_spec(&x) == Some(Ordering::Equal) <==> code_as_char(T) == x,
            w.partial_cmp_spec(&x) == Some(Ordering::Greater) <==> code_as_char(T) > x,
    {
    }

    /// Two instances of a wrapper type compare as equal.
    pub proof fn law_compare_instances(a: Self, b: Self)
        ensures
            a.eq_spec(&b),
            a.partial_cmp_spec(&b) == Some(Ordering::Equal),
    {
    }
}

} // verus!
