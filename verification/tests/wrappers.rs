use const_generic_wrap::ConstOrValue;
use const_generic_wrap::ConstWrap;
use const_generic_wrap::{WrapBOOL, WrapCHAR};
use const_generic_wrap::{WrapI16, WrapI32, WrapI64, WrapI8, WrapISIZE};
use const_generic_wrap::{WrapU16, WrapU32, WrapU64, WrapU8, WrapUSIZE};
use std::cmp::Ordering;
use std::collections::HashSet;
use std::mem::size_of;
use std::ops::Add;

#[test]
fn wrap_unwrap() {
    let n3 = WrapI32::<3>;
    assert_eq!(0, core::mem::size_of_val(&n3));
    let m: i32 = n3.into();
    assert_eq!(3, m);
}

#[test]
fn every_wrapper_has_no_storage() {
    assert_eq!(size_of::<WrapU8<200>>(), 0);
    assert_eq!(size_of::<WrapU16<60_000>>(), 0);
    assert_eq!(size_of::<WrapU32<12>>(), 0);
    assert_eq!(size_of::<WrapU64<{ u64::MAX }>>(), 0);
    assert_eq!(size_of::<WrapUSIZE<9>>(), 0);
    assert_eq!(size_of::<WrapI8<0xFF>>(), 0);
    assert_eq!(size_of::<WrapI16<7>>(), 0);
    assert_eq!(size_of::<WrapI32<0x8000_0000>>(), 0);
    assert_eq!(size_of::<WrapI64<1>>(), 0);
    assert_eq!(size_of::<WrapISIZE<0>>(), 0);
    assert_eq!(size_of::<WrapBOOL<true>>(), 0);
    assert_eq!(size_of::<WrapCHAR<65>>(), 0);
}

struct Sized3<N, C>(N, C)
where
    C: ConstWrap<BaseType = N>;

#[test]
fn a_wrapper_adds_nothing_to_a_struct() {
    assert_eq!(size_of::<Sized3<u32, WrapU32<12>>>(), size_of::<u32>());
    let s = Sized3(5u32, WrapU32::<12>);
    assert_eq!(s.0, 5);
    assert_eq!(s.1, 12);
}

#[test]
fn unsigned_wrappers_unwrap_to_their_parameter() {
    assert_eq!(u8::from(WrapU8::<0>), 0);
    assert_eq!(u8::from(WrapU8::<255>), 255);
    assert_eq!(u16::from(WrapU16::<65_535>), 65_535);
    assert_eq!(u32::from(WrapU32::<260>), 260);
    assert_eq!(u64::from(WrapU64::<{ u64::MAX }>), u64::MAX);
    assert_eq!(usize::from(WrapUSIZE::<{ usize::MAX }>), usize::MAX);
    assert_eq!(usize::from(WrapUSIZE::<17>), 17);
}

#[test]
fn signed_wrappers_unwrap_to_the_value_of_their_bit_pattern() {
    assert_eq!(i8::from(WrapI8::<3>), 3);
    assert_eq!(i8::from(WrapI8::<0x7F>), i8::MAX);
    assert_eq!(i8::from(WrapI8::<0x80>), i8::MIN);
    assert_eq!(i8::from(WrapI8::<0xFF>), -1);
    assert_eq!(i16::from(WrapI16::<0xFFFE>), -2);
    assert_eq!(i16::from(WrapI16::<0x8000>), i16::MIN);
    assert_eq!(i32::from(WrapI32::<0xFFFF_FFFF>), -1);
    assert_eq!(i32::from(WrapI32::<0x7FFF_FFFF>), i32::MAX);
    assert_eq!(i32::from(WrapI32::<0x8000_0000>), i32::MIN);
    assert_eq!(i64::from(WrapI64::<0xFFFF_FFFF_FFFF_FF9C>), -100);
    assert_eq!(i64::from(WrapI64::<0x8000_0000_0000_0000>), i64::MIN);
    assert_eq!(isize::from(WrapISIZE::<{ usize::MAX }>), -1);
    assert_eq!(isize::from(WrapISIZE::<{ usize::MAX / 2 }>), isize::MAX);
    assert_eq!(isize::from(WrapISIZE::<{ usize::MAX / 2 + 1 }>), isize::MIN);
    assert_eq!(isize::from(WrapISIZE::<42>), 42);
}

#[test]
fn boolean_and_character_wrappers_unwrap() {
    assert!(bool::from(WrapBOOL::<true>));
    assert!(!bool::from(WrapBOOL::<false>));
    assert_eq!(char::from(WrapCHAR::<65>), 'A');
    assert_eq!(char::from(WrapCHAR::<0>), '\0');
    assert_eq!(char::from(WrapCHAR::<0xE9>), 'é');
    assert_eq!(char::from(WrapCHAR::<0xFF>), 'ÿ');
}

#[test]
fn value_is_the_unwrapped_constant() {
    assert_eq!(WrapU8::<9>::VALUE, 9);
    assert_eq!(WrapU16::<9>::VALUE, 9);
    assert_eq!(WrapU32::<9>::VALUE, 9);
    assert_eq!(WrapU64::<9>::VALUE, 9);
    assert_eq!(WrapUSIZE::<9>::VALUE, 9);
    assert_eq!(WrapI8::<0xF7>::VALUE, -9);
    assert_eq!(WrapI16::<0xFFF7>::VALUE, -9);
    assert_eq!(WrapI32::<0xFFFF_FFF7>::VALUE, -9);
    assert_eq!(WrapI64::<0xFFFF_FFFF_FFFF_FFF7>::VALUE, -9);
    assert_eq!(WrapISIZE::<{ usize::MAX - 8 }>::VALUE, -9);
    assert_eq!(WrapISIZE::<9>::VALUE, 9);
    assert!(WrapBOOL::<true>::VALUE);
    assert!(!WrapBOOL::<false>::VALUE);
    assert_eq!(WrapCHAR::<0x7A>::VALUE, 'z');
}

#[test]
fn a_wrapper_lends_its_constant() {
    let a: &'static u8 = WrapU8::<200>.into();
    let b: &'static u64 = WrapU64::<77>.into();
    let c: &'static i16 = WrapI16::<0xFFFF>.into();
    let d: &'static isize = WrapISIZE::<{ usize::MAX }>.into();
    let e: &'static bool = WrapBOOL::<true>.into();
    let f: &'static char = WrapCHAR::<0x41>.into();
    let g: &'static i64 = WrapI64::<0x8000_0000_0000_0000>.into();
    assert_eq!(*a, 200);
    assert_eq!(*b, 77);
    assert_eq!(*c, -1);
    assert_eq!(*d, -1);
    assert!(*e);
    assert_eq!(*f, 'A');
    assert_eq!(*g, i64::MIN);
}

#[test]
fn a_wrapper_equals_a_plain_value_as_its_constant_does() {
    assert!(WrapU8::<7> == 7u8);
    assert!(WrapU8::<7> != 8u8);
    assert!(WrapU16::<300> == 300u16);
    assert!(WrapU32::<260> == 260u32);
    assert!(WrapU32::<260> != 4u32);
    assert!(WrapU64::<5> == 5u64);
    assert!(WrapUSIZE::<5> != 6usize);
    assert!(WrapI8::<0xFF> == -1i8);
    assert!(WrapI8::<0xFF> != 127i8);
    assert!(WrapI16::<0xFFFF> == -1i16);
    assert!(WrapI32::<0xFFFF_FFFF> == -1i32);
    assert!(WrapI32::<3> == 3i32);
    assert!(WrapI64::<0xFFFF_FFFF_FFFF_FFFF> == -1i64);
    assert!(WrapISIZE::<{ usize::MAX }> == -1isize);
    assert!(WrapBOOL::<true> == true);
    assert!(WrapBOOL::<true> != false);
    assert!(WrapBOOL::<false> == false);
    assert!(WrapCHAR::<65> == 'A');
    assert!(WrapCHAR::<65> != 'a');
}

#[test]
fn a_wrapper_is_ordered_against_a_plain_value_as_its_constant_is() {
    assert_eq!(WrapU32::<10>.partial_cmp(&11), Some(Ordering::Less));
    assert_eq!(WrapU32::<10>.partial_cmp(&10), Some(Ordering::Equal));
    assert_eq!(WrapU32::<10>.partial_cmp(&9), Some(Ordering::Greater));
    assert!(WrapU8::<10> < 11u8);
    assert!(WrapU16::<10> <= 10u16);
    assert!(WrapU64::<10> > 9u64);
    assert!(WrapUSIZE::<10> >= 10usize);
    // a negative constant comes before every value that is not negative
    assert_eq!(WrapI32::<0xFFFF_FFFF>.partial_cmp(&0), Some(Ordering::Less));
    assert_eq!(WrapI32::<0xFFFF_FFFF>.partial_cmp(&-1), Some(Ordering::Equal));
    assert_eq!(WrapI32::<0xFFFF_FFFF>.partial_cmp(&-2), Some(Ordering::Greater));
    assert!(WrapI8::<0x80> < -127i8);
    assert!(WrapI8::<0x7F> > 126i8);
    assert!(WrapI16::<0xFFFF> < 0i16);
    assert!(WrapI64::<0x8000_0000_0000_0000> < i64::MIN + 1);
    assert!(WrapISIZE::<{ usize::MAX }> < 0isize);
    assert!(WrapISIZE::<1> > 0isize);
    assert_eq!(WrapBOOL::<false>.partial_cmp(&true), Some(Ordering::Less));
    assert_eq!(WrapBOOL::<false>.partial_cmp(&false), Some(Ordering::Equal));
    assert_eq!(WrapBOOL::<true>.partial_cmp(&false), Some(Ordering::Greater));
    assert_eq!(WrapBOOL::<true>.partial_cmp(&true), Some(Ordering::Equal));
    assert_eq!(WrapCHAR::<0x62>.partial_cmp(&'c'), Some(Ordering::Less));
    assert_eq!(WrapCHAR::<0x62>.partial_cmp(&'b'), Some(Ordering::Equal));
    assert_eq!(WrapCHAR::<0x62>.partial_cmp(&'a'), Some(Ordering::Greater));
    assert!(WrapCHAR::<0xFF> < '\u{100}');
}

#[test]
fn two_instances_of_a_wrapper_are_the_same() {
    let a = WrapU32::<4>;
    let b = WrapU32::<4>::default();
    let c = a;
    assert_eq!(a, b);
    assert_eq!(a, c.clone());
    assert_eq!(a.cmp(&b), Ordering::Equal);
    assert_eq!(a.partial_cmp(&b), Some(Ordering::Equal));
    let mut set = HashSet::new();
    set.insert(a);
    set.insert(b);
    assert_eq!(set.len(), 1);
    assert_eq!(format!("{:?}", WrapI8::<1>), "WrapI8");
    assert_eq!(WrapBOOL::<true>, WrapBOOL::<true>::default());
    assert_eq!(WrapCHAR::<1>, WrapCHAR::<1>::default());
}

#[test]
fn a_plain_value_is_no_constant_and_stands_for_itself() {
    assert!(!<u32 as ConstOrValue<u32>>::IS_CONST);
    assert!(!<i64 as ConstOrValue<i64>>::IS_CONST);
    assert!(!<bool as ConstOrValue<bool>>::IS_CONST);
    assert!(!<char as ConstOrValue<char>>::IS_CONST);
    assert!(!<String as ConstOrValue<String>>::IS_CONST);
    assert_eq!(ConstOrValue::<u32>::get_val(31u32), 31);
    assert_eq!(ConstOrValue::<i64>::get_val(-31i64), -31);
    assert!(ConstOrValue::<bool>::get_val(true));
    assert_eq!(ConstOrValue::<char>::get_val('x'), 'x');
    assert_eq!(ConstOrValue::<String>::get_val(String::from("plain")), "plain");
}

#[test]
fn a_wrapper_is_a_constant_and_stands_for_its_constant() {
    assert!(<WrapU8<1> as ConstOrValue<u8>>::IS_CONST);
    assert!(<WrapU16<1> as ConstOrValue<u16>>::IS_CONST);
    assert!(<WrapU32<1> as ConstOrValue<u32>>::IS_CONST);
    assert!(<WrapU64<1> as ConstOrValue<u64>>::IS_CONST);
    assert!(<WrapUSIZE<1> as ConstOrValue<usize>>::IS_CONST);
    assert!(<WrapI8<1> as ConstOrValue<i8>>::IS_CONST);
    assert!(<WrapI16<1> as ConstOrValue<i16>>::IS_CONST);
    assert!(<WrapI32<1> as ConstOrValue<i32>>::IS_CONST);
    assert!(<WrapI64<1> as ConstOrValue<i64>>::IS_CONST);
    assert!(<WrapISIZE<1> as ConstOrValue<isize>>::IS_CONST);
    assert!(<WrapBOOL<false> as ConstOrValue<bool>>::IS_CONST);
    assert!(<WrapCHAR<1> as ConstOrValue<char>>::IS_CONST);
    assert_eq!(ConstOrValue::<u8>::get_val(WrapU8::<11>), 11);
    assert_eq!(ConstOrValue::<u16>::get_val(WrapU16::<11>), 11);
    assert_eq!(ConstOrValue::<u32>::get_val(WrapU32::<11>), 11);
    assert_eq!(ConstOrValue::<u64>::get_val(WrapU64::<11>), 11);
    assert_eq!(ConstOrValue::<usize>::get_val(WrapUSIZE::<11>), 11);
    assert_eq!(ConstOrValue::<i8>::get_val(WrapI8::<0xF5>), -11);
    assert_eq!(ConstOrValue::<i16>::get_val(WrapI16::<0xFFF5>), -11);
    assert_eq!(ConstOrValue::<i32>::get_val(WrapI32::<0xFFFF_FFF5>), -11);
    assert_eq!(ConstOrValue::<i64>::get_val(WrapI64::<0xFFFF_FFFF_FFFF_FFF5>), -11);
    assert_eq!(ConstOrValue::<isize>::get_val(WrapISIZE::<{ usize::MAX - 10 }>), -11);
    assert!(!ConstOrValue::<bool>::get_val(WrapBOOL::<false>));
    assert_eq!(ConstOrValue::<char>::get_val(WrapCHAR::<0x2A>), '*');
}

struct Pair<N, C>(N, C)
where
    C: ConstOrValue<N>;

fn add_pair<N, C>(v: Pair<N, C>) -> N
where
    N: Add<Output = N>,
    C: ConstOrValue<N>,
{
    v.0 + v.1.get_val()
}

fn is_fixed<N, C: ConstOrValue<N>>(_: &C) -> bool {
    C::IS_CONST
}

#[test]
fn generic_code_takes_a_constant_or_a_value() {
    let plain = Pair(31, 11);
    let fixed = Pair(31, WrapI32::<11>);
    assert!(!is_fixed::<i32, _>(&plain.1));
    assert!(is_fixed::<i32, _>(&fixed.1));
    assert_eq!(add_pair(plain), 42);
    assert_eq!(add_pair(fixed), 42);
    assert_eq!(add_pair(Pair(31i64, WrapI64::<0xFFFF_FFFF_FFFF_FFFF>)), 30);
    assert_eq!(add_pair(Pair(1u8, WrapU8::<2>)), 3);
}
