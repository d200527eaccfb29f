use const_generic_wrap::casts::{
    char_from_code, i16_from_bits, i32_from_bits, i64_from_bits, i8_from_bits, isize_from_bits,
};
use const_generic_wrap::{BitConst, IntegerConst, UnsignedConst};
use const_generic_wrap::{WrapBOOL, WrapUSIZE};
use const_generic_wrap::{WrapI16, WrapI32, WrapI64, WrapI8, WrapISIZE};
use const_generic_wrap::{WrapU16, WrapU32, WrapU64, WrapU8};
use typenum::marker_traits::Zero;

#[test]
fn typenum_test() {
    assert_eq!(WrapU32::<260>::U32, 260);
    assert_eq!(WrapU32::<260>::U8, 4);

    assert_eq!(WrapU32::<260>::I32, 260);
    assert_eq!(WrapI32::<260>::I32, 260);
}

#[test]
fn unsigned_projections_keep_the_low_bits() {
    assert_eq!(WrapU32::<260>::to_u32(), 260);
    assert_eq!(WrapU32::<260>::to_u8(), 4);
    assert_eq!(WrapU32::<260>::to_u16(), 260);
    assert_eq!(WrapU32::<260>::to_u64(), 260);
    assert_eq!(WrapU32::<260>::to_usize(), 260);
    assert_eq!(WrapU32::<0x1_2345>::to_u16(), 0x2345);
    assert_eq!(WrapU64::<0x1_0000_0007>::to_u32(), 7);
    assert_eq!(WrapU64::<0xFFFF_FFFF_FFFF_FFFF>::to_u8(), 0xFF);
    assert_eq!(WrapU64::<0xFFFF_FFFF_FFFF_FFFF>::to_u16(), 0xFFFF);
    assert_eq!(WrapU64::<0xFFFF_FFFF_FFFF_FFFF>::to_u64(), u64::MAX);
    assert_eq!(WrapU64::<0xFFFF_FFFF_FFFF_FFFF>::to_usize(), usize::MAX);
    assert_eq!(WrapU16::<0x1FF>::to_u8(), 0xFF);
    assert_eq!(WrapU8::<0xFF>::to_u64(), 255);
    assert_eq!(WrapUSIZE::<300>::to_u8(), 44);
    assert_eq!(WrapUSIZE::<{ usize::MAX }>::to_u16(), 0xFFFF);
    assert_eq!(WrapUSIZE::<{ usize::MAX }>::to_u64(), usize::MAX as u64);
}

#[test]
fn unsigned_projections_to_signed_types_read_twos_complement() {
    assert_eq!(WrapU32::<260>::to_i32(), 260);
    assert_eq!(WrapU32::<260>::to_i8(), 4);
    assert_eq!(WrapU8::<0xFF>::to_i8(), -1);
    assert_eq!(WrapU8::<0x80>::to_i8(), i8::MIN);
    assert_eq!(WrapU8::<0xFF>::to_i16(), 255);
    assert_eq!(WrapU16::<0xFFFF>::to_i16(), -1);
    assert_eq!(WrapU16::<0x80>::to_i8(), i8::MIN);
    assert_eq!(WrapU32::<0xFFFF_FFFF>::to_i32(), -1);
    assert_eq!(WrapU32::<0xFFFF_FFFF>::to_i64(), 0xFFFF_FFFF);
    assert_eq!(WrapU32::<0x8000_0000>::to_i32(), i32::MIN);
    assert_eq!(WrapU64::<0xFFFF_FFFF_FFFF_FFFF>::to_i64(), -1);
    assert_eq!(WrapU64::<0xFFFF_FFFF_FFFF_FFFF>::to_isize(), -1);
    assert_eq!(WrapU64::<0x8000_0000_0000_0000>::to_i64(), i64::MIN);
    assert_eq!(WrapUSIZE::<{ usize::MAX }>::to_isize(), -1);
    assert_eq!(WrapUSIZE::<{ usize::MAX }>::to_i8(), -1);
    assert_eq!(WrapUSIZE::<7>::to_i64(), 7);
}

#[test]
fn unsigned_constants_agree_with_the_functions() {
    assert_eq!(WrapU32::<260>::U8, WrapU32::<260>::to_u8());
    assert_eq!(WrapU32::<260>::U16, 260);
    assert_eq!(WrapU32::<260>::U64, 260);
    assert_eq!(WrapU32::<260>::USIZE, 260);
    assert_eq!(WrapU32::<260>::I8, 4);
    assert_eq!(WrapU32::<260>::I16, 260);
    assert_eq!(WrapU32::<260>::I64, 260);
    assert_eq!(WrapU32::<260>::ISIZE, 260);
    assert_eq!(WrapU8::<0xFF>::I8, -1);
    assert_eq!(WrapU16::<0xFFFF>::I16, -1);
    assert_eq!(WrapU64::<0x1_0000_0000>::U32, 0);
    assert_eq!(WrapU64::<{ u64::MAX }>::I64, -1);
    assert_eq!(WrapUSIZE::<{ usize::MAX }>::ISIZE, -1);
    assert_eq!(WrapUSIZE::<300>::U8, 44);
}

#[test]
fn signed_projections_keep_the_low_bits() {
    assert_eq!(WrapI32::<260>::to_i32(), 260);
    assert_eq!(WrapI32::<260>::to_i8(), 4);
    assert_eq!(WrapI32::<260>::to_i16(), 260);
    assert_eq!(WrapI32::<260>::to_i64(), 260);
    assert_eq!(WrapI32::<260>::to_isize(), 260);
    // -1 stays -1 in every width
    assert_eq!(WrapI8::<0xFF>::to_i8(), -1);
    assert_eq!(WrapI8::<0xFF>::to_i16(), -1);
    assert_eq!(WrapI8::<0xFF>::to_i32(), -1);
    assert_eq!(WrapI8::<0xFF>::to_i64(), -1);
    assert_eq!(WrapI8::<0xFF>::to_isize(), -1);
    assert_eq!(WrapI64::<0xFFFF_FFFF_FFFF_FFFF>::to_i8(), -1);
    assert_eq!(WrapISIZE::<{ usize::MAX }>::to_i32(), -1);
    assert_eq!(WrapISIZE::<{ usize::MAX }>::to_i64(), -1);
    // -129 does not fit in an i8 and wraps to 127
    assert_eq!(WrapI16::<0xFF7F>::to_i16(), -129);
    assert_eq!(WrapI16::<0xFF7F>::to_i8(), 127);
    // 128 does not fit either and wraps to -128
    assert_eq!(WrapI32::<128>::to_i8(), i8::MIN);
    assert_eq!(WrapI32::<0xFFFF_7FFF>::to_i16(), i16::MAX);
    assert_eq!(WrapI64::<0x1_8000_0000>::to_i32(), i32::MIN);
    assert_eq!(WrapI64::<0x8000_0000_0000_0000>::to_i64(), i64::MIN);
    assert_eq!(WrapI64::<0x8000_0000_0000_0000>::to_i32(), 0);
}

#[test]
fn signed_constants_agree_with_the_functions() {
    assert_eq!(WrapI32::<260>::I8, 4);
    assert_eq!(WrapI32::<260>::I16, 260);
    assert_eq!(WrapI32::<260>::I64, 260);
    assert_eq!(WrapI32::<260>::ISIZE, 260);
    assert_eq!(WrapI8::<0x80>::I64, -128);
    assert_eq!(WrapI16::<0xFF7F>::I8, 127);
    assert_eq!(WrapI64::<0xFFFF_FFFF_FFFF_FFFF>::I8, WrapI64::<0xFFFF_FFFF_FFFF_FFFF>::to_i8());
    assert_eq!(WrapISIZE::<{ usize::MAX }>::I16, -1);
    assert_eq!(WrapISIZE::<5>::ISIZE, 5);
}

#[test]
fn a_boolean_wrapper_is_a_bit() {
    assert_eq!(WrapBOOL::<false>::to_u8(), 0);
    assert!(!WrapBOOL::<false>::to_bool());
    assert_eq!(WrapBOOL::<true>::to_u8(), 1);
    assert!(WrapBOOL::<true>::to_bool());
    assert_eq!(<WrapBOOL<false> as BitConst>::U8, 0);
    assert!(!<WrapBOOL<false> as BitConst>::BOOL);
    assert_eq!(<WrapBOOL<true> as BitConst>::U8, 1);
    assert!(<WrapBOOL<true> as BitConst>::BOOL);
    assert_eq!(<WrapBOOL<true> as BitConst>::new(), WrapBOOL::<true>);
    assert_eq!(<WrapBOOL<false> as BitConst>::new(), WrapBOOL::<false>);
}

fn marked_zero<Z: Zero>(_: Z) -> bool {
    true
}

#[test]
fn the_wrappers_of_zero_are_marked_zero() {
    assert!(marked_zero(WrapU8::<0>));
    assert!(marked_zero(WrapU16::<0>));
    assert!(marked_zero(WrapU32::<0>));
    assert!(marked_zero(WrapU64::<0>));
    assert!(marked_zero(WrapUSIZE::<0>));
    assert!(marked_zero(WrapI8::<0>));
    assert!(marked_zero(WrapI16::<0>));
    assert!(marked_zero(WrapI32::<0>));
    assert!(marked_zero(WrapI64::<0>));
    assert!(marked_zero(WrapISIZE::<0>));
    assert!(marked_zero(typenum::consts::U0::default()));
    assert_eq!(WrapU32::<0>::to_u64(), 0);
    assert_eq!(WrapI32::<0>::to_i64(), 0);
}

#[test]
fn bit_patterns_read_as_twos_complement() {
    assert_eq!(i8_from_bits(0), 0);
    assert_eq!(i8_from_bits(0x7F), 127);
    assert_eq!(i8_from_bits(0x80), -128);
    assert_eq!(i8_from_bits(0xFF), -1);
    assert_eq!(i16_from_bits(0x8001), -32767);
    assert_eq!(i32_from_bits(0xFFFF_FFFE), -2);
    assert_eq!(i32_from_bits(5), 5);
    assert_eq!(i64_from_bits(u64::MAX), -1);
    assert_eq!(isize_from_bits(usize::MAX), -1);
    assert_eq!(isize_from_bits(usize::MAX / 2), isize::MAX);
    assert_eq!(char_from_code(0x41), 'A');
    assert_eq!(char_from_code(0xFF), '\u{FF}');
}
