use fpgrars::conversion::{FromRegister, IntoRegister};
use fpgrars::register_bank::RegisterBank;

#[test]
fn fresh_bank_reads_zero_everywhere() {
    let bank = RegisterBank::new();
    for i in 0..32 {
        assert_eq!(bank.get_register::<u32>(i), 0);
        assert_eq!(bank.get_float(i), 0);
    }
    assert_eq!(bank.get_status(0), 0);
    assert_eq!(bank.get_status(1000), 0);
}

#[test]
fn register_zero_discards_writes() {
    let mut bank = RegisterBank::new();
    bank.set_register::<u32>(0, 0xdead_beef);
    assert_eq!(bank.get_register::<u32>(0), 0);
    bank.set_register::<i32>(0, -1);
    assert_eq!(bank.get_register::<i32>(0), 0);
    bank.set_register::<u8>(0, 200);
    assert_eq!(bank.get_register::<u8>(0), 0);
    bank.set_register::<i16>(0, -300);
    assert_eq!(bank.get_register::<i16>(0), 0);
}

#[test]
fn every_other_register_round_trips() {
    let mut bank = RegisterBank::new();
    for i in 1..32usize {
        let value: u32 = 0x0101_0101u32.wrapping_mul(i as u32) ^ 0x8000_0001;
        bank.set_register::<u32>(i, value);
        assert_eq!(bank.get_register::<u32>(i), value);
    }
    for i in 1..32usize {
        let value: u32 = 0x0101_0101u32.wrapping_mul(i as u32) ^ 0x8000_0001;
        assert_eq!(bank.get_register::<u32>(i), value);
    }
    assert_eq!(bank.get_register::<u32>(0), 0);
}

#[test]
fn signed_values_round_trip() {
    let mut bank = RegisterBank::new();
    bank.set_register::<i32>(5, -5);
    assert_eq!(bank.get_register::<i32>(5), -5);
    assert_eq!(bank.get_register::<u32>(5), 0xffff_fffb);
    bank.set_register::<i32>(6, i32::MIN);
    assert_eq!(bank.get_register::<i32>(6), i32::MIN);
    bank.set_register::<i8>(7, -128);
    assert_eq!(bank.get_register::<i8>(7), -128);
    assert_eq!(bank.get_register::<u32>(7), 0xffff_ff80);
    bank.set_register::<i16>(8, -2);
    assert_eq!(bank.get_register::<i16>(8), -2);
    assert_eq!(bank.get_register::<u32>(8), 0xffff_fffe);
}

#[test]
fn narrow_views_read_the_low_bits() {
    let mut bank = RegisterBank::new();
    bank.set_register::<u32>(9, 0x1234_56f8);
    assert_eq!(bank.get_register::<u8>(9), 0xf8);
    assert_eq!(bank.get_register::<i8>(9), -8);
    assert_eq!(bank.get_register::<u16>(9), 0x56f8);
    assert_eq!(bank.get_register::<i16>(9), 0x56f8);
    bank.set_register::<u8>(9, 255);
    assert_eq!(bank.get_register::<u32>(9), 255);
    bank.set_register::<u16>(9, 65535);
    assert_eq!(bank.get_register::<u32>(9), 65535);
}

#[test]
fn conversions_are_bit_patterns() {
    assert_eq!(IntoRegister::into(-1i32), 0xffff_ffffu32);
    assert_eq!(IntoRegister::into(-1i8), 0xffff_ffffu32);
    assert_eq!(IntoRegister::into(7u8), 7u32);
    assert_eq!(IntoRegister::into(0x8000u16), 0x8000u32);
    assert_eq!(IntoRegister::into(i16::MIN), 0xffff_8000u32);
    assert_eq!(<i32 as FromRegister>::from(0x8000_0000), i32::MIN);
    assert_eq!(<u8 as FromRegister>::from(0x1ff), 0xff);
    assert_eq!(<i8 as FromRegister>::from(0x80), -128);
    assert_eq!(<u16 as FromRegister>::from(0x1_2345), 0x2345);
    assert_eq!(<i16 as FromRegister>::from(0xffff), -1);
    assert_eq!(<u32 as FromRegister>::from(42), 42);
}

#[test]
fn a_write_overwrites_and_keeps_the_others() {
    let mut bank = RegisterBank::new();
    bank.set_register::<u32>(1, 11);
    bank.set_register::<u32>(2, 22);
    bank.set_register::<u32>(1, 33);
    assert_eq!(bank.get_register::<u32>(1), 33);
    assert_eq!(bank.get_register::<u32>(2), 22);
    assert_eq!(bank.get_register::<u32>(31), 0);
}

#[test]
fn float_bank_is_separate_and_has_no_zero_register() {
    let mut bank = RegisterBank::new();
    bank.set_float(0, 1.5f32.to_bits());
    bank.set_float(31, (-0.25f32).to_bits());
    assert_eq!(f32::from_bits(bank.get_float(0)), 1.5f32);
    assert_eq!(f32::from_bits(bank.get_float(31)), -0.25f32);
    assert_eq!(bank.get_float(1), 0);
    assert_eq!(bank.get_register::<u32>(0), 0);
    assert_eq!(bank.get_register::<u32>(31), 0);
    bank.set_register::<u32>(31, 5);
    assert_eq!(f32::from_bits(bank.get_float(31)), -0.25f32);
}

#[test]
fn status_flags_grow_on_demand() {
    let mut bank = RegisterBank::new();
    bank.set_status(4, 1);
    assert_eq!(bank.get_status(4), 1);
    assert_eq!(bank.get_status(0), 0);
    assert_eq!(bank.get_status(3), 0);
    assert_eq!(bank.get_status(5), 0);
    bank.set_status(2, 7);
    assert_eq!(bank.get_status(2), 7);
    assert_eq!(bank.get_status(4), 1);
    bank.set_status(4, 0);
    assert_eq!(bank.get_status(4), 0);
    bank.set_status(0, 9);
    assert_eq!(bank.get_status(0), 9);
}
