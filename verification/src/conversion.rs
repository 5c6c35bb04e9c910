//! Conversions between logical register types and the 32-bit pattern that a
//! register slot stores.

use vstd::prelude::*;

verus! {

/// A logical type that can be written to a register as a 32-bit pattern.
pub trait IntoRegister: Sized {
    /// The bit pattern that stands for `self`.
    spec fn spec_into(self) -> u32;

    fn into(self) -> (bits: u32)
        ensures
            bits == self.spec_into(),
    ;
}

/// A logical type that can be read out of a 32-bit register pattern.
pub trait FromRegister: Sized {
    /// The value that `bits` stands for.
    spec fn spec_from(bits: u32) -> Self;

    fn from(bits: u32) -> (value: Self)
        ensures
            value == Self::spec_from(bits),
    ;
}

/// A logical type whose two conversions are lossless: reading back the
/// pattern of a value gives that value.
pub trait RegisterValue: IntoRegister + FromRegister {
    proof fn lemma_round_trip(value: Self)
        ensures
            Self::spec_from(value.spec_into()) == value,
    ;
}

impl IntoRegister for u32 {
    open spec fn spec_into(self) -> u32 {
        self
    }

    fn into(self) -> (bits: u32) {
        self
    }
}

impl FromRegister for u32 {
    open spec fn spec_from(bits: u32) -> u32 {
        bits
    }

    fn from(bits: u32) -> (value: u32) {
        bits
    }
}

impl RegisterValue for u32 {
    proof fn lemma_round_trip(value: u32) {
    }
}

impl IntoRegister for i32 {
    open spec fn spec_into(self) -> u32 {
        self as u32
    }

    fn into(self) -> (bits: u32) {
        self as u32
    }
}

impl FromRegister for i32 {
    open spec fn spec_from(bits: u32) -> i32 {
        bits as i32
    }

    fn from(bits: u32) -> (value: i32) {
        bits as i32
    }
}

impl RegisterValue for i32 {
    proof fn lemma_round_trip(value: i32) {
        assert((value as u32) as i32 == value) by (bit_vector);
    }
}

impl IntoRegister for u8 {
    open spec fn spec_into(self) -> u32 {
        self as u32
    }

    fn into(self) -> (bits: u32) {
        self as u32
    }
}

impl FromRegister for u8 {
    open spec fn spec_from(bits: u32) -> u8 {
        bits as u8
    }

    fn from(bits: u32) -> (value: u8) {
        bits as u8
    }
}

impl RegisterValue for u8 {
    proof fn lemma_round_trip(value: u8) {
        assert((value as u32) as u8 == value) by (bit_vector);
    }
}

impl IntoRegister for i8 {
    open spec fn spec_into(self) -> u32 {
        self as u32
    }

    fn into(self) -> (bits: u32) {
        self as u32
    }
}

impl FromRegister for i8 {
    open spec fn spec_from(bits: u32) -> i8 {
        bits as i8
    }

    fn from(bits: u32) -> (value: i8) {
        bits as i8
    }
}

impl RegisterValue for i8 {
    proof fn lemma_round_trip(value: i8) {
        assert((value as u32) as i8 == value) by (bit_vector);
    }
}

impl IntoRegister for u16 {
    open spec fn spec_into(self) -> u32 {
        self as u32
    }

    fn into(self) -> (bits: u32) {
        self as u32
    }
}

impl FromRegister for u16 {
    open spec fn spec_from(bits: u32) -> u16 {
        bits as u16
    }

    fn from(bits: u32) -> (value: u16) {
        bits as u16
    }
}

impl RegisterValue for u16 {
    proof fn lemma_round_trip(value: u16) {
        assert((value as u32) as u16 == value) by (bit_vector);
    }
}

impl IntoRegister for i16 {
    open spec fn spec_into(self) -> u32 {
        self as u32
    }

    fn into(self) -> (bits: u32) {
        self as u32
    }
}

impl FromRegister for i16 {
    open spec fn spec_from(bits: u32) -> i16 {
        bits as i16
    }

    fn from(bits: u32) -> (value: i16) {
        bits as i16
    }
}

impl RegisterValue for i16 {
    proof fn lemma_round_trip(value: i16) {
        assert((value as u32) as i16 == value) by (bit_vector);
    }
}

} // verus!
