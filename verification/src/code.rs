//! The integer types that an error code can be taken from and turned into.

use vstd::prelude::*;

verus! {

/// The number of distinct 32-bit error codes.
pub open spec fn code_space() -> int {
    0x1_0000_0000
}

/// The error code that a signed or unsigned integer stands for: the value
/// itself where it is not negative, else its two's complement in 32 bits.
pub open spec fn widened(value: int) -> u32
    recommends
        -0x8000_0000 <= value < code_space(),
{
    if value >= 0 {
        value as u32
    } else {
        (value + code_space()) as u32
    }
}

/// The low bits of an error code, read as an unsigned integer; `modulus` is
/// two to the number of bits.
pub open spec fn low_unsigned(code: u32, modulus: int) -> int
    recommends
        modulus > 0,
{
    code as int % modulus
}

/// The low bits of an error code, read as a signed integer in two's
/// complement; `modulus` is two to the number of bits.
pub open spec fn low_signed(code: u32, modulus: int) -> int
    recommends
        modulus > 0,
{
    let low = code as int % modulus;
    if 2 * low < modulus {
        low
    } else {
        low - modulus
    }
}

/// An integer type of the fixed set that error codes convert from and to.
pub trait CodeInteger: Sized {
    /// The error code that `self` stands for.
    spec fn code_of(self) -> u32;

    /// The value of this type that an error code is cut down to.
    spec fn of_code(code: u32) -> Self;

    /// Widens `self` to an error code.
    fn widen(self) -> (code: u32)
        ensures
            code == self.code_of(),
    ;

    /// Cuts an error code down to this type, keeping its low bits.
    fn narrow(code: u32) -> (value: Self)
        ensures
            value == Self::of_code(code),
    ;

    /// Widening and then cutting down gives the value back.
    proof fn lemma_round_trip(value: Self)
        ensures
            Self::of_code(value.code_of()) == value,
    ;
}

impl CodeInteger for u32 {
    open spec fn code_of(self) -> u32 {
        self
    }

    open spec fn of_code(code: u32) -> u32 {
        code
    }

    fn widen(self) -> (code: u32) {
        self
    }

    fn narrow(code: u32) -> (value: u32) {
        code
    }

    proof fn lemma_round_trip(value: u32) {
    }
}

impl CodeInteger for u16 {
    open spec fn code_of(self) -> u32 {
        widened(self as int)
    }

    open spec fn of_code(code: u32) -> u16 {
        low_unsigned(code, 0x1_0000) as u16
    }

    fn widen(self) -> (code: u32) {
        self as u32
    }

    fn narrow(code: u32) -> (value: u16) {
        let value = #[verifier::truncate] (code as u16);
        assert(value as u32 == code % 0x1_0000) by (bit_vector)
            requires
                value == code as u16,
        ;
        value
    }

    proof fn lemma_round_trip(value: u16) {
    }
}

impl CodeInteger for u8 {
    open spec fn code_of(self) -> u32 {
        widened(self as int)
    }

    open spec fn of_code(code: u32) -> u8 {
        low_unsigned(code, 0x100) as u8
    }

    fn widen(self) -> (code: u32) {
        self as u32
    }

    fn narrow(code: u32) -> (value: u8) {
        let value = #[verifier::truncate] (code as u8);
        assert(value as u32 == code % 0x100) by (bit_vector)
            requires
                value == code as u8,
        ;
        value
    }

    proof fn lemma_round_trip(value: u8) {
    }
}

impl CodeInteger for i32 {
    open spec fn code_of(self) -> u32 {
        widened(self as int)
    }

    open spec fn of_code(code: u32) -> i32 {
        low_signed(code, code_space()) as i32
    }

    fn widen(self) -> (code: u32) {
        let code = #[verifier::truncate] (self as u32);
        assert(code as i64 == if self >= 0 {
            self as i64
        } else {
            (self as i64 + 0x1_0000_0000i64) as i64
        }) by (bit_vector)
            requires
                code == self as u32,
        ;
        code
    }

    fn narrow(code: u32) -> (value: i32) {
        let value = #[verifier::truncate] (code as i32);
        assert(value as i64 == if code < 0x8000_0000u32 {
            code as i64
        } else {
            (code as i64 - 0x1_0000_0000i64) as i64
        }) by (bit_vector)
            requires
                value == code as i32,
        ;
        value
    }

    proof fn lemma_round_trip(value: i32) {
    }
}

impl CodeInteger for i16 {
    open spec fn code_of(self) -> u32 {
        widened(self as int)
    }

    open spec fn of_code(code: u32) -> i16 {
        low_signed(code, 0x1_0000) as i16
    }

    fn widen(self) -> (code: u32) {
        let code = #[verifier::truncate] (self as u32);
        assert(code as i64 == if self >= 0 {
            self as i64
        } else {
            (self as i64 + 0x1_0000_0000i64) as i64
        }) by (bit_vector)
            requires
                code == self as u32,
        ;
        code
    }

    fn narrow(code: u32) -> (value: i16) {
        let value = #[verifier::truncate] (code as i16);
        assert(value as i64 == if code % 0x1_0000 < 0x8000u32 {
            (code % 0x1_0000) as i64
        } else {
            ((code % 0x1_0000) as i64 - 0x1_0000i64) as i64
        }) by (bit_vector)
            requires
                value == code as i16,
        ;
        value
    }

    proof fn lemma_round_trip(value: i16) {
    }
}

impl CodeInteger for i8 {
    open spec fn code_of(self) -> u32 {
        widened(self as int)
    }

    open spec fn of_code(code: u32) -> i8 {
        low_signed(code, 0x100) as i8
    }

    fn widen(self) -> (code: u32) {
        let code = #[verifier::truncate] (self as u32);
        assert(code as i64 == if self >= 0 {
            self as i64
        } else {
            (self as i64 + 0x1_0000_0000i64) as i64
        }) by (bit_vector)
            requires
                code == self as u32,
        ;
        code
    }

    fn narrow(code: u32) -> (value: i8) {
        let value = #[verifier::truncate] (code as i8);
        assert(value as i64 == if code % 0x100 < 0x80u32 {
            (code % 0x100) as i64
        } else {
            ((code % 0x100) as i64 - 0x100i64) as i64
        }) by (bit_vector)
            requires
                value == code as i8,
        ;
        value
    }

    proof fn lemma_round_trip(value: i8) {
    }
}

} // verus!
