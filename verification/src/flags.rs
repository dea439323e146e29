//! The flags register: four condition flags packed into one byte.
//!
//! The four booleans zero, subtract, half-carry and carry occupy bits 7, 6, 5
//! and 4 of the byte; bits 3 to 0 are not architectural state and always read
//! back as zero.

use vstd::prelude::*;

verus! {

pub const ZERO_FLAG_BYTE_POSITION: u8 = 7;

pub const SUBTRACT_FLAG_BYTE_POSITION: u8 = 6;

pub const HALF_CARRY_FLAG_BYTE_POSITION: u8 = 5;

pub const CARRY_FLAG_BYTE_POSITION: u8 = 4;

/// The four condition flags of the CPU, a semantic view over one byte.
#[derive(Clone, Copy, Debug, PartialEq, Eq, Structural)]
pub struct FlagsRegister {
    pub zero: bool,
    pub subtract: bool,
    pub half_carry: bool,
    pub carry: bool,
}

/// The byte encoding of a flags value: each flag contributes its bit.
pub open spec fn flags_to_byte(f: FlagsRegister) -> u8 {
    ((if f.zero {
        1u8
    } else {
        0u8
    }) << ZERO_FLAG_BYTE_POSITION) | ((if f.subtract {
        1u8
    } else {
        0u8
    }) << SUBTRACT_FLAG_BYTE_POSITION) | ((if f.half_carry {
        1u8
    } else {
        0u8
    }) << HALF_CARRY_FLAG_BYTE_POSITION) | ((if f.carry {
        1u8
    } else {
        0u8
    }) << CARRY_FLAG_BYTE_POSITION)
}

/// The flags value read out of a byte: each flag is its bit, the low nibble
/// is ignored.
pub open spec fn byte_to_flags(b: u8) -> FlagsRegister {
    FlagsRegister {
        zero: (b >> ZERO_FLAG_BYTE_POSITION) & 1 != 0,
        subtract: (b >> SUBTRACT_FLAG_BYTE_POSITION) & 1 != 0,
        half_carry: (b >> HALF_CARRY_FLAG_BYTE_POSITION) & 1 != 0,
        carry: (b >> CARRY_FLAG_BYTE_POSITION) & 1 != 0,
    }
}

impl FlagsRegister {
    /// All four flags cleared.
    pub fn new() -> (r: FlagsRegister)
        ensures
            r == (FlagsRegister { zero: false, subtract: false, half_carry: false, carry: false }),
    {
        FlagsRegister { zero: false, subtract: false, half_carry: false, carry: false }
    }

    /// Packs the four flags into their byte encoding.
    pub fn to_byte(&self) -> (r: u8)
        ensures
            r == flags_to_byte(*self),
    {
        ((if self.zero {
            1u8
        } else {
            0u8
        }) << ZERO_FLAG_BYTE_POSITION) | ((if self.subtract {
            1u8
        } else {
            0u8
        }) << SUBTRACT_FLAG_BYTE_POSITION) | ((if self.half_carry {
            1u8
        } else {
            0u8
        }) << HALF_CARRY_FLAG_BYTE_POSITION) | ((if self.carry {
            1u8
        } else {
            0u8
        }) << CARRY_FLAG_BYTE_POSITION)
    }

    /// Unpacks a byte into the four flags; the low nibble carries no state.
    pub fn from_byte(byte: u8) -> (r: FlagsRegister)
        ensures
            r == byte_to_flags(byte),
    {
        FlagsRegister {
            zero: (byte >> ZERO_FLAG_BYTE_POSITION) & 1 != 0,
            subtract: (byte >> SUBTRACT_FLAG_BYTE_POSITION) & 1 != 0,
            half_carry: (byte >> HALF_CARRY_FLAG_BYTE_POSITION) & 1 != 0,
            carry: (byte >> CARRY_FLAG_BYTE_POSITION) & 1 != 0,
        }
    }
}

/// Unpacking the packed encoding of any flags value gives that value back:
/// the byte encoding is lossless.
pub proof fn lemma_flags_from_to(f: FlagsRegister)
    ensures
        byte_to_flags(flags_to_byte(f)) == f,
{
    let bz: u8 = if f.zero { 1u8 } else { 0u8 };
    let bs: u8 = if f.subtract { 1u8 } else { 0u8 };
    let bh: u8 = if f.half_carry { 1u8 } else { 0u8 };
    let bc: u8 = if f.carry { 1u8 } else { 0u8 };
    let packed: u8 = (bz << 7) | (bs << 6) | (bh << 5) | (bc << 4);
    assert({
        &&& ((packed >> 7) & 1 != 0) <==> bz == 1
        &&& ((packed >> 6) & 1 != 0) <==> bs == 1
        &&& ((packed >> 5) & 1 != 0) <==> bh == 1
        &&& ((packed >> 4) & 1 != 0) <==> bc == 1
    }) by (bit_vector)
        requires
            bz == 0 || bz == 1,
            bs == 0 || bs == 1,
            bh == 0 || bh == 1,
            bc == 0 || bc == 1,
            packed == (bz << 7) | (bs << 6) | (bh << 5) | (bc << 4),
    ;
}

/// Packing the flags read out of any byte gives that byte with its low
/// nibble cleared: only bits 7 to 4 are architectural state.
pub proof fn lemma_flags_to_from(b: u8)
    ensures
        flags_to_byte(byte_to_flags(b)) == b & 0xF0,
{
    let bz: u8 = if (b >> 7) & 1 != 0 { 1u8 } else { 0u8 };
    let bs: u8 = if (b >> 6) & 1 != 0 { 1u8 } else { 0u8 };
    let bh: u8 = if (b >> 5) & 1 != 0 { 1u8 } else { 0u8 };
    let bc: u8 = if (b >> 4) & 1 != 0 { 1u8 } else { 0u8 };
    assert({
        &&& ((b >> 7) & 1 == 0 || (b >> 7) & 1 == 1)
        &&& ((b >> 6) & 1 == 0 || (b >> 6) & 1 == 1)
        &&& ((b >> 5) & 1 == 0 || (b >> 5) & 1 == 1)
        &&& ((b >> 4) & 1 == 0 || (b >> 4) & 1 == 1)
    }) by (bit_vector);
    assert((bz << 7) | (bs << 6) | (bh << 5) | (bc << 4) == b & 0xF0) by (bit_vector)
        requires
            bz == (b >> 7) & 1,
            bs == (b >> 6) & 1,
            bh == (b >> 5) & 1,
            bc == (b >> 4) & 1,
    ;
}

/// Reading flags from a byte, packing them, and reading again changes
/// nothing: the byte round trip is idempotent on the four defined bits.
pub proof fn lemma_flags_round_trip(b: u8)
    ensures
        byte_to_flags(flags_to_byte(byte_to_flags(b))) == byte_to_flags(b),
{
    lemma_flags_from_to(byte_to_flags(b));
}

} // verus!
