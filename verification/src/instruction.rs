//! The instruction set and the two-level opcode decode tables.
//!
//! An `Instruction` is an immutable tagged value, fully determined by decode.
//! Decode is a total function over (byte, prefixed): every byte of both the
//! plain and the CB-prefixed table maps either to an instruction or to an
//! explicit `None` for an opcode not modelled by this core. The two tables
//! are disjoint: the plain table is consulted only when `prefixed` is false,
//! the CB table only when it is true.

use vstd::prelude::*;

verus! {

/// The source register of an 8-bit arithmetic instruction.
#[derive(Clone, Copy, Debug, PartialEq, Eq, Structural)]
pub enum ArithmeticTarget {
    A,
    B,
    C,
    D,
    E,
    H,
    L,
}

/// The condition of a conditional jump.
#[derive(Clone, Copy, Debug, PartialEq, Eq, Structural)]
pub enum JumpTest {
    NotZero,
    Zero,
    NotCarry,
    Carry,
    Always,
}

/// The register pair of a 16-bit increment instruction.
#[derive(Clone, Copy, Debug, PartialEq, Eq, Structural)]
pub enum IncDecTarget {
    BC,
    DE,
    HL,
}

/// The register operand of a CB-prefixed instruction.
#[derive(Clone, Copy, Debug, PartialEq, Eq, Structural)]
pub enum PrefixTarget {
    A,
    B,
    C,
    D,
    E,
    H,
    L,
}

/// One decoded instruction of the core's modelled subset.
#[derive(Clone, Copy, Debug, PartialEq, Eq, Structural)]
pub enum Instruction {
    /// ADD A, r: add a register into the accumulator.
    ADD(ArithmeticTarget),
    /// INC rr: increment a 16-bit register pair.
    INC(IncDecTarget),
    /// JP cc, nn: conditional absolute jump to a little-endian immediate.
    JP(JumpTest),
    /// RLC r: rotate a register left circularly (CB-prefixed).
    RLC(PrefixTarget),
}

/// The plain (non-prefixed) opcode table.
pub open spec fn spec_decode_not_prefixed(byte: u8) -> Option<Instruction> {
    match byte {
        0x03 => Some(Instruction::INC(IncDecTarget::BC)),
        0x13 => Some(Instruction::INC(IncDecTarget::DE)),
        0x23 => Some(Instruction::INC(IncDecTarget::HL)),
        0x80 => Some(Instruction::ADD(ArithmeticTarget::B)),
        0x81 => Some(Instruction::ADD(ArithmeticTarget::C)),
        0x82 => Some(Instruction::ADD(ArithmeticTarget::D)),
        0x83 => Some(Instruction::ADD(ArithmeticTarget::E)),
        0x84 => Some(Instruction::ADD(ArithmeticTarget::H)),
        0x85 => Some(Instruction::ADD(ArithmeticTarget::L)),
        0x87 => Some(Instruction::ADD(ArithmeticTarget::A)),
        0xC2 => Some(Instruction::JP(JumpTest::NotZero)),
        0xC3 => Some(Instruction::JP(JumpTest::Always)),
        0xCA => Some(Instruction::JP(JumpTest::Zero)),
        0xD2 => Some(Instruction::JP(JumpTest::NotCarry)),
        0xDA => Some(Instruction::JP(JumpTest::Carry)),
        _ => None,
    }
}

/// The CB-prefixed opcode table.
pub open spec fn spec_decode_prefixed(byte: u8) -> Option<Instruction> {
    match byte {
        0x00 => Some(Instruction::RLC(PrefixTarget::B)),
        0x01 => Some(Instruction::RLC(PrefixTarget::C)),
        0x02 => Some(Instruction::RLC(PrefixTarget::D)),
        0x03 => Some(Instruction::RLC(PrefixTarget::E)),
        0x04 => Some(Instruction::RLC(PrefixTarget::H)),
        0x05 => Some(Instruction::RLC(PrefixTarget::L)),
        0x07 => Some(Instruction::RLC(PrefixTarget::A)),
        _ => None,
    }
}

/// The two-level decode: the CB table when `prefixed`, else the plain table.
pub open spec fn spec_decode(byte: u8, prefixed: bool) -> Option<Instruction> {
    if prefixed {
        spec_decode_prefixed(byte)
    } else {
        spec_decode_not_prefixed(byte)
    }
}

impl Instruction {
    /// Decodes one opcode byte against the table that `prefixed` selects.
    pub fn from_byte(byte: u8, prefixed: bool) -> (r: Option<Instruction>)
        ensures
            r == spec_decode(byte, prefixed),
    {
        if prefixed {
            Instruction::from_byte_prefixed(byte)
        } else {
            Instruction::from_byte_not_prefixed(byte)
        }
    }

    /// Decodes one byte against the CB-prefixed table.
    pub fn from_byte_prefixed(byte: u8) -> (r: Option<Instruction>)
        ensures
            r == spec_decode_prefixed(byte),
    {
        match byte {
            0x00 => Some(Instruction::RLC(PrefixTarget::B)),
            0x01 => Some(Instruction::RLC(PrefixTarget::C)),
            0x02 => Some(Instruction::RLC(PrefixTarget::D)),
            0x03 => Some(Instruction::RLC(PrefixTarget::E)),
            0x04 => Some(Instruction::RLC(PrefixTarget::H)),
            0x05 => Some(Instruction::RLC(PrefixTarget::L)),
            0x07 => Some(Instruction::RLC(PrefixTarget::A)),
            _ => None,
        }
    }

    /// Decodes one byte against the plain opcode table.
    pub fn from_byte_not_prefixed(byte: u8) -> (r: Option<Instruction>)
        ensures
            r == spec_decode_not_prefixed(byte),
    {
        match byte {
            0x03 => Some(Instruction::INC(IncDecTarget::BC)),
            0x13 => Some(Instruction::INC(IncDecTarget::DE)),
            0x23 => Some(Instruction::INC(IncDecTarget::HL)),
            0x80 => Some(Instruction::ADD(ArithmeticTarget::B)),
            0x81 => Some(Instruction::ADD(ArithmeticTarget::C)),
            0x82 => Some(Instruction::ADD(ArithmeticTarget::D)),
            0x83 => Some(Instruction::ADD(ArithmeticTarget::E)),
            0x84 => Some(Instruction::ADD(ArithmeticTarget::H)),
            0x85 => Some(Instruction::ADD(ArithmeticTarget::L)),
            0x87 => Some(Instruction::ADD(ArithmeticTarget::A)),
            0xC2 => Some(Instruction::JP(JumpTest::NotZero)),
            0xC3 => Some(Instruction::JP(JumpTest::Always)),
            0xCA => Some(Instruction::JP(JumpTest::Zero)),
            0xD2 => Some(Instruction::JP(JumpTest::NotCarry)),
            0xDA => Some(Instruction::JP(JumpTest::Carry)),
            _ => None,
        }
    }
}

} // verus!
