//! The register file: eight 8-bit registers with 16-bit paired views.
//!
//! The pairs BC, DE, HL (and AF, through the flags byte encoding) are views,
//! not separate storage: reading a pair reconstructs `(high << 8) | low`, and
//! writing one updates both halves from the 16-bit value.

use vstd::prelude::*;
use crate::flags::FlagsRegister;
use crate::flags::byte_to_flags;
use crate::flags::flags_to_byte;

verus! {

/// The eight 8-bit general registers; F is kept as its semantic flags view.
#[derive(Clone, Copy, Debug, PartialEq, Eq, Structural)]
pub struct Registers {
    pub a: u8,
    pub b: u8,
    pub c: u8,
    pub d: u8,
    pub e: u8,
    pub f: FlagsRegister,
    pub h: u8,
    pub l: u8,
}

/// The 16-bit value that a high/low byte pair stands for.
pub open spec fn pair_value(high: u8, low: u8) -> int {
    high * 256 + low
}

/// The high byte of a 16-bit value.
pub open spec fn high_byte(v: u16) -> u8 {
    (v >> 8) as u8
}

/// The low byte of a 16-bit value.
pub open spec fn low_byte(v: u16) -> u8 {
    (v & 0xFF) as u8
}

/// Combining a high and a low byte by shift-and-or yields the pair value.
pub proof fn lemma_pair_combine(high: u8, low: u8)
    by (bit_vector)
    ensures
        ((high as u16) << 8) | (low as u16) == pair_value(high, low),
{
}

/// Splitting any 16-bit value into its high and low bytes and recombining
/// them gives the value back: writing a register pair and reading it yields
/// what was written, and both halves hold exactly their byte of it.
pub proof fn lemma_pair_round_trip(v: u16)
    by (bit_vector)
    ensures
        pair_value(high_byte(v), low_byte(v)) == v,
{
}

/// The power-on reset state of the register file: every register cleared.
pub open spec fn reset_registers() -> Registers {
    Registers {
        a: 0,
        b: 0,
        c: 0,
        d: 0,
        e: 0,
        f: FlagsRegister { zero: false, subtract: false, half_carry: false, carry: false },
        h: 0,
        l: 0,
    }
}

impl Registers {
    /// The power-on reset state: every register cleared.
    pub fn new() -> (r: Registers)
        ensures
            r == reset_registers(),
    {
        Registers {
            a: 0,
            b: 0,
            c: 0,
            d: 0,
            e: 0,
            f: FlagsRegister::new(),
            h: 0,
            l: 0,
        }
    }

    /// Reads the BC pair as one 16-bit value.
    pub fn get_bc(&self) -> (r: u16)
        ensures
            r == pair_value(self.b, self.c),
    {
        proof {
            lemma_pair_combine(self.b, self.c);
        }
        ((self.b as u16) << 8) | (self.c as u16)
    }

    /// Writes the BC pair: B takes the high byte, C the low byte, and no
    /// other register changes.
    pub fn set_bc(&mut self, value: u16)
        ensures
            *final(self) == (Registers { b: high_byte(value), c: low_byte(value), ..*old(self) }),
            pair_value(final(self).b, final(self).c) == value,
    {
        proof {
            lemma_pair_round_trip(value);
        }
        self.b = (value >> 8) as u8;
        self.c = (value & 0xFF) as u8;
    }

    /// Reads the DE pair as one 16-bit value.
    pub fn get_de(&self) -> (r: u16)
        ensures
            r == pair_value(self.d, self.e),
    {
        proof {
            lemma_pair_combine(self.d, self.e);
        }
        ((self.d as u16) << 8) | (self.e as u16)
    }

    /// Writes the DE pair: D takes the high byte, E the low byte, and no
    /// other register changes.
    pub fn set_de(&mut self, value: u16)
        ensures
            *final(self) == (Registers { d: high_byte(value), e: low_byte(value), ..*old(self) }),
            pair_value(final(self).d, final(self).e) == value,
    {
        proof {
            lemma_pair_round_trip(value);
        }
        self.d = (value >> 8) as u8;
        self.e = (value & 0xFF) as u8;
    }

    /// Reads the HL pair as one 16-bit value.
    pub fn get_hl(&self) -> (r: u16)
        ensures
            r == pair_value(self.h, self.l),
    {
        proof {
            lemma_pair_combine(self.h, self.l);
        }
        ((self.h as u16) << 8) | (self.l as u16)
    }

    /// Writes the HL pair: H takes the high byte, L the low byte, and no
    /// other register changes.
    pub fn set_hl(&mut self, value: u16)
        ensures
            *final(self) == (Registers { h: high_byte(value), l: low_byte(value), ..*old(self) }),
            pair_value(final(self).h, final(self).l) == value,
    {
        proof {
            lemma_pair_round_trip(value);
        }
        self.h = (value >> 8) as u8;
        self.l = (value & 0xFF) as u8;
    }

    /// Reads the AF pair: A is the high byte, the packed flags byte the low.
    pub fn get_af(&self) -> (r: u16)
        ensures
            r == pair_value(self.a, flags_to_byte(self.f)),
    {
        let f_byte = self.f.to_byte();
        proof {
            lemma_pair_combine(self.a, f_byte);
        }
        ((self.a as u16) << 8) | (f_byte as u16)
    }

    /// Writes the AF pair: A takes the high byte, the flags are unpacked
    /// from the low byte, and no other register changes.
    pub fn set_af(&mut self, value: u16)
        ensures
            *final(self) == (Registers {
                a: high_byte(value),
                f: byte_to_flags(low_byte(value)),
                ..*old(self)
            }),
    {
        self.a = (value >> 8) as u8;
        self.f = FlagsRegister::from_byte((value & 0xFF) as u8);
    }

    /// Reads the A register.
    pub fn get_a(&self) -> (r: u8)
        ensures
            r == self.a,
    {
        self.a
    }

    /// Reads the B register.
    pub fn get_b(&self) -> (r: u8)
        ensures
            r == self.b,
    {
        self.b
    }

    /// Reads the C register.
    pub fn get_c(&self) -> (r: u8)
        ensures
            r == self.c,
    {
        self.c
    }

    /// Reads the D register.
    pub fn get_d(&self) -> (r: u8)
        ensures
            r == self.d,
    {
        self.d
    }

    /// Reads the E register.
    pub fn get_e(&self) -> (r: u8)
        ensures
            r == self.e,
    {
        self.e
    }

    /// Reads the H register.
    pub fn get_h(&self) -> (r: u8)
        ensures
            r == self.h,
    {
        self.h
    }

    /// Reads the L register.
    pub fn get_l(&self) -> (r: u8)
        ensures
            r == self.l,
    {
        self.l
    }
}

} // verus!
