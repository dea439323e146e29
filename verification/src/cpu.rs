//! The execution engine and the step loop.
//!
//! `execute` performs exactly one instruction's architectural effect on the
//! register file and returns the next program-counter value; the program
//! counter itself is never mutated mid-instruction. `step` fetches one byte
//! (two when the first is the CB prefix), decodes it, commits the returned
//! program counter on success, and reports a decode failure — byte, address,
//! prefixed flag — without advancing on an unmapped opcode.

use vstd::prelude::*;
use crate::flags::FlagsRegister;
use crate::instruction::ArithmeticTarget;
use crate::instruction::IncDecTarget;
use crate::instruction::Instruction;
use crate::instruction::JumpTest;
use crate::instruction::PrefixTarget;
use crate::instruction::spec_decode;
use crate::memory::MemoryBus;
use crate::registers::Registers;
use crate::registers::high_byte;
use crate::registers::lemma_pair_combine;
use crate::registers::low_byte;
use crate::registers::pair_value;

verus! {

/// The opcode byte that selects the CB-prefixed table.
pub const CB_PREFIX: u8 = 0xCB;

/// A fatal decode failure: the unmapped opcode byte, the address it was
/// fetched from, and whether it came out of the CB-prefixed table.
#[derive(Clone, Copy, Debug, PartialEq, Eq, Structural)]
pub struct DecodeFailure {
    pub opcode: u8,
    pub address: u16,
    pub prefixed: bool,
}

/// The CPU core: register file, program counter, and the memory bus handle.
pub struct CPU {
    pub registers: Registers,
    pub pc: u16,
    pub bus: MemoryBus,
}

/// A 16-bit address or counter advanced by `k`, wrapping modulo the address
/// space.
pub open spec fn wrap_add16(v: u16, k: u16) -> u16 {
    ((v + k) % 0x10000) as u16
}

/// The value of the register an arithmetic instruction names.
pub open spec fn arithmetic_value(regs: Registers, target: ArithmeticTarget) -> u8 {
    match target {
        ArithmeticTarget::A => regs.a,
        ArithmeticTarget::B => regs.b,
        ArithmeticTarget::C => regs.c,
        ArithmeticTarget::D => regs.d,
        ArithmeticTarget::E => regs.e,
        ArithmeticTarget::H => regs.h,
        ArithmeticTarget::L => regs.l,
    }
}

/// The value of the register a CB-prefixed instruction names.
pub open spec fn prefix_value(regs: Registers, target: PrefixTarget) -> u8 {
    match target {
        PrefixTarget::A => regs.a,
        PrefixTarget::B => regs.b,
        PrefixTarget::C => regs.c,
        PrefixTarget::D => regs.d,
        PrefixTarget::E => regs.e,
        PrefixTarget::H => regs.h,
        PrefixTarget::L => regs.l,
    }
}

/// The register file with the register a CB-prefixed instruction names
/// replaced by `value`.
pub open spec fn with_prefix_target(regs: Registers, target: PrefixTarget, value: u8) -> Registers {
    match target {
        PrefixTarget::A => Registers { a: value, ..regs },
        PrefixTarget::B => Registers { b: value, ..regs },
        PrefixTarget::C => Registers { c: value, ..regs },
        PrefixTarget::D => Registers { d: value, ..regs },
        PrefixTarget::E => Registers { e: value, ..regs },
        PrefixTarget::H => Registers { h: value, ..regs },
        PrefixTarget::L => Registers { l: value, ..regs },
    }
}

/// The 8-bit sum of accumulator and operand, wrapping modulo 256.
pub open spec fn add_result(a: u8, value: u8) -> u8 {
    ((a + value) % 256) as u8
}

/// The flags an 8-bit add leaves behind: zero iff the wrapped sum is zero,
/// subtract cleared, half-carry iff the low nibbles overflow into bit 4,
/// carry iff the true sum exceeds 8 bits.
pub open spec fn add_flags(a: u8, value: u8) -> FlagsRegister {
    FlagsRegister {
        zero: add_result(a, value) == 0,
        subtract: false,
        half_carry: (a & 0xF) + (value & 0xF) > 0xF,
        carry: a + value > 255,
    }
}

/// The result of rotating a byte left circularly by one bit.
pub open spec fn rlc_result(value: u8) -> u8 {
    (value << 1) | (value >> 7)
}

/// The flags a circular left rotate leaves behind: zero iff the result is
/// zero, subtract and half-carry cleared, carry holds the bit rotated out.
pub open spec fn rlc_flags(value: u8) -> FlagsRegister {
    FlagsRegister {
        zero: rlc_result(value) == 0,
        subtract: false,
        half_carry: false,
        carry: value & 0x80 != 0,
    }
}

/// Whether a jump condition holds of the flags: NotZero and Zero test the
/// negated and plain zero flag, NotCarry and Carry the carry flag, and
/// Always holds of every flags value.
pub open spec fn jump_condition(test: JumpTest, f: FlagsRegister) -> bool {
    match test {
        JumpTest::NotZero => !f.zero,
        JumpTest::Zero => f.zero,
        JumpTest::NotCarry => !f.carry,
        JumpTest::Carry => f.carry,
        JumpTest::Always => true,
    }
}

/// The absolute jump target: the little-endian 16-bit value in the two bytes
/// after the opcode (low byte first).
pub open spec fn jump_target(mem: Seq<u8>, pc: u16) -> u16 {
    pair_value(mem[wrap_add16(pc, 2) as int], mem[wrap_add16(pc, 1) as int]) as u16
}

/// The register file after one instruction's architectural effect.
pub open spec fn spec_execute_regs(regs: Registers, instruction: Instruction) -> Registers {
    match instruction {
        Instruction::ADD(target) => (Registers {
            a: add_result(regs.a, arithmetic_value(regs, target)),
            f: add_flags(regs.a, arithmetic_value(regs, target)),
            ..regs
        }),
        Instruction::INC(target) => (match target {
            IncDecTarget::BC => (Registers {
                b: high_byte(wrap_add16(pair_value(regs.b, regs.c) as u16, 1)),
                c: low_byte(wrap_add16(pair_value(regs.b, regs.c) as u16, 1)),
                ..regs
            }),
            IncDecTarget::DE => (Registers {
                d: high_byte(wrap_add16(pair_value(regs.d, regs.e) as u16, 1)),
                e: low_byte(wrap_add16(pair_value(regs.d, regs.e) as u16, 1)),
                ..regs
            }),
            IncDecTarget::HL => (Registers {
                h: high_byte(wrap_add16(pair_value(regs.h, regs.l) as u16, 1)),
                l: low_byte(wrap_add16(pair_value(regs.h, regs.l) as u16, 1)),
                ..regs
            }),
        }),
        Instruction::JP(_) => regs,
        Instruction::RLC(target) => (Registers {
            f: rlc_flags(prefix_value(regs, target)),
            ..with_prefix_target(regs, target, rlc_result(prefix_value(regs, target)))
        }),
    }
}

/// The program counter after one instruction: a taken jump lands on its
/// target; otherwise the counter advances by the instruction's length in
/// bytes (two for a CB-prefixed instruction, whose prefix byte was already
/// fetched), wrapping modulo the address space.
pub open spec fn spec_next_pc(regs: Registers, instruction: Instruction, mem: Seq<u8>, pc: u16) -> u16 {
    match instruction {
        Instruction::ADD(_) => wrap_add16(pc, 1),
        Instruction::INC(_) => wrap_add16(pc, 1),
        Instruction::JP(test) => if jump_condition(test, regs.f) {
            jump_target(mem, pc)
        } else {
            wrap_add16(pc, 3)
        },
        Instruction::RLC(_) => wrap_add16(pc, 2),
    }
}

/// NotZero holds exactly when Zero does not, and NotCarry exactly when
/// Carry does not: the negated and plain conditions of each pair disagree
/// on every flags value.
pub proof fn lemma_condition_pairs(f: FlagsRegister)
    ensures
        jump_condition(JumpTest::NotZero, f) == !jump_condition(JumpTest::Zero, f),
        jump_condition(JumpTest::NotCarry, f) == !jump_condition(JumpTest::Carry, f),
{
}

impl CPU {
    /// Well-formedness: the bus covers the whole address space.
    pub open spec fn wf(&self) -> bool {
        self.bus.wf()
    }

    /// A CPU at power-on reset over the given memory image: registers
    /// cleared and the program counter at zero.
    pub fn new(bus: MemoryBus) -> (r: CPU)
        requires
            bus.wf(),
        ensures
            r.wf(),
            r.registers == crate::registers::reset_registers(),
            r.pc == 0,
            r.bus == bus,
    {
        CPU { registers: Registers::new(), pc: 0, bus }
    }

    /// Adds a value into the accumulator's old contents and sets the four
    /// flags per the add rule; the accumulator itself is written by the
    /// caller from the returned sum.
    pub fn add(&mut self, value: u8) -> (new_value: u8)
        ensures
            new_value == add_result(old(self).registers.a, value),
            final(self).registers == (Registers {
                f: add_flags(old(self).registers.a, value),
                ..old(self).registers
            }),
            final(self).pc == old(self).pc,
            final(self).bus == old(self).bus,
    {
        let a = self.registers.a;
        let new_value = a.wrapping_add(value);
        let did_overflow = (a as u16) + (value as u16) > 0xFF;
        self.registers.f.zero = new_value == 0;
        self.registers.f.subtract = false;
        self.registers.f.carry = did_overflow;
        // Half-carry is set when the low nibbles of the accumulator and the
        // operand sum past 0xF, carrying into the upper nibble.
        assert(a & 0xF < 0x10 && value & 0xF < 0x10) by (bit_vector);
        self.registers.f.half_carry = (a & 0xF) + (value & 0xF) > 0xF;
        assert(new_value == add_result(a, value));
        new_value
    }

    /// Performs one instruction's effect on the register file and returns
    /// the next program counter; the counter itself and the memory are left
    /// untouched.
    #[verifier::rlimit(60)]
    pub fn execute(&mut self, instruction: Instruction) -> (next_pc: u16)
        requires
            old(self).wf(),
        ensures
            final(self).registers == spec_execute_regs(old(self).registers, instruction),
            final(self).pc == old(self).pc,
            final(self).bus == old(self).bus,
            next_pc == spec_next_pc(
                old(self).registers,
                instruction,
                old(self).bus.memory@,
                old(self).pc,
            ),
    {
        match instruction {
            Instruction::ADD(target) => {
                let value = match target {
                    ArithmeticTarget::A => self.registers.a,
                    ArithmeticTarget::B => self.registers.b,
                    ArithmeticTarget::C => self.registers.c,
                    ArithmeticTarget::D => self.registers.d,
                    ArithmeticTarget::E => self.registers.e,
                    ArithmeticTarget::H => self.registers.h,
                    ArithmeticTarget::L => self.registers.l,
                };
                let new_value = self.add(value);
                self.registers.a = new_value;
                self.pc.wrapping_add(1)
            },
            Instruction::INC(target) => {
                match target {
                    IncDecTarget::BC => {
                        let incremented = self.registers.get_bc().wrapping_add(1);
                        self.registers.set_bc(incremented);
                    },
                    IncDecTarget::DE => {
                        let incremented = self.registers.get_de().wrapping_add(1);
                        self.registers.set_de(incremented);
                    },
                    IncDecTarget::HL => {
                        let incremented = self.registers.get_hl().wrapping_add(1);
                        self.registers.set_hl(incremented);
                    },
                }
                self.pc.wrapping_add(1)
            },
            Instruction::JP(test) => {
                let jump_condition = match test {
                    JumpTest::NotZero => !self.registers.f.zero,
                    JumpTest::Zero => self.registers.f.zero,
                    JumpTest::NotCarry => !self.registers.f.carry,
                    JumpTest::Carry => self.registers.f.carry,
                    JumpTest::Always => true,
                };
                self.jump(jump_condition)
            },
            Instruction::RLC(target) => {
                let value = match target {
                    PrefixTarget::A => self.registers.a,
                    PrefixTarget::B => self.registers.b,
                    PrefixTarget::C => self.registers.c,
                    PrefixTarget::D => self.registers.d,
                    PrefixTarget::E => self.registers.e,
                    PrefixTarget::H => self.registers.h,
                    PrefixTarget::L => self.registers.l,
                };
                let rotated = (value << 1) | (value >> 7);
                match target {
                    PrefixTarget::A => self.registers.a = rotated,
                    PrefixTarget::B => self.registers.b = rotated,
                    PrefixTarget::C => self.registers.c = rotated,
                    PrefixTarget::D => self.registers.d = rotated,
                    PrefixTarget::E => self.registers.e = rotated,
                    PrefixTarget::H => self.registers.h = rotated,
                    PrefixTarget::L => self.registers.l = rotated,
                }
                self.registers.f.zero = rotated == 0;
                self.registers.f.subtract = false;
                self.registers.f.half_carry = false;
                self.registers.f.carry = value & 0x80 != 0;
                self.pc.wrapping_add(2)
            },
        }
    }

    /// Computes a conditional jump's next program counter: the little-endian
    /// target after the opcode when the condition held, the address past the
    /// 3-byte instruction when it did not.
    pub fn jump(&self, should_jump: bool) -> (next_pc: u16)
        requires
            self.wf(),
        ensures
            next_pc == if should_jump {
                jump_target(self.bus.memory@, self.pc)
            } else {
                wrap_add16(self.pc, 3)
            },
    {
        if should_jump {
            let least_significant_byte = self.bus.read_byte(self.pc.wrapping_add(1));
            let most_significant_byte = self.bus.read_byte(self.pc.wrapping_add(2));
            proof {
                lemma_pair_combine(most_significant_byte, least_significant_byte);
            }
            ((most_significant_byte as u16) << 8) | (least_significant_byte as u16)
        } else {
            self.pc.wrapping_add(3)
        }
    }

    /// Decodes one byte against the plain opcode table.
    pub fn from_byte(byte: u8) -> (r: Option<Instruction>)
        ensures
            r == crate::instruction::spec_decode_not_prefixed(byte),
    {
        Instruction::from_byte_not_prefixed(byte)
    }

    /// Fetches, decodes and executes one instruction, committing the
    /// returned program counter. On an unmapped opcode it reports the byte,
    /// the address it was fetched from and the prefixed flag, and changes
    /// nothing — the program counter does not advance past a decode failure.
    pub fn step(&mut self) -> (r: Result<(), DecodeFailure>)
        requires
            old(self).wf(),
        ensures
            ({
                let mem = old(self).bus.memory@;
                let pc = old(self).pc;
                let first = mem[pc as int];
                let prefixed = first == CB_PREFIX;
                let opcode = if prefixed {
                    mem[wrap_add16(pc, 1) as int]
                } else {
                    first
                };
                let address = if prefixed {
                    wrap_add16(pc, 1)
                } else {
                    pc
                };
                match spec_decode(opcode, prefixed) {
                    Some(instruction) => {
                        &&& r == Ok::<(), DecodeFailure>(())
                        &&& final(self).registers == spec_execute_regs(
                            old(self).registers,
                            instruction,
                        )
                        &&& final(self).pc == spec_next_pc(
                            old(self).registers,
                            instruction,
                            mem,
                            pc,
                        )
                        &&& final(self).bus == old(self).bus
                    },
                    None => {
                        &&& r == Err::<(), DecodeFailure>(DecodeFailure {
                            opcode,
                            address,
                            prefixed,
                        })
                        &&& *final(self) == *old(self)
                    },
                }
            }),
    {
        let mut instruction_byte = self.bus.read_byte(self.pc);
        let prefixed = instruction_byte == CB_PREFIX;
        let mut fetch_address = self.pc;
        if prefixed {
            fetch_address = self.pc.wrapping_add(1);
            instruction_byte = self.bus.read_byte(fetch_address);
        }
        match Instruction::from_byte(instruction_byte, prefixed) {
            Some(instruction) => {
                let next_pc = self.execute(instruction);
                self.pc = next_pc;
                Ok(())
            },
            None => Err(DecodeFailure {
                opcode: instruction_byte,
                address: fetch_address,
                prefixed,
            }),
        }
    }
}

} // verus!
