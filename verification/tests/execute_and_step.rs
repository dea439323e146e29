use gbcpu::cpu::CPU;
use gbcpu::cpu::DecodeFailure;
use gbcpu::instruction::ArithmeticTarget;
use gbcpu::instruction::IncDecTarget;
use gbcpu::instruction::Instruction;
use gbcpu::instruction::JumpTest;
use gbcpu::instruction::PrefixTarget;
use gbcpu::memory::MemoryBus;

fn fresh_cpu() -> CPU {
    CPU::new(MemoryBus::new())
}

#[test]
fn add_sets_half_carry_on_nibble_overflow() {
    let mut cpu = fresh_cpu();
    cpu.registers.a = 0x0F;
    cpu.registers.c = 0x01;
    let next_pc = cpu.execute(Instruction::ADD(ArithmeticTarget::C));
    assert_eq!(cpu.registers.a, 0x10);
    assert!(cpu.registers.f.half_carry);
    assert!(!cpu.registers.f.carry);
    assert!(!cpu.registers.f.zero);
    assert!(!cpu.registers.f.subtract);
    assert_eq!(next_pc, 1);
}

#[test]
fn add_overflow_wraps_and_sets_flags() {
    let mut cpu = fresh_cpu();
    cpu.registers.a = 0xFF;
    cpu.registers.c = 0x01;
    cpu.execute(Instruction::ADD(ArithmeticTarget::C));
    assert_eq!(cpu.registers.a, 0x00);
    assert!(cpu.registers.f.zero);
    assert!(cpu.registers.f.carry);
    assert!(cpu.registers.f.half_carry);
    assert!(!cpu.registers.f.subtract);
}

#[test]
fn add_a_to_itself_doubles() {
    let mut cpu = fresh_cpu();
    cpu.registers.a = 0x21;
    cpu.execute(Instruction::ADD(ArithmeticTarget::A));
    assert_eq!(cpu.registers.a, 0x42);
    assert!(!cpu.registers.f.carry);
}

#[test]
fn add_each_register_source() {
    let sources: [(ArithmeticTarget, u8); 5] = [
        (ArithmeticTarget::B, 0x02),
        (ArithmeticTarget::D, 0x03),
        (ArithmeticTarget::E, 0x04),
        (ArithmeticTarget::H, 0x05),
        (ArithmeticTarget::L, 0x06),
    ];
    for (target, value) in sources {
        let mut cpu = fresh_cpu();
        cpu.registers.a = 0x10;
        cpu.registers.b = 0x02;
        cpu.registers.d = 0x03;
        cpu.registers.e = 0x04;
        cpu.registers.h = 0x05;
        cpu.registers.l = 0x06;
        cpu.execute(Instruction::ADD(target));
        assert_eq!(cpu.registers.a, 0x10 + value);
    }
}

#[test]
fn jump_taken_reads_little_endian_target() {
    let mut cpu = fresh_cpu();
    cpu.pc = 0x100;
    cpu.registers.f.zero = true;
    cpu.bus.write_byte(0x101, 0x34);
    cpu.bus.write_byte(0x102, 0x12);
    let next_pc = cpu.execute(Instruction::JP(JumpTest::Zero));
    assert_eq!(next_pc, 0x1234);
    // The counter itself is not mutated by execute.
    assert_eq!(cpu.pc, 0x100);
}

#[test]
fn jump_not_taken_skips_three_bytes() {
    let mut cpu = fresh_cpu();
    cpu.pc = 0x100;
    cpu.registers.f.zero = false;
    cpu.bus.write_byte(0x101, 0x34);
    cpu.bus.write_byte(0x102, 0x12);
    let next_pc = cpu.execute(Instruction::JP(JumpTest::Zero));
    assert_eq!(next_pc, 0x0103);
}

#[test]
fn not_zero_and_zero_conditions_differ() {
    let mut cpu = fresh_cpu();
    cpu.pc = 0x100;
    cpu.registers.f.zero = true;
    cpu.bus.write_byte(0x101, 0x34);
    cpu.bus.write_byte(0x102, 0x12);
    assert_eq!(cpu.execute(Instruction::JP(JumpTest::NotZero)), 0x0103);
    assert_eq!(cpu.execute(Instruction::JP(JumpTest::Zero)), 0x1234);
    cpu.registers.f.zero = false;
    assert_eq!(cpu.execute(Instruction::JP(JumpTest::NotZero)), 0x1234);
    assert_eq!(cpu.execute(Instruction::JP(JumpTest::Zero)), 0x0103);
}

#[test]
fn not_carry_and_carry_conditions_differ() {
    let mut cpu = fresh_cpu();
    cpu.pc = 0x200;
    cpu.registers.f.carry = true;
    cpu.bus.write_byte(0x201, 0x78);
    cpu.bus.write_byte(0x202, 0x56);
    assert_eq!(cpu.execute(Instruction::JP(JumpTest::NotCarry)), 0x0203);
    assert_eq!(cpu.execute(Instruction::JP(JumpTest::Carry)), 0x5678);
    cpu.registers.f.carry = false;
    assert_eq!(cpu.execute(Instruction::JP(JumpTest::NotCarry)), 0x5678);
    assert_eq!(cpu.execute(Instruction::JP(JumpTest::Carry)), 0x0203);
}

#[test]
fn jump_always_ignores_flags() {
    let mut cpu = fresh_cpu();
    cpu.pc = 0x000;
    cpu.bus.write_byte(0x001, 0xCD);
    cpu.bus.write_byte(0x002, 0xAB);
    assert_eq!(cpu.execute(Instruction::JP(JumpTest::Always)), 0xABCD);
}

#[test]
fn inc_wraps_the_pair() {
    let mut cpu = fresh_cpu();
    cpu.registers.set_bc(0xFFFF);
    let next_pc = cpu.execute(Instruction::INC(IncDecTarget::BC));
    assert_eq!(cpu.registers.get_bc(), 0x0000);
    assert_eq!(next_pc, 1);
    cpu.registers.set_de(0x12FF);
    cpu.execute(Instruction::INC(IncDecTarget::DE));
    assert_eq!(cpu.registers.get_de(), 0x1300);
    cpu.registers.set_hl(0x0000);
    cpu.execute(Instruction::INC(IncDecTarget::HL));
    assert_eq!(cpu.registers.get_hl(), 0x0001);
}

#[test]
fn inc_leaves_flags_alone() {
    let mut cpu = fresh_cpu();
    cpu.registers.f.zero = true;
    cpu.registers.f.carry = true;
    cpu.registers.set_bc(0x00FF);
    cpu.execute(Instruction::INC(IncDecTarget::BC));
    assert!(cpu.registers.f.zero);
    assert!(cpu.registers.f.carry);
}

#[test]
fn rlc_rotates_and_sets_carry() {
    let mut cpu = fresh_cpu();
    cpu.pc = 0x40;
    cpu.registers.b = 0x85;
    let next_pc = cpu.execute(Instruction::RLC(PrefixTarget::B));
    assert_eq!(cpu.registers.b, 0x0B);
    assert!(cpu.registers.f.carry);
    assert!(!cpu.registers.f.zero);
    assert!(!cpu.registers.f.subtract);
    assert!(!cpu.registers.f.half_carry);
    // A prefixed instruction is two bytes long.
    assert_eq!(next_pc, 0x42);
}

#[test]
fn rlc_of_zero_sets_zero_flag() {
    let mut cpu = fresh_cpu();
    cpu.registers.c = 0x00;
    cpu.execute(Instruction::RLC(PrefixTarget::C));
    assert_eq!(cpu.registers.c, 0x00);
    assert!(cpu.registers.f.zero);
    assert!(!cpu.registers.f.carry);
}

#[test]
fn step_executes_and_commits_pc() {
    let mut cpu = fresh_cpu();
    cpu.pc = 0x150;
    cpu.registers.a = 0x0F;
    cpu.registers.c = 0x01;
    cpu.bus.write_byte(0x150, 0x81);
    let outcome = cpu.step();
    assert_eq!(outcome, Ok(()));
    assert_eq!(cpu.registers.a, 0x10);
    assert_eq!(cpu.pc, 0x151);
}

#[test]
fn step_follows_cb_prefix_into_second_table() {
    let mut cpu = fresh_cpu();
    cpu.pc = 0x200;
    cpu.registers.b = 0x85;
    cpu.bus.write_byte(0x200, 0xCB);
    cpu.bus.write_byte(0x201, 0x00);
    let outcome = cpu.step();
    assert_eq!(outcome, Ok(()));
    assert_eq!(cpu.registers.b, 0x0B);
    assert!(cpu.registers.f.carry);
    assert_eq!(cpu.pc, 0x202);
}

#[test]
fn step_takes_a_decoded_jump() {
    let mut cpu = fresh_cpu();
    cpu.pc = 0x100;
    cpu.registers.f.zero = true;
    cpu.bus.write_byte(0x100, 0xCA);
    cpu.bus.write_byte(0x101, 0x34);
    cpu.bus.write_byte(0x102, 0x12);
    assert_eq!(cpu.step(), Ok(()));
    assert_eq!(cpu.pc, 0x1234);
}

#[test]
fn step_reports_unmapped_opcode_and_keeps_pc() {
    let mut cpu = fresh_cpu();
    cpu.pc = 0x321;
    cpu.registers.a = 0x55;
    cpu.bus.write_byte(0x321, 0xFF);
    let outcome = cpu.step();
    assert_eq!(
        outcome,
        Err(DecodeFailure { opcode: 0xFF, address: 0x321, prefixed: false })
    );
    // A decode failure advances nothing and mutates nothing.
    assert_eq!(cpu.pc, 0x321);
    assert_eq!(cpu.registers.a, 0x55);
}

#[test]
fn step_reports_unmapped_prefixed_opcode() {
    let mut cpu = fresh_cpu();
    cpu.pc = 0x400;
    cpu.bus.write_byte(0x400, 0xCB);
    cpu.bus.write_byte(0x401, 0x3F);
    let outcome = cpu.step();
    assert_eq!(
        outcome,
        Err(DecodeFailure { opcode: 0x3F, address: 0x401, prefixed: true })
    );
    assert_eq!(cpu.pc, 0x400);
}

#[test]
fn memory_bus_reads_back_writes() {
    let mut bus = MemoryBus::new();
    assert_eq!(bus.read_byte(0x0000), 0);
    assert_eq!(bus.read_byte(0xFFFF), 0);
    bus.write_byte(0xFFFF, 0xAA);
    bus.write_byte(0x0000, 0xBB);
    assert_eq!(bus.read_byte(0xFFFF), 0xAA);
    assert_eq!(bus.read_byte(0x0000), 0xBB);
    assert_eq!(bus.read_byte(0x0001), 0);
}
