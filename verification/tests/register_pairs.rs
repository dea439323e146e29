use gbcpu::flags::FlagsRegister;
use gbcpu::registers::Registers;

#[test]
fn set_get_bc_round_trip() {
    let mut regs = Registers::new();
    regs.set_bc(0x1234);
    assert_eq!(regs.get_bc(), 0x1234);
    regs.set_bc(0xFFFF);
    assert_eq!(regs.get_bc(), 0xFFFF);
    regs.set_bc(0x0000);
    assert_eq!(regs.get_bc(), 0x0000);
    regs.set_bc(0x00FF);
    assert_eq!(regs.get_bc(), 0x00FF);
}

#[test]
fn set_get_de_round_trip() {
    let mut regs = Registers::new();
    regs.set_de(0xBEEF);
    assert_eq!(regs.get_de(), 0xBEEF);
    regs.set_de(0x0100);
    assert_eq!(regs.get_de(), 0x0100);
}

#[test]
fn set_get_hl_round_trip() {
    let mut regs = Registers::new();
    regs.set_hl(0xCAFE);
    assert_eq!(regs.get_hl(), 0xCAFE);
    regs.set_hl(0x8000);
    assert_eq!(regs.get_hl(), 0x8000);
}

#[test]
fn set_hl_updates_both_halves() {
    let mut regs = Registers::new();
    regs.set_hl(0xABCD);
    assert_eq!(regs.get_h(), 0xAB);
    assert_eq!(regs.get_l(), 0xCD);
}

#[test]
fn set_bc_updates_both_halves() {
    let mut regs = Registers::new();
    regs.set_bc(0xABCD);
    assert_eq!(regs.get_b(), 0xAB);
    assert_eq!(regs.get_c(), 0xCD);
}

#[test]
fn set_pair_leaves_other_registers_alone() {
    let mut regs = Registers::new();
    regs.a = 0x11;
    regs.d = 0x22;
    regs.set_bc(0x3344);
    assert_eq!(regs.get_a(), 0x11);
    assert_eq!(regs.get_d(), 0x22);
    assert_eq!(regs.get_e(), 0x00);
}

#[test]
fn af_pair_goes_through_flags_byte() {
    let mut regs = Registers::new();
    regs.set_af(0x12B5);
    assert_eq!(regs.get_a(), 0x12);
    let expected = FlagsRegister {
        zero: true,
        subtract: false,
        half_carry: true,
        carry: true,
    };
    assert_eq!(regs.f, expected);
    // The low nibble of the written byte is not architectural state.
    assert_eq!(regs.get_af(), 0x12B0);
}
