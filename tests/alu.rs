use lr35902::cpu::CPU;
use lr35902::registers::Flags;

fn flags(z: bool, n: bool, h: bool, c: bool) -> Flags {
    Flags { z, n, h, c }
}

#[test]
fn add_sets_flags_from_sum() {
    let mut cpu = CPU::new();
    assert_eq!(cpu.alu_add(128, 127), 255);
    assert_eq!(cpu.registers.f, flags(false, false, false, false));
    assert_eq!(cpu.alu_add(0x0F, 0x01), 0x10);
    assert_eq!(cpu.registers.f, flags(false, false, true, false));
    assert_eq!(cpu.alu_add(0x80, 0x80), 0x00);
    assert_eq!(cpu.registers.f, flags(true, false, false, true));
    assert_eq!(cpu.alu_add(0xFF, 0x01), 0x00);
    assert_eq!(cpu.registers.f, flags(true, false, true, true));
}

#[test]
fn add_flags_hold_for_all_bytes() {
    let mut cpu = CPU::new();
    for a in 0..=255u16 {
        for b in (0..=255u16).step_by(7) {
            let r = cpu.alu_add(a as u8, b as u8);
            assert_eq!(r as u16, (a + b) % 256);
            assert_eq!(cpu.registers.f.z, (a + b) % 256 == 0);
            assert_eq!(cpu.registers.f.c, a + b > 255);
            assert_eq!(cpu.registers.f.h, (a & 0xF) + (b & 0xF) > 0xF);
            assert!(!cpu.registers.f.n);
        }
    }
}

#[test]
fn adc_adds_carry_and_forces_edge_flags() {
    let mut cpu = CPU::new();
    assert_eq!(cpu.alu_adc(128, 128), 0);
    assert_eq!(cpu.registers.f, flags(true, false, false, true));
    assert_eq!(cpu.alu_adc(128, 0), 129);
    assert_eq!(cpu.registers.f, flags(false, false, false, false));
    cpu.registers.f.c = true;
    assert_eq!(cpu.alu_adc(0x10, 0x01), 0x12);
    cpu.registers.f.c = false;
    assert_eq!(cpu.alu_adc(0x00, 0xFF), 0xFF);
    assert_eq!(cpu.registers.f, flags(false, false, true, true));
}

#[test]
fn sub_of_itself_is_zero() {
    let mut cpu = CPU::new();
    for a in 0..=255u8 {
        assert_eq!(cpu.alu_sub(a, a), 0);
        assert!(cpu.registers.f.z);
        assert!(cpu.registers.f.n);
        assert!(cpu.registers.f.c);
        assert!(cpu.registers.f.h);
    }
}

#[test]
fn sub_flags_mean_no_borrow() {
    let mut cpu = CPU::new();
    assert_eq!(cpu.alu_sub(0x10, 0x01), 0x0F);
    assert_eq!(cpu.registers.f, flags(false, true, false, true));
    assert_eq!(cpu.alu_sub(0x01, 0x02), 0xFF);
    assert_eq!(cpu.registers.f, flags(false, true, false, false));
}

#[test]
fn sbc_subtracts_carry_and_forces_on_zero_operand() {
    let mut cpu = CPU::new();
    cpu.registers.f.c = true;
    assert_eq!(cpu.alu_sbc(0x10, 0x05), 0x0A);
    assert_eq!(cpu.registers.f, flags(false, true, false, true));
    cpu.registers.f.c = false;
    assert_eq!(cpu.alu_sbc(0x00, 0x00), 0x00);
    assert_eq!(cpu.registers.f, flags(true, true, true, true));
}

#[test]
fn logic_operations() {
    let mut cpu = CPU::new();
    assert_eq!(cpu.alu_and(0xF0, 0x3C), 0x30);
    assert_eq!(cpu.registers.f, flags(false, false, true, false));
    assert_eq!(cpu.alu_or(0x00, 0x00), 0x00);
    assert_eq!(cpu.registers.f, flags(true, false, false, false));
    assert_eq!(cpu.alu_xor(0xAA, 0xFF), 0x55);
    assert_eq!(cpu.registers.f, flags(false, false, false, false));
    cpu.alu_cp(0x42, 0x42);
    assert_eq!(cpu.registers.f.z, true);
    assert_eq!(cpu.registers.f.n, true);
}

#[test]
fn inc_dec_keep_carry() {
    let mut cpu = CPU::new();
    cpu.registers.f.c = true;
    assert_eq!(cpu.alu_inc(0x0F), 0x10);
    assert_eq!(cpu.registers.f, flags(false, false, true, true));
    assert_eq!(cpu.alu_dec(0x10), 0x0F);
    assert_eq!(cpu.registers.f, flags(false, true, true, true));
    assert_eq!(cpu.alu_dec(0x01), 0x00);
    assert_eq!(cpu.registers.f, flags(true, true, false, true));
    assert_eq!(cpu.alu_inc16(0xFFFF), 0);
    assert_eq!(cpu.alu_dec16(0), 0xFFFF);
}

#[test]
fn add16_carries_from_bits_11_and_15() {
    let mut cpu = CPU::new();
    cpu.registers.f.z = true;
    assert_eq!(cpu.alu_add16(0x0FFF, 0x0001), 0x1000);
    assert_eq!(cpu.registers.f, flags(true, false, true, false));
    assert_eq!(cpu.alu_add16(0xFFFF, 0x0001), 0x0000);
    assert_eq!(cpu.registers.f, flags(true, false, true, true));
}

#[test]
fn rotates_and_shifts() {
    let mut cpu = CPU::new();
    assert_eq!(cpu.alu_rlc(0x85), 0x0B);
    assert!(cpu.registers.f.c);
    assert_eq!(cpu.alu_rrc(0x01), 0x80);
    assert!(cpu.registers.f.c);
    cpu.registers.f.c = true;
    assert_eq!(cpu.alu_rl(0x80), 0x01);
    assert!(cpu.registers.f.c);
    cpu.registers.f.c = false;
    assert_eq!(cpu.alu_rr(0x01), 0x00);
    assert_eq!(cpu.registers.f, flags(true, false, false, true));
    assert_eq!(cpu.alu_sla(0xC0), 0x80);
    assert!(cpu.registers.f.c);
    assert_eq!(cpu.alu_sra(0x81), 0xC0);
    assert!(cpu.registers.f.c);
    assert_eq!(cpu.alu_srl(0x81), 0x40);
    assert!(cpu.registers.f.c);
    assert_eq!(cpu.alu_swap(0xA5), 0x5A);
    assert_eq!(cpu.registers.f, flags(false, false, false, false));
}

#[test]
fn eight_rotations_give_the_value_back() {
    let mut cpu = CPU::new();
    for a in 0..=255u8 {
        let mut v = a;
        for _ in 0..8 {
            v = cpu.alu_rlc(v);
        }
        assert_eq!(v, a);
        assert_eq!(cpu.registers.f.c, a & 1 == 1);
        for _ in 0..8 {
            v = cpu.alu_rrc(v);
        }
        assert_eq!(v, a);
        assert_eq!(cpu.registers.f.c, a & 0x80 != 0);
    }
    cpu.registers.f.c = true;
    let mut v = 0xFFu8;
    for _ in 0..8 {
        v = cpu.alu_rl(v);
    }
    assert_eq!(v, 0xFF);
    assert!(cpu.registers.f.c);
    cpu.registers.f.c = false;
    let mut v = 0x01u8;
    for _ in 0..8 {
        v = cpu.alu_rl(v);
    }
    assert_eq!(v, 0x00);
    assert!(cpu.registers.f.c);
}

#[test]
fn bit_set_reset() {
    let mut cpu = CPU::new();
    cpu.registers.f.c = true;
    cpu.bit_info(0x80, 7);
    assert_eq!(cpu.registers.f, flags(false, false, true, true));
    cpu.bit_info(0x80, 6);
    assert_eq!(cpu.registers.f, flags(true, false, true, true));
    assert_eq!(cpu.bit_set(0x00, 3), 0x08);
    assert_eq!(cpu.bit_reset(0xFF, 0), 0xFE);
}
