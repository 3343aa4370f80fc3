use lr35902::cpu::CPU;
use lr35902::registers::Flags;

const START: u16 = 0xC000;

fn cpu_with(program: &[u8]) -> CPU {
    let mut cpu = CPU::new();
    for (i, b) in program.iter().enumerate() {
        cpu.mmu.memory[START as usize + i] = *b;
    }
    cpu.pc = START;
    cpu
}

#[test]
fn inc_a_wraps_to_zero() {
    let mut cpu = cpu_with(&[0x3C]);
    cpu.registers.a = 0xFF;
    cpu.registers.f.c = true;
    assert_eq!(cpu.step(), 1);
    assert_eq!(cpu.registers.a, 0x00);
    assert_eq!(cpu.registers.f, Flags { z: true, n: false, h: true, c: true });
    assert_eq!(cpu.pc, START + 1);
}

#[test]
fn ld_bc_immediate() {
    let mut cpu = cpu_with(&[0x01, 0x34, 0x12]);
    assert_eq!(cpu.step(), 3);
    assert_eq!(cpu.registers.bc(), 0x1234);
    assert_eq!(cpu.registers.b, 0x12);
    assert_eq!(cpu.registers.c, 0x34);
    assert_eq!(cpu.pc, START + 3);
}

#[test]
fn push_bc_pop_de() {
    for sp in [0x0000u16, 0xD000] {
        let mut cpu = cpu_with(&[0xC5, 0xD1]);
        cpu.sp = sp;
        cpu.registers.set_bc(0xBEEF);
        assert_eq!(cpu.step(), 4);
        assert_eq!(cpu.sp, sp.wrapping_sub(2));
        assert_eq!(cpu.step(), 3);
        assert_eq!(cpu.registers.de(), 0xBEEF);
        assert_eq!(cpu.sp, sp);
    }
}

#[test]
fn push_pop_round_trip() {
    let mut cpu = CPU::new();
    cpu.sp = 0xE000;
    for v in [0u16, 1, 0x8000, 0xFFFF, 0x1234] {
        cpu.push(v);
        assert_eq!(cpu.sp, 0xDFFE);
        assert_eq!(cpu.pop(), v);
        assert_eq!(cpu.sp, 0xE000);
    }
}

#[test]
fn jr_nz_costs_more_when_taken() {
    let mut taken = cpu_with(&[0x20, 0x05]);
    taken.registers.f.z = false;
    assert_eq!(taken.step(), 3);
    assert_eq!(taken.pc, START + 2 + 5);

    let mut not_taken = cpu_with(&[0x20, 0x05]);
    not_taken.registers.f.z = true;
    assert_eq!(not_taken.step(), 2);
    assert_eq!(not_taken.pc, START + 2);
}

#[test]
fn jr_backwards() {
    let mut cpu = cpu_with(&[0x18, 0xFE]);
    assert_eq!(cpu.step(), 3);
    assert_eq!(cpu.pc, START);
}

#[test]
fn ld_register_to_register_writes_destination() {
    let mut cpu = cpu_with(&[0x47]);
    cpu.registers.a = 0x99;
    cpu.registers.b = 0x11;
    assert_eq!(cpu.step(), 1);
    assert_eq!(cpu.registers.b, 0x99);
    assert_eq!(cpu.registers.a, 0x99);
}

#[test]
fn ld_through_hl_increment_and_decrement() {
    let mut cpu = cpu_with(&[0x22, 0x3A]);
    cpu.registers.set_hl(0xD000);
    cpu.registers.a = 0x5A;
    assert_eq!(cpu.step(), 2);
    assert_eq!(cpu.mmu.read_byte(0xD000), 0x5A);
    assert_eq!(cpu.registers.hl(), 0xD001);
    cpu.registers.a = 0;
    cpu.mmu.memory[0xD001] = 0x77;
    assert_eq!(cpu.step(), 2);
    assert_eq!(cpu.registers.a, 0x77);
    assert_eq!(cpu.registers.hl(), 0xD000);
}

#[test]
fn call_and_ret() {
    // CALL 0xC010; at 0xC010: RET
    let mut cpu = cpu_with(&[0xCD, 0x10, 0xC0]);
    cpu.mmu.memory[0xC010] = 0xC9;
    cpu.sp = 0xE000;
    assert_eq!(cpu.step(), 6);
    assert_eq!(cpu.pc, 0xC010);
    assert_eq!(cpu.sp, 0xDFFE);
    assert_eq!(cpu.mmu.read_word(0xDFFE), START + 3);
    assert_eq!(cpu.step(), 4);
    assert_eq!(cpu.pc, START + 3);
    assert_eq!(cpu.sp, 0xE000);
}

#[test]
fn conditional_call_not_taken() {
    let mut cpu = cpu_with(&[0xDC, 0x10, 0xC0]);
    cpu.registers.f.c = false;
    cpu.sp = 0xE000;
    assert_eq!(cpu.step(), 3);
    assert_eq!(cpu.pc, START + 3);
    assert_eq!(cpu.sp, 0xE000);
}

#[test]
fn rst_pushes_and_jumps() {
    let mut cpu = cpu_with(&[0xEF]);
    cpu.sp = 0xE000;
    assert_eq!(cpu.step(), 4);
    assert_eq!(cpu.pc, 0x28);
    assert_eq!(cpu.mmu.read_word(0xDFFE), START + 1);
}

#[test]
fn di_ei_reti() {
    let mut cpu = cpu_with(&[0xF3, 0xFB, 0xF3, 0xD9]);
    cpu.sp = 0xE000;
    cpu.mmu.write_word(0xE000, 0xC100);
    assert_eq!(cpu.step(), 1);
    assert!(!cpu.ei);
    assert_eq!(cpu.step(), 1);
    assert!(cpu.ei);
    cpu.step();
    assert!(!cpu.ei);
    assert_eq!(cpu.step(), 4);
    assert!(cpu.ei);
    assert_eq!(cpu.pc, 0xC100);
}

#[test]
fn alu_grid_on_a() {
    // ADD A,B; SUB 0x01; CP (HL)
    let mut cpu = cpu_with(&[0x80, 0xD6, 0x01, 0xBE]);
    cpu.registers.a = 0x10;
    cpu.registers.b = 0x22;
    assert_eq!(cpu.step(), 1);
    assert_eq!(cpu.registers.a, 0x32);
    assert_eq!(cpu.step(), 2);
    assert_eq!(cpu.registers.a, 0x31);
    cpu.registers.set_hl(0xD000);
    cpu.mmu.memory[0xD000] = 0x31;
    assert_eq!(cpu.step(), 2);
    assert_eq!(cpu.registers.a, 0x31);
    assert!(cpu.registers.f.z);
}

#[test]
fn prefixed_bit_set_res() {
    // BIT 7,A; SET 0,B; RES 7,(HL)
    let mut cpu = cpu_with(&[0xCB, 0x7F, 0xCB, 0xC0, 0xCB, 0xBE]);
    cpu.registers.a = 0x7F;
    assert_eq!(cpu.step(), 2);
    assert!(cpu.registers.f.z);
    assert!(cpu.registers.f.h);
    assert_eq!(cpu.registers.a, 0x7F);
    assert_eq!(cpu.step(), 2);
    assert_eq!(cpu.registers.b, 0x01);
    cpu.registers.set_hl(0xD000);
    cpu.mmu.memory[0xD000] = 0xFF;
    assert_eq!(cpu.step(), 4);
    assert_eq!(cpu.mmu.read_byte(0xD000), 0x7F);
}

#[test]
fn prefixed_swap_via_exec_opcode2() {
    let mut cpu = CPU::new();
    cpu.registers.c = 0x12;
    assert_eq!(cpu.exec_opcode2(0x31), 2);
    assert_eq!(cpu.registers.c, 0x21);
}

#[test]
fn halt_stops_until_resumed() {
    let mut cpu = cpu_with(&[0x76, 0x3C]);
    assert_eq!(cpu.step(), 1);
    assert!(cpu.halted);
    assert_eq!(cpu.step(), 1);
    assert_eq!(cpu.pc, START + 1);
    assert_eq!(cpu.registers.a, 0);
    cpu.resume();
    assert_eq!(cpu.step(), 1);
    assert_eq!(cpu.registers.a, 1);
}

#[test]
fn daa_after_bcd_add() {
    // 0x15 + 0x27 = 0x3C, adjusted to 0x42
    let mut cpu = cpu_with(&[0x80, 0x27]);
    cpu.registers.a = 0x15;
    cpu.registers.b = 0x27;
    cpu.step();
    assert_eq!(cpu.step(), 1);
    assert_eq!(cpu.registers.a, 0x42);
    assert!(!cpu.registers.f.c);
    assert!(!cpu.registers.f.h);
}

#[test]
fn accumulator_rotate_clears_zero() {
    let mut cpu = cpu_with(&[0x07]);
    cpu.registers.a = 0x00;
    cpu.registers.f.z = true;
    assert_eq!(cpu.step(), 1);
    assert!(!cpu.registers.f.z);
}

#[test]
fn cpl_scf_ccf() {
    let mut cpu = cpu_with(&[0x2F, 0x37, 0x3F]);
    cpu.registers.a = 0x0F;
    cpu.step();
    assert_eq!(cpu.registers.a, 0xF0);
    assert!(cpu.registers.f.n && cpu.registers.f.h);
    cpu.step();
    assert!(cpu.registers.f.c && !cpu.registers.f.n && !cpu.registers.f.h);
    cpu.step();
    assert!(!cpu.registers.f.c);
}

#[test]
fn add_hl_and_inc_sp() {
    let mut cpu = cpu_with(&[0x09, 0x33]);
    cpu.registers.set_hl(0x0FFF);
    cpu.registers.set_bc(0x0001);
    assert_eq!(cpu.step(), 2);
    assert_eq!(cpu.registers.hl(), 0x1000);
    assert!(cpu.registers.f.h);
    cpu.sp = 0xFFFF;
    assert_eq!(cpu.step(), 2);
    assert_eq!(cpu.sp, 0);
}

#[test]
fn high_page_loads() {
    let mut cpu = cpu_with(&[0xE0, 0x80, 0xF0, 0x81, 0xE2]);
    cpu.registers.a = 0x66;
    assert_eq!(cpu.step(), 3);
    assert_eq!(cpu.mmu.read_byte(0xFF80), 0x66);
    cpu.mmu.memory[0xFF81] = 0x99;
    assert_eq!(cpu.step(), 3);
    assert_eq!(cpu.registers.a, 0x99);
    cpu.registers.c = 0x82;
    assert_eq!(cpu.step(), 2);
    assert_eq!(cpu.mmu.read_byte(0xFF82), 0x99);
}

#[test]
fn jp_absolute_and_hl() {
    let mut cpu = cpu_with(&[0xC3, 0x00, 0xD0]);
    cpu.mmu.memory[0xD000] = 0xE9;
    cpu.registers.set_hl(0xC000);
    assert_eq!(cpu.step(), 4);
    assert_eq!(cpu.pc, 0xD000);
    assert_eq!(cpu.step(), 1);
    assert_eq!(cpu.pc, 0xC000);
}

#[test]
fn pc_wraps_at_the_top_of_memory() {
    let mut cpu = CPU::new();
    cpu.pc = 0xFFFF;
    cpu.mmu.memory[0xFFFF] = 0xAB;
    assert_eq!(cpu.next_byte(), 0xAB);
    assert_eq!(cpu.pc, 0x0000);
    cpu.pc = 0xFFFF;
    assert_eq!(cpu.next_word(), 0x00AB);
    assert_eq!(cpu.pc, 0x0001);
}
