//! The decoder/executor: program counter, stack pointer, register file and
//! memory, and the meaning of every base and 0xCB-prefixed opcode.
use vstd::prelude::*;
use crate::alu::{
    add16_flags, add16_result, add_flags, add_result, adc_flags, adc_result, alu_op, and_flags,
    bit_flags, bit_of, dec_flags, dec_result, daa_flags, daa_result, daa_first, inc_flags,
    inc_result, logic_flags, reset_result, rotate_op, sbc_flags, sbc_result, set_result,
    shift_flags, sub_flags, sub_result, rlc_result, rrc_result, rl_result, rr_result, sla_result,
    sra_result, srl_result, swap_result, top_bit, low_bit,
};
use crate::mmu::{lemma_word_round_trip, load16, next_addr, store, store16, MMU, RAM_START};
use crate::registers::{Flags, Registers};

verus! {

/// `v` modulo 65536, as a 16-bit register holds it.
pub open spec fn wrap16(v: int) -> u16 {
    (v % 65536) as u16
}

/// A signed 8-bit displacement widened to 16 bits.
pub open spec fn sign_extend(e: u8) -> u16 {
    if e < 128 {
        e as u16
    } else {
        (e + 0xFF00) as u16
    }
}

/// The three fields of an opcode: bits 7-6, bits 5-3, bits 2-0.
pub open spec fn op_x(op: u8) -> u8 {
    op / 64
}

pub open spec fn op_y(op: u8) -> u8 {
    (op / 8) % 8
}

pub open spec fn op_z(op: u8) -> u8 {
    op % 8
}

/// Every base opcode but the eleven that the instruction set leaves without meaning.
pub open spec fn is_defined(op: u8) -> bool {
    op != 0xD3 && op != 0xDB && op != 0xDD && op != 0xE3 && op != 0xE4 && op != 0xEB && op
        != 0xEC && op != 0xED && op != 0xF4 && op != 0xFC && op != 0xFD
}

/// The whole machine state as a value.
pub struct CpuState {
    pub pc: u16,
    pub sp: u16,
    pub regs: Registers,
    pub mem: Seq<u8>,
    pub ei: bool,
    pub halted: bool,
}

impl CpuState {
    /// The byte at PC.
    pub open spec fn imm8(self) -> u8 {
        self.mem[self.pc as int]
    }

    /// The little-endian word at PC.
    pub open spec fn imm16(self) -> u16 {
        load16(self.mem, self.pc)
    }

    pub open spec fn advance(self, n: int) -> CpuState {
        CpuState { pc: wrap16(self.pc + n), ..self }
    }

    pub open spec fn jump(self, addr: u16) -> CpuState {
        CpuState { pc: addr, ..self }
    }

    pub open spec fn hl(self) -> u16 {
        self.regs.spec_hl()
    }

    pub open spec fn with_flags(self, f: Flags) -> CpuState {
        CpuState { regs: self.regs.with_flags(f), ..self }
    }

    pub open spec fn with_a(self, v: u8) -> CpuState {
        CpuState { regs: Registers { a: v, ..self.regs }, ..self }
    }

    pub open spec fn with_mem(self, addr: u16, v: u8) -> CpuState {
        CpuState { mem: store(self.mem, addr, v), ..self }
    }

    /// The 8-bit operand that a 3-bit field selects: a register, or memory at HL for 6.
    pub open spec fn operand(self, z: u8) -> u8 {
        if z == 6 {
            self.mem[self.hl() as int]
        } else {
            self.regs.reg(z)
        }
    }

    pub open spec fn with_operand(self, z: u8, v: u8) -> CpuState {
        if z == 6 {
            self.with_mem(self.hl(), v)
        } else {
            CpuState { regs: self.regs.with_reg(z, v), ..self }
        }
    }

    /// The pair that a 2-bit field selects in loads and 16-bit arithmetic:
    /// 0 BC, 1 DE, 2 HL, 3 SP.
    pub open spec fn pair_sp(self, p: u8) -> u16 {
        if p == 3 {
            self.sp
        } else {
            self.regs.pair(p)
        }
    }

    pub open spec fn with_pair_sp(self, p: u8, v: u16) -> CpuState {
        if p == 3 {
            CpuState { sp: v, ..self }
        } else {
            CpuState { regs: self.regs.with_pair(p, v), ..self }
        }
    }

    /// The condition that a 2-bit field selects: 0 NZ, 1 Z, 2 NC, 3 C.
    pub open spec fn condition(self, cc: u8) -> bool {
        if cc == 0 {
            !self.regs.f.z
        } else if cc == 1 {
            self.regs.f.z
        } else if cc == 2 {
            !self.regs.f.c
        } else {
            self.regs.f.c
        }
    }

    /// The state after pushing `v`: SP lowered by 2, `v` stored little-endian at the new SP.
    pub open spec fn pushed(self, v: u16) -> CpuState {
        let sp = wrap16(self.sp - 2);
        CpuState { sp: sp, mem: store16(self.mem, sp, v), ..self }
    }

    /// The word at SP, and the state with SP raised by 2.
    pub open spec fn popped(self) -> (CpuState, u16) {
        (CpuState { sp: wrap16(self.sp + 2), ..self }, load16(self.mem, self.sp))
    }

    /// Opcodes 0x00-0x3F: misc, 16-bit loads and arithmetic, INC/DEC, immediate loads,
    /// relative jumps and the accumulator rotates. Gives the new state and the cycles.
    pub open spec fn misc_grid(self, y: u8, z: u8) -> (CpuState, u8) {
        if z == 0 {
            self.relative_ops(y)
        } else if z == 1 {
            self.wide_load_add(y)
        } else if z == 2 {
            self.indirect_a(y)
        } else if z == 3 {
            self.wide_inc_dec(y)
        } else if z == 4 {
            self.inc_op(y)
        } else if z == 5 {
            self.dec_op(y)
        } else if z == 6 {
            self.load_imm(y)
        } else {
            self.accumulator_ops(y)
        }
    }

    /// NOP, LD (nn),SP, STOP, JR e and JR cc,e.
    pub open spec fn relative_ops(self, y: u8) -> (CpuState, u8) {
        if y == 0 || y == 2 {
            (self, 1)
        } else if y == 1 {
            let t = self.advance(2);
            (CpuState { mem: store16(t.mem, self.imm16(), t.sp), ..t }, 5)
        } else {
            let t = self.advance(1);
            if y == 3 || self.condition((y - 4) as u8) {
                (t.jump(wrap16(t.pc + sign_extend(self.imm8()))), 3)
            } else {
                (t, 2)
            }
        }
    }

    /// LD rr,nn (even `y`) and ADD HL,rr (odd `y`).
    pub open spec fn wide_load_add(self, y: u8) -> (CpuState, u8) {
        if y % 2 == 0 {
            (self.advance(2).with_pair_sp(y / 2, self.imm16()), 3)
        } else {
            let hl = self.hl();
            let v = self.pair_sp(y / 2);
            (
                self.with_flags(add16_flags(hl, v, self.regs.f.z)).with_pair_sp(
                    2,
                    add16_result(hl, v),
                ),
                2,
            )
        }
    }

    /// The address that LD (rr),A and LD A,(rr) use for pair field `p`: BC, DE, then HL
    /// for both 2 and 3.
    pub open spec fn indirect_addr(self, p: u8) -> u16 {
        if p < 2 {
            self.regs.pair(p)
        } else {
            self.hl()
        }
    }

    /// The state after the HL step of pair field `p`: HL+1 for 2, HL-1 for 3, none else.
    pub open spec fn hl_stepped(self, p: u8) -> CpuState {
        if p == 2 {
            self.with_pair_sp(2, wrap16(self.hl() + 1))
        } else if p == 3 {
            self.with_pair_sp(2, wrap16(self.hl() - 1))
        } else {
            self
        }
    }

    /// LD (rr),A (even `y`) and LD A,(rr) (odd `y`); HL+ and HL- for pairs 2 and 3.
    pub open spec fn indirect_a(self, y: u8) -> (CpuState, u8) {
        let addr = self.indirect_addr(y / 2);
        let t = self.hl_stepped(y / 2);
        if y % 2 == 1 {
            (t.with_a(t.mem[addr as int]), 2)
        } else {
            (t.with_mem(addr, t.regs.a), 2)
        }
    }

    /// INC rr (even `y`) and DEC rr (odd `y`).
    pub open spec fn wide_inc_dec(self, y: u8) -> (CpuState, u8) {
        let v = self.pair_sp(y / 2);
        (
            self.with_pair_sp(
                y / 2,
                if y % 2 == 0 {
                    wrap16(v + 1)
                } else {
                    wrap16(v - 1)
                },
            ),
            2,
        )
    }

    /// INC r.
    pub open spec fn inc_op(self, y: u8) -> (CpuState, u8) {
        let v = self.operand(y);
        (
            self.with_flags(inc_flags(v, self.regs.f.c)).with_operand(y, inc_result(v)),
            if y == 6 {
                3
            } else {
                1
            },
        )
    }

    /// DEC r.
    pub open spec fn dec_op(self, y: u8) -> (CpuState, u8) {
        let v = self.operand(y);
        (
            self.with_flags(dec_flags(v, self.regs.f.c)).with_operand(y, dec_result(v)),
            if y == 6 {
                3
            } else {
                1
            },
        )
    }

    /// LD r,n.
    pub open spec fn load_imm(self, y: u8) -> (CpuState, u8) {
        (
            self.advance(1).with_operand(y, self.imm8()),
            if y == 6 {
                3
            } else {
                2
            },
        )
    }

    /// RLCA, RRCA, RLA, RRA, DAA, CPL, SCF, CCF.
    pub open spec fn accumulator_ops(self, y: u8) -> (CpuState, u8) {
        let a = self.regs.a;
        let f = self.regs.f;
        if y < 4 {
            let r = rotate_op(y, a, f);
            (self.with_flags(Flags { z: false, ..r.1 }).with_a(r.0), 1)
        } else if y == 4 {
            (self.with_a(daa_result(a, f)).with_flags(daa_flags(a, f)), 1)
        } else if y == 5 {
            (self.with_a(!a).with_flags(Flags { n: true, h: true, ..f }), 1)
        } else if y == 6 {
            (self.with_flags(Flags { n: false, h: false, c: true, ..f }), 1)
        } else {
            (self.with_flags(Flags { n: false, h: false, c: !f.c, ..f }), 1)
        }
    }

    /// Opcodes 0x40-0x7F: register-to-register loads, and HALT at 0x76.
    pub open spec fn load_grid(self, y: u8, z: u8) -> (CpuState, u8) {
        if y == 6 && z == 6 {
            (CpuState { halted: true, ..self }, 1)
        } else {
            (
                self.with_operand(y, self.operand(z)),
                if y == 6 || z == 6 {
                    2
                } else {
                    1
                },
            )
        }
    }

    /// Opcodes 0x80-0xBF: the operation `y` on A and operand `z`.
    pub open spec fn alu_grid(self, y: u8, z: u8) -> (CpuState, u8) {
        let r = alu_op(y, self.regs.a, self.operand(z), self.regs.f);
        (
            self.with_flags(r.1).with_a(r.0),
            if z == 6 {
                2
            } else {
                1
            },
        )
    }

    /// Opcodes 0xC0-0xFF: returns, jumps, calls, stack, high-page loads, immediate ALU
    /// operations, restarts, the 0xCB prefix and DI/EI.
    pub open spec fn control_grid(self, y: u8, z: u8) -> (CpuState, u8) {
        if z == 0 {
            self.return_or_high(y)
        } else if z == 1 {
            self.pop_ops(y)
        } else if z == 2 {
            self.jump_or_load(y)
        } else if z == 3 {
            self.prefix_ops(y)
        } else if z == 4 || (z == 5 && y % 2 == 1) {
            self.call_ops(y, z)
        } else if z == 5 {
            (self.pushed(self.regs.pair(y / 2)), 4)
        } else if z == 6 {
            let t = self.advance(1);
            let r = alu_op(y, t.regs.a, self.imm8(), t.regs.f);
            (t.with_flags(r.1).with_a(r.0), 2)
        } else {
            (self.pushed(self.pc).jump((y * 8) as u16), 4)
        }
    }

    /// RET cc; LDH (n),A; ADD SP,e; LDH A,(n); LD HL,SP+e.
    pub open spec fn return_or_high(self, y: u8) -> (CpuState, u8) {
        if y < 4 {
            if self.condition(y) {
                (self.popped().0.jump(self.popped().1), 5)
            } else {
                (self, 2)
            }
        } else if y == 4 {
            let t = self.advance(1);
            (t.with_mem((0xFF00 + self.imm8()) as u16, t.regs.a), 3)
        } else if y == 6 {
            let t = self.advance(1);
            (t.with_a(t.mem[0xFF00 + self.imm8()]), 3)
        } else {
            let t = self.advance(1);
            let e = sign_extend(self.imm8());
            let u = t.with_flags(add16_flags(t.sp, e, t.regs.f.z));
            if y == 5 {
                (CpuState { sp: add16_result(t.sp, e), ..u }, 4)
            } else {
                (u.with_pair_sp(2, add16_result(t.sp, e)), 3)
            }
        }
    }

    /// POP rr (0 BC, 1 DE, 2 HL, 3 AF); RET; RETI; JP (HL); LD SP,HL.
    pub open spec fn pop_ops(self, y: u8) -> (CpuState, u8) {
        let (t, v) = self.popped();
        if y % 2 == 0 {
            (CpuState { regs: t.regs.with_pair(y / 2, v), ..t }, 3)
        } else if y == 1 {
            (t.jump(v), 4)
        } else if y == 3 {
            (CpuState { ei: true, ..t.jump(v) }, 4)
        } else if y == 5 {
            (self.jump(self.hl()), 1)
        } else {
            (CpuState { sp: self.hl(), ..self }, 2)
        }
    }

    /// JP cc,nn; LD (0xFF00+C),A; LD (nn),A; LD A,(0xFF00+C); LD A,(nn).
    pub open spec fn jump_or_load(self, y: u8) -> (CpuState, u8) {
        if y < 4 {
            let t = self.advance(2);
            if self.condition(y) {
                (t.jump(self.imm16()), 4)
            } else {
                (t, 3)
            }
        } else if y == 4 {
            (self.with_mem((0xFF00 + self.regs.c) as u16, self.regs.a), 2)
        } else if y == 5 {
            let t = self.advance(2);
            (t.with_mem(self.imm16(), t.regs.a), 4)
        } else if y == 6 {
            (self.with_a(self.mem[0xFF00 + self.regs.c]), 2)
        } else {
            let t = self.advance(2);
            (t.with_a(t.mem[self.imm16() as int]), 4)
        }
    }

    /// JP nn; the 0xCB prefix; DI (`y` 6); EI (`y` 7).
    pub open spec fn prefix_ops(self, y: u8) -> (CpuState, u8) {
        if y == 0 {
            (self.advance(2).jump(self.imm16()), 4)
        } else if y == 1 {
            self.advance(1).execute_cb(self.imm8())
        } else {
            (CpuState { ei: y == 7, ..self }, 1)
        }
    }

    /// CALL cc,nn (`z` 4) and CALL nn (`z` 5): the address after the instruction is pushed.
    pub open spec fn call_ops(self, y: u8, z: u8) -> (CpuState, u8) {
        let t = self.advance(2);
        if z == 5 || self.condition(y) {
            (t.pushed(t.pc).jump(self.imm16()), 6)
        } else {
            (t, 3)
        }
    }

    /// A 0xCB-prefixed opcode: rotates and shifts, BIT, RES and SET, on the operand that
    /// bits 2-0 select.
    pub open spec fn execute_cb(self, op: u8) -> (CpuState, u8) {
        let y = op_y(op);
        let z = op_z(op);
        let v = self.operand(z);
        if op_x(op) == 0 {
            let r = rotate_op(y, v, self.regs.f);
            (
                self.with_flags(r.1).with_operand(z, r.0),
                if z == 6 {
                    4
                } else {
                    2
                },
            )
        } else if op_x(op) == 1 {
            (
                self.with_flags(bit_flags(v, y, self.regs.f.c)),
                if z == 6 {
                    3
                } else {
                    2
                },
            )
        } else {
            (
                self.with_operand(
                    z,
                    if op_x(op) == 2 {
                        reset_result(v, y)
                    } else {
                        set_result(v, y)
                    },
                ),
                if z == 6 {
                    4
                } else {
                    2
                },
            )
        }
    }

    /// A base opcode, already fetched (PC is past it): the new state and the cycles.
    pub open spec fn execute(self, op: u8) -> (CpuState, u8) {
        if op_x(op) == 0 {
            self.misc_grid(op_y(op), op_z(op))
        } else if op_x(op) == 1 {
            self.load_grid(op_y(op), op_z(op))
        } else if op_x(op) == 2 {
            self.alu_grid(op_y(op), op_z(op))
        } else {
            self.control_grid(op_y(op), op_z(op))
        }
    }

    /// One instruction: fetch the opcode at PC and execute it; a halted CPU only spends a
    /// cycle.
    pub open spec fn step(self) -> (CpuState, u8) {
        if self.halted {
            (self, 1)
        } else {
            self.advance(1).execute(self.imm8())
        }
    }
}

pub struct CPU {
    pub pc: u16,
    pub sp: u16,
    pub registers: Registers,
    pub mmu: MMU,
    /// The interrupt-enable latch: set by EI and RETI, cleared by DI.
    pub ei: bool,
    /// Set by HALT; a halted CPU executes nothing until `resume`.
    pub halted: bool,
}

impl View for CPU {
    type V = CpuState;

    open spec fn view(&self) -> CpuState {
        CpuState {
            pc: self.pc,
            sp: self.sp,
            regs: self.registers,
            mem: self.mmu@,
            ei: self.ei,
            halted: self.halted,
        }
    }
}

impl CPU {
    /// Power-on state: PC, SP, registers and memory zero, interrupts enabled, not halted.
    pub fn new() -> (r: CPU)
        ensures
            r.pc == 0 && r.sp == 0 && r.ei && !r.halted,
            r.registers.a == 0 && r.registers.b == 0 && r.registers.c == 0,
            r.registers.d == 0 && r.registers.e == 0 && r.registers.h == 0 && r.registers.l == 0,
            r.registers.f == (Flags { z: false, n: false, h: false, c: false }),
            r@.mem.len() == 65536,
            forall|i: int| 0 <= i < 65536 ==> r@.mem[i] == 0,
    {
        CPU { pc: 0, sp: 0, registers: Registers::new(), mmu: MMU::new(), ei: true, halted: false }
    }

    /// Leaves the halted state; the hook through which a pending interrupt wakes the CPU.
    pub fn resume(&mut self)
        ensures
            final(self)@ == (CpuState { halted: false, ..old(self)@ }),
    {
        self.halted = false;
    }

    /// Pushes `a`: SP drops by 2 (wrapping) and `a` is stored little-endian at the new SP.
    pub fn push(&mut self, a: u16)
        ensures
            final(self)@ == old(self)@.pushed(a),
    {
        let sp = self.sp.wrapping_sub(2);
        self.mmu.write_word(sp, a);
        self.sp = sp;
    }

    /// Pops the little-endian word at SP; SP rises by 2 (wrapping).
    pub fn pop(&mut self) -> (r: u16)
        ensures
            (final(self)@, r) == old(self)@.popped(),
    {
        let r = self.mmu.read_word(self.sp);
        self.sp = self.sp.wrapping_add(2);
        r
    }

    pub fn alu_add(&mut self, a: u8, b: u8) -> (r: u8)
        ensures
            r == add_result(a, b),
            final(self)@ == old(self)@.with_flags(add_flags(a, b)),
    {
        let sum: u16 = a as u16 + b as u16;
        let result = (sum % 256) as u8;
        self.registers.f = Flags { z: result == 0, n: false, h: a % 16 + b % 16 > 15, c: sum > 255 };
        result
    }

    /// Adds two 16-bit values; Zero is left as it was.
    pub fn alu_add16(&mut self, a: u16, b: u16) -> (r: u16)
        ensures
            r == add16_result(a, b),
            final(self)@ == old(self)@.with_flags(add16_flags(a, b, old(self).registers.f.z)),
    {
        let sum: u32 = a as u32 + b as u32;
        self.registers.f = Flags {
            z: self.registers.f.z,
            n: false,
            h: a % 4096 + b % 4096 > 4095,
            c: sum > 65535,
        };
        (sum % 65536) as u16
    }

    /// ADD of `b` plus the carry flag, with Half-carry forced when `b`'s low nibble is 0xF
    /// and Carry forced when `b` is 0xFF.
    pub fn alu_adc(&mut self, a: u8, b: u8) -> (r: u8)
        ensures
            r == adc_result(a, b, old(self).registers.f.c),
            final(self)@ == old(self)@.with_flags(adc_flags(a, b, old(self).registers.f.c)),
    {
        let carry: u8 = if self.registers.f.c { 1 } else { 0 };
        let result = self.alu_add(a, b.wrapping_add(carry));
        if b == 255 {
            self.registers.f.c = true;
        }
        if b % 16 == 15 {
            self.registers.f.h = true;
        }
        result
    }

    /// Subtracts; Half-carry and Carry are set when no borrow occurs.
    pub fn alu_sub(&mut self, a: u8, b: u8) -> (r: u8)
        ensures
            r == sub_result(a, b),
            final(self)@ == old(self)@.with_flags(sub_flags(a, b)),
    {
        let result = a.wrapping_sub(b);
        self.registers.f = Flags { z: result == 0, n: true, h: a % 16 >= b % 16, c: a >= b };
        result
    }

    /// SUB of `b` plus the carry flag, with Half-carry and Carry forced when `b` is 0.
    pub fn alu_sbc(&mut self, a: u8, b: u8) -> (r: u8)
        ensures
            r == sbc_result(a, b, old(self).registers.f.c),
            final(self)@ == old(self)@.with_flags(sbc_flags(a, b, old(self).registers.f.c)),
    {
        let carry: u8 = if self.registers.f.c { 1 } else { 0 };
        let result = self.alu_sub(a, b.wrapping_add(carry));
        if b == 0 {
            self.registers.f.c = true;
            self.registers.f.h = true;
        }
        result
    }

    pub fn alu_and(&mut self, a: u8, b: u8) -> (r: u8)
        ensures
            r == a & b,
            final(self)@ == old(self)@.with_flags(and_flags(a & b)),
    {
        let result = a & b;
        self.registers.f = Flags { z: result == 0, n: false, h: true, c: false };
        result
    }

    pub fn alu_or(&mut self, a: u8, b: u8) -> (r: u8)
        ensures
            r == a | b,
            final(self)@ == old(self)@.with_flags(logic_flags(a | b)),
    {
        let result = a | b;
        self.registers.f = Flags { z: result == 0, n: false, h: false, c: false };
        result
    }

    pub fn alu_xor(&mut self, a: u8, b: u8) -> (r: u8)
        ensures
            r == a ^ b,
            final(self)@ == old(self)@.with_flags(logic_flags(a ^ b)),
    {
        let result = a ^ b;
        self.registers.f = Flags { z: result == 0, n: false, h: false, c: false };
        result
    }

    /// Compares: the flags of `a - b`, the difference discarded.
    pub fn alu_cp(&mut self, a: u8, b: u8)
        ensures
            final(self)@ == old(self)@.with_flags(sub_flags(a, b)),
    {
        self.alu_sub(a, b);
    }

    /// Increments; Carry is left as it was.
    pub fn alu_inc(&mut self, a: u8) -> (r: u8)
        ensures
            r == inc_result(a),
            final(self)@ == old(self)@.with_flags(inc_flags(a, old(self).registers.f.c)),
    {
        let result = a.wrapping_add(1);
        self.registers.f = Flags {
            z: result == 0,
            n: false,
            h: a % 16 == 15,
            c: self.registers.f.c,
        };
        result
    }

    pub fn alu_inc16(&self, a: u16) -> (r: u16)
        ensures
            r == wrap16(a + 1),
    {
        a.wrapping_add(1)
    }

    /// Decrements; Carry is left as it was.
    pub fn alu_dec(&mut self, a: u8) -> (r: u8)
        ensures
            r == dec_result(a),
            final(self)@ == old(self)@.with_flags(dec_flags(a, old(self).registers.f.c)),
    {
        let result = a.wrapping_sub(1);
        self.registers.f = Flags { z: result == 0, n: true, h: a % 16 == 0, c: self.registers.f.c };
        result
    }

    pub fn alu_dec16(&self, a: u16) -> (r: u16)
        ensures
            r == wrap16(a - 1),
    {
        a.wrapping_sub(1)
    }

    pub fn alu_rlc(&mut self, a: u8) -> (r: u8)
        ensures
            r == rlc_result(a),
            final(self)@ == old(self)@.with_flags(shift_flags(r, top_bit(a))),
    {
        let result = (a << 1u8) | (a >> 7u8);
        self.registers.f = Flags { z: result == 0, n: false, h: false, c: a & 0x80 != 0 };
        result
    }

    pub fn alu_rrc(&mut self, a: u8) -> (r: u8)
        ensures
            r == rrc_result(a),
            final(self)@ == old(self)@.with_flags(shift_flags(r, low_bit(a))),
    {
        let result = (a >> 1u8) | (a << 7u8);
        self.registers.f = Flags { z: result == 0, n: false, h: false, c: a & 1 != 0 };
        result
    }

    /// Rotates left through Carry.
    pub fn alu_rl(&mut self, a: u8) -> (r: u8)
        ensures
            r == rl_result(a, old(self).registers.f.c),
            final(self)@ == old(self)@.with_flags(shift_flags(r, top_bit(a))),
    {
        let carry: u8 = if self.registers.f.c { 1 } else { 0 };
        let result = (a << 1u8) | carry;
        self.registers.f = Flags { z: result == 0, n: false, h: false, c: a & 0x80 != 0 };
        result
    }

    /// Rotates right through Carry.
    pub fn alu_rr(&mut self, a: u8) -> (r: u8)
        ensures
            r == rr_result(a, old(self).registers.f.c),
            final(self)@ == old(self)@.with_flags(shift_flags(r, low_bit(a))),
    {
        let carry: u8 = if self.registers.f.c { 0x80 } else { 0 };
        let result = (a >> 1u8) | carry;
        self.registers.f = Flags { z: result == 0, n: false, h: false, c: a & 1 != 0 };
        result
    }

    pub fn alu_sla(&mut self, a: u8) -> (r: u8)
        ensures
            r == sla_result(a),
            final(self)@ == old(self)@.with_flags(shift_flags(r, top_bit(a))),
    {
        let result = a << 1u8;
        self.registers.f = Flags { z: result == 0, n: false, h: false, c: a & 0x80 != 0 };
        result
    }

    /// Shifts right, keeping the sign bit.
    pub fn alu_sra(&mut self, a: u8) -> (r: u8)
        ensures
            r == sra_result(a),
            final(self)@ == old(self)@.with_flags(shift_flags(r, low_bit(a))),
    {
        let result = (a >> 1u8) | (a & 0x80);
        self.registers.f = Flags { z: result == 0, n: false, h: false, c: a & 1 != 0 };
        result
    }

    pub fn alu_srl(&mut self, a: u8) -> (r: u8)
        ensures
            r == srl_result(a),
            final(self)@ == old(self)@.with_flags(shift_flags(r, low_bit(a))),
    {
        let result = a >> 1u8;
        self.registers.f = Flags { z: result == 0, n: false, h: false, c: a & 1 != 0 };
        result
    }

    /// Exchanges the two nibbles.
    pub fn alu_swap(&mut self, a: u8) -> (r: u8)
        ensures
            r == swap_result(a),
            final(self)@ == old(self)@.with_flags(logic_flags(r)),
    {
        let result = (a << 4u8) | (a >> 4u8);
        self.registers.f = Flags { z: result == 0, n: false, h: false, c: false };
        result
    }

    /// Tests bit `b` of `a`: Zero iff it is 0, Subtract clear, Half-carry set, Carry kept.
    pub fn bit_info(&mut self, a: u8, b: u8)
        requires
            b < 8,
        ensures
            final(self)@ == old(self)@.with_flags(bit_flags(a, b, old(self).registers.f.c)),
    {
        let bit = a & (1u8 << b);
        self.registers.f = Flags { z: bit == 0, n: false, h: true, c: self.registers.f.c };
    }

    pub fn bit_set(&self, a: u8, b: u8) -> (r: u8)
        requires
            b < 8,
        ensures
            r == set_result(a, b),
    {
        a | (1u8 << b)
    }

    pub fn bit_reset(&self, a: u8, b: u8) -> (r: u8)
        requires
            b < 8,
        ensures
            r == reset_result(a, b),
    {
        a & !(1u8 << b)
    }

    /// Decimal adjust of A.
    fn alu_daa(&mut self)
        ensures
            final(self)@ == old(self)@.with_a(daa_result(old(self).registers.a, old(self).registers.f)).with_flags(
                daa_flags(old(self).registers.a, old(self).registers.f),
            ),
    {
        let a = self.registers.a;
        let f = self.registers.f;
        let mut r = a;
        if a % 16 > 9 || f.h {
            r = if f.n { r.wrapping_sub(0x06) } else { r.wrapping_add(0x06) };
        }
        assert(r == daa_first(a, f));
        let high = a / 16 > 9 || f.c;
        if high {
            r = if f.n { r.wrapping_sub(0x60) } else { r.wrapping_add(0x60) };
        }
        self.registers.a = r;
        self.registers.f = Flags { z: r == 0, n: f.n, h: false, c: f.c || high };
    }

    /// The byte at PC; PC moves past it.
    pub fn next_byte(&mut self) -> (r: u8)
        ensures
            r == old(self)@.imm8(),
            final(self)@ == old(self)@.advance(1),
    {
        let result = self.mmu.read_byte(self.pc);
        self.pc = self.pc.wrapping_add(1);
        result
    }

    /// The little-endian word at PC; PC moves past it.
    pub fn next_word(&mut self) -> (r: u16)
        ensures
            r == old(self)@.imm16(),
            final(self)@ == old(self)@.advance(2),
    {
        let result = self.mmu.read_word(self.pc);
        self.pc = self.pc.wrapping_add(2);
        result
    }

    /// The operand that `z` selects: a register, or memory at HL for 6.
    fn read_operand(&self, z: u8) -> (r: u8)
        requires
            z < 8,
        ensures
            r == self@.operand(z),
    {
        if z == 6 {
            self.mmu.read_byte(self.registers.hl())
        } else {
            self.registers.get_reg(z)
        }
    }

    fn write_operand(&mut self, z: u8, v: u8)
        requires
            z < 8,
        ensures
            final(self)@ == old(self)@.with_operand(z, v),
    {
        if z == 6 {
            let addr = self.registers.hl();
            self.mmu.write_byte(addr, v);
        } else {
            self.registers.set_reg(z, v);
        }
    }

    /// Whether condition `cc` (0 NZ, 1 Z, 2 NC, 3 C) holds.
    fn condition(&self, cc: u8) -> (r: bool)
        requires
            cc < 4,
        ensures
            r == self@.condition(cc),
    {
        match cc {
            0 => !self.registers.f.z,
            1 => self.registers.f.z,
            2 => !self.registers.f.c,
            _ => self.registers.f.c,
        }
    }

    /// The rotate or shift that `y` selects, on `v`.
    fn rotate(&mut self, y: u8, v: u8) -> (r: u8)
        requires
            y < 8,
        ensures
            (final(self)@, r) == (old(self)@.with_flags(rotate_op(y, v, old(self).registers.f).1),
            rotate_op(y, v, old(self).registers.f).0),
    {
        match y {
            0 => self.alu_rlc(v),
            1 => self.alu_rrc(v),
            2 => self.alu_rl(v),
            3 => self.alu_rr(v),
            4 => self.alu_sla(v),
            5 => self.alu_sra(v),
            6 => self.alu_swap(v),
            _ => self.alu_srl(v),
        }
    }

    /// The operation that `y` selects on `a` and `v`; CP returns `a`.
    fn alu_select(&mut self, y: u8, a: u8, v: u8) -> (r: u8)
        requires
            y < 8,
        ensures
            (final(self)@, r) == (old(self)@.with_flags(alu_op(y, a, v, old(self).registers.f).1),
            alu_op(y, a, v, old(self).registers.f).0),
    {
        match y {
            0 => self.alu_add(a, v),
            1 => self.alu_adc(a, v),
            2 => self.alu_sub(a, v),
            3 => self.alu_sbc(a, v),
            4 => self.alu_and(a, v),
            5 => self.alu_xor(a, v),
            6 => self.alu_or(a, v),
            _ => {
                self.alu_cp(a, v);
                a
            },
        }
    }

    /// Executes a 0xCB-prefixed opcode (the prefix already fetched) and returns its cycles.
    pub fn exec_opcode2(&mut self, opcode: u8) -> (cycles: u8)
        ensures
            (final(self)@, cycles) == old(self)@.execute_cb(opcode),
    {
        let x = opcode / 64;
        let y = (opcode / 8) % 8;
        let z = opcode % 8;
        let val = self.read_operand(z);
        if x == 0 {
            let result = self.rotate(y, val);
            self.write_operand(z, result);
            if z == 6 { 4 } else { 2 }
        } else if x == 1 {
            self.bit_info(val, y);
            if z == 6 { 3 } else { 2 }
        } else {
            let result = if x == 2 { self.bit_reset(val, y) } else { self.bit_set(val, y) };
            self.write_operand(z, result);
            if z == 6 { 4 } else { 2 }
        }
    }

    /// The pair that `p` selects in loads and 16-bit arithmetic: 0 BC, 1 DE, 2 HL, 3 SP.
    fn get_pair_sp(&self, p: u8) -> (r: u16)
        requires
            p < 4,
        ensures
            r == self@.pair_sp(p),
    {
        if p == 3 {
            self.sp
        } else {
            self.registers.get_reg16(p)
        }
    }

    fn set_pair_sp(&mut self, p: u8, v: u16)
        requires
            p < 4,
        ensures
            final(self)@ == old(self)@.with_pair_sp(p, v),
    {
        if p == 3 {
            self.sp = v;
        } else {
            self.registers.set_reg16(p, v);
        }
    }

    /// Opcodes 0x00-0x3F with `z` 0: NOP, LD (nn),SP, STOP and the relative jumps.
    fn exec_relative(&mut self, y: u8) -> (cycles: u8)
        requires
            y < 8,
        ensures
            (final(self)@, cycles) == old(self)@.relative_ops(y),
    {
        if y == 0 || y == 2 {
            // NOP; STOP
            1
        } else if y == 1 {
            // LD (nn), SP
            let addr = self.next_word();
            self.mmu.write_word(addr, self.sp);
            5
        } else {
            // JR e; JR cc, e
            let e = self.next_byte();
            if y == 3 || self.condition(y - 4) {
                let d: u16 = if e < 128 { e as u16 } else { e as u16 + 0xFF00 };
                self.pc = self.pc.wrapping_add(d);
                3
            } else {
                2
            }
        }
    }

    /// LD rr,nn and ADD HL,rr.
    fn exec_wide_load_add(&mut self, y: u8) -> (cycles: u8)
        requires
            y < 8,
        ensures
            (final(self)@, cycles) == old(self)@.wide_load_add(y),
    {
        if y % 2 == 0 {
            let w = self.next_word();
            self.set_pair_sp(y / 2, w);
            3
        } else {
            let val = self.get_pair_sp(y / 2);
            let hl = self.registers.hl();
            let result = self.alu_add16(hl, val);
            self.registers.set_hl(result);
            2
        }
    }

    /// LD (rr),A and LD A,(rr), with HL incremented or decremented after use for pairs 2
    /// and 3.
    fn exec_indirect_a(&mut self, y: u8) -> (cycles: u8)
        requires
            y < 8,
        ensures
            (final(self)@, cycles) == old(self)@.indirect_a(y),
    {
        let p = y / 2;
        let addr = if p < 2 { self.registers.get_reg16(p) } else { self.registers.hl() };
        self.step_hl(p);
        if y % 2 == 1 {
            self.load_a(addr);
        } else {
            self.store_a(addr);
        }
        2
    }

    /// HL+1 for pair field 2, HL-1 for 3.
    fn step_hl(&mut self, p: u8)
        ensures
            final(self)@ == old(self)@.hl_stepped(p),
    {
        if p == 2 {
            let hl = self.registers.hl();
            self.set_pair_sp(2, hl.wrapping_add(1));
        } else if p == 3 {
            let hl = self.registers.hl();
            self.set_pair_sp(2, hl.wrapping_sub(1));
        }
    }

    /// A takes the byte at `addr`.
    fn load_a(&mut self, addr: u16)
        ensures
            final(self)@ == old(self)@.with_a(old(self)@.mem[addr as int]),
    {
        self.registers.a = self.mmu.read_byte(addr);
    }

    /// A is written to `addr`.
    fn store_a(&mut self, addr: u16)
        ensures
            final(self)@ == old(self)@.with_mem(addr, old(self).registers.a),
    {
        let a = self.registers.a;
        self.mmu.write_byte(addr, a);
    }

    /// INC rr and DEC rr.
    fn exec_wide_inc_dec(&mut self, y: u8) -> (cycles: u8)
        requires
            y < 8,
        ensures
            (final(self)@, cycles) == old(self)@.wide_inc_dec(y),
    {
        let v = self.get_pair_sp(y / 2);
        let w = if y % 2 == 0 { self.alu_inc16(v) } else { self.alu_dec16(v) };
        self.set_pair_sp(y / 2, w);
        2
    }

    /// Opcodes 0x00-0x3F with `z` 4 to 6: 8-bit INC, DEC and immediate loads.
    fn exec_byte(&mut self, y: u8, z: u8) -> (cycles: u8)
        requires
            y < 8,
            4 <= z <= 6,
        ensures
            (final(self)@, cycles) == old(self)@.misc_grid(y, z),
    {
        if z == 4 {
            // INC r
            let v = self.read_operand(y);
            let r = self.alu_inc(v);
            self.write_operand(y, r);
            if y == 6 { 3 } else { 1 }
        } else if z == 5 {
            // DEC r
            let v = self.read_operand(y);
            let r = self.alu_dec(v);
            self.write_operand(y, r);
            if y == 6 { 3 } else { 1 }
        } else {
            // LD r, n
            let n = self.next_byte();
            self.write_operand(y, n);
            if y == 6 { 3 } else { 2 }
        }
    }

    /// Opcodes 0x00-0x3F with `z` 7: accumulator rotates, DAA, CPL, SCF, CCF.
    fn exec_accumulator(&mut self, y: u8) -> (cycles: u8)
        requires
            y < 8,
        ensures
            (final(self)@, cycles) == old(self)@.misc_grid(y, 7),
    {
        if y < 4 {
            // RLCA, RRCA, RLA, RRA
            let a = self.registers.a;
            let r = self.rotate(y, a);
            self.registers.f.z = false;
            self.registers.a = r;
            1
        } else if y == 4 {
            self.alu_daa();
            1
        } else if y == 5 {
            // CPL
            self.registers.a = !self.registers.a;
            self.registers.f.n = true;
            self.registers.f.h = true;
            1
        } else if y == 6 {
            // SCF
            self.registers.f.n = false;
            self.registers.f.h = false;
            self.registers.f.c = true;
            1
        } else {
            // CCF
            self.registers.f.n = false;
            self.registers.f.h = false;
            self.registers.f.c = !self.registers.f.c;
            1
        }
    }

    /// Opcodes 0x00-0x3F.
    fn exec_misc(&mut self, y: u8, z: u8) -> (cycles: u8)
        requires
            y < 8,
            z < 8,
        ensures
            (final(self)@, cycles) == old(self)@.misc_grid(y, z),
    {
        if z == 0 {
            self.exec_relative(y)
        } else if z == 1 {
            self.exec_wide_load_add(y)
        } else if z == 2 {
            self.exec_indirect_a(y)
        } else if z == 3 {
            self.exec_wide_inc_dec(y)
        } else if z <= 6 {
            self.exec_byte(y, z)
        } else {
            self.exec_accumulator(y)
        }
    }

    /// Opcodes 0x40-0x7F.
    fn exec_load(&mut self, y: u8, z: u8) -> (cycles: u8)
        requires
            y < 8,
            z < 8,
        ensures
            (final(self)@, cycles) == old(self)@.load_grid(y, z),
    {
        if y == 6 && z == 6 {
            // HALT
            self.halted = true;
            1
        } else {
            // LD r, r'
            let v = self.read_operand(z);
            self.write_operand(y, v);
            if y == 6 || z == 6 { 2 } else { 1 }
        }
    }

    /// Opcodes 0x80-0xBF.
    fn exec_alu(&mut self, y: u8, z: u8) -> (cycles: u8)
        requires
            y < 8,
            z < 8,
        ensures
            (final(self)@, cycles) == old(self)@.alu_grid(y, z),
    {
        let v = self.read_operand(z);
        let a = self.registers.a;
        let r = self.alu_select(y, a, v);
        self.registers.a = r;
        if z == 6 { 2 } else { 1 }
    }

    /// RET cc; LDH (n),A; ADD SP,e; LDH A,(n); LD HL,SP+e.
    fn exec_return_or_high(&mut self, y: u8) -> (cycles: u8)
        requires
            y < 8,
        ensures
            (final(self)@, cycles) == old(self)@.return_or_high(y),
    {
        if y < 4 {
            if self.condition(y) {
                self.pc = self.pop();
                5
            } else {
                2
            }
        } else if y == 4 {
            let addr = 0xFF00 + (self.next_byte() as u16);
            let a = self.registers.a;
            self.mmu.write_byte(addr, a);
            3
        } else if y == 6 {
            let addr = 0xFF00 + (self.next_byte() as u16);
            self.registers.a = self.mmu.read_byte(addr);
            3
        } else {
            let e = self.next_byte();
            let d: u16 = if e < 128 { e as u16 } else { e as u16 + 0xFF00 };
            let sp = self.sp;
            let result = self.alu_add16(sp, d);
            if y == 5 {
                self.sp = result;
                4
            } else {
                self.registers.set_hl(result);
                3
            }
        }
    }

    /// POP rr; RET; RETI; JP (HL); LD SP,HL.
    fn exec_pop_ops(&mut self, y: u8) -> (cycles: u8)
        requires
            y < 8,
        ensures
            (final(self)@, cycles) == old(self)@.pop_ops(y),
    {
        if y % 2 == 0 {
            let v = self.pop();
            self.registers.set_reg16(y / 2, v);
            3
        } else if y == 1 {
            self.pc = self.pop();
            4
        } else if y == 3 {
            self.pc = self.pop();
            self.ei = true;
            4
        } else if y == 5 {
            self.pc = self.registers.hl();
            1
        } else {
            self.sp = self.registers.hl();
            2
        }
    }

    /// JP cc,nn; LD (0xFF00+C),A; LD (nn),A; LD A,(0xFF00+C); LD A,(nn).
    fn exec_jump_or_load(&mut self, y: u8) -> (cycles: u8)
        requires
            y < 8,
        ensures
            (final(self)@, cycles) == old(self)@.jump_or_load(y),
    {
        if y < 4 {
            let target = self.next_word();
            if self.condition(y) {
                self.pc = target;
                4
            } else {
                3
            }
        } else if y == 4 {
            let addr = 0xFF00 + (self.registers.c as u16);
            let a = self.registers.a;
            self.mmu.write_byte(addr, a);
            2
        } else if y == 5 {
            let addr = self.next_word();
            let a = self.registers.a;
            self.mmu.write_byte(addr, a);
            4
        } else if y == 6 {
            let addr = 0xFF00 + (self.registers.c as u16);
            self.registers.a = self.mmu.read_byte(addr);
            2
        } else {
            let addr = self.next_word();
            self.registers.a = self.mmu.read_byte(addr);
            4
        }
    }

    /// Opcodes 0xC0-0xFF.
    fn exec_control(&mut self, y: u8, z: u8) -> (cycles: u8)
        requires
            y < 8,
            z < 8,
            is_defined((192 + y * 8 + z) as u8),
        ensures
            (final(self)@, cycles) == old(self)@.control_grid(y, z),
    {
        if z == 0 {
            self.exec_return_or_high(y)
        } else if z == 1 {
            self.exec_pop_ops(y)
        } else if z == 2 {
            self.exec_jump_or_load(y)
        } else if z == 3 {
            if y == 0 {
                // JP nn
                self.pc = self.next_word();
                4
            } else if y == 1 {
                // 0xCB prefix
                let opcode2 = self.next_byte();
                self.exec_opcode2(opcode2)
            } else {
                // DI; EI
                self.ei = y == 7;
                1
            }
        } else if z == 4 || (z == 5 && y % 2 == 1) {
            // CALL cc, nn; CALL nn
            let target = self.next_word();
            if z == 5 || self.condition(y) {
                let pc = self.pc;
                self.push(pc);
                self.pc = target;
                6
            } else {
                3
            }
        } else if z == 5 {
            // PUSH rr
            let v = self.registers.get_reg16(y / 2);
            self.push(v);
            4
        } else if z == 6 {
            // ALU A, n
            let n = self.next_byte();
            let a = self.registers.a;
            let r = self.alu_select(y, a, n);
            self.registers.a = r;
            2
        } else {
            // RST y * 8
            let pc = self.pc;
            self.push(pc);
            self.pc = (y as u16) * 8;
            4
        }
    }

    /// Executes a base opcode that has already been fetched (PC points past it) and returns
    /// the cycles it took.
    pub fn exec_opcode(&mut self, opcode: u8) -> (cycles: u8)
        requires
            is_defined(opcode),
        ensures
            (final(self)@, cycles) == old(self)@.execute(opcode),
    {
        let x = opcode / 64;
        let y = (opcode / 8) % 8;
        let z = opcode % 8;
        if x == 0 {
            self.exec_misc(y, z)
        } else if x == 1 {
            self.exec_load(y, z)
        } else if x == 2 {
            self.exec_alu(y, z)
        } else {
            assert(opcode == 192 + y * 8 + z);
            self.exec_control(y, z)
        }
    }

    /// Executes one instruction: fetches the opcode at PC and runs it. A halted CPU does
    /// nothing for one cycle.
    pub fn step(&mut self) -> (cycles: u8)
        requires
            old(self)@.halted || is_defined(old(self)@.imm8()),
        ensures
            (final(self)@, cycles) == old(self)@.step(),
    {
        if self.halted {
            1
        } else {
            let opcode = self.next_byte();
            self.exec_opcode(opcode)
        }
    }
}

/// A push followed by a pop gives the pushed value back and restores SP, provided both
/// stack bytes lie in writable memory (at or above 0x8000).
pub proof fn lemma_push_pop(s: CpuState, v: u16)
    requires
        s.mem.len() == 65536,
        wrap16(s.sp - 2) >= RAM_START,
        wrap16(s.sp - 1) >= RAM_START,
    ensures
        s.pushed(v).popped().1 == v,
        s.pushed(v).popped().0.sp == s.sp,
        s.pushed(v).popped().0.regs == s.regs,
        s.pushed(v).popped().0.pc == s.pc,
{
    let sp = wrap16(s.sp - 2);
    assert(next_addr(sp) == wrap16(s.sp - 1));
    lemma_word_round_trip(s.mem, sp, v);
}

/// BIT b,r changes no register and no memory: only the flags, where Zero is set iff bit b
/// of the operand is 0, Subtract is clear, Half-carry set and Carry kept, whatever the
/// flags were before.
pub proof fn lemma_bit_test(s: CpuState, op: u8)
    requires
        op_x(op) == 1,
    ensures
        s.execute_cb(op).0 == s.with_flags(
            Flags { z: !bit_of(s.operand(op_z(op)), op_y(op)), n: false, h: true, c: s.regs.f.c },
        ),
        s.execute_cb(op).0.operand(op_z(op)) == s.operand(op_z(op)),
        s.execute_cb(op).0.regs.f.z == !bit_of(s.operand(op_z(op)), op_y(op)),
{
}

/// JR NZ,e costs 3 cycles and lands at e past the instruction when Zero is clear, and costs
/// 2 cycles and falls through when Zero is set, for the same displacement e.
pub proof fn lemma_jr_nz(s: CpuState)
    requires
        !s.halted,
        s.imm8() == 0x20,
    ensures
        !s.regs.f.z ==> s.step() == (s.advance(2).jump(
            wrap16(s.pc + 2 + sign_extend(s.mem[wrap16(s.pc + 1) as int])),
        ), 3u8),
        s.regs.f.z ==> s.step() == (s.advance(2), 2u8),
{
    assert(op_x(0x20u8) == 0 && op_y(0x20u8) == 4 && op_z(0x20u8) == 0);
}

} // verus!
