//! What each arithmetic/logic operation returns and which flags it leaves.
//! Every flag of an operation is given in full; an operation that leaves a
//! flag unaffected takes that flag's prior value as an argument.
use vstd::prelude::*;
use crate::registers::Flags;

verus! {

/// Flags of a rotate or shift: Zero from the result, Subtract and Half-carry clear,
/// Carry the bit moved out.
pub open spec fn shift_flags(r: u8, out: bool) -> Flags {
    Flags { z: r == 0, n: false, h: false, c: out }
}

/// Flags of AND: Zero from the result, Half-carry set, the rest clear.
pub open spec fn and_flags(r: u8) -> Flags {
    Flags { z: r == 0, n: false, h: true, c: false }
}

/// Flags of OR, XOR and SWAP: Zero from the result, the rest clear.
pub open spec fn logic_flags(r: u8) -> Flags {
    Flags { z: r == 0, n: false, h: false, c: false }
}

pub open spec fn add_result(a: u8, b: u8) -> u8 {
    ((a + b) % 256) as u8
}

pub open spec fn add_flags(a: u8, b: u8) -> Flags {
    Flags { z: (a + b) % 256 == 0, n: false, h: a % 16 + b % 16 > 15, c: a + b > 255 }
}

/// The second operand of ADC and SBC: `b` plus the carry in, modulo 256.
pub open spec fn carry_operand(b: u8, cin: bool) -> u8 {
    ((b + (if cin { 1int } else { 0 })) % 256) as u8
}

pub open spec fn adc_result(a: u8, b: u8, cin: bool) -> u8 {
    add_result(a, carry_operand(b, cin))
}

/// ADD's flags on `b` plus the carry in; Half-carry also when `b`'s low nibble is 0xF,
/// Carry also when `b` is 0xFF.
pub open spec fn adc_flags(a: u8, b: u8, cin: bool) -> Flags {
    let f = add_flags(a, carry_operand(b, cin));
    Flags { h: f.h || b % 16 == 15, c: f.c || b == 255, ..f }
}

pub open spec fn sub_result(a: u8, b: u8) -> u8 {
    ((a - b) % 256) as u8
}

/// Half-carry when `a`'s low nibble is at least `b`'s, Carry when `a >= b`.
pub open spec fn sub_flags(a: u8, b: u8) -> Flags {
    Flags { z: sub_result(a, b) == 0, n: true, h: a % 16 >= b % 16, c: a >= b }
}

pub open spec fn sbc_result(a: u8, b: u8, cin: bool) -> u8 {
    sub_result(a, carry_operand(b, cin))
}

/// SUB's flags on `b` plus the carry in; Half-carry and Carry also forced when `b` is 0.
pub open spec fn sbc_flags(a: u8, b: u8, cin: bool) -> Flags {
    let f = sub_flags(a, carry_operand(b, cin));
    Flags { h: f.h || b == 0, c: f.c || b == 0, ..f }
}

pub open spec fn inc_result(a: u8) -> u8 {
    ((a + 1) % 256) as u8
}

pub open spec fn inc_flags(a: u8, cin: bool) -> Flags {
    Flags { z: inc_result(a) == 0, n: false, h: a % 16 == 15, c: cin }
}

pub open spec fn dec_result(a: u8) -> u8 {
    ((a - 1) % 256) as u8
}

pub open spec fn dec_flags(a: u8, cin: bool) -> Flags {
    Flags { z: dec_result(a) == 0, n: true, h: a % 16 == 0, c: cin }
}

pub open spec fn add16_result(a: u16, b: u16) -> u16 {
    ((a + b) % 65536) as u16
}

/// Zero unaffected, Half-carry out of bit 11, Carry out of bit 15.
pub open spec fn add16_flags(a: u16, b: u16, zin: bool) -> Flags {
    Flags { z: zin, n: false, h: a % 4096 + b % 4096 > 4095, c: a + b > 65535 }
}

pub open spec fn rlc_result(a: u8) -> u8 {
    (a << 1u8) | (a >> 7u8)
}

pub open spec fn rrc_result(a: u8) -> u8 {
    (a >> 1u8) | (a << 7u8)
}

pub open spec fn rl_result(a: u8, cin: bool) -> u8 {
    (a << 1u8) | (if cin { 1u8 } else { 0u8 })
}

pub open spec fn rr_result(a: u8, cin: bool) -> u8 {
    (a >> 1u8) | (if cin { 0x80u8 } else { 0u8 })
}

pub open spec fn sla_result(a: u8) -> u8 {
    a << 1u8
}

/// Arithmetic shift right: bit 7 keeps its value.
pub open spec fn sra_result(a: u8) -> u8 {
    (a >> 1u8) | (a & 0x80u8)
}

pub open spec fn srl_result(a: u8) -> u8 {
    a >> 1u8
}

pub open spec fn swap_result(a: u8) -> u8 {
    (a << 4u8) | (a >> 4u8)
}

/// Bit 7 of `a`, the bit that a left rotate or shift moves out.
pub open spec fn top_bit(a: u8) -> bool {
    a & 0x80u8 != 0
}

/// Bit 0 of `a`, the bit that a right rotate or shift moves out.
pub open spec fn low_bit(a: u8) -> bool {
    a & 1u8 != 0
}

/// Whether bit `b` of `a` is 1.
pub open spec fn bit_of(a: u8, b: u8) -> bool {
    a & (1u8 << b) != 0
}

/// Flags of BIT: Zero iff the tested bit is 0, Subtract clear, Half-carry set, Carry kept.
pub open spec fn bit_flags(a: u8, b: u8, cin: bool) -> Flags {
    Flags { z: !bit_of(a, b), n: false, h: true, c: cin }
}

pub open spec fn set_result(a: u8, b: u8) -> u8 {
    a | (1u8 << b)
}

pub open spec fn reset_result(a: u8, b: u8) -> u8 {
    a & !(1u8 << b)
}

/// DAA's first correction applies when the low nibble is above 9 or Half-carry is set.
pub open spec fn daa_low(a: u8, f: Flags) -> bool {
    a % 16 > 9 || f.h
}

/// DAA's second correction applies when the high nibble is above 9 or Carry is set.
pub open spec fn daa_high(a: u8, f: Flags) -> bool {
    a / 16 > 9 || f.c
}

/// A after DAA's first correction: 6 added (or subtracted after a subtract), modulo 256.
pub open spec fn daa_first(a: u8, f: Flags) -> u8 {
    if daa_low(a, f) {
        if f.n {
            ((a - 6) % 256) as u8
        } else {
            ((a + 6) % 256) as u8
        }
    } else {
        a
    }
}

/// Decimal adjust of A after a BCD add (Subtract clear) or subtract (Subtract set): the
/// first correction, then 0x60 added (or subtracted), modulo 256, when the second applies.
pub open spec fn daa_result(a: u8, f: Flags) -> u8 {
    let a1 = daa_first(a, f);
    if daa_high(a, f) {
        if f.n {
            ((a1 - 0x60) % 256) as u8
        } else {
            ((a1 + 0x60) % 256) as u8
        }
    } else {
        a1
    }
}

pub open spec fn daa_flags(a: u8, f: Flags) -> Flags {
    Flags { z: daa_result(a, f) == 0, n: f.n, h: false, c: f.c || daa_high(a, f) }
}

/// Result and flags of the rotate/shift that a 3-bit field selects: RLC, RRC, RL, RR,
/// SLA, SRA, SWAP, SRL.
pub open spec fn rotate_op(y: u8, a: u8, f: Flags) -> (u8, Flags) {
    if y == 0 {
        (rlc_result(a), shift_flags(rlc_result(a), top_bit(a)))
    } else if y == 1 {
        (rrc_result(a), shift_flags(rrc_result(a), low_bit(a)))
    } else if y == 2 {
        (rl_result(a, f.c), shift_flags(rl_result(a, f.c), top_bit(a)))
    } else if y == 3 {
        (rr_result(a, f.c), shift_flags(rr_result(a, f.c), low_bit(a)))
    } else if y == 4 {
        (sla_result(a), shift_flags(sla_result(a), top_bit(a)))
    } else if y == 5 {
        (sra_result(a), shift_flags(sra_result(a), low_bit(a)))
    } else if y == 6 {
        (swap_result(a), logic_flags(swap_result(a)))
    } else {
        (srl_result(a), shift_flags(srl_result(a), low_bit(a)))
    }
}

/// Result and flags of the operation on A that a 3-bit field selects: ADD, ADC, SUB, SBC,
/// AND, XOR, OR, CP. CP leaves A as it was.
pub open spec fn alu_op(y: u8, a: u8, v: u8, f: Flags) -> (u8, Flags) {
    if y == 0 {
        (add_result(a, v), add_flags(a, v))
    } else if y == 1 {
        (adc_result(a, v, f.c), adc_flags(a, v, f.c))
    } else if y == 2 {
        (sub_result(a, v), sub_flags(a, v))
    } else if y == 3 {
        (sbc_result(a, v, f.c), sbc_flags(a, v, f.c))
    } else if y == 4 {
        (a & v, and_flags(a & v))
    } else if y == 5 {
        (a ^ v, logic_flags(a ^ v))
    } else if y == 6 {
        (a | v, logic_flags(a | v))
    } else {
        (a, sub_flags(a, v))
    }
}

/// ADD: Zero iff the sum is 0 modulo 256, Carry iff the sum exceeds 255, Half-carry iff the
/// low nibbles sum past 0xF.
pub proof fn lemma_add_flags(a: u8, b: u8)
    ensures
        add_flags(a, b).z <==> (a + b) % 256 == 0,
        add_flags(a, b).c <==> a + b > 255,
        add_flags(a, b).h <==> (a % 16) + (b % 16) > 15,
        add_result(a, b) == (a + b) % 256,
{
}

/// A value minus itself is 0 with Zero and Subtract set. Carry and Half-carry are set too,
/// since they mean "no borrow" here.
pub proof fn lemma_sub_self(a: u8)
    ensures
        sub_result(a, a) == 0,
        sub_flags(a, a).z,
        sub_flags(a, a).n,
        sub_flags(a, a).c,
        sub_flags(a, a).h,
{
}

/// RLC applied `k` times, with the carry left by the last application.
pub open spec fn rlc_iter(a: u8, k: nat) -> (u8, bool)
    decreases k,
{
    if k == 0 {
        (a, false)
    } else {
        let p = rlc_iter(a, (k - 1) as nat).0;
        (rlc_result(p), top_bit(p))
    }
}

pub open spec fn rrc_iter(a: u8, k: nat) -> (u8, bool)
    decreases k,
{
    if k == 0 {
        (a, false)
    } else {
        let p = rrc_iter(a, (k - 1) as nat).0;
        (rrc_result(p), low_bit(p))
    }
}

/// RL applied `k` times from value `a` and carry `c`: the value and the carry.
pub open spec fn rl_iter(a: u8, c: bool, k: nat) -> (u8, bool)
    decreases k,
{
    if k == 0 {
        (a, c)
    } else {
        let p = rl_iter(a, c, (k - 1) as nat);
        (rl_result(p.0, p.1), top_bit(p.0))
    }
}

pub open spec fn rr_iter(a: u8, c: bool, k: nat) -> (u8, bool)
    decreases k,
{
    if k == 0 {
        (a, c)
    } else {
        let p = rr_iter(a, c, (k - 1) as nat);
        (rr_result(p.0, p.1), low_bit(p.0))
    }
}

/// Eight RLCs give the value back; the last one moves out the bit that is bit 0 of the
/// value (it was bit 7 just before).
pub proof fn lemma_rlc_eight(a: u8)
    ensures
        rlc_iter(a, 8).0 == a,
        rlc_iter(a, 8).1 == low_bit(a),
{
    let a1 = rlc_result(a);
    let a2 = rlc_result(a1);
    let a3 = rlc_result(a2);
    let a4 = rlc_result(a3);
    let a5 = rlc_result(a4);
    let a6 = rlc_result(a5);
    let a7 = rlc_result(a6);
    let a8 = rlc_result(a7);
    assert(a8 == a && top_bit(a7) == low_bit(a)) by (bit_vector)
        requires
            a1 == rlc_result(a),
            a2 == rlc_result(a1),
            a3 == rlc_result(a2),
            a4 == rlc_result(a3),
            a5 == rlc_result(a4),
            a6 == rlc_result(a5),
            a7 == rlc_result(a6),
            a8 == rlc_result(a7),
    ;
    reveal_with_fuel(rlc_iter, 2);
    assert(rlc_iter(a, 1).0 == a1);
    assert(rlc_iter(a, 2).0 == a2);
    assert(rlc_iter(a, 3).0 == a3);
    assert(rlc_iter(a, 4).0 == a4);
    assert(rlc_iter(a, 5).0 == a5);
    assert(rlc_iter(a, 6).0 == a6);
    assert(rlc_iter(a, 7).0 == a7);
    assert(rlc_iter(a, 8) == (a8, top_bit(a7)));
}

/// Eight RRCs give the value back; the last one moves out the bit that is bit 7 of the
/// value (it was bit 0 just before).
pub proof fn lemma_rrc_eight(a: u8)
    ensures
        rrc_iter(a, 8).0 == a,
        rrc_iter(a, 8).1 == top_bit(a),
{
    let a1 = rrc_result(a);
    let a2 = rrc_result(a1);
    let a3 = rrc_result(a2);
    let a4 = rrc_result(a3);
    let a5 = rrc_result(a4);
    let a6 = rrc_result(a5);
    let a7 = rrc_result(a6);
    let a8 = rrc_result(a7);
    assert(a8 == a && low_bit(a7) == top_bit(a)) by (bit_vector)
        requires
            a1 == rrc_result(a),
            a2 == rrc_result(a1),
            a3 == rrc_result(a2),
            a4 == rrc_result(a3),
            a5 == rrc_result(a4),
            a6 == rrc_result(a5),
            a7 == rrc_result(a6),
            a8 == rrc_result(a7),
    ;
    reveal_with_fuel(rrc_iter, 2);
    assert(rrc_iter(a, 1).0 == a1);
    assert(rrc_iter(a, 2).0 == a2);
    assert(rrc_iter(a, 3).0 == a3);
    assert(rrc_iter(a, 4).0 == a4);
    assert(rrc_iter(a, 5).0 == a5);
    assert(rrc_iter(a, 6).0 == a6);
    assert(rrc_iter(a, 7).0 == a7);
    assert(rrc_iter(a, 8) == (a8, low_bit(a7)));
}

/// One RL leaves A and Carry alone when they hold one bit value throughout.
proof fn lemma_rl_fixed(a: u8, c: bool, k: nat)
    requires
        (a == 0 && !c) || (a == 255 && c),
    ensures
        rl_iter(a, c, k) == (a, c),
    decreases k,
{
    if k > 0 {
        lemma_rl_fixed(a, c, (k - 1) as nat);
        assert(rl_result(a, c) == a && top_bit(a) == c) by (bit_vector)
            requires
                (a == 0 && !c) || (a == 255 && c),
        ;
    }
}

proof fn lemma_rr_fixed(a: u8, c: bool, k: nat)
    requires
        (a == 0 && !c) || (a == 255 && c),
    ensures
        rr_iter(a, c, k) == (a, c),
    decreases k,
{
    if k > 0 {
        lemma_rr_fixed(a, c, (k - 1) as nat);
        assert(rr_result(a, c) == a && low_bit(a) == c) by (bit_vector)
            requires
                (a == 0 && !c) || (a == 255 && c),
        ;
    }
}

/// RL rotates nine bits (A and Carry), so eight of them give A back only when A and Carry
/// hold one bit value throughout: A 0x00 with Carry clear, or A 0xFF with Carry set.
pub proof fn lemma_rl_eight(a: u8, c: bool)
    requires
        (a == 0 && !c) || (a == 255 && c),
    ensures
        rl_iter(a, c, 8).0 == a,
        rl_iter(a, c, 8).1 == c,
{
    lemma_rl_fixed(a, c, 8);
}

/// The RR counterpart of the RL law above.
pub proof fn lemma_rr_eight(a: u8, c: bool)
    requires
        (a == 0 && !c) || (a == 255 && c),
    ensures
        rr_iter(a, c, 8).0 == a,
        rr_iter(a, c, 8).1 == c,
{
    lemma_rr_fixed(a, c, 8);
}

} // verus!
