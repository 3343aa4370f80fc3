//! The register file: seven 8-bit data registers, the flag register, and the
//! 16-bit pair views AF, BC, DE and HL.
use vstd::prelude::*;

verus! {

/// The four status flags held in the upper nibble of F.
#[derive(Clone, Copy, Debug, PartialEq, Eq, Structural)]
pub struct Flags {
    pub z: bool,
    pub n: bool,
    pub h: bool,
    pub c: bool,
}

/// Names one flag of F: Carry (bit 4), Half-carry (bit 5), Subtract (bit 6), Zero (bit 7).
#[derive(Clone, Copy, Debug, PartialEq, Eq, Structural)]
pub enum RegisterFlags {
    C,
    H,
    N,
    Z,
}

/// The byte `hi * 256 + lo` splits into.
pub open spec fn hi_byte(v: u16) -> u8 {
    (v / 256) as u8
}

pub open spec fn lo_byte(v: u16) -> u8 {
    (v % 256) as u8
}

pub open spec fn word(hi: u8, lo: u8) -> u16 {
    (hi * 256 + lo) as u16
}

/// F as a byte: Zero at bit 7, Subtract at bit 6, Half-carry at bit 5, Carry at bit 4,
/// low nibble zero.
pub open spec fn flags_byte(f: Flags) -> u8 {
    ((if f.z { 128int } else { 0 }) + (if f.n { 64int } else { 0 }) + (if f.h { 32int } else {
        0
    }) + (if f.c { 16int } else { 0 })) as u8
}

/// The flags that a byte written to F holds; its low nibble is dropped.
pub open spec fn flags_of_byte(b: u8) -> Flags {
    Flags { z: b / 128 == 1, n: (b / 64) % 2 == 1, h: (b / 32) % 2 == 1, c: (b / 16) % 2 == 1 }
}

impl Flags {
    pub open spec fn get(self, flag: RegisterFlags) -> bool {
        match flag {
            RegisterFlags::C => self.c,
            RegisterFlags::H => self.h,
            RegisterFlags::N => self.n,
            RegisterFlags::Z => self.z,
        }
    }

    pub open spec fn set(self, flag: RegisterFlags, value: bool) -> Flags {
        match flag {
            RegisterFlags::C => Flags { c: value, ..self },
            RegisterFlags::H => Flags { h: value, ..self },
            RegisterFlags::N => Flags { n: value, ..self },
            RegisterFlags::Z => Flags { z: value, ..self },
        }
    }

    /// The flag register as a byte.
    pub fn to_byte(&self) -> (r: u8)
        ensures
            r == flags_byte(*self),
    {
        let mut r: u8 = 0;
        if self.z {
            r = r + 128;
        }
        if self.n {
            r = r + 64;
        }
        if self.h {
            r = r + 32;
        }
        if self.c {
            r = r + 16;
        }
        r
    }

    /// The flags held in the upper nibble of `b`.
    pub fn from_byte(b: u8) -> (r: Flags)
        ensures
            r == flags_of_byte(b),
    {
        Flags { z: b / 128 == 1, n: (b / 64) % 2 == 1, h: (b / 32) % 2 == 1, c: (b / 16) % 2 == 1 }
    }
}

pub struct Registers {
    pub a: u8,
    pub f: Flags,
    pub b: u8,
    pub c: u8,
    pub d: u8,
    pub e: u8,
    pub h: u8,
    pub l: u8,
}

impl Registers {
    /// The 8-bit register that a 3-bit select field names: 0 B, 1 C, 2 D, 3 E, 4 H, 5 L,
    /// 7 A. Index 6 names memory at HL and no register.
    pub open spec fn reg(self, code: u8) -> u8 {
        if code == 0 {
            self.b
        } else if code == 1 {
            self.c
        } else if code == 2 {
            self.d
        } else if code == 3 {
            self.e
        } else if code == 4 {
            self.h
        } else if code == 5 {
            self.l
        } else {
            self.a
        }
    }

    pub open spec fn with_reg(self, code: u8, v: u8) -> Registers {
        if code == 0 {
            Registers { b: v, ..self }
        } else if code == 1 {
            Registers { c: v, ..self }
        } else if code == 2 {
            Registers { d: v, ..self }
        } else if code == 3 {
            Registers { e: v, ..self }
        } else if code == 4 {
            Registers { h: v, ..self }
        } else if code == 5 {
            Registers { l: v, ..self }
        } else {
            Registers { a: v, ..self }
        }
    }

    /// The pair that a 2-bit pair field names: 0 BC, 1 DE, 2 HL, 3 AF.
    pub open spec fn pair(self, code: u8) -> u16 {
        if code == 0 {
            word(self.b, self.c)
        } else if code == 1 {
            word(self.d, self.e)
        } else if code == 2 {
            word(self.h, self.l)
        } else {
            word(self.a, flags_byte(self.f))
        }
    }

    pub open spec fn with_pair(self, code: u8, v: u16) -> Registers {
        if code == 0 {
            Registers { b: hi_byte(v), c: lo_byte(v), ..self }
        } else if code == 1 {
            Registers { d: hi_byte(v), e: lo_byte(v), ..self }
        } else if code == 2 {
            Registers { h: hi_byte(v), l: lo_byte(v), ..self }
        } else {
            Registers { a: hi_byte(v), f: flags_of_byte(lo_byte(v)), ..self }
        }
    }

    pub open spec fn spec_hl(self) -> u16 {
        word(self.h, self.l)
    }

    pub open spec fn with_flags(self, f: Flags) -> Registers {
        Registers { f: f, ..self }
    }

    /// Power-on state: every register and flag zero.
    pub fn new() -> (r: Registers)
        ensures
            r.a == 0 && r.b == 0 && r.c == 0 && r.d == 0 && r.e == 0 && r.h == 0 && r.l == 0,
            r.f == (Flags { z: false, n: false, h: false, c: false }),
    {
        Registers {
            a: 0,
            f: Flags { z: false, n: false, h: false, c: false },
            b: 0,
            c: 0,
            d: 0,
            e: 0,
            h: 0,
            l: 0,
        }
    }

    pub fn af(&self) -> (r: u16)
        ensures
            r == self.pair(3),
    {
        (self.a as u16) * 256 + (self.f.to_byte() as u16)
    }

    pub fn set_af(&mut self, val: u16)
        ensures
            *final(self) == old(self).with_pair(3, val),
    {
        self.a = (val / 256) as u8;
        self.f = Flags::from_byte((val % 256) as u8);
    }

    pub fn bc(&self) -> (r: u16)
        ensures
            r == self.pair(0),
    {
        (self.b as u16) * 256 + (self.c as u16)
    }

    pub fn set_bc(&mut self, val: u16)
        ensures
            *final(self) == old(self).with_pair(0, val),
    {
        self.b = (val / 256) as u8;
        self.c = (val % 256) as u8;
    }

    pub fn de(&self) -> (r: u16)
        ensures
            r == self.pair(1),
    {
        (self.d as u16) * 256 + (self.e as u16)
    }

    pub fn set_de(&mut self, val: u16)
        ensures
            *final(self) == old(self).with_pair(1, val),
    {
        self.d = (val / 256) as u8;
        self.e = (val % 256) as u8;
    }

    pub fn hl(&self) -> (r: u16)
        ensures
            r == self.pair(2),
            r == self.spec_hl(),
    {
        (self.h as u16) * 256 + (self.l as u16)
    }

    pub fn set_hl(&mut self, val: u16)
        ensures
            *final(self) == old(self).with_pair(2, val),
    {
        self.h = (val / 256) as u8;
        self.l = (val % 256) as u8;
    }

    /// Reads the register that `code` names; `code` 6 (memory at HL) is no register.
    pub fn get_reg(&self, code: u8) -> (r: u8)
        requires
            code < 8,
            code != 6,
        ensures
            r == self.reg(code),
    {
        match code {
            0 => self.b,
            1 => self.c,
            2 => self.d,
            3 => self.e,
            4 => self.h,
            5 => self.l,
            _ => self.a,
        }
    }

    pub fn set_reg(&mut self, code: u8, val: u8)
        requires
            code < 8,
            code != 6,
        ensures
            *final(self) == old(self).with_reg(code, val),
    {
        match code {
            0 => self.b = val,
            1 => self.c = val,
            2 => self.d = val,
            3 => self.e = val,
            4 => self.h = val,
            5 => self.l = val,
            _ => self.a = val,
        }
    }

    /// Reads the pair that `code` names: 0 BC, 1 DE, 2 HL, 3 AF.
    pub fn get_reg16(&self, code: u8) -> (r: u16)
        requires
            code < 4,
        ensures
            r == self.pair(code),
    {
        match code {
            0 => self.bc(),
            1 => self.de(),
            2 => self.hl(),
            _ => self.af(),
        }
    }

    pub fn set_reg16(&mut self, code: u8, val: u16)
        requires
            code < 4,
        ensures
            *final(self) == old(self).with_pair(code, val),
    {
        match code {
            0 => self.set_bc(val),
            1 => self.set_de(val),
            2 => self.set_hl(val),
            _ => self.set_af(val),
        }
    }

    pub fn set_flag(&mut self, flag: RegisterFlags, value: bool)
        ensures
            *final(self) == old(self).with_flags(old(self).f.set(flag, value)),
    {
        match flag {
            RegisterFlags::C => self.f.c = value,
            RegisterFlags::H => self.f.h = value,
            RegisterFlags::N => self.f.n = value,
            RegisterFlags::Z => self.f.z = value,
        }
    }

    pub fn get_flag(&self, flag: RegisterFlags) -> (r: bool)
        ensures
            r == self.f.get(flag),
    {
        match flag {
            RegisterFlags::C => self.f.c,
            RegisterFlags::H => self.f.h,
            RegisterFlags::N => self.f.n,
            RegisterFlags::Z => self.f.z,
        }
    }
}

/// Writing a byte to F and reading it back gives the byte with its low nibble cleared.
pub proof fn lemma_flags_byte_round_trip(b: u8)
    ensures
        flags_byte(flags_of_byte(b)) == b - b % 16,
        flags_of_byte(flags_byte(flags_of_byte(b))) == flags_of_byte(b),
{
}

/// Writing a pair and reading it back gives the value written, and its halves read back as
/// the high and low bytes; for AF the value's low nibble must be zero, since F keeps no low
/// nibble.
pub proof fn lemma_pair_round_trip(r: Registers, code: u8, v: u16)
    requires
        code < 4,
        code == 3 ==> v % 16 == 0,
    ensures
        r.with_pair(code, v).pair(code) == v,
        code == 0 ==> r.with_pair(code, v).b == hi_byte(v) && r.with_pair(code, v).c == lo_byte(v),
        code == 1 ==> r.with_pair(code, v).d == hi_byte(v) && r.with_pair(code, v).e == lo_byte(v),
        code == 2 ==> r.with_pair(code, v).h == hi_byte(v) && r.with_pair(code, v).l == lo_byte(v),
        code == 3 ==> r.with_pair(code, v).a == hi_byte(v) && flags_byte(r.with_pair(code, v).f)
            == lo_byte(v),
{
    if code == 3 {
        lemma_flags_byte_round_trip(lo_byte(v));
    }
}

} // verus!
