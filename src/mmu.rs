//! A flat 64 KiB byte-addressable memory whose lower half (below 0x8000) is
//! read-only: writes there are silently dropped.
use vstd::prelude::*;
use crate::registers::{hi_byte, lo_byte};

verus! {

/// First writable address; everything below it is ROM.
pub const RAM_START: u16 = 0x8000;

/// The address after `a`, wrapping from 0xFFFF to 0x0000.
pub open spec fn next_addr(a: u16) -> u16 {
    ((a + 1) % 65536) as u16
}

/// Memory `m` after a byte write of `v` at `addr`: unchanged below 0x8000.
pub open spec fn store(m: Seq<u8>, addr: u16, v: u8) -> Seq<u8> {
    if addr < RAM_START {
        m
    } else {
        m.update(addr as int, v)
    }
}

/// The little-endian word at `addr`: low byte at `addr`, high byte at the next address.
pub open spec fn load16(m: Seq<u8>, addr: u16) -> u16 {
    (m[addr as int] + 256 * m[next_addr(addr) as int]) as u16
}

/// Memory `m` after a little-endian word write of `v` at `addr`.
pub open spec fn store16(m: Seq<u8>, addr: u16, v: u16) -> Seq<u8> {
    store(store(m, addr, lo_byte(v)), next_addr(addr), hi_byte(v))
}

pub struct MMU {
    pub memory: [u8; 65536],
}

impl View for MMU {
    type V = Seq<u8>;

    open spec fn view(&self) -> Seq<u8> {
        self.memory@
    }
}

impl MMU {
    /// A memory of 65536 zero bytes.
    pub fn new() -> (r: MMU)
        ensures
            r@.len() == 65536,
            forall|i: int| 0 <= i < 65536 ==> r@[i] == 0,
    {
        MMU { memory: [0u8; 65536] }
    }

    pub fn read_byte(&self, addr: u16) -> (r: u8)
        ensures
            r == self@[addr as int],
    {
        self.memory[addr as usize]
    }

    /// Writes `val` at `addr`, unless `addr` is below 0x8000.
    pub fn write_byte(&mut self, addr: u16, val: u8)
        ensures
            final(self)@ == store(old(self)@, addr, val),
    {
        if addr >= RAM_START {
            self.memory[addr as usize] = val;
        }
    }

    /// The little-endian word at `addr`; the high byte comes from `addr + 1`, wrapping.
    pub fn read_word(&self, addr: u16) -> (r: u16)
        ensures
            r == load16(self@, addr),
    {
        let lo = self.read_byte(addr);
        let hi = self.read_byte(addr.wrapping_add(1));
        (hi as u16) * 256 + (lo as u16)
    }

    /// Writes `val` little-endian at `addr`; each byte is dropped if its address is below 0x8000.
    pub fn write_word(&mut self, addr: u16, val: u16)
        ensures
            final(self)@ == store16(old(self)@, addr, val),
    {
        self.write_byte(addr, (val % 256) as u8);
        self.write_byte(addr.wrapping_add(1), (val / 256) as u8);
    }
}

/// A word written at `addr` reads back unchanged when both of its bytes lie in RAM.
pub proof fn lemma_word_round_trip(m: Seq<u8>, addr: u16, v: u16)
    requires
        m.len() == 65536,
        addr >= RAM_START,
        next_addr(addr) >= RAM_START,
    ensures
        load16(store16(m, addr, v), addr) == v,
        store16(m, addr, v).len() == 65536,
{
}

} // verus!
