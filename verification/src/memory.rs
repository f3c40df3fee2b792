//! The memory model: a flat 65 536-byte array with byte read/write primitives
//! and derived little-endian word access.  Word accesses that straddle the top
//! address wrap: the low byte sits at `address`, the high byte at
//! `address.wrapping_add(1)`.

use vstd::prelude::*;

verus! {

/// The number of bytes in the address space.
pub const MEMORY_SIZE: usize = 0x10000;

/// Addition of two 16-bit words modulo 2^16: the wrap rule for every memory
/// address and program-counter computation.
pub open spec fn wrap_add16(a: u16, b: u16) -> u16 {
    (((a + b) % 0x10000) as u16)
}

/// The low byte of a 16-bit word.
pub open spec fn low_byte(value: u16) -> u8 {
    ((value % 0x100) as u8)
}

/// The high byte of a 16-bit word.
pub open spec fn high_byte(value: u16) -> u8 {
    ((value / 0x100) as u8)
}

/// The 16-bit word formed from a low and a high byte (little-endian order).
pub open spec fn word_of_bytes(low: u8, high: u8) -> u16 {
    ((high * 0x100 + low) as u16)
}

/// The little-endian word stored at `address`: the byte there is the low
/// byte, the byte at the wrapping successor address is the high byte.
pub open spec fn word_at(mem: Seq<u8>, address: u16) -> u16
    recommends
        mem.len() == MEMORY_SIZE,
{
    word_of_bytes(mem[address as int], mem[wrap_add16(address, 1) as int])
}

/// The memory after a little-endian word write at `address`: the low byte of
/// `value` lands at `address`, the high byte at the wrapping successor.
pub open spec fn word_written(mem: Seq<u8>, address: u16, value: u16) -> Seq<u8>
    recommends
        mem.len() == MEMORY_SIZE,
{
    mem.update(address as int, low_byte(value)).update(
        wrap_add16(address, 1) as int,
        high_byte(value),
    )
}

/// A 64 KiB byte-addressable store.  Every 16-bit address maps to a valid
/// byte; no access traps.  Word accesses are little-endian and derived from
/// the byte primitives.
pub trait Memory: Sized {
    /// The bytes held, one per address, as a sequence of length 2^16.
    spec fn mem_view(&self) -> Seq<u8>;

    /// Reads the byte at `address`.
    fn read_byte(&self, address: u16) -> (value: u8)
        requires
            self.mem_view().len() == MEMORY_SIZE,
        ensures
            value == self.mem_view()[address as int],
    ;

    /// Writes `value` to the byte at `address`, leaving every other byte as
    /// it was.
    fn write_byte(&mut self, address: u16, value: u8)
        requires
            old(self).mem_view().len() == MEMORY_SIZE,
        ensures
            final(self).mem_view() == old(self).mem_view().update(address as int, value),
    ;

    /// Reads the little-endian word whose low byte sits at `address`.
    fn read_word(&self, address: u16) -> (value: u16)
        requires
            self.mem_view().len() == MEMORY_SIZE,
        ensures
            value == word_at(self.mem_view(), address),
    ;

    /// Writes `value` as a little-endian word whose low byte lands at
    /// `address`, leaving every other byte as it was.
    fn write_word(&mut self, address: u16, value: u16)
        requires
            old(self).mem_view().len() == MEMORY_SIZE,
        ensures
            final(self).mem_view() == word_written(old(self).mem_view(), address, value),
    ;
}

impl Memory for Vec<u8> {
    open spec fn mem_view(&self) -> Seq<u8> {
        self@
    }

    fn read_byte(&self, address: u16) -> (value: u8) {
        self[address as usize]
    }

    fn write_byte(&mut self, address: u16, value: u8) {
        self[address as usize] = value;
    }

    fn read_word(&self, address: u16) -> (value: u16) {
        let low = self[address as usize];
        let high = self[address.wrapping_add(1) as usize];
        high as u16 * 0x100 + low as u16
    }

    fn write_word(&mut self, address: u16, value: u16) {
        self[address as usize] = (value % 0x100) as u8;
        self[address.wrapping_add(1) as usize] = (value / 0x100) as u8;
    }
}

} // verus!
