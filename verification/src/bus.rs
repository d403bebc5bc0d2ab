//! The memory bus: 64 KiB of flat, byte-addressable memory.

use vstd::prelude::*;
use crate::word::{high_byte, low_byte, make_word, split_word, word_of};

verus! {

/// The address that follows `addr`, wrapping from `0xFFFF` to `0x0000`.
pub open spec fn next_addr(addr: u16) -> u16 {
    if addr == 0xFFFF {
        0
    } else {
        (addr + 1) as u16
    }
}

/// The little-endian word stored in `mem` at `addr`: the low byte at `addr`,
/// the high byte at the address after it.
pub open spec fn word_at(mem: Seq<u8>, addr: u16) -> u16 {
    word_of(mem[addr as int], mem[next_addr(addr) as int])
}

/// `mem` after the little-endian word `data` is stored at `addr`.
pub open spec fn store_word(mem: Seq<u8>, addr: u16, data: u16) -> Seq<u8> {
    mem.update(addr as int, low_byte(data)).update(next_addr(addr) as int, high_byte(data))
}

/// Flat 64 KiB memory without mirroring or mapped devices.
///
/// Its view is the sequence of its 65536 bytes.
pub struct Bus {
    ram: [u8; 65536],
}

impl View for Bus {
    type V = Seq<u8>;

    closed spec fn view(&self) -> Seq<u8> {
        self.ram@
    }
}

impl Bus {
    /// Every bus holds exactly 65536 bytes.
    pub proof fn lemma_len(&self)
        ensures
            self@.len() == 65536,
    {
    }

    /// A bus whose memory is all zero.
    pub fn new() -> (bus: Bus)
        ensures
            bus@.len() == 65536,
            forall|i: int| 0 <= i < 65536 ==> bus@[i] == 0u8,
    {
        Bus { ram: [0u8; 65536] }
    }

    /// Stores `data` at `addr`; no other byte changes. A read of `addr`
    /// then returns `data`.
    pub fn write(&mut self, addr: u16, data: u8)
        ensures
            final(self)@ == old(self)@.update(addr as int, data),
            final(self)@[addr as int] == data,
    {
        self.ram[addr as usize] = data;
    }

    /// The byte stored at `addr`. Reading has no effect on the memory.
    pub fn read(&mut self, addr: u16) -> (data: u8)
        ensures
            data == old(self)@[addr as int],
            final(self)@ == old(self)@,
    {
        self.ram[addr as usize]
    }

    /// Stores `data` little-endian: the low byte at `addr`, the high byte at
    /// the following address, which is `0x0000` when `addr` is `0xFFFF`. No
    /// other byte changes, and a read of the word at `addr` then returns
    /// `data`.
    pub fn write_u16(&mut self, addr: u16, data: u16)
        ensures
            final(self)@ == store_word(old(self)@, addr, data),
            word_at(final(self)@, addr) == data,
    {
        let (lo, hi) = split_word(data);
        self.write(addr, lo);
        self.write(addr.wrapping_add(1), hi);
    }

    /// The little-endian word at `addr`; the high byte of a word at `0xFFFF`
    /// is read from `0x0000`. Reading has no effect on the memory.
    pub fn read_u16(&mut self, addr: u16) -> (data: u16)
        ensures
            data == word_at(old(self)@, addr),
            final(self)@ == old(self)@,
    {
        let lo = self.read(addr);
        let hi = self.read(addr.wrapping_add(1));
        make_word(lo, hi)
    }

    /// A copy of the whole memory.
    pub fn get_ram(&self) -> (ram: [u8; 65536])
        ensures
            ram@ == self@,
    {
        self.ram
    }
}

} // verus!
