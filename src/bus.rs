use vstd::prelude::*;

verus! {

/// Number of addressable bytes behind a bus.
pub const MEM_SIZE: usize = 0x10000;

/// `a + d` on the 16-bit address space, wrapping modulo 2^16.
pub open spec fn add16(a: u16, d: int) -> u16 {
    ((a + d) % 0x10000) as u16
}

/// The little-endian word whose low byte is `lo` and high byte is `hi`.
pub open spec fn word(lo: u8, hi: u8) -> u16 {
    (hi * 256 + lo) as u16
}

/// Low byte of a word.
pub open spec fn lo_byte(w: u16) -> u8 {
    (w % 256) as u8
}

/// High byte of a word.
pub open spec fn hi_byte(w: u16) -> u8 {
    (w / 256) as u8
}

/// The word stored at `a` (low byte) and `a + 1` (high byte, wrapping).
pub open spec fn word_at(mem: Seq<u8>, a: u16) -> u16 {
    word(mem[a as int], mem[add16(a, 1) as int])
}

/// Memory after storing `w` little-endian at `a`: low byte first, then the
/// high byte at the next (wrapping) address.
pub open spec fn store_word(mem: Seq<u8>, a: u16, w: u16) -> Seq<u8> {
    mem.update(a as int, lo_byte(w)).update(add16(a, 1) as int, hi_byte(w))
}

/// The capability set the CPU runs against: 8-bit memory over a 16-bit
/// address space and 8-bit I/O over an 8-bit port space.
pub trait Bus {
    /// The 65,536 bytes of memory.
    spec fn mem(&self) -> Seq<u8>;

    /// The byte the bus answers on `port` in its present state.
    spec fn port_in(&self, port: u8) -> u8;

    proof fn lemma_mem_len(&self)
        ensures
            self.mem().len() == MEM_SIZE,
    ;

    fn read(&self, addr: u16) -> (r: u8)
        ensures
            r == self.mem()[addr as int],
    ;

    fn write(&mut self, addr: u16, value: u8)
        ensures
            final(self).mem() == old(self).mem().update(addr as int, value),
    ;

    fn input(&self, port: u8) -> (r: u8)
        ensures
            r == self.port_in(port),
    ;

    fn output(&mut self, port: u8, value: u8)
        ensures
            final(self).mem() == old(self).mem(),
    ;

    /// Reads the little-endian word at `addr`: low byte at `addr`, high byte at
    /// `addr + 1` (wrapping).
    fn read16(&self, addr: u16) -> (r: u16)
        ensures
            r == word_at(self.mem(), addr),
    {
        let lo = self.read(addr);
        let hi = self.read(addr.wrapping_add(1));
        proof {
            self.lemma_mem_len();
        }
        (hi as u16) * 256 + (lo as u16)
    }

    /// Writes `value` little-endian: low byte at `addr`, then high byte at
    /// `addr + 1` (wrapping).
    fn write16(&mut self, addr: u16, value: u16)
        ensures
            final(self).mem() == store_word(old(self).mem(), addr, value),
    {
        let lo = (value % 256) as u8;
        let hi = (value / 256) as u8;
        self.write(addr, lo);
        self.write(addr.wrapping_add(1), hi);
    }
}

/// Offsets on the address space compose.
pub proof fn lemma_add16_add16(a: u16, d1: int, d2: int)
    ensures
        add16(add16(a, d1), d2) == add16(a, d1 + d2),
{
    vstd::arithmetic::div_mod::lemma_add_mod_noop(a + d1, d2, 0x10000);
    vstd::arithmetic::div_mod::lemma_add_mod_noop(a + d1 + d2, 0, 0x10000);
    vstd::arithmetic::div_mod::lemma_mod_twice(a + d1, 0x10000);
    vstd::arithmetic::div_mod::lemma_add_mod_noop(d2, 0, 0x10000);
}

/// A word splits back into the bytes it was made of.
pub proof fn lemma_word_bytes(lo: u8, hi: u8)
    ensures
        lo_byte(word(lo, hi)) == lo,
        hi_byte(word(lo, hi)) == hi,
{
}

/// A word written at `addr` reads back unchanged, also where it straddles the
/// top of memory (`addr == 0xFFFF`).
pub proof fn law_word_round_trip(mem: Seq<u8>, addr: u16, v: u16)
    requires
        mem.len() == MEM_SIZE,
    ensures
        word_at(store_word(mem, addr, v), addr) == v,
{
}

} // verus!
