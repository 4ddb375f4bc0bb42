use vstd::prelude::*;

verus! {

/// Number of bytes in the 24-bit address space.
pub const ADDRESS_SPACE: u32 = 0x100_0000;

/// The place in memory that a 32-bit address reaches: its low 24 bits.
pub open spec fn wrap24(addr: int) -> int {
    addr % 0x100_0000
}

/// The flat 16 MiB memory that the CPU drives.
pub struct Bus {
    memory: Vec<u8>,
}

impl View for Bus {
    type V = Seq<u8>;

    closed spec fn view(&self) -> Seq<u8> {
        self.memory@
    }
}

impl Bus {
    /// Every 24-bit address has a byte behind it.
    pub open spec fn wf(&self) -> bool {
        self@.len() == 0x100_0000
    }

    /// The byte at `addr`, its high bits ignored.
    pub open spec fn byte(&self, addr: int) -> u8 {
        self@[wrap24(addr)]
    }

    /// The little-endian word that starts at `addr`.
    pub open spec fn word(&self, addr: int) -> int {
        self.byte(addr) as int + 256 * self.byte(addr + 1) as int
    }

    /// An empty bus: every byte is zero.
    pub fn new() -> (r: Self)
        ensures
            r.wf(),
            forall|a: int| 0 <= a < 0x100_0000 ==> #[trigger] r@[a] == 0,
    {
        let memory: Vec<u8> = vec![0u8; 0x100_0000];
        proof {
            assert forall|a: int| 0 <= a < 0x100_0000 implies #[trigger] memory@[a] == 0 by {
                assert(vstd::pervasive::cloned(0u8, memory@[a]));
            }
        }
        Self { memory }
    }

    /// Writes `val` at `addr`; only the low 24 bits of `addr` count.
    pub fn write_byte(&mut self, addr: u32, val: u8)
        requires
            old(self).wf(),
        ensures
            final(self).wf(),
            final(self)@ == old(self)@.update(wrap24(addr as int), val),
    {
        let a = (addr % ADDRESS_SPACE) as usize;
        self.memory.set(a, val);
    }

    /// Reads the byte at `addr`; only the low 24 bits of `addr` count.
    pub fn read_byte(&self, addr: u32) -> (r: u8)
        requires
            self.wf(),
        ensures
            r == self.byte(addr as int),
    {
        self.memory[(addr % ADDRESS_SPACE) as usize]
    }

    /// Reads the byte at `addr`, zero-extended to 32 bits.
    pub fn read_wide(&self, addr: u32) -> (r: u32)
        requires
            self.wf(),
        ensures
            r == self.byte(addr as int) as u32,
    {
        self.read_byte(addr) as u32
    }

    /// Reads the little-endian word at `addr` and `addr + 1`.
    pub fn r16(&self, addr: u32) -> (r: u16)
        requires
            self.wf(),
        ensures
            r == self.word(addr as int),
    {
        let lo = self.read_byte(addr);
        let next: u32 = if addr == u32::MAX { 0 } else { addr + 1 };
        proof {
            assert(wrap24(next as int) == wrap24(addr as int + 1));
        }
        let hi = self.read_byte(next);
        (lo as u16) + 256 * (hi as u16)
    }
}

} // verus!
