use vstd::prelude::*;
use crate::cpu::alu::{add16, nz_flags, with_low, Cpu};
use crate::cpu::bits::Word;

verus! {

/// The stack after `v` is pushed at `sp` (in bank 0): its high byte first
/// when `wide`, then its low byte, one address lower each.
pub open spec fn pushed(mem: Seq<u8>, sp: int, v: int, wide: bool) -> Seq<u8> {
    if wide {
        mem.update(sp, ((v / 256) % 256) as u8).update(add16(sp, -1) as int, (v % 256) as u8)
    } else {
        mem.update(sp, (v % 256) as u8)
    }
}

/// The number of bytes that a value of the given width takes on the stack.
pub open spec fn size_of(wide: bool) -> int {
    if wide {
        2
    } else {
        1
    }
}

/// The value that a pull of the given width reads with the stack pointer
/// at `sp`: its low byte at `sp + 1`, its high byte at `sp + 2`.
pub open spec fn pulled(mem: Seq<u8>, sp: int, wide: bool) -> int {
    mem[add16(sp, 1) as int] as int + if wide {
        256 * mem[add16(sp, 2) as int] as int
    } else {
        0
    }
}

/// `t` is `s` after a push of `v` at the given width.
pub open spec fn pushed_to(s: Cpu, t: Cpu, v: int, wide: bool) -> bool {
    &&& t.wf()
    &&& t.bus@ == pushed(s.bus@, s.sp as int, v, wide)
    &&& t == (Cpu { sp: add16(s.sp as int, -size_of(wide)), bus: t.bus, ..s })
}

impl Cpu {
    /// Writes `v` at SP and decrements SP.
    pub fn push_byte(&mut self, v: u8)
        requires
            old(self).wf(),
        ensures
            final(self).wf(),
            final(self).bus@ == old(self).bus@.update(old(self).sp as int, v),
            *final(self) == (Cpu {
                sp: add16(old(self).sp as int, -1),
                bus: final(self).bus,
                ..*old(self)
            }),
    {
        self.bus.write_byte(self.sp as u32, v);
        self.sp = if self.sp == 0 {
            0xFFFF
        } else {
            self.sp - 1
        };
    }

    /// Increments SP and reads the byte there.
    pub fn pull_byte(&mut self) -> (r: u8)
        requires
            old(self).wf(),
        ensures
            r == old(self).bus@[add16(old(self).sp as int, 1) as int],
            *final(self) == (Cpu { sp: add16(old(self).sp as int, 1), ..*old(self) }),
    {
        self.sp = if self.sp == 0xFFFF {
            0
        } else {
            self.sp + 1
        };
        self.bus.read_byte(self.sp as u32)
    }

    /// Pushes `v`: its high byte then its low byte when `wide`, else its
    /// low byte.
    pub fn push(&mut self, v: u16, wide: bool)
        requires
            old(self).wf(),
        ensures
            pushed_to(*old(self), *final(self), v as int, wide),
    {
        let w = Word { data: v };
        if wide {
            self.push_byte(w.hi());
        }
        self.push_byte(w.lo());
    }

    /// Pulls a value: its low byte, then its high byte when `wide`.
    pub fn pull(&mut self, wide: bool) -> (r: u16)
        requires
            old(self).wf(),
        ensures
            r as int == pulled(old(self).bus@, old(self).sp as int, wide),
            *final(self) == (Cpu { sp: add16(old(self).sp as int, size_of(wide)), ..*old(self) }),
    {
        let lo = self.pull_byte();
        if wide {
            let hi = self.pull_byte();
            (lo as u16) + 256 * (hi as u16)
        } else {
            lo as u16
        }
    }

    /// PHA: pushes the accumulator at its width.
    pub fn op_pha(&mut self, opcode: u8)
        requires
            old(self).wf(),
        ensures
            pushed_to(*old(self), *final(self), old(self).reg_a.data as int, old(self).acc_wide()),
    {
        let wide = self.accumulator_wide();
        let a = self.reg_a.data;
        self.push(a, wide);
    }

    /// PHX: pushes X at the index width.
    pub fn op_phx(&mut self, opcode: u8)
        requires
            old(self).wf(),
        ensures
            pushed_to(*old(self), *final(self), old(self).reg_x as int, old(self).index_wide()),
    {
        let wide = self.indexes_wide();
        let x = self.reg_x;
        self.push(x, wide);
    }

    /// PHY: pushes Y at the index width.
    pub fn op_phy(&mut self, opcode: u8)
        requires
            old(self).wf(),
        ensures
            pushed_to(*old(self), *final(self), old(self).reg_y as int, old(self).index_wide()),
    {
        let wide = self.indexes_wide();
        let y = self.reg_y;
        self.push(y, wide);
    }

    /// PHD: pushes the direct-page register (16 bits).
    pub fn op_phd(&mut self, opcode: u8)
        requires
            old(self).wf(),
        ensures
            pushed_to(*old(self), *final(self), old(self).reg_d as int, true),
    {
        let d = self.reg_d;
        self.push(d, true);
    }

    /// PHB: pushes the data bank.
    pub fn op_phb(&mut self, opcode: u8)
        requires
            old(self).wf(),
        ensures
            pushed_to(*old(self), *final(self), old(self).reg_db as int, false),
    {
        let db = self.reg_db;
        self.push(db as u16, false);
    }

    /// PHK: pushes the program bank.
    pub fn op_phk(&mut self, opcode: u8)
        requires
            old(self).wf(),
        ensures
            pushed_to(*old(self), *final(self), old(self).reg_pb as int, false),
    {
        let pb = self.reg_pb;
        self.push(pb as u16, false);
    }

    /// PHP: pushes the status register.
    pub fn op_php(&mut self, opcode: u8)
        requires
            old(self).wf(),
        ensures
            pushed_to(*old(self), *final(self), old(self).reg_p as int, false),
    {
        let p = self.reg_p;
        self.push(p as u16, false);
    }

    /// PLA: pulls the accumulator at its width; sets N and Z.
    pub fn op_pla(&mut self, opcode: u8)
        requires
            old(self).wf(),
        ensures
            ({
                let wide = old(self).acc_wide();
                let v = pulled(old(self).bus@, old(self).sp as int, wide);
                *final(self) == (Cpu {
                    reg_a: Word { data: with_low(old(self).reg_a.data, v, wide) },
                    reg_p: nz_flags(old(self).reg_p, v, wide),
                    sp: add16(old(self).sp as int, size_of(wide)),
                    ..*old(self)
                })
            }),
    {
        let wide = self.accumulator_wide();
        let v = self.pull(wide);
        self.set_accumulator(v, wide);
    }

    /// PLX: pulls X at the index width; sets N and Z.
    pub fn op_plx(&mut self, opcode: u8)
        requires
            old(self).wf(),
        ensures
            ({
                let wide = old(self).index_wide();
                let v = pulled(old(self).bus@, old(self).sp as int, wide);
                *final(self) == (Cpu {
                    reg_x: v as u16,
                    reg_p: nz_flags(old(self).reg_p, v, wide),
                    sp: add16(old(self).sp as int, size_of(wide)),
                    ..*old(self)
                })
            }),
    {
        let wide = self.indexes_wide();
        let v = self.pull(wide);
        self.reg_x = v;
        self.flag_nz(v, wide);
    }

    /// PLY: pulls Y at the index width; sets N and Z.
    pub fn op_ply(&mut self, opcode: u8)
        requires
            old(self).wf(),
        ensures
            ({
                let wide = old(self).index_wide();
                let v = pulled(old(self).bus@, old(self).sp as int, wide);
                *final(self) == (Cpu {
                    reg_y: v as u16,
                    reg_p: nz_flags(old(self).reg_p, v, wide),
                    sp: add16(old(self).sp as int, size_of(wide)),
                    ..*old(self)
                })
            }),
    {
        let wide = self.indexes_wide();
        let v = self.pull(wide);
        self.reg_y = v;
        self.flag_nz(v, wide);
    }

    /// PLD: pulls the direct-page register (16 bits); sets N and Z.
    pub fn op_pld(&mut self, opcode: u8)
        requires
            old(self).wf(),
        ensures
            ({
                let v = pulled(old(self).bus@, old(self).sp as int, true);
                *final(self) == (Cpu {
                    reg_d: v as u16,
                    reg_p: nz_flags(old(self).reg_p, v, true),
                    sp: add16(old(self).sp as int, 2),
                    ..*old(self)
                })
            }),
    {
        let v = self.pull(true);
        self.reg_d = v;
        self.flag_nz(v, true);
    }

    /// PLB: pulls the data bank; sets N and Z.
    pub fn op_plb(&mut self, opcode: u8)
        requires
            old(self).wf(),
        ensures
            ({
                let v = pulled(old(self).bus@, old(self).sp as int, false);
                *final(self) == (Cpu {
                    reg_db: v as u8,
                    reg_p: nz_flags(old(self).reg_p, v, false),
                    sp: add16(old(self).sp as int, 1),
                    ..*old(self)
                })
            }),
    {
        let v = self.pull(false);
        self.reg_db = v as u8;
        self.flag_nz(v, false);
    }

    /// PLP: pulls the status register.
    pub fn op_plp(&mut self, opcode: u8)
        requires
            old(self).wf(),
        ensures
            ({
                let v = pulled(old(self).bus@, old(self).sp as int, false);
                *final(self) == (Cpu { reg_p: v as u8, sp: add16(old(self).sp as int, 1), ..*old(self) })
            }),
    {
        let v = self.pull(false);
        self.reg_p = v as u8;
    }
}

} // verus!
