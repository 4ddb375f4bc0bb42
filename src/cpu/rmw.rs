use vstd::prelude::*;
use crate::cpu::alu::{
    decode_other_mode, lemma_masked_twice, masked, nz_flags, operand_len, other_mode, top_bit, with_flag,
    with_low, AddressMode, Cpu, S_CARRY,
};
use crate::cpu::bits::Word;

verus! {

/// Whether `opcode` is an ASL, ROL, LSR or ROR; `opcode / 32` tells which.
pub open spec fn is_shift(opcode: u8) -> bool {
    let low = opcode % 32;
    opcode / 32 < 4 && (low == 0x0A || low == 0x06 || low == 0x16 || low == 0x0E || low == 0x1E)
}

pub open spec fn is_inc(opcode: u8) -> bool {
    opcode == 0x1A || opcode == 0xE6 || opcode == 0xF6 || opcode == 0xEE || opcode == 0xFE
}

pub open spec fn is_dec(opcode: u8) -> bool {
    opcode == 0x3A || opcode == 0xC6 || opcode == 0xD6 || opcode == 0xCE || opcode == 0xDE
}

/// The value that a read-modify-write instruction works on: the
/// accumulator when the opcode has no memory operand, else the operand.
pub open spec fn rmw_value(s: Cpu, opcode: u8) -> int {
    let wide = s.acc_wide();
    match other_mode(opcode) {
        Some(mode) => s.operand_value(mode, wide),
        None => masked(s.reg_a.data as int, wide),
    }
}

/// `t` is `s` after a read-modify-write instruction that wrote `r` back
/// to where it read and left `p` in the status register.
pub open spec fn rmw_done(s: Cpu, t: Cpu, opcode: u8, r: int, p: u8) -> bool {
    let wide = s.acc_wide();
    match other_mode(opcode) {
        Some(mode) => {
            &&& t.wf()
            &&& t.bus@ == Cpu::stored(s.bus@, s.effective_address(mode), r, wide)
            &&& t == (Cpu { pc: s.pc_after(operand_len(mode, false)), bus: t.bus, reg_p: p, ..s })
        },
        None => t == (Cpu { reg_a: Word { data: with_low(s.reg_a.data, r, wide) }, reg_p: p, ..s }),
    }
}

/// The result of a shift or rotation of `v` at the given width: kind 0
/// ASL, 1 ROL, 2 LSR, 3 ROR; the rotations shift `c` in.
pub open spec fn shifted(kind: int, v: int, c: bool, wide: bool) -> int {
    let cin: int = if c {
        1
    } else {
        0
    };
    if kind == 0 {
        masked(v * 2, wide)
    } else if kind == 1 {
        masked(v * 2 + cin, wide)
    } else if kind == 2 {
        masked(v, wide) / 2
    } else {
        masked(v, wide) / 2 + cin * top_bit(wide)
    }
}

/// The bit that a shift or rotation moves out into C.
pub open spec fn shifted_out(kind: int, v: int, wide: bool) -> bool {
    if kind < 2 {
        masked(v, wide) >= top_bit(wide)
    } else {
        masked(v, wide) % 2 == 1
    }
}

/// `v ± 1` at the given width.
pub open spec fn stepped(v: int, up: bool, wide: bool) -> int {
    if up {
        masked(v + 1, wide)
    } else {
        masked(v - 1, wide)
    }
}

/// `t` is `s` after the shift or rotation `opcode`: the value is shifted,
/// C takes the bit moved out, N and Z are set from the result.
pub open spec fn shift_done(s: Cpu, t: Cpu, opcode: u8) -> bool {
    let wide = s.acc_wide();
    let v = rmw_value(s, opcode);
    let kind = opcode / 32;
    let r = shifted(kind as int, v, s.reg_p & S_CARRY != 0, wide);
    rmw_done(s, t, opcode, r, nz_flags(with_flag(s.reg_p, S_CARRY, shifted_out(kind as int, v, wide)), r, wide))
}

/// `t` is `s` after the increment (`up`) or decrement `opcode`.
pub open spec fn step_done(s: Cpu, t: Cpu, opcode: u8, up: bool) -> bool {
    let wide = s.acc_wide();
    let r = stepped(rmw_value(s, opcode), up, wide);
    rmw_done(s, t, opcode, r, nz_flags(s.reg_p, r, wide))
}

/// The processor after an index register is written (`r` at the index
/// width) and N and Z are set from it; `which` picks X (true) or Y.
pub open spec fn after_index(s: Cpu, which: bool, r: int) -> Cpu {
    let wide = s.index_wide();
    if which {
        Cpu { reg_x: masked(r, wide) as u16, reg_p: nz_flags(s.reg_p, r, wide), ..s }
    } else {
        Cpu { reg_y: masked(r, wide) as u16, reg_p: nz_flags(s.reg_p, r, wide), ..s }
    }
}

fn shift_value(kind: u8, v: u16, c: bool, wide: bool) -> (r: (u16, bool))
    requires
        kind < 4,
    ensures
        r.0 as int == shifted(kind as int, v as int, c, wide),
        r.1 == shifted_out(kind as int, v as int, wide),
{
    let size: u32 = if wide {
        0x10000
    } else {
        0x100
    };
    let top: u32 = if wide {
        0x8000
    } else {
        0x80
    };
    let m = v as u32 % size;
    let cin: u32 = if c {
        1
    } else {
        0
    };
    let r = if kind == 0 {
        (m * 2) % size
    } else if kind == 1 {
        (m * 2 + cin) % size
    } else if kind == 2 {
        m / 2
    } else {
        m / 2 + cin * top
    };
    let out = if kind < 2 {
        m >= top
    } else {
        m % 2 == 1
    };
    assert(masked(v as int * 2, wide) == (m * 2) % size as int);
    assert(masked(v as int * 2 + cin, wide) == (m * 2 + cin) % size as int);
    (r as u16, out)
}

fn step_value(v: u16, up: bool, wide: bool) -> (r: u16)
    ensures
        r as int == stepped(v as int, up, wide),
{
    let size: u32 = if wide {
        0x10000
    } else {
        0x100
    };
    let m = v as u32 % size;
    let r = if up {
        (m + 1) % size
    } else {
        (m + size - 1) % size
    };
    assert(masked(v as int + 1, wide) == (m + 1) % size as int);
    assert(masked(v as int - 1, wide) == (m + size - 1) % size as int);
    r as u16
}

impl Cpu {
    /// Reads the value of a read-modify-write instruction; for a memory
    /// operand also returns its effective address, PC then past the operand.
    fn rmw_load(&mut self, opcode: u8) -> (r: (u16, u32))
        requires
            old(self).wf(),
            other_mode(opcode) != Some(AddressMode::Immediate),
        ensures
            r.0 as int == rmw_value(*old(self), opcode),
            r.1 < 0x100_0000,
            match other_mode(opcode) {
                Some(mode) => r.1 as int == old(self).effective_address(mode) && *final(self) == (Cpu {
                    pc: old(self).pc_after(operand_len(mode, false)),
                    ..*old(self)
                }),
                None => *final(self) == *old(self),
            },
    {
        let wide = self.accumulator_wide();
        match decode_other_mode(opcode) {
            Some(mode) => {
                let ea = self.operand_address(mode);
                let lo = self.bus.read_byte(ea);
                let value = if wide {
                    (lo as u16) + 256 * (self.bus.read_byte(ea + 1) as u16)
                } else {
                    lo as u16
                };
                (value, ea)
            },
            None => {
                let a = self.reg_a.data;
                (if wide {
                    a
                } else {
                    a % 256
                }, 0)
            },
        }
    }

    /// Writes back the result of a read-modify-write instruction.
    fn rmw_store(&mut self, opcode: u8, ea: u32, r: u16, wide: bool)
        requires
            old(self).wf(),
            ea < 0x100_0000,
        ensures
            final(self).wf(),
            match other_mode(opcode) {
                Some(mode) => final(self).bus@ == Cpu::stored(old(self).bus@, ea as int, r as int, wide)
                    && *final(self) == (Cpu { bus: final(self).bus, ..*old(self) }),
                None => *final(self) == (Cpu {
                    reg_a: Word { data: with_low(old(self).reg_a.data, r as int, wide) },
                    ..*old(self)
                }),
            },
    {
        match decode_other_mode(opcode) {
            Some(_) => {
                let value = Word { data: r };
                self.bus.write_byte(ea, value.lo());
                if wide {
                    self.bus.write_byte(ea + 1, value.hi());
                }
            },
            None => {
                let a = self.reg_a.data;
                self.reg_a = Word {
                    data: if wide {
                        r
                    } else {
                        (a / 256) * 256 + r % 256
                    },
                };
            },
        }
    }

    fn shift(&mut self, opcode: u8)
        requires
            old(self).wf(),
            is_shift(opcode),
        ensures
            shift_done(*old(self), *final(self), opcode),
    {
        let wide = self.accumulator_wide();
        let (v, ea) = self.rmw_load(opcode);
        let (r, out) = shift_value(opcode / 32, v, self.reg_p & S_CARRY != 0, wide);
        self.flag(S_CARRY, out);
        self.flag_nz(r, wide);
        self.rmw_store(opcode, ea, r, wide);
    }

    fn step_target(&mut self, opcode: u8, up: bool)
        requires
            old(self).wf(),
            if up {
                is_inc(opcode)
            } else {
                is_dec(opcode)
            },
        ensures
            step_done(*old(self), *final(self), opcode, up),
    {
        let wide = self.accumulator_wide();
        let (v, ea) = self.rmw_load(opcode);
        let r = step_value(v, up, wide);
        self.flag_nz(r, wide);
        self.rmw_store(opcode, ea, r, wide);
    }
    /// ASL: shifts left; C takes the top bit.
    pub fn op_asl(&mut self, opcode: u8)
        requires
            old(self).wf(),
            is_shift(opcode),
            opcode / 32 == 0,
        ensures
            shift_done(*old(self), *final(self), opcode),
    {
        self.shift(opcode);
    }

    /// ROL: rotates left through C.
    pub fn op_rol(&mut self, opcode: u8)
        requires
            old(self).wf(),
            is_shift(opcode),
            opcode / 32 == 1,
        ensures
            shift_done(*old(self), *final(self), opcode),
    {
        self.shift(opcode);
    }

    /// LSR: shifts right; C takes the low bit, N ends clear.
    pub fn op_lsr(&mut self, opcode: u8)
        requires
            old(self).wf(),
            is_shift(opcode),
            opcode / 32 == 2,
        ensures
            shift_done(*old(self), *final(self), opcode),
    {
        self.shift(opcode);
    }

    /// ROR: rotates right through C.
    pub fn op_ror(&mut self, opcode: u8)
        requires
            old(self).wf(),
            is_shift(opcode),
            opcode / 32 == 3,
        ensures
            shift_done(*old(self), *final(self), opcode),
    {
        self.shift(opcode);
    }

    /// INC: adds one to the accumulator or the memory operand.
    pub fn op_inc(&mut self, opcode: u8)
        requires
            old(self).wf(),
            is_inc(opcode),
        ensures
            step_done(*old(self), *final(self), opcode, true),
    {
        self.step_target(opcode, true);
    }

    /// DEC: subtracts one from the accumulator or the memory operand.
    pub fn op_dec(&mut self, opcode: u8)
        requires
            old(self).wf(),
            is_dec(opcode),
        ensures
            step_done(*old(self), *final(self), opcode, false),
    {
        self.step_target(opcode, false);
    }

    /// INX: X ← X + 1 at the index width.
    pub fn op_inx(&mut self, opcode: u8)
        ensures
            *final(self) == after_index(*old(self), true, old(self).reg_x as int + 1),
    {
        let wide = self.indexes_wide();
        let r = step_value(self.reg_x, true, wide);
        proof {
            lemma_masked_twice(self.reg_x as int + 1, wide);
        }
        self.reg_x = r;
        self.flag_nz(r, wide);
    }

    /// INY: Y ← Y + 1 at the index width.
    pub fn op_iny(&mut self, opcode: u8)
        ensures
            *final(self) == after_index(*old(self), false, old(self).reg_y as int + 1),
    {
        let wide = self.indexes_wide();
        let r = step_value(self.reg_y, true, wide);
        proof {
            lemma_masked_twice(self.reg_y as int + 1, wide);
        }
        self.reg_y = r;
        self.flag_nz(r, wide);
    }

    /// DEX: X ← X - 1 at the index width.
    pub fn op_dex(&mut self, opcode: u8)
        ensures
            *final(self) == after_index(*old(self), true, old(self).reg_x as int - 1),
    {
        let wide = self.indexes_wide();
        let r = step_value(self.reg_x, false, wide);
        proof {
            lemma_masked_twice(self.reg_x as int - 1, wide);
        }
        self.reg_x = r;
        self.flag_nz(r, wide);
    }

    /// DEY: Y ← Y - 1 at the index width.
    pub fn op_dey(&mut self, opcode: u8)
        ensures
            *final(self) == after_index(*old(self), false, old(self).reg_y as int - 1),
    {
        let wide = self.indexes_wide();
        let r = step_value(self.reg_y, false, wide);
        proof {
            lemma_masked_twice(self.reg_y as int - 1, wide);
        }
        self.reg_y = r;
        self.flag_nz(r, wide);
    }
}

} // verus!
