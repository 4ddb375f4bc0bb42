use vstd::prelude::*;
use crate::cpu::alu::{
    add16, after_a, has_flag, nz_flags, with_flag, Cpu, S_CARRY, S_DECIMAL_MODE, S_IRQ_DISABLE,
    S_OVERFLOW, WIDTH_FLAGS,
};
use crate::cpu::bits::Word;
use crate::cpu::rmw::after_index;

verus! {

/// The mask that REP and SEP apply: in emulation M and X are left alone.
pub open spec fn effective_mask(mask: u8, emulation: bool) -> u8 {
    if emulation {
        mask & 0xCF
    } else {
        mask
    }
}

/// P after XCE: C takes the old emulation flag; M and X are set unless the
/// processor was and stays in native mode.
pub open spec fn xce_flags(p: u8, emulation: bool) -> u8 {
    let c = with_flag(p, S_CARRY, emulation);
    if !emulation && !has_flag(p, S_CARRY) {
        c
    } else {
        c | WIDTH_FLAGS
    }
}

pub open spec fn is_transfer(opcode: u8) -> bool {
    opcode == 0xAA || opcode == 0xA8 || opcode == 0xBA || opcode == 0x8A || opcode == 0x98
        || opcode == 0x5B || opcode == 0x7B || opcode == 0x1B || opcode == 0x3B
}

/// The processor after the register transfer `opcode`. TAX, TAY and TSX
/// write an index register at the index width, TXA and TYA the accumulator
/// at its width, each setting N and Z from the value at that width. TCD,
/// TDC, TCS and TSC move the whole 16-bit accumulator (C), as the 65C816
/// does whatever M says, since D and SP are 16-bit registers; TCD, TDC and
/// TSC set N and Z from the 16-bit value, while TCS, like TXS, changes no
/// flags.
pub open spec fn transferred(s: Cpu, opcode: u8) -> Cpu {
    let a = s.reg_a.data as int;
    if opcode == 0xAA {
        after_index(s, true, a)
    } else if opcode == 0xA8 {
        after_index(s, false, a)
    } else if opcode == 0xBA {
        after_index(s, true, s.sp as int)
    } else if opcode == 0x8A {
        after_a(s, s.reg_x as int, 0)
    } else if opcode == 0x98 {
        after_a(s, s.reg_y as int, 0)
    } else if opcode == 0x5B {
        Cpu { reg_d: s.reg_a.data, reg_p: nz_flags(s.reg_p, a, true), ..s }
    } else if opcode == 0x7B {
        Cpu { reg_a: Word { data: s.reg_d }, reg_p: nz_flags(s.reg_p, s.reg_d as int, true), ..s }
    } else if opcode == 0x1B {
        Cpu { sp: s.reg_a.data, ..s }
    } else {
        Cpu { reg_a: Word { data: s.sp }, reg_p: nz_flags(s.reg_p, s.sp as int, true), ..s }
    }
}

impl Cpu {
    /// CLC: clears C.
    pub fn op_clc(&mut self, opcode: u8)
        ensures
            *final(self) == (Cpu { reg_p: with_flag(old(self).reg_p, S_CARRY, false), ..*old(self) }),
    {
        self.flag(S_CARRY, false);
    }

    /// SEC: sets C.
    pub fn op_sec(&mut self, opcode: u8)
        ensures
            *final(self) == (Cpu { reg_p: with_flag(old(self).reg_p, S_CARRY, true), ..*old(self) }),
    {
        self.flag(S_CARRY, true);
    }

    /// CLD: clears D.
    pub fn op_cld(&mut self, opcode: u8)
        ensures
            *final(self) == (Cpu {
                reg_p: with_flag(old(self).reg_p, S_DECIMAL_MODE, false),
                ..*old(self)
            }),
    {
        self.flag(S_DECIMAL_MODE, false);
    }

    /// SED: sets D.
    pub fn op_sed(&mut self, opcode: u8)
        ensures
            *final(self) == (Cpu {
                reg_p: with_flag(old(self).reg_p, S_DECIMAL_MODE, true),
                ..*old(self)
            }),
    {
        self.flag(S_DECIMAL_MODE, true);
    }

    /// CLI: clears I.
    pub fn op_cli(&mut self, opcode: u8)
        ensures
            *final(self) == (Cpu {
                reg_p: with_flag(old(self).reg_p, S_IRQ_DISABLE, false),
                ..*old(self)
            }),
    {
        self.flag(S_IRQ_DISABLE, false);
    }

    /// SEI: sets I.
    pub fn op_sei(&mut self, opcode: u8)
        ensures
            *final(self) == (Cpu {
                reg_p: with_flag(old(self).reg_p, S_IRQ_DISABLE, true),
                ..*old(self)
            }),
    {
        self.flag(S_IRQ_DISABLE, true);
    }

    /// CLV: clears V.
    pub fn op_clv(&mut self, opcode: u8)
        ensures
            *final(self) == (Cpu { reg_p: with_flag(old(self).reg_p, S_OVERFLOW, false), ..*old(self) }),
    {
        self.flag(S_OVERFLOW, false);
    }

    /// REP #mask: clears the bits of P that the mask sets.
    pub fn op_rep(&mut self, opcode: u8)
        requires
            old(self).wf(),
        ensures
            *final(self) == (Cpu {
                reg_p: old(self).reg_p & !effective_mask(old(self).code_byte(1), old(self).emulation),
                pc: old(self).pc_after(1),
                ..*old(self)
            }),
    {
        let mut mask = self.next_byte();
        if self.emulation {
            mask = mask & 0xCF;
        }
        self.reg_p = self.reg_p & !mask;
    }

    /// SEP #mask: sets the bits of P that the mask sets.
    pub fn op_sep(&mut self, opcode: u8)
        requires
            old(self).wf(),
        ensures
            *final(self) == (Cpu {
                reg_p: old(self).reg_p | effective_mask(old(self).code_byte(1), old(self).emulation),
                pc: old(self).pc_after(1),
                ..*old(self)
            }),
    {
        let mut mask = self.next_byte();
        if self.emulation {
            mask = mask & 0xCF;
        }
        self.reg_p = self.reg_p | mask;
    }

    /// XCE: exchanges C and the emulation flag (see `xce_flags`).
    pub fn op_xce(&mut self, opcode: u8)
        ensures
            *final(self) == (Cpu {
                reg_p: xce_flags(old(self).reg_p, old(self).emulation),
                emulation: has_flag(old(self).reg_p, S_CARRY),
                ..*old(self)
            }),
    {
        let carry = self.reg_p & S_CARRY != 0;
        let was = self.emulation;
        self.flag(S_CARRY, was);
        self.emulation = carry;
        if was || carry {
            self.reg_p = self.reg_p | WIDTH_FLAGS;
        }
    }

    /// TXS: SP ← X.
    pub fn op_txs(&mut self, opcode: u8)
        ensures
            *final(self) == (Cpu { sp: old(self).reg_x, ..*old(self) }),
    {
        self.sp = self.reg_x;
    }

    /// TAX, TAY, TSX, TXA, TYA, TCD, TDC, TCS, TSC: copies one register
    /// into another (see `transferred`).
    pub fn op_transfer(&mut self, opcode: u8)
        requires
            is_transfer(opcode),
        ensures
            *final(self) == transferred(*old(self), opcode),
    {
        let a = self.reg_a.data;
        match opcode {
            0xAA | 0xA8 | 0xBA => {
                let wide = self.indexes_wide();
                let v = if opcode == 0xBA {
                    self.sp
                } else {
                    a
                };
                let r = if wide {
                    v
                } else {
                    v % 256
                };
                if opcode == 0xA8 {
                    self.reg_y = r;
                } else {
                    self.reg_x = r;
                }
                self.flag_nz(v, wide);
            },
            0x8A | 0x98 => {
                let wide = self.accumulator_wide();
                let v = if opcode == 0x8A {
                    self.reg_x
                } else {
                    self.reg_y
                };
                self.set_accumulator(v, wide);
                assert(self.pc == add16(self.pc as int, 0));
            },
            0x5B => {
                self.reg_d = a;
                self.flag_nz(a, true);
            },
            0x7B => {
                let d = self.reg_d;
                self.reg_a = Word { data: d };
                self.flag_nz(d, true);
            },
            0x1B => {
                self.sp = a;
            },
            _ => {
                let sp = self.sp;
                self.reg_a = Word { data: sp };
                self.flag_nz(sp, true);
            },
        }
    }
}

} // verus!
