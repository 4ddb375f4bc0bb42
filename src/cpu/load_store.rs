use vstd::prelude::*;
use crate::cpu::alu::{
    after_a, decode_group_mode, decode_other_mode, group_mode, masked, nz_flags, operand_len,
    other_mode, with_flag, AddressMode, Cpu, S_CARRY,
};
use crate::cpu::arith::mode_of;
use crate::cpu::bits::Word;

verus! {

/// The mode of an opcode outside the accumulator group.
pub open spec fn other_mode_of(opcode: u8) -> AddressMode {
    other_mode(opcode).unwrap()
}

pub open spec fn is_ldx(opcode: u8) -> bool {
    opcode == 0xA2 || opcode == 0xA6 || opcode == 0xB6 || opcode == 0xAE || opcode == 0xBE
}

pub open spec fn is_ldy(opcode: u8) -> bool {
    opcode == 0xA0 || opcode == 0xA4 || opcode == 0xB4 || opcode == 0xAC || opcode == 0xBC
}

pub open spec fn is_stx(opcode: u8) -> bool {
    opcode == 0x86 || opcode == 0x96 || opcode == 0x8E
}

pub open spec fn is_sty(opcode: u8) -> bool {
    opcode == 0x84 || opcode == 0x94 || opcode == 0x8C
}

pub open spec fn is_stz(opcode: u8) -> bool {
    opcode == 0x64 || opcode == 0x74 || opcode == 0x9C || opcode == 0x9E
}

pub open spec fn is_cpx(opcode: u8) -> bool {
    opcode == 0xE0 || opcode == 0xE4 || opcode == 0xEC
}

pub open spec fn is_cpy(opcode: u8) -> bool {
    opcode == 0xC0 || opcode == 0xC4 || opcode == 0xCC
}

/// The status byte after `reg - m` at the given width: N and Z from the
/// difference, C when `reg >= m` (unsigned).
pub open spec fn compare_flags(p: u8, reg: int, m: int, wide: bool) -> u8 {
    with_flag(
        nz_flags(p, masked(reg, wide) - masked(m, wide), wide),
        S_CARRY,
        masked(reg, wide) >= masked(m, wide),
    )
}

/// The processor after a store of `value` in `mode`: the bus holds the
/// value at the effective address and PC is past the operand.
pub open spec fn stored_to(s: Cpu, t: Cpu, mode: AddressMode, value: int, wide: bool) -> bool {
    &&& t.wf()
    &&& t.bus@ == Cpu::stored(s.bus@, s.effective_address(mode), value, wide)
    &&& t == (Cpu { pc: s.pc_after(operand_len(mode, false)), bus: t.bus, ..s })
}

impl Cpu {
    /// Sets N and Z, and C when `reg >= m` at the given width.
    fn compare(&mut self, reg: u16, m: u16, wide: bool)
        ensures
            *final(self) == (Cpu {
                reg_p: compare_flags(old(self).reg_p, reg as int, m as int, wide),
                ..*old(self)
            }),
    {
        let size: u32 = if wide {
            0x10000
        } else {
            0x100
        };
        let r = reg as u32 % size;
        let v = m as u32 % size;
        let diff = (r + size - v) % size;
        self.flag_nz(diff as u16, wide);
        self.flag(S_CARRY, r >= v);
        assert(masked(diff as int, wide) == masked(r - v, wide));
    }

    /// LDA: loads the operand into the accumulator.
    pub fn op_lda(&mut self, opcode: u8)
        requires
            old(self).wf(),
            opcode / 32 == 5,
            group_mode(opcode) is Some,
        ensures
            *final(self) == after_a(
                *old(self),
                old(self).operand_value(mode_of(opcode), old(self).acc_wide()),
                operand_len(mode_of(opcode), old(self).acc_wide()),
            ),
    {
        let mode = decode_group_mode(opcode).unwrap();
        let wide = self.accumulator_wide();
        let value = self.fetch(mode, wide);
        self.set_accumulator(value, wide);
    }

    /// LDX: loads the operand into X at the index width.
    pub fn op_ldx(&mut self, opcode: u8)
        requires
            old(self).wf(),
            is_ldx(opcode),
        ensures
            ({
                let wide = old(self).index_wide();
                let m = old(self).operand_value(other_mode_of(opcode), wide);
                *final(self) == (Cpu {
                    reg_x: m as u16,
                    reg_p: nz_flags(old(self).reg_p, m, wide),
                    pc: old(self).pc_after(operand_len(other_mode_of(opcode), wide)),
                    ..*old(self)
                })
            }),
    {
        let mode = decode_other_mode(opcode).unwrap();
        let wide = self.indexes_wide();
        let value = self.fetch(mode, wide);
        self.reg_x = value;
        self.flag_nz(value, wide);
    }

    /// LDY: loads the operand into Y at the index width.
    pub fn op_ldy(&mut self, opcode: u8)
        requires
            old(self).wf(),
            is_ldy(opcode),
        ensures
            ({
                let wide = old(self).index_wide();
                let m = old(self).operand_value(other_mode_of(opcode), wide);
                *final(self) == (Cpu {
                    reg_y: m as u16,
                    reg_p: nz_flags(old(self).reg_p, m, wide),
                    pc: old(self).pc_after(operand_len(other_mode_of(opcode), wide)),
                    ..*old(self)
                })
            }),
    {
        let mode = decode_other_mode(opcode).unwrap();
        let wide = self.indexes_wide();
        let value = self.fetch(mode, wide);
        self.reg_y = value;
        self.flag_nz(value, wide);
    }

    /// STA: stores the accumulator at the accumulator width.
    pub fn op_sta(&mut self, opcode: u8)
        requires
            old(self).wf(),
            opcode / 32 == 4,
            opcode != 0x89,
            group_mode(opcode) is Some,
        ensures
            stored_to(
                *old(self),
                *final(self),
                mode_of(opcode),
                old(self).reg_a.data as int,
                old(self).acc_wide(),
            ),
    {
        let mode = decode_group_mode(opcode).unwrap();
        let wide = self.accumulator_wide();
        let value = self.reg_a;
        self.store(mode, &value, wide);
    }

    /// STX: stores X at the index width.
    pub fn op_stx(&mut self, opcode: u8)
        requires
            old(self).wf(),
            is_stx(opcode),
        ensures
            stored_to(
                *old(self),
                *final(self),
                other_mode_of(opcode),
                old(self).reg_x as int,
                old(self).index_wide(),
            ),
    {
        let mode = decode_other_mode(opcode).unwrap();
        let wide = self.indexes_wide();
        let value = Word { data: self.reg_x };
        self.store(mode, &value, wide);
    }

    /// STY: stores Y at the index width.
    pub fn op_sty(&mut self, opcode: u8)
        requires
            old(self).wf(),
            is_sty(opcode),
        ensures
            stored_to(
                *old(self),
                *final(self),
                other_mode_of(opcode),
                old(self).reg_y as int,
                old(self).index_wide(),
            ),
    {
        let mode = decode_other_mode(opcode).unwrap();
        let wide = self.indexes_wide();
        let value = Word { data: self.reg_y };
        self.store(mode, &value, wide);
    }

    /// STZ: stores zero at the accumulator width.
    pub fn op_stz(&mut self, opcode: u8)
        requires
            old(self).wf(),
            is_stz(opcode),
        ensures
            stored_to(*old(self), *final(self), other_mode_of(opcode), 0, old(self).acc_wide()),
    {
        let mode = decode_other_mode(opcode).unwrap();
        let wide = self.accumulator_wide();
        let zero_value = Word { data: 0 };
        self.store(mode, &zero_value, wide);
    }

    /// CMP: compares the accumulator with the operand.
    pub fn op_cmp(&mut self, opcode: u8)
        requires
            old(self).wf(),
            opcode / 32 == 6,
            group_mode(opcode) is Some,
        ensures
            ({
                let wide = old(self).acc_wide();
                let m = old(self).operand_value(mode_of(opcode), wide);
                *final(self) == (Cpu {
                    reg_p: compare_flags(old(self).reg_p, old(self).reg_a.data as int, m, wide),
                    pc: old(self).pc_after(operand_len(mode_of(opcode), wide)),
                    ..*old(self)
                })
            }),
    {
        let mode = decode_group_mode(opcode).unwrap();
        let wide = self.accumulator_wide();
        let operand = self.fetch(mode, wide);
        let a = self.reg_a.data;
        self.compare(a, operand, wide);
    }

    /// CPX: compares X with the operand at the index width.
    pub fn op_cpx(&mut self, opcode: u8)
        requires
            old(self).wf(),
            is_cpx(opcode),
        ensures
            ({
                let wide = old(self).index_wide();
                let m = old(self).operand_value(other_mode_of(opcode), wide);
                *final(self) == (Cpu {
                    reg_p: compare_flags(old(self).reg_p, old(self).reg_x as int, m, wide),
                    pc: old(self).pc_after(operand_len(other_mode_of(opcode), wide)),
                    ..*old(self)
                })
            }),
    {
        let mode = decode_other_mode(opcode).unwrap();
        let wide = self.indexes_wide();
        let operand = self.fetch(mode, wide);
        let x = self.reg_x;
        self.compare(x, operand, wide);
    }

    /// CPY: compares Y with the operand at the index width.
    pub fn op_cpy(&mut self, opcode: u8)
        requires
            old(self).wf(),
            is_cpy(opcode),
        ensures
            ({
                let wide = old(self).index_wide();
                let m = old(self).operand_value(other_mode_of(opcode), wide);
                *final(self) == (Cpu {
                    reg_p: compare_flags(old(self).reg_p, old(self).reg_y as int, m, wide),
                    pc: old(self).pc_after(operand_len(other_mode_of(opcode), wide)),
                    ..*old(self)
                })
            }),
    {
        let mode = decode_other_mode(opcode).unwrap();
        let wide = self.indexes_wide();
        let operand = self.fetch(mode, wide);
        let y = self.reg_y;
        self.compare(y, operand, wide);
    }
}

} // verus!
