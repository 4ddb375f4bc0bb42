use vstd::prelude::*;
use crate::cpu::alu::{
    after_a, decode_group_mode, decode_other_mode, group_mode, masked, operand_len, other_mode,
    top_bit, with_flag, AddressMode, Cpu, S_NEGATIVE, S_OVERFLOW, S_RESULT_ZERO,
};
use crate::cpu::arith::mode_of;

verus! {

/// The status byte after BIT of accumulator `a` with operand `m`: Z from
/// `a AND m`; unless the operand is immediate, N and V from its two top bits.
pub open spec fn bit_flags(p: u8, a: u16, m: u16, wide: bool, immediate: bool) -> u8 {
    let z = with_flag(p, S_RESULT_ZERO, masked((a & m) as int, wide) == 0);
    if immediate {
        z
    } else {
        with_flag(
            with_flag(z, S_NEGATIVE, masked(m as int, wide) >= top_bit(wide)),
            S_OVERFLOW,
            (masked(m as int, wide) / (top_bit(wide) / 2)) % 2 == 1,
        )
    }
}

/// The mode of a BIT opcode.
pub open spec fn bit_mode(opcode: u8) -> AddressMode {
    other_mode(opcode).unwrap()
}

/// Whether `opcode` is one of the five BIT opcodes.
pub open spec fn is_bit(opcode: u8) -> bool {
    opcode == 0x89 || opcode == 0x24 || opcode == 0x34 || opcode == 0x2C || opcode == 0x3C
}

impl Cpu {
    /// AND: A ← A AND operand.
    pub fn op_and(&mut self, opcode: u8)
        requires
            old(self).wf(),
            opcode / 32 == 1,
            group_mode(opcode) is Some,
        ensures
            *final(self) == after_a(
                *old(self),
                (old(self).reg_a.data & (old(self).operand_value(
                    mode_of(opcode),
                    old(self).acc_wide(),
                ) as u16)) as int,
                operand_len(mode_of(opcode), old(self).acc_wide()),
            ),
    {
        let mode = decode_group_mode(opcode).unwrap();
        let wide = self.accumulator_wide();
        let value = self.fetch(mode, wide);
        let r = self.reg_a.data & value;
        self.set_accumulator(r, wide);
    }

    /// EOR: A ← A XOR operand.
    pub fn op_eor(&mut self, opcode: u8)
        requires
            old(self).wf(),
            opcode / 32 == 2,
            group_mode(opcode) is Some,
        ensures
            *final(self) == after_a(
                *old(self),
                (old(self).reg_a.data ^ (old(self).operand_value(
                    mode_of(opcode),
                    old(self).acc_wide(),
                ) as u16)) as int,
                operand_len(mode_of(opcode), old(self).acc_wide()),
            ),
    {
        let mode = decode_group_mode(opcode).unwrap();
        let wide = self.accumulator_wide();
        let value = self.fetch(mode, wide);
        let r = self.reg_a.data ^ value;
        self.set_accumulator(r, wide);
    }

    /// ORA: A ← A OR operand.
    pub fn op_ora(&mut self, opcode: u8)
        requires
            old(self).wf(),
            opcode / 32 == 0,
            group_mode(opcode) is Some,
        ensures
            *final(self) == after_a(
                *old(self),
                (old(self).reg_a.data | (old(self).operand_value(
                    mode_of(opcode),
                    old(self).acc_wide(),
                ) as u16)) as int,
                operand_len(mode_of(opcode), old(self).acc_wide()),
            ),
    {
        let mode = decode_group_mode(opcode).unwrap();
        let wide = self.accumulator_wide();
        let value = self.fetch(mode, wide);
        let r = self.reg_a.data | value;
        self.set_accumulator(r, wide);
    }

    /// BIT: tests the operand against the accumulator (see `bit_flags`);
    /// neither changes.
    pub fn op_bit(&mut self, opcode: u8)
        requires
            old(self).wf(),
            is_bit(opcode),
        ensures
            *final(self) == (Cpu {
                reg_p: bit_flags(
                    old(self).reg_p,
                    old(self).reg_a.data,
                    old(self).operand_value(bit_mode(opcode), old(self).acc_wide()) as u16,
                    old(self).acc_wide(),
                    opcode == 0x89,
                ),
                pc: old(self).pc_after(operand_len(bit_mode(opcode), old(self).acc_wide())),
                ..*old(self)
            }),
    {
        let mode = decode_other_mode(opcode).unwrap();
        let wide = self.accumulator_wide();
        let value = self.fetch(mode, wide);
        let top: u16 = if wide {
            0x8000
        } else {
            0x80
        };
        let m = if wide {
            value
        } else {
            value % 256
        };
        let r = self.reg_a.data & value;
        let rm = if wide {
            r
        } else {
            r % 256
        };
        self.flag(S_RESULT_ZERO, rm == 0);
        if opcode != 0x89 {
            self.flag(S_NEGATIVE, m >= top);
            self.flag(S_OVERFLOW, (m / (top / 2)) % 2 == 1);
        }
    }
}

} // verus!
