use vstd::prelude::*;
use crate::cpu::alu::{add16, after_a, decode_group_mode, group_mode, has_flag, nz_flags, operand_len, with_flag, Cpu, S_CARRY,
    S_DECIMAL_MODE, S_IRQ_DISABLE, S_OVERFLOW,
};
use crate::cpu::arith::{after_sum, mode_of, subtrahend};
use crate::cpu::flow::{branch_taken, is_branch, is_jmp, jmp_target, sign_extend};
use crate::cpu::load_store::{
    compare_flags, is_cpx, is_cpy, is_ldx, is_ldy, is_stx, is_sty, is_stz, other_mode_of, stored_to,
};
use crate::cpu::logic::{bit_flags, bit_mode, is_bit};
use crate::cpu::rmw::{after_index, is_dec, is_inc, is_shift, shift_done, step_done};
use crate::cpu::stack::{pulled, pushed, pushed_to, size_of};
use crate::cpu::status::{effective_mask, is_transfer, transferred, xce_flags};
use crate::cpu::bits::Word;

verus! {

/// An opcode that the core does not implement, and where it was read.
#[derive(Debug, Clone, Copy, PartialEq, Eq, Structural)]
pub struct ExecFault {
    pub opcode: u8,
    pub pc: u16,
}

/// An opcode of the accumulator group (BIT #imm excepted).
pub open spec fn is_group(opcode: u8) -> bool {
    group_mode(opcode) is Some && opcode != 0x89
}

/// `t` is `s` after the accumulator-group instruction `opcode`.
pub open spec fn group_executes(s: Cpu, t: Cpu, opcode: u8) -> bool {
    let k = opcode / 32;
    let mode = mode_of(opcode);
    let w = s.acc_wide();
    let m = s.operand_value(mode, w);
    let len = operand_len(mode, w);
    let a = s.reg_a.data;
    if k == 0 {
        t == after_a(s, (a | (m as u16)) as int, len)
    } else if k == 1 {
        t == after_a(s, (a & (m as u16)) as int, len)
    } else if k == 2 {
        t == after_a(s, (a ^ (m as u16)) as int, len)
    } else if k == 3 {
        t == after_sum(s, m, len)
    } else if k == 4 {
        stored_to(s, t, mode, a as int, w)
    } else if k == 5 {
        t == after_a(s, m, len)
    } else if k == 6 {
        t == (Cpu { reg_p: compare_flags(s.reg_p, a as int, m, w), pc: s.pc_after(len), ..s })
    } else {
        t == after_sum(s, subtrahend(m, s.reg_p, w), len)
    }
}

/// An opcode with an operand outside the accumulator group.
pub open spec fn is_other(opcode: u8) -> bool {
    is_bit(opcode) || is_ldx(opcode) || is_ldy(opcode) || is_stx(opcode) || is_sty(opcode)
        || is_stz(opcode) || is_cpx(opcode) || is_cpy(opcode) || is_shift(opcode) || is_inc(opcode)
        || is_dec(opcode)
}

/// `t` is `s` after the instruction `opcode`, one of `is_other`.
pub open spec fn other_executes(s: Cpu, t: Cpu, opcode: u8) -> bool {
    let mode = other_mode_of(opcode);
    let iw = s.index_wide();
    let m = s.operand_value(mode, iw);
    let len = operand_len(mode, iw);
    if is_bit(opcode) {
        t == (Cpu {
            reg_p: bit_flags(
                s.reg_p,
                s.reg_a.data,
                s.operand_value(bit_mode(opcode), s.acc_wide()) as u16,
                s.acc_wide(),
                opcode == 0x89,
            ),
            pc: s.pc_after(operand_len(bit_mode(opcode), s.acc_wide())),
            ..s
        })
    } else if is_ldx(opcode) {
        t == (Cpu { reg_x: m as u16, reg_p: nz_flags(s.reg_p, m, iw), pc: s.pc_after(len), ..s })
    } else if is_ldy(opcode) {
        t == (Cpu { reg_y: m as u16, reg_p: nz_flags(s.reg_p, m, iw), pc: s.pc_after(len), ..s })
    } else if is_stx(opcode) {
        stored_to(s, t, mode, s.reg_x as int, iw)
    } else if is_sty(opcode) {
        stored_to(s, t, mode, s.reg_y as int, iw)
    } else if is_stz(opcode) {
        stored_to(s, t, mode, 0, s.acc_wide())
    } else if is_cpx(opcode) {
        t == (Cpu { reg_p: compare_flags(s.reg_p, s.reg_x as int, m, iw), pc: s.pc_after(len), ..s })
    } else if is_cpy(opcode) {
        t == (Cpu { reg_p: compare_flags(s.reg_p, s.reg_y as int, m, iw), pc: s.pc_after(len), ..s })
    } else if is_shift(opcode) {
        shift_done(s, t, opcode)
    } else {
        step_done(s, t, opcode, is_inc(opcode))
    }
}

/// Whether `opcode` is a status-flag instruction: CLC, SEC, CLD, SED, CLI,
/// SEI or CLV.
pub open spec fn is_flag_op(opcode: u8) -> bool {
    opcode == 0x18 || opcode == 0x38 || opcode == 0xD8 || opcode == 0xF8 || opcode == 0x58
        || opcode == 0x78 || opcode == 0xB8
}

/// The flag that a status-flag instruction writes, and the value.
pub open spec fn flag_op(opcode: u8) -> (u8, bool) {
    if opcode == 0x18 {
        (S_CARRY, false)
    } else if opcode == 0x38 {
        (S_CARRY, true)
    } else if opcode == 0xD8 {
        (S_DECIMAL_MODE, false)
    } else if opcode == 0xF8 {
        (S_DECIMAL_MODE, true)
    } else if opcode == 0x58 {
        (S_IRQ_DISABLE, false)
    } else if opcode == 0x78 {
        (S_IRQ_DISABLE, true)
    } else {
        (S_OVERFLOW, false)
    }
}

/// One-byte instructions: they read nothing after the opcode and leave PC
/// and the program bank alone.
pub open spec fn no_operand(opcode: u8) -> bool {
    is_flag_op(opcode) || is_transfer(opcode) || opcode == 0xFB || opcode == 0x9A || opcode == 0xE8
        || opcode == 0xC8 || opcode == 0xCA || opcode == 0x88 || opcode == 0x48 || opcode == 0xDA
        || opcode == 0x5A || opcode == 0x0B || opcode == 0x8B || opcode == 0x4B || opcode == 0x08
        || opcode == 0x68 || opcode == 0xFA || opcode == 0x7A || opcode == 0x2B || opcode == 0xAB
        || opcode == 0x28
}

/// `t` is `s` after the one-byte instruction `opcode`.
pub open spec fn implied_executes(s: Cpu, t: Cpu, opcode: u8) -> bool {
    let aw = s.acc_wide();
    let iw = s.index_wide();
    let sp = s.sp as int;
    if is_flag_op(opcode) {
        t == (Cpu { reg_p: with_flag(s.reg_p, flag_op(opcode).0, flag_op(opcode).1), ..s })
    } else if is_transfer(opcode) {
        t == transferred(s, opcode)
    } else if opcode == 0xFB {
        t == (Cpu { reg_p: xce_flags(s.reg_p, s.emulation), emulation: has_flag(s.reg_p, S_CARRY), ..s })
    } else if opcode == 0x9A {
        t == (Cpu { sp: s.reg_x, ..s })
    } else if opcode == 0xE8 {
        t == after_index(s, true, s.reg_x as int + 1)
    } else if opcode == 0xC8 {
        t == after_index(s, false, s.reg_y as int + 1)
    } else if opcode == 0xCA {
        t == after_index(s, true, s.reg_x as int - 1)
    } else if opcode == 0x88 {
        t == after_index(s, false, s.reg_y as int - 1)
    } else if opcode == 0x48 {
        pushed_to(s, t, s.reg_a.data as int, aw)
    } else if opcode == 0xDA {
        pushed_to(s, t, s.reg_x as int, iw)
    } else if opcode == 0x5A {
        pushed_to(s, t, s.reg_y as int, iw)
    } else if opcode == 0x0B {
        pushed_to(s, t, s.reg_d as int, true)
    } else if opcode == 0x8B {
        pushed_to(s, t, s.reg_db as int, false)
    } else if opcode == 0x4B {
        pushed_to(s, t, s.reg_pb as int, false)
    } else if opcode == 0x08 {
        pushed_to(s, t, s.reg_p as int, false)
    } else if opcode == 0x68 {
        let v = pulled(s.bus@, sp, aw);
        t == (Cpu {
            reg_a: Word { data: crate::cpu::alu::with_low(s.reg_a.data, v, aw) },
            reg_p: nz_flags(s.reg_p, v, aw),
            sp: add16(sp, size_of(aw)),
            ..s
        })
    } else if opcode == 0xFA {
        let v = pulled(s.bus@, sp, iw);
        t == (Cpu { reg_x: v as u16, reg_p: nz_flags(s.reg_p, v, iw), sp: add16(sp, size_of(iw)), ..s })
    } else if opcode == 0x7A {
        let v = pulled(s.bus@, sp, iw);
        t == (Cpu { reg_y: v as u16, reg_p: nz_flags(s.reg_p, v, iw), sp: add16(sp, size_of(iw)), ..s })
    } else if opcode == 0x2B {
        let v = pulled(s.bus@, sp, true);
        t == (Cpu { reg_d: v as u16, reg_p: nz_flags(s.reg_p, v, true), sp: add16(sp, 2), ..s })
    } else if opcode == 0xAB {
        let v = pulled(s.bus@, sp, false);
        t == (Cpu { reg_db: v as u8, reg_p: nz_flags(s.reg_p, v, false), sp: add16(sp, 1), ..s })
    } else {
        let v = pulled(s.bus@, sp, false);
        t == (Cpu { reg_p: v as u8, sp: add16(sp, 1), ..s })
    }
}

/// Branches, jumps, calls, returns, REP and SEP.
pub open spec fn is_control(opcode: u8) -> bool {
    is_branch(opcode) || is_jmp(opcode) || opcode == 0xDC || opcode == 0x20 || opcode == 0x22
        || opcode == 0x60 || opcode == 0x6B || opcode == 0xC2 || opcode == 0xE2
}

/// `t` is `s` after the instruction `opcode`, one of `is_control`.
pub open spec fn control_executes(s: Cpu, t: Cpu, opcode: u8) -> bool {
    let sp = s.sp as int;
    if is_branch(opcode) {
        t == (Cpu {
            pc: if branch_taken(opcode, s.reg_p) {
                add16(s.pc as int + 1, sign_extend(s.code_byte(1)))
            } else {
                s.pc_after(1)
            },
            ..s
        })
    } else if is_jmp(opcode) {
        t == (Cpu {
            pc: jmp_target(s, opcode) as u16,
            reg_pb: if opcode == 0x5C {
                s.code_byte(3)
            } else {
                s.reg_pb
            },
            ..s
        })
    } else if opcode == 0xDC {
        t == (Cpu {
            pc: s.bus.word(s.code_word()) as u16,
            reg_pb: s.bus.byte(s.code_word() + 2),
            ..s
        })
    } else if opcode == 0x20 {
        &&& t.wf()
        &&& t.bus@ == pushed(s.bus@, sp, s.pc_after(2) as int, true)
        &&& t == (Cpu { pc: add16(s.code_word(), -1), sp: add16(sp, -2), bus: t.bus, ..s })
    } else if opcode == 0x22 {
        &&& t.wf()
        &&& t.bus@ == pushed(
            pushed(s.bus@, sp, s.reg_pb as int, false),
            add16(sp, -1) as int,
            s.pc_after(3) as int,
            true,
        )
        &&& t == (Cpu {
            pc: add16(s.code_word(), -1),
            reg_pb: s.code_byte(3),
            sp: add16(sp, -3),
            bus: t.bus,
            ..s
        })
    } else if opcode == 0x60 {
        t == (Cpu { pc: pulled(s.bus@, sp, true) as u16, sp: add16(sp, 2), ..s })
    } else if opcode == 0x6B {
        t == (Cpu {
            pc: pulled(s.bus@, sp, true) as u16,
            reg_pb: pulled(s.bus@, add16(sp, 2) as int, false) as u8,
            sp: add16(sp, 3),
            ..s
        })
    } else if opcode == 0xC2 {
        t == (Cpu {
            reg_p: s.reg_p & !effective_mask(s.code_byte(1), s.emulation),
            pc: s.pc_after(1),
            ..s
        })
    } else {
        t == (Cpu {
            reg_p: s.reg_p | effective_mask(s.code_byte(1), s.emulation),
            pc: s.pc_after(1),
            ..s
        })
    }
}

/// Whether the core implements `opcode`.
pub open spec fn known_opcode(opcode: u8) -> bool {
    is_group(opcode) || is_other(opcode) || no_operand(opcode) || is_control(opcode)
}

/// `t` is `s` after the handler of `opcode` ran (before the run loop moves
/// PC on to the next opcode).
#[verifier::opaque]
pub open spec fn executes(s: Cpu, t: Cpu, opcode: u8) -> bool {
    if is_group(opcode) {
        group_executes(s, t, opcode)
    } else if is_other(opcode) {
        other_executes(s, t, opcode)
    } else if no_operand(opcode) {
        implied_executes(s, t, opcode)
    } else {
        control_executes(s, t, opcode)
    }
}

/// `t` is `s` after one instruction that the core implements: its handler
/// ran and PC moved on by one.
pub open spec fn stepped(s: Cpu, t: Cpu) -> bool {
    let opcode = s.code_byte(0);
    known_opcode(opcode) && exists|m: Cpu|
        executes(s, m, opcode) && t == (Cpu { pc: add16(m.pc as int, 1), ..m })
}

/// `t` is `s` after `n` instructions that the core implements.
pub open spec fn ran(s: Cpu, t: Cpu, n: nat) -> bool
    decreases n,
{
    if n == 0 {
        s == t
    } else {
        exists|m: Cpu| ran(s, m, (n - 1) as nat) && #[trigger] stepped(m, t)
    }
}

/// Which family `opcode` belongs to: 0 accumulator group, 1 other operand
/// instructions, 2 one-byte instructions, 3 control, 4 none.
fn classify(opcode: u8) -> (r: u8)
    ensures
        r == 0 <==> is_group(opcode),
        r == 1 <==> is_other(opcode) && !is_group(opcode),
        r == 2 <==> no_operand(opcode) && !is_group(opcode) && !is_other(opcode),
        r == 3 <==> is_control(opcode) && !no_operand(opcode) && !is_group(opcode) && !is_other(opcode),
        r == 4 <==> !known_opcode(opcode),
{
    if decode_group_mode(opcode).is_some() && opcode != 0x89 {
        return 0;
    }
    match opcode {
        0x89 | 0x24 | 0x34 | 0x2C | 0x3C | 0xA2 | 0xA6 | 0xB6 | 0xAE | 0xBE | 0xA0 | 0xA4 | 0xB4
        | 0xAC | 0xBC | 0x86 | 0x96 | 0x8E | 0x84 | 0x94 | 0x8C | 0x64 | 0x74 | 0x9C | 0x9E
        | 0xE0 | 0xE4 | 0xEC | 0xC0 | 0xC4 | 0xCC | 0x0A | 0x06 | 0x16 | 0x0E | 0x1E | 0x2A
        | 0x26 | 0x36 | 0x2E | 0x3E | 0x4A | 0x46 | 0x56 | 0x4E | 0x5E | 0x6A | 0x66 | 0x76
        | 0x6E | 0x7E | 0x1A | 0xE6 | 0xF6 | 0xEE | 0xFE | 0x3A | 0xC6 | 0xD6 | 0xCE | 0xDE => 1,
        0x18 | 0x38 | 0xD8 | 0xF8 | 0x58 | 0x78 | 0xB8 | 0xAA | 0xA8 | 0xBA | 0x8A | 0x98 | 0x5B
        | 0x7B | 0x1B | 0x3B | 0xFB | 0x9A | 0xE8 | 0xC8 | 0xCA | 0x88 | 0x48 | 0xDA | 0x5A
        | 0x0B | 0x8B | 0x4B | 0x08 | 0x68 | 0xFA | 0x7A | 0x2B | 0xAB | 0x28 => 2,
        0xD0 | 0xF0 | 0x30 | 0x10 | 0xB0 | 0x90 | 0x50 | 0x70 | 0x80 | 0x4C | 0x6C | 0x7C | 0x5C
        | 0xDC | 0x20 | 0x22 | 0x60 | 0x6B | 0xC2 | 0xE2 => 3,
        _ => 4,
    }
}

proof fn lemma_no_operand_family(opcode: u8)
    requires
        no_operand(opcode),
    ensures
        !is_group(opcode),
        !is_other(opcode),
{
    let low = opcode % 32;
    assert(low == 0x08 || low == 0x0A || low == 0x0B || low == 0x18 || low == 0x1A || low == 0x1B);
}

proof fn lemma_implied_keeps_pc(s: Cpu, t: Cpu, opcode: u8)
    requires
        no_operand(opcode),
        implied_executes(s, t, opcode),
    ensures
        t.pc == s.pc,
        t.reg_pb == s.reg_pb,
{
    if is_transfer(opcode) {
        assert(t == transferred(s, opcode));
    }
}

/// A one-byte instruction leaves PC and the program bank as they were.
pub proof fn lemma_no_operand_keeps_pc(s: Cpu, t: Cpu, opcode: u8)
    requires
        no_operand(opcode),
        executes(s, t, opcode),
    ensures
        t.pc == s.pc,
        t.reg_pb == s.reg_pb,
{
    reveal(executes);
    lemma_no_operand_family(opcode);
    lemma_implied_keeps_pc(s, t, opcode);
}

impl Cpu {
    /// Runs the handler of `opcode`; an opcode that the core does not
    /// implement is a fault that changes nothing.
    pub fn decode_and_execute(&mut self, opcode: u8) -> (r: Result<(), ExecFault>)
        requires
            old(self).wf(),
        ensures
            final(self).wf(),
            r is Ok <==> known_opcode(opcode),
            r is Ok ==> executes(*old(self), *final(self), opcode),
            r is Err ==> *final(self) == *old(self) && r == Err::<(), ExecFault>(
                ExecFault { opcode, pc: old(self).pc },
            ),
    {
        proof {
            reveal(executes);
        }
        match classify(opcode) {
            0 => self.dispatch_group(opcode),
            1 => self.dispatch_other(opcode),
            2 => self.dispatch_implied(opcode),
            3 => self.dispatch_control(opcode),
            _ => {
                return Err(ExecFault { opcode, pc: self.pc });
            },
        }
        Ok(())
    }

    /// Runs one instruction: reads the opcode at PB:PC, runs its handler,
    /// then moves PC on by one within the program bank.
    pub fn step(&mut self) -> (r: Result<(), ExecFault>)
        requires
            old(self).wf(),
        ensures
            final(self).wf(),
            ({
                let opcode = old(self).code_byte(0);
                &&& r is Ok <==> known_opcode(opcode)
                &&& r is Err ==> *final(self) == *old(self) && r == Err::<(), ExecFault>(
                    ExecFault { opcode, pc: old(self).pc },
                )
                &&& r is Ok ==> stepped(*old(self), *final(self))
                &&& r is Ok && no_operand(opcode) ==> final(self).pc == add16(old(self).pc as int, 1)
                    && final(self).reg_pb == old(self).reg_pb
            }),
    {
        let ghost s0 = *self;
        let opcode = self.bus.read_byte(self.pbr_pc());
        assert(opcode == s0.code_byte(0));
        let r = self.decode_and_execute(opcode);
        if r.is_ok() {
            let ghost mid = *self;
            proof {
                if no_operand(opcode) {
                    lemma_no_operand_keeps_pc(s0, mid, opcode);
                }
            }
            assert(executes(s0, mid, opcode));
            self.pc = if self.pc == 0xFFFF {
                0
            } else {
                self.pc + 1
            };
            assert(*self == (Cpu { pc: add16(mid.pc as int, 1), ..mid }));
        }
        r
    }

    /// Runs `steps` instructions, or fewer when it meets an opcode that the
    /// core does not implement: it then stops on it and returns it.
    pub fn start(&mut self, steps: u64) -> (r: Result<(), ExecFault>)
        requires
            old(self).wf(),
        ensures
            final(self).wf(),
            r is Ok ==> ran(*old(self), *final(self), steps as nat),
            r matches Err(f) ==> exists|k: nat| k < steps && #[trigger] ran(*old(self), *final(self), k),
            r matches Err(f) ==> !known_opcode(f.opcode) && f.opcode == final(self).code_byte(0)
                && f.pc == final(self).pc,
    {
        let ghost s0 = *self;
        let mut left = steps;
        while left > 0
            invariant
                self.wf(),
                left <= steps,
                s0 == *old(self),
                ran(s0, *self, (steps - left) as nat),
            decreases left,
        {
            let ghost before = *self;
            match self.step() {
                Ok(()) => {},
                Err(f) => {
                    let ghost k: nat = (steps - left) as nat;
                    assert(*self == before);
                    assert(k < steps && ran(*old(self), *self, k));
                    return Err(f);
                },
            }
            assert(ran(s0, before, (steps - left) as nat) && stepped(before, *self));
            assert(ran(s0, *self, (steps - left + 1) as nat));
            left = left - 1;
        }
        Ok(())
    }
}

impl Cpu {
    fn dispatch_group(&mut self, opcode: u8)
        requires
            old(self).wf(),
            is_group(opcode),
        ensures
            final(self).wf(),
            group_executes(*old(self), *final(self), opcode),
    {
        match opcode / 32 {
            0 => self.op_ora(opcode),
            1 => self.op_and(opcode),
            2 => self.op_eor(opcode),
            3 => self.op_adc(opcode),
            4 => self.op_sta(opcode),
            5 => self.op_lda(opcode),
            6 => self.op_cmp(opcode),
            _ => self.op_sbc(opcode),
        }
    }

    fn dispatch_other(&mut self, opcode: u8)
        requires
            old(self).wf(),
            is_other(opcode),
        ensures
            final(self).wf(),
            other_executes(*old(self), *final(self), opcode),
    {
        match opcode {
            0x89 | 0x24 | 0x34 | 0x2C | 0x3C => self.op_bit(opcode),
            0xA2 | 0xA6 | 0xB6 | 0xAE | 0xBE => self.op_ldx(opcode),
            0xA0 | 0xA4 | 0xB4 | 0xAC | 0xBC => self.op_ldy(opcode),
            0x86 | 0x96 | 0x8E => self.op_stx(opcode),
            0x84 | 0x94 | 0x8C => self.op_sty(opcode),
            0x64 | 0x74 | 0x9C | 0x9E => self.op_stz(opcode),
            0xE0 | 0xE4 | 0xEC => self.op_cpx(opcode),
            0xC0 | 0xC4 | 0xCC => self.op_cpy(opcode),
            0x0A | 0x06 | 0x16 | 0x0E | 0x1E => self.op_asl(opcode),
            0x2A | 0x26 | 0x36 | 0x2E | 0x3E => self.op_rol(opcode),
            0x4A | 0x46 | 0x56 | 0x4E | 0x5E => self.op_lsr(opcode),
            0x6A | 0x66 | 0x76 | 0x6E | 0x7E => self.op_ror(opcode),
            0x1A | 0xE6 | 0xF6 | 0xEE | 0xFE => self.op_inc(opcode),
            _ => self.op_dec(opcode),
        }
    }

    fn dispatch_implied(&mut self, opcode: u8)
        requires
            old(self).wf(),
            no_operand(opcode),
        ensures
            final(self).wf(),
            implied_executes(*old(self), *final(self), opcode),
    {
        match opcode {
            0x18 => self.op_clc(opcode),
            0x38 => self.op_sec(opcode),
            0xD8 => self.op_cld(opcode),
            0xF8 => self.op_sed(opcode),
            0x58 => self.op_cli(opcode),
            0x78 => self.op_sei(opcode),
            0xB8 => self.op_clv(opcode),
            0xAA | 0xA8 | 0xBA | 0x8A | 0x98 | 0x5B | 0x7B | 0x1B | 0x3B => self.op_transfer(opcode),
            0xFB => self.op_xce(opcode),
            0x9A => self.op_txs(opcode),
            0xE8 => self.op_inx(opcode),
            0xC8 => self.op_iny(opcode),
            0xCA => self.op_dex(opcode),
            0x88 => self.op_dey(opcode),
            0x48 => self.op_pha(opcode),
            0xDA => self.op_phx(opcode),
            0x5A => self.op_phy(opcode),
            0x0B => self.op_phd(opcode),
            0x8B => self.op_phb(opcode),
            0x4B => self.op_phk(opcode),
            0x08 => self.op_php(opcode),
            0x68 => self.op_pla(opcode),
            0xFA => self.op_plx(opcode),
            0x7A => self.op_ply(opcode),
            0x2B => self.op_pld(opcode),
            0xAB => self.op_plb(opcode),
            _ => self.op_plp(opcode),
        }
    }

    fn dispatch_control(&mut self, opcode: u8)
        requires
            old(self).wf(),
            is_control(opcode),
        ensures
            final(self).wf(),
            control_executes(*old(self), *final(self), opcode),
    {
        match opcode {
            0xD0 | 0xF0 | 0x30 | 0x10 | 0xB0 | 0x90 | 0x50 | 0x70 | 0x80 => self.op_branch(opcode),
            0x4C | 0x6C | 0x7C | 0x5C => self.op_jmp(opcode),
            0xDC => self.op_jml(opcode),
            0x20 => self.op_jsr(opcode),
            0x22 => self.op_jsl(opcode),
            0x60 => self.op_rts(opcode),
            0x6B => self.op_rtl(opcode),
            0xC2 => self.op_rep(opcode),
            _ => self.op_sep(opcode),
        }
    }
}

} // verus!
