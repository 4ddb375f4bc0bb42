use vstd::prelude::*;
use crate::cpu::alu::{
    add16, has_flag, Cpu, S_CARRY, S_NEGATIVE, S_OVERFLOW, S_RESULT_ZERO,
};
use crate::cpu::stack::{pulled, pushed};

verus! {

pub open spec fn is_branch(opcode: u8) -> bool {
    opcode == 0xD0 || opcode == 0xF0 || opcode == 0x30 || opcode == 0x10 || opcode == 0xB0
        || opcode == 0x90 || opcode == 0x50 || opcode == 0x70 || opcode == 0x80
}

/// Whether the branch `opcode` is taken under the status byte `p`.
pub open spec fn branch_taken(opcode: u8, p: u8) -> bool {
    if opcode == 0xD0 {
        !has_flag(p, S_RESULT_ZERO)
    } else if opcode == 0xF0 {
        has_flag(p, S_RESULT_ZERO)
    } else if opcode == 0x30 {
        has_flag(p, S_NEGATIVE)
    } else if opcode == 0x10 {
        !has_flag(p, S_NEGATIVE)
    } else if opcode == 0xB0 {
        has_flag(p, S_CARRY)
    } else if opcode == 0x90 {
        !has_flag(p, S_CARRY)
    } else if opcode == 0x50 {
        !has_flag(p, S_OVERFLOW)
    } else if opcode == 0x70 {
        has_flag(p, S_OVERFLOW)
    } else {
        true
    }
}

/// A byte read as a two's-complement number.
pub open spec fn sign_extend(b: u8) -> int {
    if b >= 128 {
        b as int - 256
    } else {
        b as int
    }
}

pub open spec fn is_jmp(opcode: u8) -> bool {
    opcode == 0x4C || opcode == 0x6C || opcode == 0x7C || opcode == 0x5C
}

/// The address in the bank that a JMP goes to.
pub open spec fn jmp_target(s: Cpu, opcode: u8) -> int {
    if opcode == 0x6C {
        s.bus.word(s.code_word())
    } else if opcode == 0x7C {
        s.bus.word((s.code_word() + s.reg_x as int) % 0x10000)
    } else {
        s.code_word()
    }
}

impl Cpu {
    /// Reads the two operand bytes after the opcode, little-endian.
    fn operand_word(&mut self) -> (r: u16)
        requires
            old(self).wf(),
        ensures
            r as int == old(self).code_word(),
            *final(self) == (Cpu { pc: old(self).pc_after(2), ..*old(self) }),
    {
        let lo = self.next_byte();
        let hi = self.next_byte();
        (lo as u16) + 256 * (hi as u16)
    }

    /// Sets PC to `target - 1`, so that the run loop, which adds one after
    /// each instruction, reads the next opcode at `target`.
    fn land_on(&mut self, target: u16)
        ensures
            *final(self) == (Cpu { pc: add16(target as int, -1), ..*old(self) }),
    {
        self.pc = if target == 0 {
            0xFFFF
        } else {
            target - 1
        };
    }

    /// BNE, BEQ, BMI, BPL, BCS, BCC, BVC, BVS, BRA: reads the signed offset
    /// after the opcode; when the condition holds, adds it to PC.
    pub fn op_branch(&mut self, opcode: u8)
        requires
            old(self).wf(),
            is_branch(opcode),
        ensures
            *final(self) == (Cpu {
                pc: if branch_taken(opcode, old(self).reg_p) {
                    add16(old(self).pc as int + 1, sign_extend(old(self).code_byte(1)))
                } else {
                    old(self).pc_after(1)
                },
                ..*old(self)
            }),
    {
        let p = self.reg_p;
        let taken = match opcode {
            0xD0 => p & S_RESULT_ZERO == 0,
            0xF0 => p & S_RESULT_ZERO != 0,
            0x30 => p & S_NEGATIVE != 0,
            0x10 => p & S_NEGATIVE == 0,
            0xB0 => p & S_CARRY != 0,
            0x90 => p & S_CARRY == 0,
            0x50 => p & S_OVERFLOW == 0,
            0x70 => p & S_OVERFLOW != 0,
            _ => true,
        };
        let offset = self.next_byte();
        if taken {
            let pc = self.pc as u32;
            let moved: u32 = if offset >= 128 {
                (pc + 0x10000 - (256 - offset as u32)) % 0x10000
            } else {
                (pc + offset as u32) % 0x10000
            };
            self.pc = moved as u16;
        }
    }

    /// JMP: absolute, absolute indirect, absolute indexed indirect (the
    /// pointer in bank 0) and long (which also sets the program bank). PC is
    /// set to the resolved address.
    pub fn op_jmp(&mut self, opcode: u8)
        requires
            old(self).wf(),
            is_jmp(opcode),
        ensures
            *final(self) == (Cpu {
                pc: jmp_target(*old(self), opcode) as u16,
                reg_pb: if opcode == 0x5C {
                    old(self).code_byte(3)
                } else {
                    old(self).reg_pb
                },
                ..*old(self)
            }),
    {
        let addr = self.operand_word();
        let target: u16 = match opcode {
            0x6C => self.bus.r16(addr as u32),
            0x7C => self.bus.r16((addr as u32 + self.reg_x as u32) % 0x10000),
            0x5C => {
                let bank = self.next_byte();
                self.reg_pb = bank;
                addr
            },
            _ => addr,
        };
        self.pc = target;
    }

    /// JML [addr]: sets the program bank and PC to the 24-bit pointer stored
    /// at the operand (in bank 0).
    pub fn op_jml(&mut self, opcode: u8)
        requires
            old(self).wf(),
        ensures
            *final(self) == (Cpu {
                pc: old(self).bus.word(old(self).code_word()) as u16,
                reg_pb: old(self).bus.byte(old(self).code_word() + 2),
                ..*old(self)
            }),
    {
        let addr = self.operand_word() as u32;
        let target = self.bus.r16(addr);
        self.reg_pb = self.bus.read_byte(addr + 2);
        self.pc = target;
    }

    /// JSR addr: pushes the address of its own last byte (high byte first)
    /// and jumps to the operand in the program bank.
    pub fn op_jsr(&mut self, opcode: u8)
        requires
            old(self).wf(),
        ensures
            final(self).wf(),
            final(self).bus@ == pushed(old(self).bus@, old(self).sp as int, old(self).pc_after(2) as int, true),
            *final(self) == (Cpu {
                pc: add16(old(self).code_word(), -1),
                sp: add16(old(self).sp as int, -2),
                bus: final(self).bus,
                ..*old(self)
            }),
    {
        let target = self.operand_word();
        let ret = self.pc;
        self.push(ret, true);
        self.land_on(target);
    }

    /// JSL long: pushes the program bank, then the address of its own last
    /// byte (high byte first), and jumps to the 24-bit operand.
    pub fn op_jsl(&mut self, opcode: u8)
        requires
            old(self).wf(),
        ensures
            final(self).wf(),
            final(self).bus@ == pushed(
                pushed(old(self).bus@, old(self).sp as int, old(self).reg_pb as int, false),
                add16(old(self).sp as int, -1) as int,
                old(self).pc_after(3) as int,
                true,
            ),
            *final(self) == (Cpu {
                pc: add16(old(self).code_word(), -1),
                reg_pb: old(self).code_byte(3),
                sp: add16(old(self).sp as int, -3),
                bus: final(self).bus,
                ..*old(self)
            }),
    {
        let ghost s0 = *self;
        let target = self.operand_word();
        assert(self.code_byte(1) == s0.code_byte(3));
        let bank = self.next_byte();
        let ghost s1 = *self;
        assert(s1 == (Cpu { pc: s0.pc_after(3), ..s0 }));
        let pb = self.reg_pb;
        self.push(pb as u16, false);
        let ghost s2 = *self;
        assert(s2.bus@ == pushed(s0.bus@, s0.sp as int, s0.reg_pb as int, false));
        let ret = self.pc;
        self.push(ret, true);
        self.reg_pb = bank;
        self.land_on(target);
    }

    /// RTS: pulls PC (low byte first); the run loop then moves past the
    /// return address that JSR saved.
    pub fn op_rts(&mut self, opcode: u8)
        requires
            old(self).wf(),
        ensures
            *final(self) == (Cpu {
                pc: pulled(old(self).bus@, old(self).sp as int, true) as u16,
                sp: add16(old(self).sp as int, 2),
                ..*old(self)
            }),
    {
        self.pc = self.pull(true);
    }

    /// RTL: pulls PC (low byte first) and then the program bank.
    pub fn op_rtl(&mut self, opcode: u8)
        requires
            old(self).wf(),
        ensures
            *final(self) == (Cpu {
                pc: pulled(old(self).bus@, old(self).sp as int, true) as u16,
                reg_pb: pulled(old(self).bus@, add16(old(self).sp as int, 2) as int, false) as u8,
                sp: add16(old(self).sp as int, 3),
                ..*old(self)
            }),
    {
        self.pc = self.pull(true);
        self.reg_pb = self.pull(false) as u8;
    }
}

} // verus!
