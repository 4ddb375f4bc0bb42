use vstd::prelude::*;
use crate::cpu::bits::Word;
use crate::cpu::bus::{wrap24, Bus};

verus! {

pub const S_CARRY: u8 = 0x01;
pub const S_RESULT_ZERO: u8 = 0x02;
pub const S_IRQ_DISABLE: u8 = 0x04;
pub const S_DECIMAL_MODE: u8 = 0x08;
/// Index-register width in native mode; the break indicator in emulation.
pub const S_INDEX_REGISTERS: u8 = 0x10;
pub const S_BREAK_INSTRUCTION: u8 = 0x10;
pub const S_ACCUMULATOR_MEMORY: u8 = 0x20;
pub const S_OVERFLOW: u8 = 0x40;
pub const S_NEGATIVE: u8 = 0x80;
/// The M and X bits of P.
pub const WIDTH_FLAGS: u8 = 0x30;

/// Whether the status byte `p` has any bit of `mask` set.
pub open spec fn has_flag(p: u8, mask: u8) -> bool {
    p & mask != 0
}

/// `p` with the bits of `mask` set when `on`, cleared otherwise.
pub open spec fn with_flag(p: u8, mask: u8, on: bool) -> u8 {
    if on {
        p | mask
    } else {
        p & !mask
    }
}

/// 2^8 or 2^16: the number of values of an operand of the given width.
pub open spec fn modulus(wide: bool) -> int {
    if wide {
        0x10000
    } else {
        0x100
    }
}

/// The value of the top bit at the given width.
pub open spec fn top_bit(wide: bool) -> int {
    if wide {
        0x8000
    } else {
        0x80
    }
}

/// `v` cut to the given width.
pub open spec fn masked(v: int, wide: bool) -> int {
    v % modulus(wide)
}

/// Cutting to a width twice is cutting once.
pub proof fn lemma_masked_twice(v: int, wide: bool)
    ensures
        masked(masked(v, wide), wide) == masked(v, wide),
        0 <= masked(v, wide) < modulus(wide),
{
}

/// The status byte after N and Z are set from `v` at the given width.
pub open spec fn nz_flags(p: u8, v: int, wide: bool) -> u8 {
    with_flag(
        with_flag(p, S_RESULT_ZERO, masked(v, wide) == 0),
        S_NEGATIVE,
        masked(v, wide) >= top_bit(wide),
    )
}

/// The accumulator after `v` is written to it at the given width: in 8-bit
/// mode the high byte is kept.
pub open spec fn with_low(a: u16, v: int, wide: bool) -> u16 {
    if wide {
        (v % 0x10000) as u16
    } else {
        ((a / 256) * 256 + v % 256) as u16
    }
}

/// The processor after `r` is written to the accumulator at its width, N
/// and Z are set from it and PC is moved on by `len` operand bytes.
pub open spec fn after_a(s: Cpu, r: int, len: int) -> Cpu {
    let wide = s.acc_wide();
    Cpu {
        reg_a: Word { data: with_low(s.reg_a.data, r, wide) },
        reg_p: nz_flags(s.reg_p, r, wide),
        pc: s.pc_after(len),
        ..s
    }
}

/// `x + d` within a 16-bit register.
pub open spec fn add16(x: int, d: int) -> u16 {
    ((x + d) % 0x10000) as u16
}

/// The addressing modes of the operand of an instruction.
#[derive(Debug, Clone, Copy, PartialEq, Eq, Structural)]
pub enum AddressMode {
    Immediate,
    ZeroPage,
    ZeroPageX,
    ZeroPageY,
    Absolute,
    AbsoluteIndexedX,
    AbsoluteIndexedY,
    AbsoluteLong,
    AbsoluteLongIndexedX,
    DirectIndirect,
    DirectIndirectLong,
    ZeroPageDirectIndexedIndirectX,
    ZeroPageDirectIndirectIndexedY,
    ZeroPageDirectIndirectIndexedLong,
    StackRelative,
    StackRelativeIndirectIndexedY,
}

/// The number of operand bytes that follow the opcode.
pub open spec fn operand_len(mode: AddressMode, wide: bool) -> int {
    match mode {
        AddressMode::Immediate => if wide {
            2
        } else {
            1
        },
        AddressMode::Absolute | AddressMode::AbsoluteIndexedX | AddressMode::AbsoluteIndexedY => 2,
        AddressMode::AbsoluteLong | AddressMode::AbsoluteLongIndexedX => 3,
        _ => 1,
    }
}

/// The addressing mode that the low five bits of an opcode of the
/// accumulator group (ORA, AND, EOR, ADC, STA, LDA, CMP, SBC) select.
pub open spec fn group_mode(opcode: u8) -> Option<AddressMode> {
    let low = opcode % 32;
    if low == 0x09 {
        Some(AddressMode::Immediate)
    } else if low == 0x05 {
        Some(AddressMode::ZeroPage)
    } else if low == 0x15 {
        Some(AddressMode::ZeroPageX)
    } else if low == 0x0D {
        Some(AddressMode::Absolute)
    } else if low == 0x1D {
        Some(AddressMode::AbsoluteIndexedX)
    } else if low == 0x19 {
        Some(AddressMode::AbsoluteIndexedY)
    } else if low == 0x01 {
        Some(AddressMode::ZeroPageDirectIndexedIndirectX)
    } else if low == 0x11 {
        Some(AddressMode::ZeroPageDirectIndirectIndexedY)
    } else if low == 0x0F {
        Some(AddressMode::AbsoluteLong)
    } else if low == 0x1F {
        Some(AddressMode::AbsoluteLongIndexedX)
    } else if low == 0x12 {
        Some(AddressMode::DirectIndirect)
    } else if low == 0x07 {
        Some(AddressMode::DirectIndirectLong)
    } else if low == 0x17 {
        Some(AddressMode::ZeroPageDirectIndirectIndexedLong)
    } else if low == 0x03 {
        Some(AddressMode::StackRelative)
    } else if low == 0x13 {
        Some(AddressMode::StackRelativeIndirectIndexedY)
    } else {
        None
    }
}

/// The addressing mode of an opcode of the accumulator group.
pub fn decode_group_mode(opcode: u8) -> (r: Option<AddressMode>)
    ensures
        r == group_mode(opcode),
{
    let low = opcode % 32;
    if low == 0x09 {
        Some(AddressMode::Immediate)
    } else if low == 0x05 {
        Some(AddressMode::ZeroPage)
    } else if low == 0x15 {
        Some(AddressMode::ZeroPageX)
    } else if low == 0x0D {
        Some(AddressMode::Absolute)
    } else if low == 0x1D {
        Some(AddressMode::AbsoluteIndexedX)
    } else if low == 0x19 {
        Some(AddressMode::AbsoluteIndexedY)
    } else if low == 0x01 {
        Some(AddressMode::ZeroPageDirectIndexedIndirectX)
    } else if low == 0x11 {
        Some(AddressMode::ZeroPageDirectIndirectIndexedY)
    } else if low == 0x0F {
        Some(AddressMode::AbsoluteLong)
    } else if low == 0x1F {
        Some(AddressMode::AbsoluteLongIndexedX)
    } else if low == 0x12 {
        Some(AddressMode::DirectIndirect)
    } else if low == 0x07 {
        Some(AddressMode::DirectIndirectLong)
    } else if low == 0x17 {
        Some(AddressMode::ZeroPageDirectIndirectIndexedLong)
    } else if low == 0x03 {
        Some(AddressMode::StackRelative)
    } else if low == 0x13 {
        Some(AddressMode::StackRelativeIndirectIndexedY)
    } else {
        None
    }
}

/// The addressing mode of an opcode outside the accumulator group that
/// has an operand: the X and Y loads, stores and compares, STZ, BIT and the
/// shifts, rotations, increments and decrements of memory.
pub open spec fn other_mode(opcode: u8) -> Option<AddressMode> {
    if opcode == 0x89 || opcode == 0xA0 || opcode == 0xA2 || opcode == 0xC0 || opcode == 0xE0 {
        Some(AddressMode::Immediate)
    } else if opcode == 0x06 || opcode == 0x24 || opcode == 0x26 || opcode == 0x46 || opcode == 0x64 || opcode == 0x66 || opcode == 0x84 || opcode == 0x86 || opcode == 0xA4 || opcode == 0xA6 || opcode == 0xC4 || opcode == 0xC6 || opcode == 0xE4 || opcode == 0xE6 {
        Some(AddressMode::ZeroPage)
    } else if opcode == 0x16 || opcode == 0x34 || opcode == 0x36 || opcode == 0x56 || opcode == 0x74 || opcode == 0x76 || opcode == 0x94 || opcode == 0xB4 || opcode == 0xD6 || opcode == 0xF6 {
        Some(AddressMode::ZeroPageX)
    } else if opcode == 0x96 || opcode == 0xB6 {
        Some(AddressMode::ZeroPageY)
    } else if opcode == 0x0E || opcode == 0x2C || opcode == 0x2E || opcode == 0x4E || opcode == 0x6E || opcode == 0x8C || opcode == 0x8E || opcode == 0x9C || opcode == 0xAC || opcode == 0xAE || opcode == 0xCC || opcode == 0xCE || opcode == 0xEC || opcode == 0xEE {
        Some(AddressMode::Absolute)
    } else if opcode == 0x1E || opcode == 0x3C || opcode == 0x3E || opcode == 0x5E || opcode == 0x7E || opcode == 0x9E || opcode == 0xBC || opcode == 0xDE || opcode == 0xFE {
        Some(AddressMode::AbsoluteIndexedX)
    } else if opcode == 0xBE {
        Some(AddressMode::AbsoluteIndexedY)
    } else {
        None
    }
}

/// The addressing mode of an opcode outside the accumulator group.
pub fn decode_other_mode(opcode: u8) -> (r: Option<AddressMode>)
    ensures
        r == other_mode(opcode),
{
    if opcode == 0x89 || opcode == 0xA0 || opcode == 0xA2 || opcode == 0xC0 || opcode == 0xE0 {
        Some(AddressMode::Immediate)
    } else if opcode == 0x06 || opcode == 0x24 || opcode == 0x26 || opcode == 0x46 || opcode == 0x64 || opcode == 0x66 || opcode == 0x84 || opcode == 0x86 || opcode == 0xA4 || opcode == 0xA6 || opcode == 0xC4 || opcode == 0xC6 || opcode == 0xE4 || opcode == 0xE6 {
        Some(AddressMode::ZeroPage)
    } else if opcode == 0x16 || opcode == 0x34 || opcode == 0x36 || opcode == 0x56 || opcode == 0x74 || opcode == 0x76 || opcode == 0x94 || opcode == 0xB4 || opcode == 0xD6 || opcode == 0xF6 {
        Some(AddressMode::ZeroPageX)
    } else if opcode == 0x96 || opcode == 0xB6 {
        Some(AddressMode::ZeroPageY)
    } else if opcode == 0x0E || opcode == 0x2C || opcode == 0x2E || opcode == 0x4E || opcode == 0x6E || opcode == 0x8C || opcode == 0x8E || opcode == 0x9C || opcode == 0xAC || opcode == 0xAE || opcode == 0xCC || opcode == 0xCE || opcode == 0xEC || opcode == 0xEE {
        Some(AddressMode::Absolute)
    } else if opcode == 0x1E || opcode == 0x3C || opcode == 0x3E || opcode == 0x5E || opcode == 0x7E || opcode == 0x9E || opcode == 0xBC || opcode == 0xDE || opcode == 0xFE {
        Some(AddressMode::AbsoluteIndexedX)
    } else if opcode == 0xBE {
        Some(AddressMode::AbsoluteIndexedY)
    } else {
        None
    }
}

/// The processor: its registers, its mode and the bus it drives.
pub struct Cpu {
    pub reg_a: Word,
    pub reg_x: u16,
    pub reg_y: u16,
    pub reg_p: u8,
    /// Direct-page base.
    pub reg_d: u16,
    /// Program bank.
    pub reg_pb: u8,
    /// Data bank.
    pub reg_db: u8,
    /// The stack lives in bank 0 at `sp`; a push writes at `sp` and then
    /// decrements it, a pull increments it and then reads.
    pub sp: u16,
    pub pc: u16,
    pub emulation: bool,
    pub bus: Box<Bus>,
}

impl Cpu {
    pub open spec fn wf(&self) -> bool {
        self.bus.wf()
    }

    /// Whether the accumulator and memory operands are 16 bits wide.
    pub open spec fn acc_wide(&self) -> bool {
        !self.emulation && !has_flag(self.reg_p, S_ACCUMULATOR_MEMORY)
    }

    /// Whether the index registers are 16 bits wide.
    pub open spec fn index_wide(&self) -> bool {
        !self.emulation && !has_flag(self.reg_p, S_INDEX_REGISTERS)
    }

    /// The 24-bit address of the `k`-th byte after the program counter.
    pub open spec fn code_addr(&self, k: int) -> int {
        self.reg_pb as int * 0x10000 + (self.pc as int + k) % 0x10000
    }

    /// The `k`-th byte after the program counter, in the program bank.
    pub open spec fn code_byte(&self, k: int) -> u8 {
        self.bus.byte(self.code_addr(k))
    }

    /// The two operand bytes after the opcode, little-endian.
    pub open spec fn code_word(&self) -> int {
        self.code_byte(1) as int + 256 * self.code_byte(2) as int
    }

    /// A pointer in bank 0: `base + offset` within 16 bits.
    pub open spec fn direct(base: int, offset: int) -> int {
        (base + offset) % 0x10000
    }

    /// The 24-bit pointer stored at `ptr`, `ptr + 1` and `ptr + 2`.
    pub open spec fn long_at(&self, ptr: int) -> int {
        self.bus.byte(ptr + 2) as int * 0x10000 + self.bus.word(ptr)
    }

    /// The effective address of the operand of a mode that reads memory.
    pub open spec fn effective_address(&self, mode: AddressMode) -> int {
        let d = self.reg_d as int;
        let x = self.reg_x as int;
        let y = self.reg_y as int;
        let db = self.reg_db as int * 0x10000;
        let op = self.code_byte(1) as int;
        match mode {
            AddressMode::Immediate => self.code_addr(1),
            AddressMode::ZeroPage => Self::direct(d, op),
            AddressMode::ZeroPageX => Self::direct(d + x, op),
            AddressMode::ZeroPageY => Self::direct(d + y, op),
            AddressMode::Absolute => db + self.code_word(),
            AddressMode::AbsoluteIndexedX => wrap24(db + self.code_word() + x),
            AddressMode::AbsoluteIndexedY => wrap24(db + self.code_word() + y),
            AddressMode::AbsoluteLong => self.code_byte(3) as int * 0x10000 + self.code_word(),
            AddressMode::AbsoluteLongIndexedX => wrap24(
                self.code_byte(3) as int * 0x10000 + self.code_word() + x,
            ),
            AddressMode::DirectIndirect => db + self.bus.word(Self::direct(d, op)),
            AddressMode::DirectIndirectLong => self.long_at(Self::direct(d, op)),
            AddressMode::ZeroPageDirectIndexedIndirectX => db + self.bus.word(
                Self::direct(d + x, op),
            ),
            AddressMode::ZeroPageDirectIndirectIndexedY => wrap24(
                db + self.bus.word(Self::direct(d, op)) + y,
            ),
            AddressMode::ZeroPageDirectIndirectIndexedLong => wrap24(
                self.long_at(Self::direct(d, op)) + y,
            ),
            AddressMode::StackRelative => Self::direct(self.sp as int, op),
            AddressMode::StackRelativeIndirectIndexedY => wrap24(
                self.bus.word(Self::direct(self.sp as int, op)) + y,
            ),
        }
    }

    /// The value of the operand: the bytes after the opcode for an
    /// immediate, else the little-endian data at the effective address; the
    /// high byte is zero when `wide` is false.
    pub open spec fn operand_value(&self, mode: AddressMode, wide: bool) -> int {
        if mode == AddressMode::Immediate {
            self.code_byte(1) as int + if wide {
                256 * self.code_byte(2) as int
            } else {
                0
            }
        } else {
            let ea = self.effective_address(mode);
            self.bus.byte(ea) as int + if wide {
                256 * self.bus.byte(ea + 1) as int
            } else {
                0
            }
        }
    }

    /// The memory after `value` is written at `ea`, its high byte at
    /// `ea + 1` when `wide`.
    pub open spec fn stored(mem: Seq<u8>, ea: int, value: int, wide: bool) -> Seq<u8> {
        let low = mem.update(wrap24(ea), (value % 256) as u8);
        if wide {
            low.update(wrap24(ea + 1), ((value / 256) % 256) as u8)
        } else {
            low
        }
    }

    /// The program counter after `n` more bytes of the instruction.
    pub open spec fn pc_after(&self, n: int) -> u16 {
        add16(self.pc as int, n)
    }

    /// A processor attached to `bus` in its starting state: emulation mode
    /// with 8-bit widths (M and X set in P), the stack pointer at 0x1FF,
    /// PC at 0x8000 in bank 0 and every other register zero.
    pub fn new(bus: Box<Bus>) -> (r: Self)
        requires
            bus.wf(),
        ensures
            r.wf(),
            r.bus == bus,
            r.reg_a.data == 0,
            r.reg_x == 0,
            r.reg_y == 0,
            r.reg_p == WIDTH_FLAGS,
            r.reg_d == 0,
            r.reg_pb == 0,
            r.reg_db == 0,
            r.sp == 0x1FF,
            r.pc == 0x8000,
            r.emulation,
    {
        Self {
            reg_a: Word { data: 0 },
            reg_x: 0,
            reg_y: 0,
            reg_p: WIDTH_FLAGS,
            reg_d: 0,
            reg_pb: 0,
            reg_db: 0,
            sp: 0x1FF,
            pc: 0x8000,
            emulation: true,
            bus,
        }
    }

    /// Puts the processor in its power-on state: emulation mode with 8-bit
    /// widths (M and X set), the stack pointer at 0x1FF and PC at 0x8000 in
    /// bank 0; the other registers and the bus are kept.
    pub fn reset(&mut self)
        ensures
            *final(self) == (Cpu {
                reg_p: old(self).reg_p | WIDTH_FLAGS,
                reg_pb: 0,
                sp: 0x1FF,
                pc: 0x8000,
                emulation: true,
                ..*old(self)
            }),
    {
        self.reg_p = self.reg_p | WIDTH_FLAGS;
        self.reg_pb = 0;
        self.sp = 0x1FF;
        self.pc = 0x8000;
        self.emulation = true;
    }

    /// Whether the accumulator is 16 bits wide.
    pub fn accumulator_wide(&self) -> (r: bool)
        ensures
            r == self.acc_wide(),
    {
        !self.emulation && self.reg_p & S_ACCUMULATOR_MEMORY == 0
    }

    /// Whether the index registers are 16 bits wide.
    pub fn indexes_wide(&self) -> (r: bool)
        ensures
            r == self.index_wide(),
    {
        !self.emulation && self.reg_p & S_INDEX_REGISTERS == 0
    }

    /// Sets the bits of `mask` in P when `on`, clears them otherwise.
    pub fn flag(&mut self, mask: u8, on: bool)
        ensures
            *final(self) == (Cpu { reg_p: with_flag(old(self).reg_p, mask, on), ..*old(self) }),
    {
        if on {
            self.reg_p = self.reg_p | mask;
        } else {
            self.reg_p = self.reg_p & !mask;
        }
    }

    /// Sets N and Z from `value` at the given width.
    pub fn flag_nz(&mut self, value: u16, wide: bool)
        ensures
            *final(self) == (Cpu {
                reg_p: nz_flags(old(self).reg_p, value as int, wide),
                ..*old(self)
            }),
    {
        let m: u16 = if wide {
            value
        } else {
            value % 256
        };
        let top: u16 = if wide {
            0x8000
        } else {
            0x80
        };
        self.flag(S_RESULT_ZERO, m == 0);
        self.flag(S_NEGATIVE, m >= top);
    }

    /// Writes `r` to the accumulator at the given width and sets N and Z
    /// from it.
    pub fn set_accumulator(&mut self, r: u16, wide: bool)
        ensures
            *final(self) == (Cpu {
                reg_a: Word { data: with_low(old(self).reg_a.data, r as int, wide) },
                reg_p: nz_flags(old(self).reg_p, r as int, wide),
                ..*old(self)
            }),
    {
        let a = self.reg_a.data;
        let data: u16 = if wide {
            r
        } else {
            (a / 256) * 256 + r % 256
        };
        self.reg_a = Word { data };
        self.flag_nz(r, wide);
    }

    /// Advances PC by one within the program bank and reads the byte there.
    pub fn next_byte(&mut self) -> (r: u8)
        requires
            old(self).wf(),
        ensures
            r == old(self).code_byte(1),
            *final(self) == (Cpu { pc: old(self).pc_after(1), ..*old(self) }),
    {
        self.pc = if self.pc == 0xFFFF {
            0
        } else {
            self.pc + 1
        };
        self.bus.read_byte(self.pbr_pc())
    }

    /// The 24-bit address of the program counter in the program bank.
    pub fn pbr_pc(&self) -> (r: u32)
        ensures
            r == self.code_addr(0),
    {
        (self.reg_pb as u32) * 0x10000 + (self.pc as u32)
    }

    /// Reads the operand bytes of `mode` (advancing PC over them) and
    /// returns the effective address they designate.
    pub fn operand_address(&mut self, mode: AddressMode) -> (r: u32)
        requires
            old(self).wf(),
            mode != AddressMode::Immediate,
        ensures
            r as int == old(self).effective_address(mode),
            r < 0x100_0000,
            *final(self) == (Cpu { pc: old(self).pc_after(operand_len(mode, false)), ..*old(self) }),
    {
        match mode {
            AddressMode::Absolute | AddressMode::AbsoluteIndexedX | AddressMode::AbsoluteIndexedY => {
                self.absolute_address(mode)
            },
            AddressMode::AbsoluteLong | AddressMode::AbsoluteLongIndexedX => self.long_address(mode),
            AddressMode::ZeroPage | AddressMode::ZeroPageX | AddressMode::ZeroPageY
            | AddressMode::StackRelative => self.direct_address(mode),
            _ => self.indirect_address(mode),
        }
    }

    fn direct_address(&mut self, mode: AddressMode) -> (r: u32)
        requires
            old(self).wf(),
            mode == AddressMode::ZeroPage || mode == AddressMode::ZeroPageX || mode
                == AddressMode::ZeroPageY || mode == AddressMode::StackRelative,
        ensures
            r as int == old(self).effective_address(mode),
            r < 0x100_0000,
            *final(self) == (Cpu { pc: old(self).pc_after(1), ..*old(self) }),
    {
        let op = self.next_byte() as u32;
        let base: u32 = match mode {
            AddressMode::ZeroPageX => self.reg_d as u32 + self.reg_x as u32,
            AddressMode::ZeroPageY => self.reg_d as u32 + self.reg_y as u32,
            AddressMode::StackRelative => self.sp as u32,
            _ => self.reg_d as u32,
        };
        (base + op) % 0x10000
    }

    fn absolute_address(&mut self, mode: AddressMode) -> (r: u32)
        requires
            old(self).wf(),
            mode == AddressMode::Absolute || mode == AddressMode::AbsoluteIndexedX || mode
                == AddressMode::AbsoluteIndexedY,
        ensures
            r as int == old(self).effective_address(mode),
            r < 0x100_0000,
            *final(self) == (Cpu { pc: old(self).pc_after(2), ..*old(self) }),
    {
        let lo = self.next_byte() as u32;
        let hi = self.next_byte() as u32;
        let base = (self.reg_db as u32) * 0x10000 + lo + 256 * hi;
        match mode {
            AddressMode::AbsoluteIndexedX => (base + self.reg_x as u32) % 0x100_0000,
            AddressMode::AbsoluteIndexedY => (base + self.reg_y as u32) % 0x100_0000,
            _ => base,
        }
    }

    fn long_address(&mut self, mode: AddressMode) -> (r: u32)
        requires
            old(self).wf(),
            mode == AddressMode::AbsoluteLong || mode == AddressMode::AbsoluteLongIndexedX,
        ensures
            r as int == old(self).effective_address(mode),
            r < 0x100_0000,
            *final(self) == (Cpu { pc: old(self).pc_after(3), ..*old(self) }),
    {
        let ghost s0 = *self;
        let lo = self.next_byte() as u32;
        assert(self.code_byte(1) == s0.code_byte(2));
        assert(self.code_byte(2) == s0.code_byte(3));
        let hi = self.next_byte() as u32;
        let bank = self.next_byte() as u32;
        let base = bank * 0x10000 + lo + 256 * hi;
        assert(base == s0.code_byte(3) as int * 0x10000 + s0.code_word());
        if mode == AddressMode::AbsoluteLongIndexedX {
            (base + self.reg_x as u32) % 0x100_0000
        } else {
            base
        }
    }

    fn indirect_address(&mut self, mode: AddressMode) -> (r: u32)
        requires
            old(self).wf(),
            mode == AddressMode::DirectIndirect || mode == AddressMode::DirectIndirectLong || mode
                == AddressMode::ZeroPageDirectIndexedIndirectX || mode
                == AddressMode::ZeroPageDirectIndirectIndexedY || mode
                == AddressMode::ZeroPageDirectIndirectIndexedLong || mode
                == AddressMode::StackRelativeIndirectIndexedY,
        ensures
            r as int == old(self).effective_address(mode),
            r < 0x100_0000,
            *final(self) == (Cpu { pc: old(self).pc_after(1), ..*old(self) }),
    {
        let op = self.next_byte() as u32;
        let d = self.reg_d as u32;
        let db = (self.reg_db as u32) * 0x10000;
        let y = self.reg_y as u32;
        match mode {
            AddressMode::DirectIndirect => db + self.bus.r16((d + op) % 0x10000) as u32,
            AddressMode::DirectIndirectLong => self.long_pointer((d + op) % 0x10000),
            AddressMode::ZeroPageDirectIndexedIndirectX => {
                db + self.bus.r16((d + self.reg_x as u32 + op) % 0x10000) as u32
            },
            AddressMode::ZeroPageDirectIndirectIndexedY => {
                (db + self.bus.r16((d + op) % 0x10000) as u32 + y) % 0x100_0000
            },
            AddressMode::ZeroPageDirectIndirectIndexedLong => {
                (self.long_pointer((d + op) % 0x10000) + y) % 0x100_0000
            },
            _ => (self.bus.r16((self.sp as u32 + op) % 0x10000) as u32 + y) % 0x100_0000,
        }
    }

    /// The 24-bit pointer stored at `ptr` (a bank-0 address).
    fn long_pointer(&self, ptr: u32) -> (r: u32)
        requires
            self.wf(),
            ptr < 0x10000,
        ensures
            r as int == self.long_at(ptr as int),
            r < 0x100_0000,
    {
        let bank = self.bus.read_byte(ptr + 2) as u32;
        bank * 0x10000 + self.bus.r16(ptr) as u32
    }

    /// Reads the operand of the current instruction in `mode`, 16 bits when
    /// `wide` (else the high byte is zero), and leaves PC on its last byte.
    pub fn fetch(&mut self, mode: AddressMode, wide: bool) -> (r: u16)
        requires
            old(self).wf(),
        ensures
            r as int == old(self).operand_value(mode, wide),
            *final(self) == (Cpu { pc: old(self).pc_after(operand_len(mode, wide)), ..*old(self) }),
    {
        if mode == AddressMode::Immediate {
            let lo = self.next_byte();
            let hi: u8 = if wide {
                self.next_byte()
            } else {
                0
            };
            (lo as u16) + 256 * (hi as u16)
        } else {
            let ea = self.operand_address(mode);
            let lo = self.bus.read_byte(ea);
            if wide {
                let hi = self.bus.read_byte(ea + 1);
                (lo as u16) + 256 * (hi as u16)
            } else {
                lo as u16
            }
        }
    }

    /// Writes `value` (its low byte, and its high byte after it when
    /// `wide`) to the operand of the current instruction in `mode`.
    pub fn store(&mut self, mode: AddressMode, value: &Word, wide: bool)
        requires
            old(self).wf(),
            mode != AddressMode::Immediate,
        ensures
            final(self).wf(),
            final(self).bus@ == Cpu::stored(
                old(self).bus@,
                old(self).effective_address(mode),
                value.data as int,
                wide,
            ),
            *final(self) == (Cpu {
                pc: old(self).pc_after(operand_len(mode, false)),
                bus: final(self).bus,
                ..*old(self)
            }),
    {
        let ea = self.operand_address(mode);
        self.bus.write_byte(ea, value.lo());
        if wide {
            self.bus.write_byte(ea + 1, value.hi());
        }
    }
}

} // verus!
