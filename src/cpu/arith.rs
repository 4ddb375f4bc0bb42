use vstd::prelude::*;
use crate::cpu::alu::{
    group_mode, decode_group_mode, has_flag, masked, modulus, nz_flags, operand_len, top_bit,
    with_flag, with_low, Cpu, S_CARRY, S_DECIMAL_MODE, S_OVERFLOW,
};
use crate::cpu::alu::AddressMode;
use crate::cpu::bits::Word;

verus! {

/// `v` (taken at the given width) read as a two's-complement number.
pub open spec fn signed(v: int, wide: bool) -> int {
    if masked(v, wide) >= top_bit(wide) {
        masked(v, wide) - modulus(wide)
    } else {
        masked(v, wide)
    }
}

/// Whether `a + m + c` overflows the signed range of the width.
pub open spec fn signed_overflow(a: int, m: int, c: int, wide: bool) -> bool {
    let s = signed(a, wide) + signed(m, wide) + c;
    s < -top_bit(wide) || s >= top_bit(wide)
}

/// The number of packed-decimal digits of an operand of the given width.
pub open spec fn digits(wide: bool) -> nat {
    if wide {
        4
    } else {
        2
    }
}

/// A digit sum after the decimal adjustment: above nine, six is added so
/// that the sum carries into the next nibble.
pub open spec fn adjust(s: int) -> int {
    if s > 9 {
        s + 6
    } else {
        s
    }
}

/// The packed-decimal sum of the low `n` nibbles of `a` and `b` with carry
/// in `c`, nibble by nibble from the lowest; the carry out of the top nibble
/// stands above the `n` result nibbles.
pub open spec fn bcd_add(a: int, b: int, c: int, n: nat) -> int
    decreases n,
{
    if n == 0 {
        c
    } else {
        let s = adjust(a % 16 + b % 16 + c);
        s % 16 + 16 * bcd_add(a / 16, b / 16, s / 16, (n - 1) as nat)
    }
}

/// The nine's complement of a packed-decimal operand at the given width:
/// each digit `d` becomes `9 - d`.
pub open spec fn nines(m: int, wide: bool) -> int {
    if wide {
        (0x9999 - masked(m, true)) % 0x10000
    } else {
        (0x99 - masked(m, false)) % 0x100
    }
}

/// The one's complement of `m` at the given width.
pub open spec fn ones(m: int, wide: bool) -> int {
    modulus(wide) - 1 - masked(m, wide)
}

/// The carry flag of `p` as 0 or 1.
pub open spec fn carry_of(p: u8) -> int {
    if has_flag(p, S_CARRY) {
        1
    } else {
        0
    }
}

/// A + m + C at the given width, in binary or (with D set) packed decimal;
/// the carry out stands at the bit just above the width.
pub open spec fn raw_sum(a: int, m: int, p: u8, wide: bool) -> int {
    if has_flag(p, S_DECIMAL_MODE) {
        bcd_add(masked(a, wide), masked(m, wide), carry_of(p), digits(wide))
    } else {
        masked(a, wide) + masked(m, wide) + carry_of(p)
    }
}

/// The status byte after A + m + C: C from the carry out, V from the signed
/// overflow in binary mode and set in decimal mode, then N and Z.
pub open spec fn sum_flags(a: int, m: int, p: u8, wide: bool) -> u8 {
    let raw = raw_sum(a, m, p, wide);
    let v = if has_flag(p, S_DECIMAL_MODE) {
        true
    } else {
        signed_overflow(a, m, carry_of(p), wide)
    };
    nz_flags(with_flag(with_flag(p, S_CARRY, raw >= modulus(wide)), S_OVERFLOW, v), raw, wide)
}

/// The second operand that SBC adds: the one's complement in binary mode,
/// the nine's complement in decimal mode.
pub open spec fn subtrahend(m: int, p: u8, wide: bool) -> int {
    if has_flag(p, S_DECIMAL_MODE) {
        nines(m, wide)
    } else {
        ones(m, wide)
    }
}

/// One adjusted decimal digit sum.
fn adjust_digit(a: u32, b: u32, c: u32) -> (r: u32)
    requires
        a < 16,
        b < 16,
        c < 3,
    ensures
        r == adjust(a + b + c),
        r < 40,
{
    let s = a + b + c;
    if s > 9 {
        s + 6
    } else {
        s
    }
}

proof fn lemma_nibbles(a: int)
    requires
        0 <= a,
    ensures
        a / 16 / 16 == a / 256,
        a / 256 / 16 == a / 4096,
        a / 4096 / 16 == a / 65536,
{
    assert(a / 16 / 16 == a / 256) by (nonlinear_arith)
        requires
            0 <= a,
    ;
    assert(a / 256 / 16 == a / 4096) by (nonlinear_arith)
        requires
            0 <= a,
    ;
    assert(a / 4096 / 16 == a / 65536) by (nonlinear_arith)
        requires
            0 <= a,
    ;
}

/// Packed-decimal addition of two or four digits.
fn decimal_add(a: u16, b: u16, c: u32, wide: bool) -> (r: u32)
    requires
        c < 2,
    ensures
        r as int == bcd_add(a as int, b as int, c as int, digits(wide)),
        r < 3 * modulus(wide),
{
    proof {
        lemma_nibbles(a as int);
        lemma_nibbles(b as int);
        reveal_with_fuel(bcd_add, 5);
    }
    let a = a as u32;
    let b = b as u32;
    let s0 = adjust_digit(a % 16, b % 16, c);
    let s1 = adjust_digit((a / 16) % 16, (b / 16) % 16, s0 / 16);
    if !wide {
        assert(bcd_add(a as int / 256, b as int / 256, s1 as int / 16, 0) == s1 / 16);
        return s0 % 16 + 16 * (s1 % 16) + 256 * (s1 / 16);
    }
    let s2 = adjust_digit((a / 256) % 16, (b / 256) % 16, s1 / 16);
    let s3 = adjust_digit((a / 4096) % 16, (b / 4096) % 16, s2 / 16);
    assert(bcd_add(a as int / 65536, b as int / 65536, s3 as int / 16, 0) == s3 / 16);
    s0 % 16 + 16 * (s1 % 16) + 256 * (s2 % 16) + 4096 * (s3 % 16) + 65536 * (s3 / 16)
}

/// The operand that SBC adds in place of `m`.
fn complement_of(m: u16, decimal: bool, wide: bool) -> (r: u16)
    ensures
        r as int == (if decimal {
            nines(m as int, wide)
        } else {
            ones(m as int, wide)
        }),
{
    let value = m as u32;
    let r: u32 = if decimal {
        if wide {
            (0x9999 + 0x10000 - value) % 0x10000
        } else {
            (0x99 + 0x100 - value % 0x100) % 0x100
        }
    } else {
        if wide {
            0xFFFF - value
        } else {
            0xFF - value % 0x100
        }
    };
    r as u16
}

/// The processor after A ← A + m + C (at the accumulator width, see
/// `raw_sum` and `sum_flags`) with PC moved on by `len` operand bytes.
pub open spec fn after_sum(s: Cpu, m: int, len: int) -> Cpu {
    let wide = s.acc_wide();
    let a = s.reg_a.data as int;
    Cpu {
        reg_a: Word { data: with_low(s.reg_a.data, raw_sum(a, m, s.reg_p, wide) % modulus(wide), wide) },
        reg_p: sum_flags(a, m, s.reg_p, wide),
        pc: s.pc_after(len),
        ..s
    }
}

/// The addressing mode of an opcode of the accumulator group.
pub open spec fn mode_of(opcode: u8) -> AddressMode {
    group_mode(opcode).unwrap()
}

/// A + m + C at the given width, in packed decimal when `decimal`.
fn raw_add(a: u16, m: u16, carry: bool, decimal: bool, wide: bool) -> (r: u32)
    ensures
        r as int == (if decimal {
            bcd_add(masked(a as int, wide), masked(m as int, wide), if carry { 1int } else { 0 }, digits(wide))
        } else {
            masked(a as int, wide) + masked(m as int, wide) + if carry { 1int } else { 0 }
        }),
        r < 3 * modulus(wide),
{
    let size: u32 = if wide {
        0x10000
    } else {
        0x100
    };
    let am = (a as u32 % size) as u16;
    let mm = (m as u32 % size) as u16;
    let c: u32 = if carry {
        1
    } else {
        0
    };
    if decimal {
        decimal_add(am, mm, c, wide)
    } else {
        am as u32 + mm as u32 + c
    }
}

/// Whether A + m + C overflows the signed range of the width.
fn overflows(a: u16, m: u16, carry: bool, wide: bool) -> (r: bool)
    ensures
        r == signed_overflow(a as int, m as int, if carry { 1int } else { 0 }, wide),
{
    let size: i64 = if wide {
        0x10000
    } else {
        0x100
    };
    let top: i64 = if wide {
        0x8000
    } else {
        0x80
    };
    let am = a as i64 % size;
    let mm = m as i64 % size;
    let sa: i64 = if am >= top {
        am - size
    } else {
        am
    };
    let sm: i64 = if mm >= top {
        mm - size
    } else {
        mm
    };
    let c: i64 = if carry {
        1
    } else {
        0
    };
    let sum = sa + sm + c;
    sum < -top || sum >= top
}

/// The accumulator after `v`, already cut to the width, is written to it.
fn merge_low(a: u16, v: u32, wide: bool) -> (r: u16)
    requires
        v < modulus(wide),
    ensures
        r == with_low(a, v as int, wide),
{
    if wide {
        v as u16
    } else {
        (a / 256) * 256 + v as u16
    }
}

impl Cpu {
    /// A ← A + m + C at the accumulator width, in binary or packed decimal
    /// as D says; sets C, V, N and Z.
    fn add_with_carry(&mut self, m: u16)
        requires
            old(self).wf(),
        ensures
            *final(self) == after_sum(*old(self), m as int, 0),
    {
        let ghost s0 = *self;
        let wide = self.accumulator_wide();
        let a = self.reg_a.data;
        let size: u32 = if wide {
            0x10000
        } else {
            0x100
        };
        let carry = self.reg_p & S_CARRY != 0;
        let decimal = self.reg_p & S_DECIMAL_MODE != 0;
        let raw = raw_add(a, m, carry, decimal, wide);
        let overflow = decimal || overflows(a, m, carry, wide);
        let result = raw % size;
        self.flag(S_CARRY, raw >= size);
        self.flag(S_OVERFLOW, overflow);
        self.reg_a = Word { data: merge_low(a, result, wide) };
        self.flag_nz(result as u16, wide);
        assert(raw as int == raw_sum(a as int, m as int, s0.reg_p, wide));
        assert(masked(result as int, wide) == masked(raw as int, wide));
    }

    /// ADC: adds the operand and C to the accumulator.
    pub fn op_adc(&mut self, opcode: u8)
        requires
            old(self).wf(),
            opcode / 32 == 3,
            group_mode(opcode) is Some,
        ensures
            *final(self) == after_sum(
                *old(self),
                old(self).operand_value(mode_of(opcode), old(self).acc_wide()),
                operand_len(mode_of(opcode), old(self).acc_wide()),
            ),
    {
        let mode = decode_group_mode(opcode).unwrap();
        let wide = self.accumulator_wide();
        let value = self.fetch(mode, wide);
        self.add_with_carry(value);
    }

    /// SBC: subtracts the operand and the borrow (not C) from the
    /// accumulator, by adding its one's complement (binary) or nine's
    /// complement (decimal).
    pub fn op_sbc(&mut self, opcode: u8)
        requires
            old(self).wf(),
            opcode / 32 == 7,
            group_mode(opcode) is Some,
        ensures
            *final(self) == after_sum(
                *old(self),
                subtrahend(
                    old(self).operand_value(mode_of(opcode), old(self).acc_wide()),
                    old(self).reg_p,
                    old(self).acc_wide(),
                ),
                operand_len(mode_of(opcode), old(self).acc_wide()),
            ),
    {
        let mode = decode_group_mode(opcode).unwrap();
        let wide = self.accumulator_wide();
        let value = self.fetch(mode, wide);
        let complement = complement_of(value, self.reg_p & S_DECIMAL_MODE != 0, wide);
        self.add_with_carry(complement);
    }
}

} // verus!
