use vstd::prelude::*;
use crate::cpu::alu::{
    add16, has_flag, lemma_masked_twice, masked, modulus, nz_flags, top_bit, with_flag, with_low, Cpu, S_CARRY,
    S_DECIMAL_MODE, S_NEGATIVE, S_OVERFLOW, S_RESULT_ZERO,
};
use crate::cpu::arith::{
    adjust, after_sum, bcd_add, carry_of, digits, nines, ones, raw_sum, signed, signed_overflow,
    subtrahend,
};
use crate::cpu::stack::{pulled, pushed, size_of};
use crate::cpu::status::xce_flags;

verus! {

/// Writing one flag bit sets it as asked and keeps every other bit.
pub proof fn lemma_with_flag(p: u8, m: u8, on: bool, other: u8)
    requires
        m == S_CARRY || m == S_RESULT_ZERO || m == S_DECIMAL_MODE || m == S_OVERFLOW || m
            == S_NEGATIVE,
        other == S_CARRY || other == S_RESULT_ZERO || other == S_DECIMAL_MODE || other
            == S_OVERFLOW || other == S_NEGATIVE,
    ensures
        has_flag(with_flag(p, m, on), m) == on,
        other != m ==> has_flag(with_flag(p, m, on), other) == has_flag(p, other),
{
    assert(((p | m) & m != 0) && ((p & !m) & m == 0)) by (bit_vector)
        requires
            m == 1 || m == 2 || m == 8 || m == 0x40 || m == 0x80,
    ;
    assert(other != m ==> ((p | m) & other != 0) == (p & other != 0) && ((p & !m) & other != 0)
        == (p & other != 0)) by (bit_vector)
        requires
            m == 1 || m == 2 || m == 8 || m == 0x40 || m == 0x80,
            other == 1 || other == 2 || other == 8 || other == 0x40 || other == 0x80,
    ;
}

/// After an instruction sets N and Z from `v` at a width, Z says whether
/// `v` cut to that width is zero and N whether its top bit is set; C, V and
/// D are kept.
pub proof fn lemma_nz_flags(p: u8, v: int, wide: bool)
    ensures
        has_flag(nz_flags(p, v, wide), S_RESULT_ZERO) == (masked(v, wide) == 0),
        has_flag(nz_flags(p, v, wide), S_NEGATIVE) == (masked(v, wide) >= top_bit(wide)),
        has_flag(nz_flags(p, v, wide), S_CARRY) == has_flag(p, S_CARRY),
        has_flag(nz_flags(p, v, wide), S_OVERFLOW) == has_flag(p, S_OVERFLOW),
        has_flag(nz_flags(p, v, wide), S_DECIMAL_MODE) == has_flag(p, S_DECIMAL_MODE),
{
    let z = with_flag(p, S_RESULT_ZERO, masked(v, wide) == 0);
    lemma_with_flag(p, S_RESULT_ZERO, masked(v, wide) == 0, S_RESULT_ZERO);
    lemma_with_flag(p, S_RESULT_ZERO, masked(v, wide) == 0, S_CARRY);
    lemma_with_flag(p, S_RESULT_ZERO, masked(v, wide) == 0, S_OVERFLOW);
    lemma_with_flag(p, S_RESULT_ZERO, masked(v, wide) == 0, S_DECIMAL_MODE);
    lemma_with_flag(z, S_NEGATIVE, masked(v, wide) >= top_bit(wide), S_NEGATIVE);
    lemma_with_flag(z, S_NEGATIVE, masked(v, wide) >= top_bit(wide), S_RESULT_ZERO);
    lemma_with_flag(z, S_NEGATIVE, masked(v, wide) >= top_bit(wide), S_CARRY);
    lemma_with_flag(z, S_NEGATIVE, masked(v, wide) >= top_bit(wide), S_OVERFLOW);
    lemma_with_flag(z, S_NEGATIVE, masked(v, wide) >= top_bit(wide), S_DECIMAL_MODE);
}

/// The accumulator, cut to its width, holds what was written at that width.
pub proof fn lemma_with_low(a: u16, v: int, wide: bool)
    ensures
        masked(with_low(a, v, wide) as int, wide) == masked(v, wide),
{
    if !wide {
        let q = a as int / 256;
        let r = v % 256;
        assert(0 <= q < 256 && 0 <= r < 256);
        assert((q * 256 + r) % 256 == r) by (nonlinear_arith)
            requires
                0 <= r < 256,
                0 <= q,
        ;
    }
}

/// C and V after A + m + C: C is the carry out of the width, V as the sum
/// of the flags says; N and Z come from the result.
proof fn lemma_sum_flags(s: Cpu, m: int)
    ensures
        ({
            let w = s.acc_wide();
            let a = s.reg_a.data as int;
            let raw = raw_sum(a, m, s.reg_p, w);
            let p = after_sum(s, m, 0).reg_p;
            &&& has_flag(p, S_CARRY) == (raw >= modulus(w))
            &&& has_flag(p, S_OVERFLOW) == (if has_flag(s.reg_p, S_DECIMAL_MODE) {
                true
            } else {
                signed_overflow(a, m, carry_of(s.reg_p), w)
            })
            &&& has_flag(p, S_RESULT_ZERO) == (masked(raw, w) == 0)
            &&& has_flag(p, S_NEGATIVE) == (masked(raw, w) >= top_bit(w))
        }),
{
    let w = s.acc_wide();
    let a = s.reg_a.data as int;
    let raw = raw_sum(a, m, s.reg_p, w);
    let v = if has_flag(s.reg_p, S_DECIMAL_MODE) {
        true
    } else {
        signed_overflow(a, m, carry_of(s.reg_p), w)
    };
    let q = with_flag(s.reg_p, S_CARRY, raw >= modulus(w));
    lemma_with_flag(s.reg_p, S_CARRY, raw >= modulus(w), S_CARRY);
    lemma_with_flag(q, S_OVERFLOW, v, S_CARRY);
    lemma_with_flag(q, S_OVERFLOW, v, S_OVERFLOW);
    lemma_nz_flags(with_flag(q, S_OVERFLOW, v), raw, w);
}

/// ADC in binary mode: A becomes (A + M + C) mod 2^w, C tells whether
/// A + M + C reached 2^w and V whether the signed sum left the signed range.
pub proof fn lemma_adc_binary(s: Cpu, m: int, len: int)
    requires
        !has_flag(s.reg_p, S_DECIMAL_MODE),
    ensures
        ({
            let w = s.acc_wide();
            let a = masked(s.reg_a.data as int, w);
            let sum = a + masked(m, w) + carry_of(s.reg_p);
            let t = after_sum(s, m, len);
            &&& masked(t.reg_a.data as int, w) == sum % modulus(w)
            &&& has_flag(t.reg_p, S_CARRY) == (sum >= modulus(w))
            &&& has_flag(t.reg_p, S_OVERFLOW) == signed_overflow(s.reg_a.data as int, m, carry_of(s.reg_p), w)
        }),
{
    let w = s.acc_wide();
    lemma_sum_flags(s, m);
    let raw = raw_sum(s.reg_a.data as int, m, s.reg_p, w);
    lemma_with_low(s.reg_a.data, raw % modulus(w), w);
    assert(after_sum(s, m, len).reg_p == after_sum(s, m, 0).reg_p);
}

/// The one's complement negates a signed value and subtracts one.
proof fn lemma_ones_signed(m: int, w: bool)
    ensures
        signed(ones(m, w), w) == -signed(m, w) - 1,
        masked(ones(m, w), w) == ones(m, w),
{
    let x = ones(m, w);
    assert(0 <= x < modulus(w));
    vstd::arithmetic::div_mod::lemma_small_mod(x as nat, modulus(w) as nat);
}

/// SBC in binary mode: A becomes (A - M - (1 - C)) mod 2^w, C is set
/// exactly when no borrow was needed and V when the signed difference left
/// the signed range.
pub proof fn lemma_sbc_binary(s: Cpu, m: int, len: int)
    requires
        !has_flag(s.reg_p, S_DECIMAL_MODE),
    ensures
        ({
            let w = s.acc_wide();
            let c = carry_of(s.reg_p);
            let diff = masked(s.reg_a.data as int, w) - masked(m, w) - (1 - c);
            let sdiff = signed(s.reg_a.data as int, w) - signed(m, w) - (1 - c);
            let t = after_sum(s, subtrahend(m, s.reg_p, w), len);
            &&& masked(t.reg_a.data as int, w) == diff % modulus(w)
            &&& has_flag(t.reg_p, S_CARRY) == (diff >= 0)
            &&& has_flag(t.reg_p, S_OVERFLOW) == (sdiff < -top_bit(w) || sdiff >= top_bit(w))
        }),
{
    let w = s.acc_wide();
    let n = ones(m, w);
    lemma_ones_signed(m, w);
    lemma_adc_binary(s, n, len);
    let c = carry_of(s.reg_p);
    let diff = masked(s.reg_a.data as int, w) - masked(m, w) - (1 - c);
    assert(masked(s.reg_a.data as int, w) + masked(n, w) + c == diff + modulus(w));
    vstd::arithmetic::div_mod::lemma_mod_add_multiples_vanish(diff, modulus(w));
}

/// XCE run twice gives back the emulation flag and the carry.
pub proof fn lemma_xce_involution(s: Cpu)
    ensures
        ({
            let t = Cpu {
                reg_p: xce_flags(s.reg_p, s.emulation),
                emulation: has_flag(s.reg_p, S_CARRY),
                ..s
            };
            let u = Cpu {
                reg_p: xce_flags(t.reg_p, t.emulation),
                emulation: has_flag(t.reg_p, S_CARRY),
                ..t
            };
            u.emulation == s.emulation && has_flag(u.reg_p, S_CARRY) == has_flag(s.reg_p, S_CARRY)
        }),
{
    lemma_xce_carry(s.reg_p, s.emulation);
    let p1 = xce_flags(s.reg_p, s.emulation);
    lemma_xce_carry(p1, has_flag(s.reg_p, S_CARRY));
}

/// After XCE the carry holds the old emulation flag.
proof fn lemma_xce_carry(p: u8, emulation: bool)
    ensures
        has_flag(xce_flags(p, emulation), S_CARRY) == emulation,
{
    let c = with_flag(p, S_CARRY, emulation);
    lemma_with_flag(p, S_CARRY, emulation, S_CARRY);
    assert(((c | 0x30u8) & 1u8 != 0) == (c & 1u8 != 0)) by (bit_vector);
}

/// Whether the low `n` nibbles of `x` are all decimal digits.
pub open spec fn is_bcd(x: int, n: nat) -> bool
    decreases n,
{
    n == 0 || (x % 16 <= 9 && is_bcd(x / 16, (n - 1) as nat))
}

/// The decimal number that the low `n` nibbles of `x` spell.
pub open spec fn bcd_value(x: int, n: nat) -> int
    decreases n,
{
    if n == 0 {
        0
    } else {
        x % 16 + 10 * bcd_value(x / 16, (n - 1) as nat)
    }
}

pub open spec fn pow10(n: nat) -> int
    decreases n,
{
    if n == 0 {
        1
    } else {
        10 * pow10((n - 1) as nat)
    }
}

pub open spec fn pow16(n: nat) -> int
    decreases n,
{
    if n == 0 {
        1
    } else {
        16 * pow16((n - 1) as nat)
    }
}

/// The number whose low `n` nibbles are all nine.
pub open spec fn all_nines(n: nat) -> int
    decreases n,
{
    if n == 0 {
        0
    } else {
        9 + 16 * all_nines((n - 1) as nat)
    }
}

proof fn lemma_pow_positive(n: nat)
    ensures
        pow10(n) >= 1,
        pow16(n) >= 1,
    decreases n,
{
    if n > 0 {
        lemma_pow_positive((n - 1) as nat);
    }
}

/// The nibble adder on decimal digits: the `n` result nibbles are digits,
/// the carry out is 0 or 1, and together they spell the decimal sum.
proof fn lemma_bcd_add(a: int, b: int, c: int, n: nat)
    requires
        a >= 0,
        b >= 0,
        0 <= c <= 1,
        is_bcd(a, n),
        is_bcd(b, n),
    ensures
        bcd_add(a, b, c, n) >= 0,
        is_bcd(bcd_add(a, b, c, n), n),
        0 <= bcd_add(a, b, c, n) / pow16(n) <= 1,
        bcd_value(bcd_add(a, b, c, n), n) + pow10(n) * (bcd_add(a, b, c, n) / pow16(n))
            == bcd_value(a, n) + bcd_value(b, n) + c,
    decreases n,
{
    lemma_pow_positive(n);
    if n > 0 {
        let m = (n - 1) as nat;
        let sum = a % 16 + b % 16 + c;
        let s = adjust(sum);
        let d = s % 16;
        let k = s / 16;
        assert(d + 10 * k == sum && 0 <= d <= 9 && 0 <= k <= 1);
        lemma_bcd_add(a / 16, b / 16, k, m);
        let rest = bcd_add(a / 16, b / 16, k, m);
        let r = bcd_add(a, b, c, n);
        assert(r == d + 16 * rest);
        assert(r % 16 == d && r / 16 == rest);
        lemma_pow_positive(m);
        vstd::arithmetic::div_mod::lemma_div_denominator(r, 16, pow16(m));
        assert(r / pow16(n) == rest / pow16(m));
        assert(pow10(n) * (rest / pow16(m)) == 10 * (pow10(m) * (rest / pow16(m)))) by (nonlinear_arith)
            requires
                pow10(n) == 10 * pow10(m),
        ;
    }
}

/// Only the low `n` nibbles count.
proof fn lemma_bcd_truncate(x: int, n: nat)
    requires
        x >= 0,
    ensures
        is_bcd(x % pow16(n), n) == is_bcd(x, n),
        bcd_value(x % pow16(n), n) == bcd_value(x, n),
    decreases n,
{
    lemma_pow_positive(n);
    if n > 0 {
        let m = (n - 1) as nat;
        lemma_pow_positive(m);
        let p = pow16(m);
        vstd::arithmetic::div_mod::lemma_mod_breakdown(x, 16, p);
        let y = x % pow16(n);
        let q = (x / 16) % p;
        assert(y == 16 * q + x % 16);
        assert(0 <= q);
        assert(y % 16 == x % 16 && y / 16 == q);
        lemma_bcd_truncate(x / 16, m);
    }
}

/// An `n`-digit decimal value is below 10^n.
proof fn lemma_bcd_bound(x: int, n: nat)
    requires
        x >= 0,
        is_bcd(x, n),
    ensures
        0 <= bcd_value(x, n) < pow10(n),
    decreases n,
{
    if n > 0 {
        lemma_bcd_bound(x / 16, (n - 1) as nat);
    }
}

/// The nine's complement of an `n`-digit decimal value.
proof fn lemma_nines(x: int, n: nat)
    requires
        0 <= x < pow16(n),
        is_bcd(x, n),
    ensures
        all_nines(n) - x >= 0,
        is_bcd(all_nines(n) - x, n),
        bcd_value(all_nines(n) - x, n) == pow10(n) - 1 - bcd_value(x, n),
    decreases n,
{
    if n > 0 {
        let m = (n - 1) as nat;
        lemma_pow_positive(m);
        assert(x / 16 < pow16(m));
        lemma_nines(x / 16, m);
        let y = all_nines(n) - x;
        let hi = all_nines(m) - x / 16;
        assert(y == (9 - x % 16) + 16 * hi);
        assert(y % 16 == 9 - x % 16 && y / 16 == hi);
    }
}

/// The facts about two and four digits that the widths need.
proof fn lemma_digit_widths(w: bool)
    ensures
        pow16(digits(w)) == modulus(w),
        pow10(digits(w)) == if w {
            10000int
        } else {
            100int
        },
        all_nines(digits(w)) == if w {
            0x9999int
        } else {
            0x99int
        },
{
    reveal_with_fuel(pow16, 5);
    reveal_with_fuel(pow10, 5);
    reveal_with_fuel(all_nines, 5);
}

/// The decimal adder at a width: the result digits and the carry out.
proof fn lemma_decimal_sum(s: Cpu, m: int)
    requires
        has_flag(s.reg_p, S_DECIMAL_MODE),
        is_bcd(masked(s.reg_a.data as int, s.acc_wide()), digits(s.acc_wide())),
        is_bcd(masked(m, s.acc_wide()), digits(s.acc_wide())),
    ensures
        ({
            let w = s.acc_wide();
            let n = digits(w);
            let total = bcd_value(masked(s.reg_a.data as int, w), n) + bcd_value(masked(m, w), n)
                + carry_of(s.reg_p);
            let t = after_sum(s, m, 0);
            &&& is_bcd(masked(t.reg_a.data as int, w), n)
            &&& bcd_value(masked(t.reg_a.data as int, w), n) == total % pow10(n)
            &&& has_flag(t.reg_p, S_CARRY) == (total >= pow10(n))
        }),
{
    let w = s.acc_wide();
    let n = digits(w);
    let a = masked(s.reg_a.data as int, w);
    let b = masked(m, w);
    let c = carry_of(s.reg_p);
    lemma_digit_widths(w);
    lemma_bcd_add(a, b, c, n);
    let raw = bcd_add(a, b, c, n);
    assert(raw == raw_sum(s.reg_a.data as int, m, s.reg_p, w));
    lemma_sum_flags(s, m);
    lemma_with_low(s.reg_a.data, raw % modulus(w), w);
    lemma_bcd_truncate(raw, n);
    lemma_bcd_bound(raw, n);
    let total = bcd_value(a, n) + bcd_value(b, n) + c;
    let v = bcd_value(raw, n);
    let k = raw / pow16(n);
    assert(total == v + pow10(n) * k);
    if k == 0 {
        vstd::arithmetic::div_mod::lemma_small_mod(v as nat, pow10(n) as nat);
        assert(raw < modulus(w));
    } else {
        vstd::arithmetic::div_mod::lemma_mod_add_multiples_vanish(v, pow10(n));
        vstd::arithmetic::div_mod::lemma_small_mod(v as nat, pow10(n) as nat);
        assert(raw >= modulus(w));
    }
    assert(masked(raw % modulus(w), w) == raw % modulus(w));
}

/// ADC in decimal mode on decimal digits: the result nibbles are digits,
/// they spell (A + M + C) mod 10^(w/4), and C tells whether the sum reached
/// 10^(w/4).
pub proof fn lemma_adc_decimal(s: Cpu, m: int, len: int)
    requires
        has_flag(s.reg_p, S_DECIMAL_MODE),
        is_bcd(masked(s.reg_a.data as int, s.acc_wide()), digits(s.acc_wide())),
        is_bcd(masked(m, s.acc_wide()), digits(s.acc_wide())),
    ensures
        ({
            let w = s.acc_wide();
            let n = digits(w);
            let total = bcd_value(masked(s.reg_a.data as int, w), n) + bcd_value(masked(m, w), n)
                + carry_of(s.reg_p);
            let t = after_sum(s, m, len);
            &&& is_bcd(masked(t.reg_a.data as int, w), n)
            &&& bcd_value(masked(t.reg_a.data as int, w), n) == total % pow10(n)
            &&& has_flag(t.reg_p, S_CARRY) == (total >= pow10(n))
        }),
{
    lemma_decimal_sum(s, m);
}

/// SBC in decimal mode on decimal digits: the result nibbles are digits,
/// they spell (A - M - (1 - C)) mod 10^(w/4), and C is set exactly when no
/// borrow was needed.
pub proof fn lemma_sbc_decimal(s: Cpu, m: int, len: int)
    requires
        has_flag(s.reg_p, S_DECIMAL_MODE),
        is_bcd(masked(s.reg_a.data as int, s.acc_wide()), digits(s.acc_wide())),
        is_bcd(masked(m, s.acc_wide()), digits(s.acc_wide())),
    ensures
        ({
            let w = s.acc_wide();
            let n = digits(w);
            let diff = bcd_value(masked(s.reg_a.data as int, w), n) - bcd_value(masked(m, w), n)
                - (1 - carry_of(s.reg_p));
            let t = after_sum(s, subtrahend(m, s.reg_p, w), len);
            &&& is_bcd(masked(t.reg_a.data as int, w), n)
            &&& bcd_value(masked(t.reg_a.data as int, w), n) == diff % pow10(n)
            &&& has_flag(t.reg_p, S_CARRY) == (diff >= 0)
        }),
{
    let w = s.acc_wide();
    let n = digits(w);
    let x = masked(m, w);
    lemma_digit_widths(w);
    lemma_nines(x, n);
    let y = nines(m, w);
    assert(y == all_nines(n) - x);
    lemma_masked_twice(y, w);
    assert(masked(y, w) == y);
    lemma_decimal_sum(s, y);
    let diff = bcd_value(masked(s.reg_a.data as int, w), n) - bcd_value(x, n) - (1 - carry_of(s.reg_p));
    assert(bcd_value(masked(s.reg_a.data as int, w), n) + bcd_value(y, n) + carry_of(s.reg_p) == diff + pow10(n));
    vstd::arithmetic::div_mod::lemma_mod_add_multiples_vanish(diff, pow10(n));
}

/// The number of stack bytes that the pushes `items` (value, width) take.
pub open spec fn stack_bytes(items: Seq<(u16, bool)>) -> int
    decreases items.len(),
{
    if items.len() == 0 {
        0
    } else {
        stack_bytes(items.drop_last()) + size_of(items.last().1)
    }
}

/// The stack pointer after the pushes `items` from `sp`.
pub open spec fn sp_after(sp: int, items: Seq<(u16, bool)>) -> int {
    add16(sp, -stack_bytes(items)) as int
}

/// Memory after the pushes `items`, first to last, from `sp`.
pub open spec fn push_all(mem: Seq<u8>, sp: int, items: Seq<(u16, bool)>) -> Seq<u8>
    decreases items.len(),
{
    if items.len() == 0 {
        mem
    } else {
        pushed(
            push_all(mem, sp, items.drop_last()),
            sp_after(sp, items.drop_last()),
            items.last().0 as int,
            items.last().1,
        )
    }
}

proof fn lemma_add16_add16(x: int, a: int, b: int)
    ensures
        add16(add16(x, a) as int, b) == add16(x, a + b),
{
    vstd::arithmetic::div_mod::lemma_add_mod_noop(x + a, b, 0x10000);
    vstd::arithmetic::div_mod::lemma_add_mod_noop((x + a) % 0x10000, b, 0x10000);
    vstd::arithmetic::div_mod::lemma_mod_twice(x + a, 0x10000);
}

proof fn lemma_add16_distinct(x: int, a: int, b: int)
    requires
        0 < a - b < 0x10000,
    ensures
        add16(x, a) != add16(x, b),
{
    let p = x + b;
    let q = x + a;
    if add16(x, a) == add16(x, b) {
        vstd::arithmetic::div_mod::lemma_fundamental_div_mod(p, 0x10000);
        vstd::arithmetic::div_mod::lemma_fundamental_div_mod(q, 0x10000);
        assert(q - p == 0x10000 * (q / 0x10000 - p / 0x10000)) by (nonlinear_arith)
            requires
                p == 0x10000 * (p / 0x10000) + p % 0x10000,
                q == 0x10000 * (q / 0x10000) + q % 0x10000,
                p % 0x10000 == q % 0x10000,
        ;
        assert(false) by (nonlinear_arith)
            requires
                q - p == 0x10000 * (q / 0x10000 - p / 0x10000),
                0 < q - p < 0x10000,
        ;
    }
}

proof fn lemma_stack_bytes_prefix(items: Seq<(u16, bool)>, k: int)
    requires
        0 <= k <= items.len(),
    ensures
        stack_bytes(items.take(k)) + (items.len() - k) <= stack_bytes(items),
        stack_bytes(items.take(k)) <= stack_bytes(items) - (items.len() - k),
        0 <= stack_bytes(items.take(k)),
    decreases items.len(),
{
    if k == items.len() {
        assert(items.take(k) =~= items);
        lemma_stack_bytes_nonneg(items);
    } else {
        lemma_stack_bytes_prefix(items.drop_last(), k);
        assert(items.drop_last().take(k) =~= items.take(k));
    }
}

proof fn lemma_stack_bytes_nonneg(items: Seq<(u16, bool)>)
    ensures
        stack_bytes(items) >= 0,
    decreases items.len(),
{
    if items.len() > 0 {
        lemma_stack_bytes_nonneg(items.drop_last());
    }
}

/// Push and pull round trip: after pushes `items` (each a value and a
/// width) from `sp`, pulling them back in reverse order returns each value
/// at its width, and each pull restores the stack pointer that stood
/// before the matching push, as long as the pushes take less than the
/// 64 KiB that the stack pointer can span.
pub proof fn lemma_push_pull_round_trip(mem: Seq<u8>, sp: int, items: Seq<(u16, bool)>, k: int)
    requires
        mem.len() == 0x100_0000,
        0 <= sp < 0x10000,
        stack_bytes(items) < 0x10000,
        0 <= k < items.len(),
    ensures
        pulled(push_all(mem, sp, items), sp_after(sp, items.take(k + 1)), items[k].1) == masked(
            items[k].0 as int,
            items[k].1,
        ),
        add16(sp_after(sp, items.take(k + 1)), size_of(items[k].1)) == sp_after(sp, items.take(k)),
    decreases items.len(),
{
    let v = items[k].0 as int;
    let w = items[k].1;
    let before = stack_bytes(items.take(k));
    let after = stack_bytes(items.take(k + 1));
    assert(items.take(k + 1).drop_last() =~= items.take(k));
    assert(after == before + size_of(w));
    lemma_stack_bytes_prefix(items, k);
    lemma_stack_bytes_prefix(items, k + 1);
    lemma_add16_add16(sp, -after, size_of(w));
    lemma_add16_add16(sp, -after, 1);
    lemma_add16_add16(sp, -after, 2);
    if k == items.len() - 1 {
        assert(items.drop_last() =~= items.take(k));
        let m0 = push_all(mem, sp, items.take(k));
        let top = sp_after(sp, items.take(k));
        lemma_push_all_len(mem, sp, items.take(k));
        vstd::arithmetic::div_mod::lemma_mod_bound(sp - before, 0x10000);
        if w {
            lemma_add16_add16(sp, -before, -1);
            lemma_add16_distinct(sp, -before, -before - 1);
            assert(add16(top, -1) == add16(sp, -before - 1));
            assert(masked(v, true) == v % 256 + 256 * ((v / 256) % 256)) by {
                vstd::arithmetic::div_mod::lemma_mod_breakdown(v, 256, 256);
            }
        } else {
            assert(add16(sp_after(sp, items.take(k + 1)), 1) == add16(sp, -before));
        }
    } else {
        let rest = items.drop_last();
        assert(rest.take(k + 1) =~= items.take(k + 1));
        assert(rest.take(k) =~= items.take(k));
        lemma_stack_bytes_nonneg(rest);
        lemma_push_pull_round_trip(mem, sp, rest, k);
        let last = items.last();
        let below = stack_bytes(rest);
        assert(rest.take(rest.len() as int) =~= rest);
        lemma_stack_bytes_prefix(rest, k + 1);
        assert(stack_bytes(items) == below + size_of(last.1));
        lemma_push_all_len(mem, sp, rest);
        let top = sp_after(sp, rest);
        lemma_add16_add16(sp, -below, -1);
        // the last push writes at `top` and `top - 1`, below what item `k` holds
        lemma_add16_distinct(sp, -after + 1, -below);
        lemma_add16_distinct(sp, -after + 2, -below);
        if last.1 {
            lemma_add16_distinct(sp, -after + 1, -below - 1);
            lemma_add16_distinct(sp, -after + 2, -below - 1);
        }
    }
}

/// A pull of what a push of the accumulator left gives the accumulator
/// back whole: at 8 bits the high byte is kept, at 16 bits both come back.
pub proof fn lemma_accumulator_round_trip(a: u16, wide: bool)
    ensures
        with_low(a, masked(a as int, wide), wide) == a,
{
    if !wide {
        let q = a as int / 256;
        let r = a as int % 256;
        assert(q * 256 + r == a as int);
        lemma_masked_twice(a as int, wide);
    }
}

proof fn lemma_push_all_len(mem: Seq<u8>, sp: int, items: Seq<(u16, bool)>)
    requires
        mem.len() == 0x100_0000,
    ensures
        push_all(mem, sp, items).len() == 0x100_0000,
    decreases items.len(),
{
    if items.len() > 0 {
        lemma_push_all_len(mem, sp, items.drop_last());
    }
}

} // verus!
