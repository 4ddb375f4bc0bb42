use ddss_snes::cpu::alu::{
    Cpu, S_ACCUMULATOR_MEMORY, S_CARRY, S_DECIMAL_MODE, S_INDEX_REGISTERS, S_NEGATIVE,
    S_OVERFLOW, S_RESULT_ZERO,
};
use ddss_snes::cpu::bits::Word;
use ddss_snes::cpu::bus::Bus;

fn cpu_with(bytes: &[(u32, u8)]) -> Cpu {
    let mut b = Bus::new();
    for &(addr, val) in bytes {
        b.write_byte(addr, val);
    }
    native(Cpu::new(Box::new(b)))
}

/// The processor in native mode with 16-bit widths and P clear.
fn native(mut c: Cpu) -> Cpu {
    c.emulation = false;
    c.reg_p = 0;
    c
}

#[test]
fn nz_follow_the_width() {
    // LDA #$80 in 8-bit mode: negative, not zero
    let mut c = cpu_with(&[(0x8001, 0x80)]);
    c.reg_p = S_ACCUMULATOR_MEMORY;
    c.op_lda(0xA9);
    assert_eq!(c.reg_a.data, 0x80);
    assert_eq!(c.reg_p & (S_NEGATIVE | S_RESULT_ZERO), S_NEGATIVE);
    // LDA #$0080 in 16-bit mode: neither
    let mut c = cpu_with(&[(0x8001, 0x80), (0x8002, 0x00)]);
    c.op_lda(0xA9);
    assert_eq!(c.reg_a.data, 0x0080);
    assert_eq!(c.reg_p & (S_NEGATIVE | S_RESULT_ZERO), 0);
    // LDA #$00 in 8-bit mode keeps B and sets Z
    let mut c = cpu_with(&[(0x8001, 0x00)]);
    c.reg_p = S_ACCUMULATOR_MEMORY;
    c.reg_a = Word::new(0x12, 0x34);
    c.op_lda(0xA9);
    assert_eq!(c.reg_a.data, 0x1200);
    assert_eq!(c.reg_p & (S_NEGATIVE | S_RESULT_ZERO), S_RESULT_ZERO);
}

#[test]
fn adc_binary_carry_and_overflow() {
    // 8-bit: 0x7F + 0x01 overflows the signed range, no carry
    let mut c = cpu_with(&[(0x8001, 0x01)]);
    c.emulation = true;
    c.reg_a = Word::new(0x00, 0x7F);
    c.op_adc(0x69);
    assert_eq!(c.reg_a.data, 0x80);
    assert_eq!(c.reg_p & (S_CARRY | S_OVERFLOW | S_NEGATIVE), S_OVERFLOW | S_NEGATIVE);
    // 16-bit: 0xFFFF + 0x0001 + C wraps to 0x0001 with carry
    let mut c = cpu_with(&[(0x8001, 0x01), (0x8002, 0x00)]);
    c.reg_p = S_CARRY;
    c.reg_a = Word::new(0xFF, 0xFF);
    c.op_adc(0x69);
    assert_eq!(c.reg_a.data, 0x0001);
    assert_eq!(c.reg_p & (S_CARRY | S_OVERFLOW | S_ZERO_OR_N), S_CARRY);
}

const S_ZERO_OR_N: u8 = S_RESULT_ZERO | S_NEGATIVE;

#[test]
fn sbc_binary_borrow() {
    // 8-bit: 0x10 - 0x20 with C set borrows: 0xF0, C clear
    let mut c = cpu_with(&[(0x8001, 0x20)]);
    c.emulation = true;
    c.reg_p = S_CARRY;
    c.reg_a = Word::new(0x00, 0x10);
    c.op_sbc(0xE9);
    assert_eq!(c.reg_a.data, 0xF0);
    assert_eq!(c.reg_p & (S_CARRY | S_NEGATIVE), S_NEGATIVE);
}

#[test]
fn adc_decimal_sixteen_bit_wraps() {
    let mut c = cpu_with(&[(0x8001, 0x01), (0x8002, 0x00)]);
    c.reg_p = S_DECIMAL_MODE;
    c.reg_a = Word::new(0x99, 0x99);
    c.op_adc(0x69);
    assert_eq!(c.reg_a.data, 0x0000);
    assert_eq!(c.reg_p & (S_CARRY | S_RESULT_ZERO), S_CARRY | S_RESULT_ZERO);
}

#[test]
fn push_pull_round_trip() {
    let mut c = cpu_with(&[]);
    c.reg_a = Word::new(0x12, 0x34);
    c.reg_x = 0x5678;
    c.reg_d = 0x9ABC;
    c.reg_db = 0x7E;
    let sp = c.sp;
    c.op_pha(0x48);
    c.op_phx(0xDA);
    c.op_phd(0x0B);
    c.op_phb(0x8B);
    assert_eq!(c.sp, sp - 7);
    c.reg_a = Word::new(0, 0);
    c.reg_x = 0;
    c.reg_d = 0;
    c.reg_db = 0;
    c.op_plb(0xAB);
    c.op_pld(0x2B);
    c.op_plx(0xFA);
    c.op_pla(0x68);
    assert_eq!(c.reg_a.data, 0x1234);
    assert_eq!(c.reg_x, 0x5678);
    assert_eq!(c.reg_d, 0x9ABC);
    assert_eq!(c.reg_db, 0x7E);
    assert_eq!(c.sp, sp);
}

#[test]
fn pc_rolls_over_within_bank() {
    let mut b = Bus::new();
    b.write_byte(0x05FFFF, 0x18); // CLC
    let mut c = native(Cpu::new(Box::new(b)));
    c.reg_pb = 0x05;
    c.pc = 0xFFFF;
    assert!(c.step().is_ok());
    assert_eq!(c.pc, 0x0000);
    assert_eq!(c.reg_pb, 0x05);
}

#[test]
fn xce_twice_restores_mode_and_carry() {
    let mut c = cpu_with(&[]);
    c.emulation = true;
    c.reg_p = 0;
    c.op_xce(0xFB);
    assert!(!c.emulation);
    assert_eq!(c.reg_p & S_CARRY, S_CARRY);
    assert_eq!(c.reg_p & (S_ACCUMULATOR_MEMORY | S_INDEX_REGISTERS), 0x30);
    c.op_xce(0xFB);
    assert!(c.emulation);
    assert_eq!(c.reg_p & S_CARRY, 0);
}
