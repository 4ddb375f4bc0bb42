use ddss_snes::cpu::alu::{
    AddressMode, Cpu, S_CARRY, S_DECIMAL_MODE, S_NEGATIVE, S_OVERFLOW, S_RESULT_ZERO,
};
use ddss_snes::cpu::bits::Word;
use ddss_snes::cpu::bus::Bus;

fn cpu_with(bytes: &[(u32, u8)]) -> Cpu {
    let mut b = Bus::new();
    for &(addr, val) in bytes {
        b.write_byte(addr, val);
    }
    native(Cpu::new(Box::new(b)))
}

/// The processor in native mode with 16-bit widths and P clear.
fn native(mut c: Cpu) -> Cpu {
    c.emulation = false;
    c.reg_p = 0;
    c
}

#[test]
fn absolute_fetch() {
    let mut c = cpu_with(&[(0x100, 0xFF), (0x101, 0xFF), (0x12FFFF, 0x01), (0x130000, 0x02)]);
    c.reg_db = 0x12;
    c.pc = 0xFF;
    assert_eq!(c.fetch(AddressMode::Absolute, true), 0x0201);
    assert_eq!(c.pc, 0x101);
}

#[test]
fn adc_binary_clears_flags() {
    let mut c = cpu_with(&[(0x100, 0x46)]);
    c.emulation = false;
    c.pc = 0xFF;
    c.reg_p = S_CARRY;
    c.reg_a = Word::new(0x00, 0x58);
    c.op_adc(0x69);
    assert_eq!(c.reg_a.data, 0x009F);
    assert_eq!(c.reg_p & (S_CARRY | S_OVERFLOW | S_NEGATIVE | S_RESULT_ZERO), 0);
}

#[test]
fn adc_decimal_emulation() {
    let mut c = cpu_with(&[(0x100, 0x46)]);
    c.emulation = true;
    c.pc = 0xFF;
    c.reg_p = S_CARRY | S_DECIMAL_MODE;
    c.reg_a = Word::new(0x00, 0x58);
    c.op_adc(0x69);
    assert_eq!(c.reg_a.data, 0x05);
    assert_eq!(c.reg_p & S_CARRY, S_CARRY);
}

#[test]
fn sbc_decimal_emulation() {
    let mut c = cpu_with(&[(0x100, 0x12)]);
    c.emulation = true;
    c.pc = 0xFF;
    c.reg_p = S_CARRY | S_DECIMAL_MODE;
    c.reg_a = Word::new(0x00, 0x46);
    c.op_sbc(0xE9);
    assert_eq!(c.reg_a.data, 0x34);
    assert_eq!(c.reg_p & S_CARRY, S_CARRY);
}

#[test]
fn sbc_decimal_native_sixteen_bit() {
    let mut c = cpu_with(&[(0x100, 0x03), (0x101, 0x20)]);
    c.emulation = false;
    c.pc = 0xFF;
    c.reg_p = S_CARRY | S_DECIMAL_MODE;
    c.reg_a = Word::new(0x00, 0x01);
    c.op_sbc(0xE9);
    assert_eq!(c.reg_a.data, 0x7998);
    assert_eq!(c.reg_p, S_DECIMAL_MODE | S_OVERFLOW);
}

#[test]
fn branch_taken_backward() {
    let mut c = cpu_with(&[(0x8011, 0xFA)]);
    c.pc = 0x8010;
    c.reg_p = S_RESULT_ZERO;
    c.op_branch(0xF0);
    assert_eq!(c.pc, 0x800B);
}

#[test]
fn branch_not_taken_skips_offset() {
    let mut c = cpu_with(&[(0x8011, 0xFA)]);
    c.pc = 0x8010;
    c.reg_p = 0;
    c.op_branch(0xF0);
    assert_eq!(c.pc, 0x8011);
}
