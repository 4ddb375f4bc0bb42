use ddss_snes::cpu::alu::{Cpu, S_CARRY, S_DECIMAL_MODE, S_NEGATIVE, S_OVERFLOW};
use ddss_snes::cpu::bits::Word;
use ddss_snes::cpu::bus::Bus;

#[test]
fn op_adc_binary() {
    let mut b = Bus::new();
    b.write_byte(0x100, 0x46);
    let mut c = Cpu::new(Box::new(b));
    // 16-bit
    c.emulation = false;
    // PC
    c.pc = 0xFF;
    // CARRY
    c.reg_p = S_CARRY;
    // LDA
    c.reg_a = Word::new(0x0, 0x58);
    // immediate
    c.op_adc(0x69);
    assert_eq!(c.reg_a.data, 0x9F);
    assert_eq!(c.reg_p, 0x0);
}

#[test]
fn op_adc_decimal() {
    /* Test 1 */
    let mut b = Bus::new();
    b.write_byte(0x100, 0x46);
    let mut c = Cpu::new(Box::new(b));
    // Emulation
    c.emulation = true;

    // PC
    c.pc = 0xFF;
    // CARRY + DECIMAL
    c.reg_p = S_CARRY | S_DECIMAL_MODE;
    // LDA
    c.reg_a = Word::new(0x0, 0x58);
    // immediate
    c.op_adc(0x69);
    assert_eq!(c.reg_a.data, 0x05);
    assert_eq!(c.reg_p & S_CARRY, S_CARRY);

    /* Test 2 */
    let mut b = Bus::new();
    b.write_byte(0x100, 0x34);
    let mut c = Cpu::new(Box::new(b));
    // Emulation
    c.emulation = true;
    // PC
    c.pc = 0xFF;
    // DECIMAL
    c.reg_p = S_DECIMAL_MODE;
    // LDA
    c.reg_a = Word::new(0x0, 0x12);
    // immediate
    c.op_adc(0x69);
    assert_eq!(c.reg_a.data, 0x46);
    assert_eq!(c.reg_p & S_CARRY, 0x0);

    /* Test 3 */
    let mut b = Bus::new();
    b.write_byte(0x100, 0x92);
    let mut c = Cpu::new(Box::new(b));
    // Emulation
    c.emulation = true;
    // PC
    c.pc = 0xFF;
    // DECIMAL
    c.reg_p = S_DECIMAL_MODE;
    // LDA
    c.reg_a = Word::new(0x0, 0x81);
    // immediate
    c.op_adc(0x69);
    assert_eq!(c.reg_a.data, 0x73);
    assert_eq!(c.reg_p & S_CARRY, S_CARRY);
}

#[test]
fn op_sbc_decimal() {
    /* Test 1 */
    let mut b = Bus::new();
    b.write_byte(0x100, 0x12);
    let mut c = Cpu::new(Box::new(b));
    // PC
    c.pc = 0xFF;
    // 8-bit
    c.emulation = true;
    // CARRY
    c.reg_p = S_CARRY | S_DECIMAL_MODE;
    // LDA
    c.reg_a = Word::new(0x0, 0x46);
    // immediate
    c.op_sbc(0xE9);
    assert_eq!(c.reg_a.data, 0x34);
    assert_eq!(c.reg_p & S_CARRY, 0x1);

    /* Test 2 */
    let mut b = Bus::new();
    b.write_byte(0x100, 0x13);
    let mut c = Cpu::new(Box::new(b));
    // PC
    c.pc = 0xFF;
    // 8-bit
    c.emulation = true;
    // CARRY
    c.reg_p = S_CARRY | S_DECIMAL_MODE;
    // LDA
    c.reg_a = Word::new(0x0, 0x40);
    // immediate
    c.op_sbc(0xE9);
    assert_eq!(c.reg_a.data, 0x27);
    assert_eq!(c.reg_p & S_CARRY, 0x1);

    /* Test 3 */
    let mut b = Bus::new();
    b.write_byte(0x100, 0x2);
    let mut c = Cpu::new(Box::new(b));
    // PC
    c.pc = 0xFF;
    // 8-bit
    c.emulation = true;
    // CARRY
    c.reg_p = S_DECIMAL_MODE;
    // LDA
    c.reg_a = Word::new(0x0, 0x32);
    // immediate
    c.op_sbc(0xE9);
    assert_eq!(c.reg_a.data, 0x29);
    assert_eq!(c.reg_p & S_CARRY, 0x1);

    /* Test 4 */
    let mut b = Bus::new();
    b.write_byte(0x100, 0x21);
    let mut c = Cpu::new(Box::new(b));
    // PC
    c.pc = 0xFF;
    // 8-bit
    c.emulation = true;
    // CARRY
    c.reg_p = S_CARRY | S_DECIMAL_MODE;
    // LDA
    c.reg_a = Word::new(0x0, 0x12);
    // immediate
    c.op_sbc(0xE9);
    assert_eq!(c.reg_a.data, 0x91);
    assert_eq!(c.reg_p & S_CARRY, 0x0);

    /* Test 5 */
    let mut b = Bus::new();
    b.write_byte(0x100, 0x03);
    b.write_byte(0x101, 0x20);
    let mut c = Cpu::new(Box::new(b));
    // PC
    c.pc = 0xFF;
    // 16-bit
    c.emulation = false;
    // CARRY
    c.reg_p = S_CARRY;
    // LDA
    c.reg_a = Word::new(0x0, 0x1);
    // immediate
    c.op_sbc(0xE9);
    assert_eq!(c.reg_a.data, 0xDFFE);
    assert_eq!(S_NEGATIVE, c.reg_p);

    /* Test 6 */
    let mut b = Bus::new();
    b.write_byte(0x100, 0x03);
    b.write_byte(0x101, 0x20);
    let mut c = Cpu::new(Box::new(b));
    // PC
    c.pc = 0xFF;
    // 16-bit
    c.emulation = false;
    // CARRY + DECIMAL
    c.reg_p = S_CARRY | S_DECIMAL_MODE;
    // LDA
    c.reg_a = Word::new(0x0, 0x1);
    // immediate
    c.op_sbc(0xE9);
    assert_eq!(c.reg_a.data, 0x7998);
    assert_eq!(S_DECIMAL_MODE | S_OVERFLOW, c.reg_p);
}
