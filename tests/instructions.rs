use ddss_snes::cpu::alu::{Cpu, S_ACCUMULATOR_MEMORY, S_CARRY, S_NEGATIVE, S_RESULT_ZERO};
use ddss_snes::cpu::bits::Word;
use ddss_snes::cpu::bus::Bus;
use ddss_snes::cpu::dispatch::ExecFault;

fn cpu_with(bytes: &[(u32, u8)]) -> Cpu {
    let mut b = Bus::new();
    for &(addr, val) in bytes {
        b.write_byte(addr, val);
    }
    native(Cpu::new(Box::new(b)))
}

/// The processor in native mode with 16-bit widths and P clear.
fn native(mut c: Cpu) -> Cpu {
    c.emulation = false;
    c.reg_p = 0;
    c
}

#[test]
fn word_halves() {
    let w = Word::new(0xAB, 0xCD);
    assert_eq!(w.data, 0xABCD);
    assert_eq!(w.hi(), 0xAB);
    assert_eq!(w.lo(), 0xCD);
}

#[test]
fn bus_reads_back_and_wraps_at_24_bits() {
    let mut b = Bus::new();
    b.write_byte(0x12_3456, 0x9A);
    assert_eq!(b.read_byte(0x12_3456), 0x9A);
    assert_eq!(b.read_byte(0x0112_3456), 0x9A);
    assert_eq!(b.read_wide(0x12_3456), 0x9A);
    b.write_byte(0xFF_FFFF, 0x01);
    b.write_byte(0x00_0000, 0x02);
    assert_eq!(b.r16(0xFF_FFFF), 0x0201);
}

#[test]
fn unknown_opcode_is_a_fault() {
    let mut c = cpu_with(&[(0x8000, 0x42)]);
    assert_eq!(c.step(), Err(ExecFault { opcode: 0x42, pc: 0x8000 }));
    assert_eq!(c.pc, 0x8000);
    assert_eq!(c.decode_and_execute(0xDB), Err(ExecFault { opcode: 0xDB, pc: 0x8000 }));
}

#[test]
fn start_runs_until_fault() {
    // CLC; SEC; INX; then an unknown opcode
    let mut c = cpu_with(&[(0x8000, 0x18), (0x8001, 0x38), (0x8002, 0xE8), (0x8003, 0x42)]);
    let r = c.start(100);
    assert_eq!(r, Err(ExecFault { opcode: 0x42, pc: 0x8003 }));
    assert_eq!(c.reg_p & S_CARRY, S_CARRY);
    assert_eq!(c.reg_x, 1);
}

#[test]
fn new_starts_in_emulation() {
    let c = Cpu::new(Box::new(Bus::new()));
    assert!(c.emulation);
    assert_eq!(c.pc, 0x8000);
    assert_eq!(c.sp, 0x1FF);
    assert_eq!(c.reg_p, 0x30);
}

#[test]
fn reset_enters_emulation() {
    let mut c = cpu_with(&[]);
    c.pc = 0x1234;
    c.reset();
    assert!(c.emulation);
    assert_eq!(c.pc, 0x8000);
    assert_eq!(c.sp, 0x1FF);
    assert_eq!(c.reg_p & 0x30, 0x30);
}

#[test]
fn store_and_load_sixteen_bit() {
    // STA $2000 then LDA $2000 with DB = 0x7E
    let mut c = cpu_with(&[(0x8001, 0x00), (0x8002, 0x20)]);
    c.reg_db = 0x7E;
    c.reg_a = Word::new(0xBE, 0xEF);
    c.op_sta(0x8D);
    assert_eq!(c.pc, 0x8002);
    let mut d = native(Cpu::new(c.bus));
    d.reg_db = 0x7E;
    d.op_lda(0xAD);
    assert_eq!(d.reg_a.data, 0xBEEF);
    assert_eq!(d.reg_p & S_NEGATIVE, S_NEGATIVE);
}

#[test]
fn stz_and_stx_write_memory() {
    let mut b = Bus::new();
    b.write_byte(0x10, 0x55);
    b.write_byte(0x8001, 0x10);
    b.write_byte(0x8003, 0x20);
    let mut c = native(Cpu::new(Box::new(b)));
    c.reg_p = S_ACCUMULATOR_MEMORY;
    c.op_stz(0x64);
    assert_eq!(c.bus.read_byte(0x10), 0);
    c.pc = 0x8002;
    c.reg_x = 0x4321;
    c.op_stx(0x86);
    assert_eq!(c.bus.read_byte(0x20), 0x21);
    assert_eq!(c.bus.read_byte(0x21), 0x43);
}

#[test]
fn logic_and_compare() {
    let mut c = cpu_with(&[(0x8001, 0x0F), (0x8002, 0x00)]);
    c.reg_a = Word::new(0x12, 0x34);
    c.op_and(0x29);
    assert_eq!(c.reg_a.data, 0x0004);
    c.pc = 0x8000;
    c.op_eor(0x49);
    assert_eq!(c.reg_a.data, 0x000B);
    c.pc = 0x8000;
    c.op_ora(0x09);
    assert_eq!(c.reg_a.data, 0x000F);
    c.pc = 0x8000;
    c.op_cmp(0xC9);
    assert_eq!(c.reg_p & (S_CARRY | S_RESULT_ZERO), S_CARRY | S_RESULT_ZERO);
    c.reg_x = 0x0005;
    c.pc = 0x8000;
    c.op_cpx(0xE0);
    assert_eq!(c.reg_p & (S_CARRY | S_NEGATIVE), S_NEGATIVE);
}

#[test]
fn bit_sets_n_and_v_from_memory() {
    let mut c = cpu_with(&[(0x8001, 0x40), (0x40, 0xC0)]);
    c.reg_p = S_ACCUMULATOR_MEMORY;
    c.reg_a = Word::new(0, 0x01);
    c.op_bit(0x24);
    assert_eq!(c.reg_p & 0xC2, 0xC2);
}

#[test]
fn shifts_and_steps() {
    let mut c = cpu_with(&[]);
    c.reg_p = S_ACCUMULATOR_MEMORY;
    c.reg_a = Word::new(0x00, 0x81);
    c.op_asl(0x0A);
    assert_eq!(c.reg_a.data, 0x02);
    assert_eq!(c.reg_p & S_CARRY, S_CARRY);
    c.op_ror(0x6A);
    assert_eq!(c.reg_a.data, 0x81);
    c.op_lsr(0x4A);
    assert_eq!(c.reg_a.data, 0x40);
    assert_eq!(c.reg_p & S_CARRY, S_CARRY);
    c.op_rol(0x2A);
    assert_eq!(c.reg_a.data, 0x81);
    c.op_dec(0x3A);
    assert_eq!(c.reg_a.data, 0x80);
    c.op_inc(0x1A);
    assert_eq!(c.reg_a.data, 0x81);
    c.reg_x = 0;
    c.op_dex(0xCA);
    assert_eq!(c.reg_x, 0xFFFF);
    c.op_inx(0xE8);
    assert_eq!(c.reg_x, 0);
    assert_eq!(c.reg_p & S_RESULT_ZERO, S_RESULT_ZERO);
}

#[test]
fn memory_increment() {
    let mut c = cpu_with(&[(0x8001, 0x30), (0x30, 0xFF), (0x31, 0x00)]);
    c.op_inc(0xE6);
    assert_eq!(c.bus.read_byte(0x30), 0x00);
    assert_eq!(c.bus.read_byte(0x31), 0x01);
    assert_eq!(c.pc, 0x8001);
}

#[test]
fn jsr_and_rts_return_after_the_call() {
    let mut c = cpu_with(&[(0x8000, 0x20), (0x8001, 0x00), (0x8002, 0x90), (0x9000, 0x60)]);
    assert!(c.step().is_ok());
    assert_eq!(c.pc, 0x9000);
    assert_eq!(c.sp, 0x1FD);
    assert!(c.step().is_ok());
    assert_eq!(c.pc, 0x8003);
    assert_eq!(c.sp, 0x1FF);
}

#[test]
fn jsl_and_rtl_cross_banks() {
    let mut c = cpu_with(&[(0x8000, 0x22), (0x8001, 0x34), (0x8002, 0x12), (0x8003, 0x05), (0x05_1234, 0x6B)]);
    assert!(c.step().is_ok());
    assert_eq!(c.reg_pb, 0x05);
    assert_eq!(c.pc, 0x1234);
    assert!(c.step().is_ok());
    assert_eq!(c.reg_pb, 0x00);
    assert_eq!(c.pc, 0x8004);
}

#[test]
fn jumps_set_pc_to_target() {
    let mut c = cpu_with(&[(0x8001, 0x00), (0x8002, 0xA0)]);
    c.op_jmp(0x4C);
    assert_eq!(c.pc, 0xA000);
    let mut c = cpu_with(&[(0x8001, 0x00), (0x8002, 0xA0), (0x8003, 0x03)]);
    c.op_jmp(0x5C);
    assert_eq!((c.reg_pb, c.pc), (0x03, 0xA000));
    let mut c = cpu_with(&[(0x8001, 0x00), (0x8002, 0x03), (0x300, 0x34), (0x301, 0x12)]);
    c.op_jmp(0x6C);
    assert_eq!(c.pc, 0x1234);
    let mut c = cpu_with(&[(0x8001, 0x00), (0x8002, 0x03), (0x302, 0x34), (0x303, 0x12)]);
    c.reg_x = 2;
    c.op_jmp(0x7C);
    assert_eq!(c.pc, 0x1234);
    let mut c = cpu_with(&[(0x8001, 0x00), (0x8002, 0x03), (0x300, 0x34), (0x301, 0x12), (0x302, 0x7F)]);
    c.op_jml(0xDC);
    assert_eq!((c.reg_pb, c.pc), (0x7F, 0x1234));
    // the run loop then moves on by one
    let mut c = cpu_with(&[(0x8000, 0x4C), (0x8001, 0x00), (0x8002, 0xA0)]);
    assert!(c.step().is_ok());
    assert_eq!(c.pc, 0xA001);
}

#[test]
fn rep_and_sep_respect_emulation() {
    let mut c = cpu_with(&[(0x8001, 0xFF)]);
    c.emulation = true;
    c.reg_p = 0;
    c.op_sep(0xE2);
    assert_eq!(c.reg_p, 0xCF);
    c.pc = 0x8000;
    c.emulation = false;
    c.op_rep(0xC2);
    assert_eq!(c.reg_p, 0x00);
}

#[test]
fn transfers_copy_registers() {
    let mut c = cpu_with(&[]);
    c.reg_a = Word::new(0x01, 0x80);
    c.op_transfer(0xAA);
    assert_eq!(c.reg_x, 0x0180);
    c.op_txs(0x9A);
    assert_eq!(c.sp, 0x0180);
    c.op_transfer(0x5B);
    assert_eq!(c.reg_d, 0x0180);
    c.reg_y = 0;
    c.op_transfer(0x98);
    assert_eq!(c.reg_a.data, 0);
    assert_eq!(c.reg_p & S_RESULT_ZERO, S_RESULT_ZERO);
}

#[test]
fn addressing_modes_resolve() {
    // LDA (dp),Y with D = 0x0100, pointer at 0x0110 -> 0x7E:2000, Y = 4
    let mut c = cpu_with(&[
        (0x8001, 0x10), (0x0110, 0x00), (0x0111, 0x20), (0x7E_2004, 0x99), (0x7E_2005, 0x88),
    ]);
    c.reg_d = 0x0100;
    c.reg_db = 0x7E;
    c.reg_y = 4;
    c.op_lda(0xB1);
    assert_eq!(c.reg_a.data, 0x8899);
    // LDA [dp] reads a 24-bit pointer
    let mut c = cpu_with(&[(0x8001, 0x10), (0x10, 0x00), (0x11, 0x30), (0x12, 0x02), (0x02_3000, 0x11)]);
    c.reg_p = S_ACCUMULATOR_MEMORY;
    c.op_lda(0xA7);
    assert_eq!(c.reg_a.data, 0x11);
    // LDA sr,S
    let mut c = cpu_with(&[(0x8001, 0x02), (0x1F1, 0x5A)]);
    c.reg_p = S_ACCUMULATOR_MEMORY;
    c.sp = 0x1EF;
    c.op_lda(0xA3);
    assert_eq!(c.reg_a.data, 0x5A);
    // LDA long,X
    let mut c = cpu_with(&[(0x8001, 0xFF), (0x8002, 0xFF), (0x8003, 0x01), (0x02_0001, 0x77)]);
    c.reg_p = S_ACCUMULATOR_MEMORY;
    c.reg_x = 2;
    c.op_lda(0xBF);
    assert_eq!(c.reg_a.data, 0x77);
    assert_eq!(c.pc, 0x8003);
}
