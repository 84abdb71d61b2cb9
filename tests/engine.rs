use mips_emu::bus::Bus;
use mips_emu::cpu::{Fault, CPU};

fn reg_word(a: u32, b: u32, c: u32, d: u32, func: u32) -> u32 {
    (a << 21) | (b << 16) | (c << 11) | (d << 6) | func
}

fn imm_word(op: u32, a: u32, b: u32, imm: u32) -> u32 {
    (op << 26) | (a << 21) | (b << 16) | imm
}

#[test]
fn test_single_reg() {
    let mut c = CPU::init(1);
    c.write_bus(c.pc, 0b000000_00000_00001_00010_00000_100000);
    c.r[1] = 1u32;
    c.r[2] = 2u32;
    let _ = c.exec_inst();
    assert!(c.r[0] == 3);
}

#[test]
fn add_step_writes_register_and_advances_pc() {
    let mut c = CPU::init(1);
    c.write_bus(0, reg_word(0, 1, 2, 0, 0b100000));
    c.r[1] = 1;
    c.r[2] = 2;
    assert_eq!(c.pc, 0);
    assert_eq!(c.exec_inst(), Ok(()));
    assert_eq!(c.r[0], 3);
    assert_eq!(c.pc, 4);
}

#[test]
fn unknown_opcode_changes_nothing_but_pc() {
    let mut c = CPU::init(1);
    c.write_bus(0, 63 << 26);
    c.r[5] = 9;
    let before = c.r;
    assert_eq!(c.exec_inst(), Err(Fault::InvalidOpcode(63)));
    assert_eq!(c.r, before);
    assert_eq!(c.acc_hi, 0);
    assert_eq!(c.acc_lo, 0);
    assert_eq!(c.pc, 4);
}

#[test]
fn unknown_function_is_reported_and_skipped() {
    let mut c = CPU::init(1);
    c.write_bus(0, reg_word(0, 1, 2, 0, 1));
    c.r[1] = 1;
    assert_eq!(c.exec_inst(), Err(Fault::InvalidFunction(1)));
    assert_eq!(c.r[0], 0);
    assert_eq!(c.pc, 4);
}

#[test]
fn jump_form_has_no_handler() {
    let mut c = CPU::init(1);
    c.write_bus(0, (2 << 26) | 0x100);
    assert_eq!(c.exec_inst(), Err(Fault::InvalidOpcode(2)));
    assert_eq!(c.pc, 4);
}

#[test]
fn immediate_opcode_without_entry_is_reported() {
    let mut c = CPU::init(1);
    c.write_bus(0, imm_word(20, 1, 2, 7));
    assert_eq!(c.exec_inst(), Err(Fault::InvalidOpcode(20)));
    assert_eq!(c.r[1], 0);
    assert_eq!(c.pc, 4);
}

#[test]
fn pc_past_the_bus_is_a_fault() {
    let mut c = CPU::init(1);
    c.pc = 0x3fffc;
    assert_eq!(c.exec_inst(), Err(Fault::BusFault(0x3fffc)));
    assert_eq!(c.pc, 0x3fffc);
}

#[test]
fn last_word_of_the_bus_executes() {
    let mut c = CPU::init(1);
    c.write_bus(0x3fff8, reg_word(4, 1, 2, 0, 0b100000));
    c.r[1] = 10;
    c.r[2] = 20;
    c.pc = 0x3fff8;
    assert_eq!(c.exec_inst(), Ok(()));
    assert_eq!(c.r[4], 30);
    assert_eq!(c.pc, 0x3fffc);
}

#[test]
fn addi_step_sign_extends() {
    let mut c = CPU::init(1);
    c.write_bus(0, imm_word(8, 3, 1, 0xffff));
    c.r[1] = 5;
    assert_eq!(c.exec_inst(), Ok(()));
    assert_eq!(c.r[3], 4);
}

#[test]
fn lui_step_fills_upper_half() {
    let mut c = CPU::init(1);
    c.write_bus(0, imm_word(15, 7, 0, 0x1234));
    c.r[7] = 0xffff_ffff;
    assert_eq!(c.exec_inst(), Ok(()));
    assert_eq!(c.r[7], 0x1234_0000);
}

#[test]
fn subu_step_wraps() {
    let mut c = CPU::init(1);
    c.write_bus(0, reg_word(0, 1, 2, 0, 35));
    c.r[1] = 1;
    c.r[2] = 2;
    assert_eq!(c.exec_inst(), Ok(()));
    assert_eq!(c.r[0], 0xffff_ffff);
}

#[test]
fn sll_step_uses_shift_field() {
    let mut c = CPU::init(1);
    c.write_bus(0, reg_word(2, 1, 0, 4, 0));
    c.r[1] = 0x0000_0f01;
    assert_eq!(c.exec_inst(), Ok(()));
    assert_eq!(c.r[2], 0x0000_f010);
}

#[test]
fn div_by_zero_step_keeps_registers() {
    let mut c = CPU::init(1);
    c.write_bus(0, reg_word(1, 2, 0, 0, 26));
    c.r[1] = 10;
    let before = c.r;
    assert_eq!(c.exec_inst(), Ok(()));
    assert_eq!(c.r, before);
    assert_eq!(c.pc, 4);
}

#[test]
fn steps_run_in_sequence() {
    let mut c = CPU::init(2);
    c.write_bus(0, imm_word(13, 1, 0, 0x00ff));
    c.write_bus(4, reg_word(2, 1, 1, 0, 33));
    assert_eq!(c.exec_inst(), Ok(()));
    assert_eq!(c.exec_inst(), Ok(()));
    assert_eq!(c.r[1], 0xff);
    assert_eq!(c.r[2], 0x1fe);
    assert_eq!(c.pc, 8);
}

#[test]
fn bus_write_then_read() {
    let mut b = Bus::init();
    assert_eq!(b.read(8), 0);
    b.write(8, 0xdead_beef);
    assert_eq!(b.read(8), 0xdead_beef);
    assert_eq!(b.read(9), 0xdead_beef);
    assert_eq!(b.read(4), 0);
    b.write(0x3fff8, 7);
    assert_eq!(b.read(0x3fff8), 7);
}

#[test]
fn cpu_bus_access() {
    let mut c = CPU::init(3);
    assert_eq!(c.read_bus(12), 0);
    c.write_bus(12, 42);
    assert_eq!(c.read_bus(12), 42);
    assert_eq!(c.pb, 3);
}
