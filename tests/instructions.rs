use mips_emu::cpu::CPU;
use mips_emu::instructions;

fn cpu_with(regs: &[(usize, u32)]) -> CPU {
    let mut c = CPU::init(1);
    for &(i, v) in regs {
        c.r[i] = v;
    }
    c
}

fn acc(c: &CPU) -> u64 {
    ((c.acc_hi as u64) << 32) | c.acc_lo as u64
}

#[test]
fn test_ext() {
    let mut c = CPU::init(1);
    c.r[1] = 0b11011100000000000000000000000000;
    instructions::ext(&mut c, (0, 1, 25, 3));
    assert!(c.r[0] == 0b00001100000000000000000000000000);
}

#[test]
fn test_ins() {
    let mut c = CPU::init(1);
    c.r[0] = 0;
    c.r[1] = 0b1111;
    instructions::ins(&mut c, (0, 1, 2, 4));
    assert!(c.r[0] == 0b111100);
}

#[test]
fn ins_merges_with_destination() {
    let mut c = cpu_with(&[(0, 0b1000_0001), (1, 0b1111)]);
    instructions::ins(&mut c, (0, 1, 2, 4));
    assert_eq!(c.r[0], 0b1011_1101);
    let mut c = cpu_with(&[(0, 0b0110_0000), (1, 0b1111_0101)]);
    instructions::ins(&mut c, (0, 1, 4, 4));
    assert_eq!(c.r[0], 0b0111_0000);
}

#[test]
fn ext_then_ins_at_bit_zero() {
    let mut c = cpu_with(&[(1, 0xabcd_ef12)]);
    instructions::ext(&mut c, (2, 1, 0, 12));
    assert_eq!(c.r[2], 0xf12);
    instructions::ins(&mut c, (3, 2, 0, 12));
    assert_eq!(c.r[3], 0xf12);
}

#[test]
fn ins_of_shifted_source_matches_ext() {
    let mut c = cpu_with(&[(1, 0xabcd_ef12), (4, 8)]);
    instructions::ext(&mut c, (2, 1, 8, 12));
    assert_eq!(c.r[2], 0x000d_ef00);
    instructions::srlv(&mut c, (5, 1, 4, 0));
    instructions::ins(&mut c, (3, 5, 8, 12));
    assert_eq!(c.r[3], c.r[2]);
}

#[test]
fn add_then_sub_restores() {
    for &(x, y) in &[(0xffff_fff0u32, 0x20u32), (5, 7), (0x8000_0000, 0x8000_0000), (0, 0)] {
        let mut c = cpu_with(&[(1, x), (2, y)]);
        instructions::add(&mut c, (3, 1, 2, 0));
        instructions::sub(&mut c, (4, 3, 2, 0));
        assert_eq!(c.r[4], x);
        instructions::addu(&mut c, (3, 1, 2, 0));
        instructions::subu(&mut c, (4, 3, 2, 0));
        assert_eq!(c.r[4], x);
    }
}

#[test]
fn add_wraps() {
    let mut c = cpu_with(&[(1, 0xffff_fff0), (2, 0x20)]);
    instructions::add(&mut c, (3, 1, 2, 0));
    assert_eq!(c.r[3], 0x10);
    instructions::addu(&mut c, (3, 1, 2, 0));
    assert_eq!(c.r[3], 0x10);
}

#[test]
fn addi_and_addiu_extend_differently() {
    let mut c = cpu_with(&[(1, 5)]);
    instructions::addi(&mut c, (2, 1, 0xffff));
    assert_eq!(c.r[2], 4);
    instructions::addiu(&mut c, (3, 1, 0xffff));
    assert_eq!(c.r[3], 0x0001_0004);
}

#[test]
fn rotr_round_trip() {
    let mut c = cpu_with(&[(1, 0x1234_5678)]);
    instructions::rotr(&mut c, (2, 1, 0, 8));
    assert_eq!(c.r[2], 0x7812_3456);
    instructions::rotr(&mut c, (3, 2, 0, 24));
    assert_eq!(c.r[3], 0x1234_5678);
    instructions::rotr(&mut c, (4, 1, 0, 0));
    assert_eq!(c.r[4], 0x1234_5678);
    instructions::rotr(&mut c, (5, 1, 0, 1));
    instructions::rotr(&mut c, (6, 5, 0, 31));
    assert_eq!(c.r[6], 0x1234_5678);
}

#[test]
fn rotrv_uses_low_five_bits() {
    let mut c = cpu_with(&[(1, 0x0000_0001), (2, 0x21)]);
    instructions::rotrv(&mut c, (3, 1, 2, 0));
    assert_eq!(c.r[3], 0x8000_0000);
}

#[test]
fn clo_plus_clz_is_32() {
    for &x in &[0u32, 0xffff_ffff, 0xf0f0_0001, 0x8000_0000] {
        let mut c = cpu_with(&[(1, x)]);
        instructions::clo(&mut c, (2, 1, 0, 0));
        instructions::clz(&mut c, (3, 1, 0, 0));
        assert_eq!(c.r[2] + c.r[3], 32);
        assert_eq!(c.r[2], x.count_ones());
    }
}

#[test]
fn clo_counts_all_set_bits() {
    let mut c = cpu_with(&[(1, 0xf0f0_0001)]);
    instructions::clo(&mut c, (2, 1, 0, 0));
    assert_eq!(c.r[2], 9);
    instructions::clz(&mut c, (3, 1, 0, 0));
    assert_eq!(c.r[3], 23);
}

#[test]
fn div_by_zero_keeps_registers() {
    let mut c = cpu_with(&[(1, 10)]);
    let before = c.r;
    instructions::div(&mut c, (1, 2, 0, 0));
    assert_eq!(c.r, before);
    instructions::divu(&mut c, (1, 2, 0, 0));
    assert_eq!(c.r, before);
    assert_eq!(c.pc, 0);
}

#[test]
fn div_rounds_toward_zero() {
    let mut c = cpu_with(&[(1, (-7i32) as u32), (2, 2)]);
    instructions::div(&mut c, (1, 2, 0, 0));
    assert_eq!(c.acc_hi, 0xffff_ffff);
    assert_eq!(c.acc_lo, 0xffff_fffd);
    let mut c = cpu_with(&[(1, 7), (2, (-2i32) as u32)]);
    instructions::div(&mut c, (1, 2, 0, 0));
    assert_eq!(acc(&c) as i64, -3);
    let mut c = cpu_with(&[(1, 0x8000_0000), (2, 0xffff_ffff)]);
    instructions::div(&mut c, (1, 2, 0, 0));
    assert_eq!(acc(&c), 0x8000_0000);
}

#[test]
fn divu_quotient() {
    let mut c = cpu_with(&[(1, 7), (2, 2)]);
    instructions::divu(&mut c, (1, 2, 0, 0));
    assert_eq!(c.acc_hi, 0);
    assert_eq!(c.acc_lo, 3);
    let mut c = cpu_with(&[(1, 0xffff_ffff), (2, 1)]);
    instructions::divu(&mut c, (1, 2, 0, 0));
    assert_eq!(acc(&c), 0xffff_ffff);
}

#[test]
fn multiply_accumulate_family() {
    let mut c = cpu_with(&[(1, (-2i32) as u32), (2, 3)]);
    instructions::madd(&mut c, (1, 2, 0, 0));
    assert_eq!(acc(&c) as i64, -6);
    instructions::msub(&mut c, (1, 2, 0, 0));
    assert_eq!(acc(&c), 0);
    let mut c = cpu_with(&[(1, 0xffff_ffff), (2, 0xffff_ffff)]);
    instructions::maddu(&mut c, (1, 2, 0, 0));
    assert_eq!(c.acc_hi, 0xffff_fffe);
    assert_eq!(c.acc_lo, 0x0000_0001);
    let mut c = cpu_with(&[(1, 2), (2, 3)]);
    c.acc_lo = 10;
    instructions::msubu(&mut c, (1, 2, 0, 0));
    assert_eq!(acc(&c), 4);
    instructions::msubu(&mut c, (1, 2, 0, 0));
    assert_eq!(acc(&c) as i64, -2);
}

#[test]
fn mul_keeps_low_word_of_signed_product() {
    let mut c = cpu_with(&[(1, (-3i32) as u32), (2, 5)]);
    instructions::mul(&mut c, (3, 1, 2, 0));
    assert_eq!(c.r[3], 0xffff_fff1);
    let mut c = cpu_with(&[(1, 0x1_0001), (2, 0x1_0001)]);
    instructions::mul(&mut c, (3, 1, 2, 0));
    assert_eq!(c.r[3], 0x0002_0001);
}

#[test]
fn shifts() {
    let mut c = cpu_with(&[(1, 0x8000_00f0), (2, 0x24)]);
    instructions::sra(&mut c, (3, 1, 0, 4));
    assert_eq!(c.r[3], 0xf800_000f);
    instructions::srav(&mut c, (4, 1, 2, 0));
    assert_eq!(c.r[4], 0xf800_000f);
    instructions::srl(&mut c, (5, 1, 0, 4));
    assert_eq!(c.r[5], 0x0800_000f);
    instructions::srlv(&mut c, (6, 1, 2, 0));
    assert_eq!(c.r[6], 0x0800_000f);
    instructions::sll(&mut c, (7, 1, 0, 4));
    assert_eq!(c.r[7], 0x0000_0f00);
    instructions::sllv(&mut c, (8, 1, 2));
    assert_eq!(c.r[8], 0x0000_0f00);
    let mut c = cpu_with(&[(1, 0x7000_0000)]);
    instructions::sra(&mut c, (3, 1, 0, 4));
    assert_eq!(c.r[3], 0x0700_0000);
}

#[test]
fn bitwise() {
    let mut c = cpu_with(&[(1, 0b1100), (2, 0b1010)]);
    instructions::and(&mut c, (3, 1, 2, 0));
    assert_eq!(c.r[3], 0b1000);
    instructions::or(&mut c, (3, 1, 2, 0));
    assert_eq!(c.r[3], 0b1110);
    instructions::xor(&mut c, (3, 1, 2, 0));
    assert_eq!(c.r[3], 0b0110);
    instructions::nor(&mut c, (3, 1, 2, 0));
    assert_eq!(c.r[3], 0xffff_fff1);
    instructions::andi(&mut c, (3, 1, 0b0110));
    assert_eq!(c.r[3], 0b0100);
    instructions::ori(&mut c, (3, 1, 0xf000));
    assert_eq!(c.r[3], 0xf00c);
    instructions::xori(&mut c, (3, 1, 0xffff));
    assert_eq!(c.r[3], 0xfff3);
    instructions::not(&mut c, (3, 1, 0, 0));
    assert_eq!(c.r[3], 0xffff_fff3);
    instructions::negu(&mut c, (3, 1, 0, 0));
    assert_eq!(c.r[3], 0xffff_fff3);
}

#[test]
fn byte_and_half_masks() {
    let mut c = cpu_with(&[(1, 0x1234_56f0)]);
    instructions::seb(&mut c, (2, 1, 0, 0));
    assert_eq!(c.r[2], 0xf0);
    instructions::seh(&mut c, (2, 1, 0, 0));
    assert_eq!(c.r[2], 0x56f0);
    instructions::wsbh(&mut c, (3, 1, 0, 0));
    assert_eq!(c.r[3], 0x3412_f056);
}

#[test]
fn moves() {
    let mut c = cpu_with(&[(1, 77), (2, 0), (3, 1), (4, 5)]);
    instructions::mov(&mut c, (5, 1, 0, 0));
    assert_eq!(c.r[5], 77);
    instructions::movn(&mut c, (4, 1, 2, 0));
    assert_eq!(c.r[4], 5);
    instructions::movn(&mut c, (4, 1, 3, 0));
    assert_eq!(c.r[4], 77);
    instructions::movz(&mut c, (6, 1, 3, 0));
    assert_eq!(c.r[6], 0);
    instructions::movz(&mut c, (6, 1, 2, 0));
    assert_eq!(c.r[6], 77);
    instructions::lui(&mut c, (7, 0, 0xbeef));
    assert_eq!(c.r[7], 0xbeef_0000);
}

#[test]
fn set_on_less_than() {
    let mut c = cpu_with(&[(1, 0xffff_ffff), (2, 1)]);
    instructions::slt(&mut c, (3, 1, 2, 0));
    assert_eq!(c.r[3], 1);
    instructions::sltu(&mut c, (3, 1, 2, 0));
    assert_eq!(c.r[3], 0);
    instructions::slt(&mut c, (3, 2, 1, 0));
    assert_eq!(c.r[3], 0);
    instructions::slti(&mut c, (3, 1, 0x0001));
    assert_eq!(c.r[3], 1);
    instructions::slti(&mut c, (3, 2, 0xffff));
    assert_eq!(c.r[3], 0);
    instructions::sltiu(&mut c, (3, 2, 0xffff));
    assert_eq!(c.r[3], 1);
    instructions::sltiu(&mut c, (3, 1, 0xffff));
    assert_eq!(c.r[3], 0);
}

#[test]
fn register_zero_is_writable() {
    let mut c = cpu_with(&[(1, 9)]);
    instructions::mov(&mut c, (0, 1, 0, 0));
    assert_eq!(c.r[0], 9);
}
