//! The dispatch tables: which function code or opcode selects which
//! handler, and what running that handler does to the processor.
use crate::bits::{acc_of, shift_right_arith, signed, signed16, trunc_div, word, wrap64};
use crate::cpu::CPU;
use crate::instructions;
use vstd::prelude::*;

verus! {

/// The register-form instructions that the register-form table holds.
#[derive(Debug, Clone, Copy, PartialEq, Eq, Structural)]
pub enum RegOp {
    Sll,
    Srl,
    Sra,
    Sllv,
    Srlv,
    Srav,
    Movz,
    Movn,
    Div,
    Divu,
    Add,
    Addu,
    Sub,
    Subu,
    And,
    Or,
    Xor,
    Nor,
    Slt,
    Sltu,
}

/// The immediate-form instructions that the immediate-form table holds.
#[derive(Debug, Clone, Copy, PartialEq, Eq, Structural)]
pub enum ImmOp {
    Addi,
    Addiu,
    Slti,
    Sltiu,
    Andi,
    Ori,
    Xori,
    Lui,
}

/// The register-form table: the handler for a 6-bit function code.
pub open spec fn reg_table(func: u32) -> Option<RegOp> {
    match func {
        0 => Some(RegOp::Sll),
        2 => Some(RegOp::Srl),
        3 => Some(RegOp::Sra),
        4 => Some(RegOp::Sllv),
        6 => Some(RegOp::Srlv),
        7 => Some(RegOp::Srav),
        10 => Some(RegOp::Movz),
        11 => Some(RegOp::Movn),
        26 => Some(RegOp::Div),
        27 => Some(RegOp::Divu),
        32 => Some(RegOp::Add),
        33 => Some(RegOp::Addu),
        34 => Some(RegOp::Sub),
        35 => Some(RegOp::Subu),
        36 => Some(RegOp::And),
        37 => Some(RegOp::Or),
        38 => Some(RegOp::Xor),
        39 => Some(RegOp::Nor),
        42 => Some(RegOp::Slt),
        43 => Some(RegOp::Sltu),
        _ => None,
    }
}

/// The immediate-form table: the handler for a primary opcode.
pub open spec fn imm_table(op: u32) -> Option<ImmOp> {
    match op {
        8 => Some(ImmOp::Addi),
        9 => Some(ImmOp::Addiu),
        10 => Some(ImmOp::Slti),
        11 => Some(ImmOp::Sltiu),
        12 => Some(ImmOp::Andi),
        13 => Some(ImmOp::Ori),
        14 => Some(ImmOp::Xori),
        15 => Some(ImmOp::Lui),
        _ => None,
    }
}

/// Looks `func` up in the register-form table.
pub fn reg_lookup(func: u32) -> (r: Option<RegOp>)
    ensures
        r == reg_table(func),
{
    match func {
        0 => Some(RegOp::Sll),
        2 => Some(RegOp::Srl),
        3 => Some(RegOp::Sra),
        4 => Some(RegOp::Sllv),
        6 => Some(RegOp::Srlv),
        7 => Some(RegOp::Srav),
        10 => Some(RegOp::Movz),
        11 => Some(RegOp::Movn),
        26 => Some(RegOp::Div),
        27 => Some(RegOp::Divu),
        32 => Some(RegOp::Add),
        33 => Some(RegOp::Addu),
        34 => Some(RegOp::Sub),
        35 => Some(RegOp::Subu),
        36 => Some(RegOp::And),
        37 => Some(RegOp::Or),
        38 => Some(RegOp::Xor),
        39 => Some(RegOp::Nor),
        42 => Some(RegOp::Slt),
        43 => Some(RegOp::Sltu),
        _ => None,
    }
}

/// Looks `op` up in the immediate-form table.
pub fn imm_lookup(op: u32) -> (r: Option<ImmOp>)
    ensures
        r == imm_table(op),
{
    match op {
        8 => Some(ImmOp::Addi),
        9 => Some(ImmOp::Addiu),
        10 => Some(ImmOp::Slti),
        11 => Some(ImmOp::Sltiu),
        12 => Some(ImmOp::Andi),
        13 => Some(ImmOp::Ori),
        14 => Some(ImmOp::Xori),
        15 => Some(ImmOp::Lui),
        _ => None,
    }
}

/// The four register-form fields all name registers (5-bit values).
pub open spec fn reg_fields_ok(f: (usize, usize, usize, usize)) -> bool {
    f.0 < 32 && f.1 < 32 && f.2 < 32 && f.3 < 32
}

/// The two register fields of an immediate-form instruction name registers.
pub open spec fn imm_fields_ok(f: (usize, usize, u16)) -> bool {
    f.0 < 32 && f.1 < 32
}

/// `n` is the processor `c` after the register-form handler `k` ran on the
/// fields `f`.
pub open spec fn reg_post(k: RegOp, c: CPU, n: CPU, f: (usize, usize, usize, usize)) -> bool {
    match k {
        RegOp::Sll => c.with_reg(n, f.0 as int, c.r[f.1 as int] << f.3 as u32),
        RegOp::Srl => c.with_reg(n, f.0 as int, c.r[f.1 as int] >> f.3 as u32),
        RegOp::Sra => c.with_reg(n, f.0 as int, shift_right_arith(c.r[f.1 as int], f.3 as u32)),
        RegOp::Sllv => c.with_reg(n, f.0 as int, c.r[f.1 as int] << (c.r[f.2 as int] & 0x1f)),
        RegOp::Srlv => c.with_reg(n, f.0 as int, c.r[f.1 as int] >> (c.r[f.2 as int] & 0x1f)),
        RegOp::Srav => c.with_reg(
            n,
            f.0 as int,
            shift_right_arith(c.r[f.1 as int], c.r[f.2 as int] & 0x1f),
        ),
        RegOp::Movz => c.with_reg(
            n,
            f.0 as int,
            if c.r[f.2 as int] == 0 { c.r[f.1 as int] } else { c.r[f.0 as int] },
        ),
        RegOp::Movn => c.with_reg(
            n,
            f.0 as int,
            if c.r[f.2 as int] != 0 { c.r[f.1 as int] } else { c.r[f.0 as int] },
        ),
        RegOp::Div => {
            &&& c.with_acc(n, n.acc_hi, n.acc_lo)
            &&& c.r[f.1 as int] != 0 ==> acc_of(n.acc_hi, n.acc_lo) == wrap64(
                trunc_div(signed(c.r[f.0 as int]), signed(c.r[f.1 as int])),
            )
        },
        RegOp::Divu => {
            &&& c.with_acc(n, n.acc_hi, n.acc_lo)
            &&& c.r[f.1 as int] != 0 ==> acc_of(n.acc_hi, n.acc_lo) == c.r[f.0 as int]
                / c.r[f.1 as int]
        },
        RegOp::Add => c.with_reg(n, f.0 as int, word(c.r[f.1 as int] + c.r[f.2 as int])),
        RegOp::Addu => c.with_reg(n, f.0 as int, word(c.r[f.1 as int] + c.r[f.2 as int])),
        RegOp::Sub => c.with_reg(n, f.0 as int, word(c.r[f.1 as int] - c.r[f.2 as int])),
        RegOp::Subu => c.with_reg(n, f.0 as int, word(c.r[f.1 as int] - c.r[f.2 as int])),
        RegOp::And => c.with_reg(n, f.0 as int, c.r[f.1 as int] & c.r[f.2 as int]),
        RegOp::Or => c.with_reg(n, f.0 as int, c.r[f.1 as int] | c.r[f.2 as int]),
        RegOp::Xor => c.with_reg(n, f.0 as int, c.r[f.1 as int] ^ c.r[f.2 as int]),
        RegOp::Nor => c.with_reg(n, f.0 as int, !(c.r[f.1 as int] | c.r[f.2 as int])),
        RegOp::Slt => c.with_reg(
            n,
            f.0 as int,
            if signed(c.r[f.1 as int]) < signed(c.r[f.2 as int]) { 1 } else { 0 },
        ),
        RegOp::Sltu => c.with_reg(
            n,
            f.0 as int,
            if c.r[f.1 as int] < c.r[f.2 as int] { 1 } else { 0 },
        ),
    }
}

/// `n` is the processor `c` after the immediate-form handler `k` ran on the
/// fields `f`.
pub open spec fn imm_post(k: ImmOp, c: CPU, n: CPU, f: (usize, usize, u16)) -> bool {
    match k {
        ImmOp::Addi => c.with_reg(n, f.0 as int, word(c.r[f.1 as int] + signed16(f.2))),
        ImmOp::Addiu => c.with_reg(n, f.0 as int, word(c.r[f.1 as int] + f.2)),
        ImmOp::Slti => c.with_reg(
            n,
            f.0 as int,
            if signed(c.r[f.1 as int]) < signed16(f.2) { 1 } else { 0 },
        ),
        ImmOp::Sltiu => c.with_reg(n, f.0 as int, if c.r[f.1 as int] < f.2 { 1 } else { 0 }),
        ImmOp::Andi => c.with_reg(n, f.0 as int, c.r[f.1 as int] & (f.2 as u32)),
        ImmOp::Ori => c.with_reg(n, f.0 as int, c.r[f.1 as int] | (f.2 as u32)),
        ImmOp::Xori => c.with_reg(n, f.0 as int, c.r[f.1 as int] ^ (f.2 as u32)),
        ImmOp::Lui => c.with_reg(n, f.0 as int, (f.2 * 0x1_0000) as u32),
    }
}

/// Runs the register-form handler `k` on the fields `f`.
pub fn run_reg(c: &mut CPU, k: RegOp, f: (usize, usize, usize, usize))
    requires
        reg_fields_ok(f),
    ensures
        reg_post(k, *old(c), *final(c), f),
{
    match k {
        RegOp::Sll => instructions::sll(c, f),
        RegOp::Srl => instructions::srl(c, f),
        RegOp::Sra => instructions::sra(c, f),
        RegOp::Sllv => instructions::sllv(c, (f.0, f.1, f.2)),
        RegOp::Srlv => instructions::srlv(c, f),
        RegOp::Srav => instructions::srav(c, f),
        RegOp::Movz => instructions::movz(c, f),
        RegOp::Movn => instructions::movn(c, f),
        RegOp::Div => instructions::div(c, f),
        RegOp::Divu => instructions::divu(c, f),
        RegOp::Add => instructions::add(c, f),
        RegOp::Addu => instructions::addu(c, f),
        RegOp::Sub => instructions::sub(c, f),
        RegOp::Subu => instructions::subu(c, f),
        RegOp::And => instructions::and(c, f),
        RegOp::Or => instructions::or(c, f),
        RegOp::Xor => instructions::xor(c, f),
        RegOp::Nor => instructions::nor(c, f),
        RegOp::Slt => instructions::slt(c, f),
        RegOp::Sltu => instructions::sltu(c, f),
    }
}

/// Runs the immediate-form handler `k` on the fields `f`.
pub fn run_imm(c: &mut CPU, k: ImmOp, f: (usize, usize, u16))
    requires
        imm_fields_ok(f),
    ensures
        imm_post(k, *old(c), *final(c), f),
{
    match k {
        ImmOp::Addi => instructions::addi(c, f),
        ImmOp::Addiu => instructions::addiu(c, f),
        ImmOp::Slti => instructions::slti(c, f),
        ImmOp::Sltiu => instructions::sltiu(c, f),
        ImmOp::Andi => instructions::andi(c, f),
        ImmOp::Ori => instructions::ori(c, f),
        ImmOp::Xori => instructions::xori(c, f),
        ImmOp::Lui => instructions::lui(c, f),
    }
}

} // verus!
