//! The execution engine: register file, program counter, accumulator pair
//! and the bus it fetches from.
use crate::bus::{addr_ok, word_index, Bus, BUS_LIMIT, BUS_WORDS};
use crate::dispatch::{
    imm_lookup, imm_post, imm_table, reg_lookup, reg_post, reg_table, run_imm, run_reg,
};
use vstd::prelude::*;

verus! {

broadcast use crate::bus::lemma_bus_len;

/// Why an instruction was not executed.
#[derive(Debug, Clone, Copy, PartialEq, Eq, Structural)]
pub enum Fault {
    /// The primary opcode selects no handler. Execution goes on.
    InvalidOpcode(u32),
    /// The register-form function code selects no handler. Execution goes on.
    InvalidFunction(u32),
    /// `pc` lies past the end of the bus; nothing was fetched or changed.
    BusFault(u32),
}

/// The primary opcode: bits 31..26.
pub open spec fn opcode(b: u32) -> u32 {
    b >> 26
}

/// The register-form function code: bits 5..0.
pub open spec fn func_code(b: u32) -> u32 {
    b & 0x3f
}

/// The register-form fields: bits 25..21, 20..16, 15..11 and 10..6.
pub open spec fn reg_fields(b: u32) -> (usize, usize, usize, usize) {
    (
        ((b >> 21) & 0x1f) as usize,
        ((b >> 16) & 0x1f) as usize,
        ((b >> 11) & 0x1f) as usize,
        ((b >> 6) & 0x1f) as usize,
    )
}

/// The immediate-form fields: bits 25..21, 20..16 and the immediate in
/// bits 15..0.
pub open spec fn imm_fields(b: u32) -> (usize, usize, u16) {
    (((b >> 21) & 0x1f) as usize, ((b >> 16) & 0x1f) as usize, (b & 0xffff) as u16)
}

/// What one step does to `c` once the instruction word `b` was fetched:
/// `n` is the processor after the handler ran (before `pc` moves on) and
/// `r` what the step reports. Jump-form opcodes (1 to 7) have no handler.
pub open spec fn step_post(c: CPU, b: u32, n: CPU, r: Result<(), Fault>) -> bool {
    let op = opcode(b);
    if op == 0 {
        match reg_table(func_code(b)) {
            Some(k) => r is Ok && reg_post(k, c, n, reg_fields(b)),
            None => r == Err::<(), Fault>(Fault::InvalidFunction(func_code(b))) && n == c,
        }
    } else if 8 <= op <= 43 {
        match imm_table(op) {
            Some(k) => r is Ok && imm_post(k, c, n, imm_fields(b)),
            None => r == Err::<(), Fault>(Fault::InvalidOpcode(op)) && n == c,
        }
    } else {
        r == Err::<(), Fault>(Fault::InvalidOpcode(op)) && n == c
    }
}

/// The state of one emulated processor.
pub struct CPU {
    /// Byte address of the next instruction.
    pub pc: u32,
    /// Program size in words, recorded at construction.
    pub pb: u32,
    /// High half of the 64-bit accumulator.
    pub acc_hi: u32,
    /// Low half of the 64-bit accumulator.
    pub acc_lo: u32,
    /// The register file.
    pub r: [u32; 32],
    pub bus: Bus,
}

impl CPU {
    /// The words on the processor's bus.
    pub open spec fn mem(&self) -> Seq<u32> {
        self.bus@
    }

    /// The program size recorded at construction.
    pub open spec fn program_break(&self) -> u32 {
        self.pb
    }

    /// `next` is `self` with register `d` set to `v` and all else kept.
    pub open spec fn with_reg(self, next: CPU, d: int, v: u32) -> bool {
        &&& next.r@ == self.r@.update(d, v)
        &&& next.pc == self.pc
        &&& next.acc_hi == self.acc_hi
        &&& next.acc_lo == self.acc_lo
        &&& next.mem() == self.mem()
        &&& next.program_break() == self.program_break()
    }

    /// `next` is `self` with the accumulator pair set to `(hi, lo)` and all
    /// else kept.
    pub open spec fn with_acc(self, next: CPU, hi: u32, lo: u32) -> bool {
        &&& next.r@ == self.r@
        &&& next.pc == self.pc
        &&& next.acc_hi == hi
        &&& next.acc_lo == lo
        &&& next.mem() == self.mem()
        &&& next.program_break() == self.program_break()
    }

    /// The instruction word at `pc`.
    pub open spec fn fetch(self) -> u32 {
        self.mem()[word_index(self.pc)]
    }

    /// `self` with its program counter set to `pc`.
    pub open spec fn at_pc(self, pc: u32) -> CPU {
        CPU { pc: pc, ..self }
    }

    /// A processor with zeroed registers, accumulators and bus, `pc` at 0,
    /// for a program of `size` words.
    pub fn init(size: u32) -> (c: CPU)
        ensures
            c.pc == 0,
            c.acc_hi == 0,
            c.acc_lo == 0,
            forall|i: int| 0 <= i < 32 ==> c.r[i] == 0,
            c.mem() == Seq::new(BUS_WORDS as nat, |i: int| 0u32),
            c.program_break() == size,
    {
        CPU { pc: 0, pb: size, acc_hi: 0, acc_lo: 0, r: [0u32; 32], bus: Bus::init() }
    }

    /// Stores `val` in the bus word at byte address `addr`.
    pub fn write_bus(&mut self, addr: u32, val: u32)
        requires
            addr_ok(addr),
        ensures
            final(self).mem() == old(self).mem().update(word_index(addr), val),
            final(self).r@ == old(self).r@,
            final(self).pc == old(self).pc,
            final(self).acc_hi == old(self).acc_hi,
            final(self).acc_lo == old(self).acc_lo,
            final(self).program_break() == old(self).program_break(),
    {
        self.bus.write(addr, val);
    }

    /// The bus word at byte address `addr`.
    pub fn read_bus(&self, addr: u32) -> (r: u32)
        requires
            addr_ok(addr),
        ensures
            r == self.mem()[word_index(addr)],
    {
        self.bus.read(addr)
    }

    /// Executes one instruction: fetches the word at `pc`, decodes it, runs
    /// the handler that the dispatch tables give for it, and advances `pc`
    /// by 4 whether or not a handler was found. A `pc` past the end of the
    /// bus is a fault that changes nothing.
    pub fn exec_inst(&mut self) -> (r: Result<(), Fault>)
        ensures
            !addr_ok(old(self).pc) ==> r == Err::<(), Fault>(Fault::BusFault(old(self).pc))
                && *final(self) == *old(self),
            addr_ok(old(self).pc) ==> final(self).pc == old(self).pc + 4,
            addr_ok(old(self).pc) ==> step_post(
                *old(self),
                old(self).fetch(),
                final(self).at_pc(old(self).pc),
                r,
            ),
    {
        if self.pc >= BUS_LIMIT {
            return Err(Fault::BusFault(self.pc));
        }
        let pc = self.pc;
        let bytecode = self.read_bus(pc);
        let op = bytecode >> 26;
        let res = if op == 0 {
            let func = bytecode & 0x3f;
            let fields = decode_reg(bytecode);
            match reg_lookup(func) {
                Some(k) => {
                    run_reg(self, k, fields);
                    Ok(())
                },
                None => Err(Fault::InvalidFunction(func)),
            }
        } else if 8 <= op && op <= 43 {
            match imm_lookup(op) {
                Some(k) => {
                    run_imm(self, k, decode_imm(bytecode));
                    Ok(())
                },
                None => Err(Fault::InvalidOpcode(op)),
            }
        } else {
            Err(Fault::InvalidOpcode(op))
        };
        assert(self.pc == pc);
        self.pc = pc + 4;
        res
    }
}

/// The register-form fields of `b`.
fn decode_reg(b: u32) -> (f: (usize, usize, usize, usize))
    ensures
        f == reg_fields(b),
        f.0 < 32 && f.1 < 32 && f.2 < 32 && f.3 < 32,
{
    let a = (b >> 21) & 0x1f;
    let d = (b >> 16) & 0x1f;
    let e = (b >> 11) & 0x1f;
    let s = (b >> 6) & 0x1f;
    assert(a < 32 && d < 32 && e < 32 && s < 32) by (bit_vector)
        requires
            a == (b >> 21) & 0x1f,
            d == (b >> 16) & 0x1f,
            e == (b >> 11) & 0x1f,
            s == (b >> 6) & 0x1f,
    ;
    (a as usize, d as usize, e as usize, s as usize)
}

/// The immediate-form fields of `b`.
fn decode_imm(b: u32) -> (f: (usize, usize, u16))
    ensures
        f == imm_fields(b),
        f.0 < 32 && f.1 < 32,
{
    let a = (b >> 21) & 0x1f;
    let d = (b >> 16) & 0x1f;
    assert(a < 32 && d < 32) by (bit_vector)
        requires
            a == (b >> 21) & 0x1f,
            d == (b >> 16) & 0x1f,
    ;
    (a as usize, d as usize, (b & 0xffff) as u16)
}

} // verus!
