//! One handler per instruction. Each reads decoded operand fields, and
//! changes only the register file or the accumulator pair.
use crate::bits::{
    acc_of, byte_of, field_mask, lemma_shift_right_arith_divides, low_mask, ones, rotate_right,
    sext16, shift_right_arith, signed, signed16, trunc_div, word, wrap64, zeros,
};
use crate::cpu::CPU;
use vstd::arithmetic::div_mod::{
    lemma_add_mod_noop_right, lemma_mod_sub_multiples_vanish, lemma_mul_mod_noop_general,
    lemma_sub_mod_noop_right,
};
use vstd::arithmetic::power2::pow2;
use vstd::math::abs;
use vstd::prelude::*;

verus! {

/// Relies on `rand::random`: a value drawn from the thread-local generator.
/// Nothing is known of the value. It panics only when the operating
/// system's generator cannot seed the thread-local one, which no argument
/// decides.
pub assume_specification<T>[ rand::random::<T> ]() -> (r: T)
    where
        rand::distributions::Standard: rand::distributions::Distribution<T>,
;

/// Two factors congruent modulo `m` give congruent products.
proof fn lemma_mul_congruent(a: int, b: int, a2: int, b2: int, m: int)
    requires
        0 < m,
        a % m == a2 % m,
        b % m == b2 % m,
    ensures
        (a * b) % m == (a2 * b2) % m,
{
    lemma_mul_mod_noop_general(a, b, m);
    lemma_mul_mod_noop_general(a2, b2, m);
}

/// A word and its signed value agree modulo 2^32 and 2^64 once widened.
proof fn lemma_signed_congruent(x: u32)
    ensures
        signed(x) % 0x1_0000_0000 == (x as int) % 0x1_0000_0000,
        signed(x) % 0x1_0000_0000_0000_0000 == (sign_widen(x) as int) % 0x1_0000_0000_0000_0000,
{
    if x >= 0x8000_0000 {
        lemma_mod_sub_multiples_vanish(x as int, 0x1_0000_0000);
        let m: int = 0x1_0000_0000_0000_0000;
        lemma_mod_sub_multiples_vanish(signed(x) + m, m);
    }
}

/// The word `x` sign-extended to 64 bits, as an unsigned quantity.
spec fn sign_widen(x: u32) -> u64 {
    if x < 0x8000_0000 {
        x as u64
    } else {
        (x + 0xffff_ffff_0000_0000) as u64
    }
}

fn widen_signed(x: u32) -> (r: u64)
    ensures
        r == sign_widen(x),
{
    if x < 0x8000_0000 {
        x as u64
    } else {
        x as u64 + 0xffff_ffff_0000_0000
    }
}

/// The 64-bit value held by the accumulator pair.
fn acc_value(c: &CPU) -> (r: u64)
    ensures
        r == acc_of(c.acc_hi, c.acc_lo),
{
    c.acc_hi as u64 * 0x1_0000_0000 + c.acc_lo as u64
}

/// Splits `v` into the accumulator pair.
fn set_acc(c: &mut CPU, v: u64)
    ensures
        old(c).with_acc(*final(c), final(c).acc_hi, final(c).acc_lo),
        acc_of(final(c).acc_hi, final(c).acc_lo) == v,
{
    c.acc_hi = (v / 0x1_0000_0000) as u32;
    c.acc_lo = (v % 0x1_0000_0000) as u32;
}

/// Signed division: the quotient of registers `data.0` and `data.1`,
/// rounded toward zero, into the accumulator pair as a 64-bit value. A zero
/// divisor leaves an unspecified (random) value there and no fault.
pub fn div(c: &mut CPU, data: (usize, usize, usize, usize))
    requires
        data.0 < 32,
        data.1 < 32,
    ensures
        old(c).with_acc(*final(c), final(c).acc_hi, final(c).acc_lo),
        old(c).r[data.1 as int] != 0 ==> acc_of(final(c).acc_hi, final(c).acc_lo) == wrap64(
            trunc_div(signed(old(c).r[data.0 as int]), signed(old(c).r[data.1 as int])),
        ),
{
    let x = c.r[data.0];
    let y = c.r[data.1];
    if y == 0 {
        c.acc_hi = rand::random::<u32>();
        c.acc_lo = rand::random::<u32>();
        return;
    }
    let ax: u64 = if x < 0x8000_0000 { x as u64 } else { 0x1_0000_0000 - x as u64 };
    let ay: u64 = if y < 0x8000_0000 { y as u64 } else { 0x1_0000_0000 - y as u64 };
    let q: u64 = ax / ay;
    assert(q <= ax) by (nonlinear_arith)
        requires
            ay >= 1,
            q == ax / ay,
    ;
    let negative = (x >= 0x8000_0000) != (y >= 0x8000_0000);
    let v: u64 = if negative { 0u64.wrapping_sub(q) } else { q };
    proof {
        assert(ax == abs(signed(x)) && ay == abs(signed(y)));
    }
    set_acc(c, v);
}

/// Unsigned division: the quotient of registers `data.0` and `data.1` into
/// the accumulator pair. A zero divisor leaves an unspecified (random) value
/// there and no fault.
pub fn divu(c: &mut CPU, data: (usize, usize, usize, usize))
    requires
        data.0 < 32,
        data.1 < 32,
    ensures
        old(c).with_acc(*final(c), final(c).acc_hi, final(c).acc_lo),
        old(c).r[data.1 as int] != 0 ==> acc_of(final(c).acc_hi, final(c).acc_lo)
            == old(c).r[data.0 as int] / old(c).r[data.1 as int],
{
    let x = c.r[data.0];
    let y = c.r[data.1];
    if y == 0 {
        c.acc_hi = rand::random::<u32>();
        c.acc_lo = rand::random::<u32>();
        return;
    }
    set_acc(c, (x / y) as u64);
}

/// Multiply-add: the accumulator plus the signed product of registers
/// `data.0` and `data.1`, modulo 2^64.
pub fn madd(c: &mut CPU, data: (usize, usize, usize, usize))
    requires
        data.0 < 32,
        data.1 < 32,
    ensures
        old(c).with_acc(*final(c), final(c).acc_hi, final(c).acc_lo),
        acc_of(final(c).acc_hi, final(c).acc_lo) == wrap64(
            acc_of(old(c).acc_hi, old(c).acc_lo) + signed(old(c).r[data.0 as int]) * signed(
                old(c).r[data.1 as int],
            ),
        ),
{
    let x = c.r[data.0];
    let y = c.r[data.1];
    let acc = acc_value(c);
    let p = widen_signed(x).wrapping_mul(widen_signed(y));
    proof {
        lemma_signed_congruent(x);
        lemma_signed_congruent(y);
        lemma_mul_congruent(signed(x), signed(y), sign_widen(x) as int, sign_widen(y) as int,
            0x1_0000_0000_0000_0000);
        lemma_add_mod_noop_right(acc as int, signed(x) * signed(y),
            0x1_0000_0000_0000_0000);
    }
    set_acc(c, acc.wrapping_add(p));
}

/// Unsigned multiply-add: the accumulator plus the product of registers
/// `data.0` and `data.1`, modulo 2^64.
pub fn maddu(c: &mut CPU, data: (usize, usize, usize, usize))
    requires
        data.0 < 32,
        data.1 < 32,
    ensures
        old(c).with_acc(*final(c), final(c).acc_hi, final(c).acc_lo),
        acc_of(final(c).acc_hi, final(c).acc_lo) == wrap64(
            acc_of(old(c).acc_hi, old(c).acc_lo) + old(c).r[data.0 as int] * old(
                c,
            ).r[data.1 as int],
        ),
{
    let x = c.r[data.0];
    let y = c.r[data.1];
    let acc = acc_value(c);
    assert(x as u64 * y as u64 <= 0xffff_fffe_0000_0001) by (nonlinear_arith)
        requires x <= 0xffff_ffff, y <= 0xffff_ffff;
    let p: u64 = x as u64 * y as u64;
    set_acc(c, acc.wrapping_add(p));
}

/// Multiply-subtract: the accumulator minus the signed product of
/// registers `data.0` and `data.1`, modulo 2^64.
pub fn msub(c: &mut CPU, data: (usize, usize, usize, usize))
    requires
        data.0 < 32,
        data.1 < 32,
    ensures
        old(c).with_acc(*final(c), final(c).acc_hi, final(c).acc_lo),
        acc_of(final(c).acc_hi, final(c).acc_lo) == wrap64(
            acc_of(old(c).acc_hi, old(c).acc_lo) - signed(old(c).r[data.0 as int]) * signed(
                old(c).r[data.1 as int],
            ),
        ),
{
    let x = c.r[data.0];
    let y = c.r[data.1];
    let acc = acc_value(c);
    let p = widen_signed(x).wrapping_mul(widen_signed(y));
    proof {
        lemma_signed_congruent(x);
        lemma_signed_congruent(y);
        lemma_mul_congruent(signed(x), signed(y), sign_widen(x) as int, sign_widen(y) as int,
            0x1_0000_0000_0000_0000);
        lemma_sub_mod_noop_right(acc as int, signed(x) * signed(y), 0x1_0000_0000_0000_0000);
    }
    set_acc(c, acc.wrapping_sub(p));
}

/// Unsigned multiply-subtract: the accumulator minus the product of
/// registers `data.0` and `data.1`, modulo 2^64.
pub fn msubu(c: &mut CPU, data: (usize, usize, usize, usize))
    requires
        data.0 < 32,
        data.1 < 32,
    ensures
        old(c).with_acc(*final(c), final(c).acc_hi, final(c).acc_lo),
        acc_of(final(c).acc_hi, final(c).acc_lo) == wrap64(
            acc_of(old(c).acc_hi, old(c).acc_lo) - old(c).r[data.0 as int] * old(
                c,
            ).r[data.1 as int],
        ),
{
    let x = c.r[data.0];
    let y = c.r[data.1];
    let acc = acc_value(c);
    assert(x as u64 * y as u64 <= 0xffff_fffe_0000_0001) by (nonlinear_arith)
        requires x <= 0xffff_ffff, y <= 0xffff_ffff;
    let p: u64 = x as u64 * y as u64;
    set_acc(c, acc.wrapping_sub(p));
}

/// Signed multiply: the low 32 bits of the product of registers `data.1`
/// and `data.2` into register `data.0`.
pub fn mul(c: &mut CPU, data: (usize, usize, usize, usize))
    requires
        data.0 < 32,
        data.1 < 32,
        data.2 < 32,
    ensures
        old(c).with_reg(
            *final(c),
            data.0 as int,
            word(signed(old(c).r[data.1 as int]) * signed(old(c).r[data.2 as int])),
        ),
{
    let x = c.r[data.1];
    let y = c.r[data.2];
    proof {
        lemma_signed_congruent(x);
        lemma_signed_congruent(y);
        lemma_mul_congruent(signed(x), signed(y), x as int, y as int, 0x1_0000_0000);
    }
    c.r[data.0] = x.wrapping_mul(y);
}

/// The 16-bit immediate `i` sign-extended to a word.
fn sign_extend_imm(i: u16) -> (r: u32)
    ensures
        r == sext16(i),
        signed(r) == signed16(i),
{
    if i < 0x8000 {
        i as u32
    } else {
        let r = i as u32 + 0xffff_0000;
        assert(word(signed16(i)) == r) by {
            lemma_mod_sub_multiples_vanish(r as int, 0x1_0000_0000);
        }
        r
    }
}

/// Whether `x < y` with both read as signed words.
fn signed_less(x: u32, y: u32) -> (r: bool)
    ensures
        r == (signed(x) < signed(y)),
{
    // A negative word (top bit set) is below every non-negative one; within
    // one sign the unsigned order agrees with the signed one.
    if x < 0x8000_0000 {
        y < 0x8000_0000 && x < y
    } else {
        y < 0x8000_0000 || x < y
    }
}

/// Signed add: registers `data.1` and `data.2`, wrapping, into register
/// `data.0`.
pub fn add(c: &mut CPU, data: (usize, usize, usize, usize))
    requires
        data.0 < 32,
        data.1 < 32,
        data.2 < 32,
    ensures
        old(c).with_reg(
            *final(c),
            data.0 as int,
            word(old(c).r[data.1 as int] + old(c).r[data.2 as int]),
        ),
{
    let v = c.r[data.1].wrapping_add(c.r[data.2]);
    c.r[data.0] = v;
}

/// Unsigned add: registers `data.1` and `data.2`, wrapping, into register
/// `data.0`.
pub fn addu(c: &mut CPU, data: (usize, usize, usize, usize))
    requires
        data.0 < 32,
        data.1 < 32,
        data.2 < 32,
    ensures
        old(c).with_reg(
            *final(c),
            data.0 as int,
            word(old(c).r[data.1 as int] + old(c).r[data.2 as int]),
        ),
{
    let v = c.r[data.1].wrapping_add(c.r[data.2]);
    c.r[data.0] = v;
}

/// Add immediate: register `data.1` plus the sign-extended immediate,
/// wrapping, into register `data.0`.
pub fn addi(c: &mut CPU, data: (usize, usize, u16))
    requires
        data.0 < 32,
        data.1 < 32,
    ensures
        old(c).with_reg(*final(c), data.0 as int, word(old(c).r[data.1 as int] + signed16(data.2))),
{
    let x = c.r[data.1];
    let i = sign_extend_imm(data.2);
    proof {
        lemma_add_mod_noop_right(x as int, signed16(data.2), 0x1_0000_0000);
    }
    c.r[data.0] = x.wrapping_add(i);
}

/// Add unsigned immediate: register `data.1` plus the zero-extended
/// immediate, wrapping, into register `data.0`.
pub fn addiu(c: &mut CPU, data: (usize, usize, u16))
    requires
        data.0 < 32,
        data.1 < 32,
    ensures
        old(c).with_reg(*final(c), data.0 as int, word(old(c).r[data.1 as int] + data.2)),
{
    let v = c.r[data.1].wrapping_add(data.2 as u32);
    c.r[data.0] = v;
}

/// Signed subtract: register `data.1` minus register `data.2`, wrapping,
/// into register `data.0`.
pub fn sub(c: &mut CPU, data: (usize, usize, usize, usize))
    requires
        data.0 < 32,
        data.1 < 32,
        data.2 < 32,
    ensures
        old(c).with_reg(
            *final(c),
            data.0 as int,
            word(old(c).r[data.1 as int] - old(c).r[data.2 as int]),
        ),
{
    let v = c.r[data.1].wrapping_sub(c.r[data.2]);
    c.r[data.0] = v;
}

/// Unsigned subtract: register `data.1` minus register `data.2`, wrapping,
/// into register `data.0`.
pub fn subu(c: &mut CPU, data: (usize, usize, usize, usize))
    requires
        data.0 < 32,
        data.1 < 32,
        data.2 < 32,
    ensures
        old(c).with_reg(
            *final(c),
            data.0 as int,
            word(old(c).r[data.1 as int] - old(c).r[data.2 as int]),
        ),
{
    let v = c.r[data.1].wrapping_sub(c.r[data.2]);
    c.r[data.0] = v;
}

/// Set on less than: 1 into register `data.0` when register `data.1` is
/// below register `data.2` as signed words, else 0.
pub fn slt(c: &mut CPU, data: (usize, usize, usize, usize))
    requires
        data.0 < 32,
        data.1 < 32,
        data.2 < 32,
    ensures
        old(c).with_reg(*final(c), data.0 as int,
            if signed(old(c).r[data.1 as int]) < signed(old(c).r[data.2 as int]) { 1 } else { 0 }),
{
    let v: u32 = if signed_less(c.r[data.1], c.r[data.2]) { 1 } else { 0 };
    c.r[data.0] = v;
}

/// Set on less than immediate: 1 into register `data.0` when register
/// `data.1` is below the sign-extended immediate as signed words, else 0.
pub fn slti(c: &mut CPU, data: (usize, usize, u16))
    requires
        data.0 < 32,
        data.1 < 32,
    ensures
        old(c).with_reg(*final(c), data.0 as int,
            if signed(old(c).r[data.1 as int]) < signed16(data.2) { 1 } else { 0 }),
{
    let i = sign_extend_imm(data.2);
    let v: u32 = if signed_less(c.r[data.1], i) { 1 } else { 0 };
    c.r[data.0] = v;
}

/// Set on less than unsigned immediate: 1 into register `data.0` when
/// register `data.1` is below the zero-extended immediate, else 0.
pub fn sltiu(c: &mut CPU, data: (usize, usize, u16))
    requires
        data.0 < 32,
        data.1 < 32,
    ensures
        old(c).with_reg(*final(c), data.0 as int,
            if old(c).r[data.1 as int] < data.2 { 1 } else { 0 }),
{
    let v: u32 = if c.r[data.1] < data.2 as u32 { 1 } else { 0 };
    c.r[data.0] = v;
}

/// Set on less than unsigned: 1 into register `data.0` when register
/// `data.1` is below register `data.2`, else 0.
pub fn sltu(c: &mut CPU, data: (usize, usize, usize, usize))
    requires
        data.0 < 32,
        data.1 < 32,
        data.2 < 32,
    ensures
        old(c).with_reg(*final(c), data.0 as int,
            if old(c).r[data.1 as int] < old(c).r[data.2 as int] { 1 } else { 0 }),
{
    let v: u32 = if c.r[data.1] < c.r[data.2] { 1 } else { 0 };
    c.r[data.0] = v;
}

/// Shift right arithmetic: register `data.1` shifted right by the
/// shift-amount field `data.3`, sign-filled, into register `data.0`.
pub fn sra(c: &mut CPU, data: (usize, usize, usize, usize))
    requires
        data.0 < 32,
        data.1 < 32,
        data.3 < 32,
    ensures
        old(c).with_reg(
            *final(c),
            data.0 as int,
            shift_right_arith(old(c).r[data.1 as int], data.3 as u32),
        ),
        signed(final(c).r[data.0 as int]) == signed(old(c).r[data.1 as int]) / (pow2(
            data.3 as nat,
        ) as int),
{
    let v = arith_shift(c.r[data.1], data.3 as u32);
    c.r[data.0] = v;
}

/// Shift right arithmetic variable: register `data.1` shifted right by the
/// low 5 bits of register `data.2`, sign-filled, into register `data.0`.
pub fn srav(c: &mut CPU, data: (usize, usize, usize, usize))
    requires
        data.0 < 32,
        data.1 < 32,
        data.2 < 32,
    ensures
        old(c).with_reg(
            *final(c),
            data.0 as int,
            shift_right_arith(old(c).r[data.1 as int], old(c).r[data.2 as int] & 0x1f),
        ),
        signed(final(c).r[data.0 as int]) == signed(old(c).r[data.1 as int]) / (pow2(
            (old(c).r[data.2 as int] & 0x1f) as nat,
        ) as int),
{
    let n = shift_amount(c.r[data.2]);
    let v = arith_shift(c.r[data.1], n);
    c.r[data.0] = v;
}

/// `x` shifted right by `n` places, sign-filled.
fn arith_shift(x: u32, n: u32) -> (r: u32)
    requires
        n < 32,
    ensures
        r == shift_right_arith(x, n),
        signed(r) == signed(x) / (pow2(n as nat) as int),
{
    proof {
        lemma_shift_right_arith_divides(x, n);
    }
    if x < 0x8000_0000 {
        x >> n
    } else {
        !((!x) >> n)
    }
}

/// Swap bytes within halfwords: register `data.1` with the two bytes of
/// each halfword exchanged, into register `data.0`.
pub fn wsbh(c: &mut CPU, data: (usize, usize, usize, usize))
    requires
        data.0 < 32,
        data.1 < 32,
    ensures
        old(c).with_reg(*final(c), data.0 as int, final(c).r[data.0 as int]),
        byte_of(final(c).r[data.0 as int], 0) == byte_of(old(c).r[data.1 as int], 1),
        byte_of(final(c).r[data.0 as int], 1) == byte_of(old(c).r[data.1 as int], 0),
        byte_of(final(c).r[data.0 as int], 2) == byte_of(old(c).r[data.1 as int], 3),
        byte_of(final(c).r[data.0 as int], 3) == byte_of(old(c).r[data.1 as int], 2),
{
    let x = c.r[data.1];
    let v = ((x & 0x00ff_0000) << 8) | ((x & 0xff00_0000) >> 8) | ((x & 0x0000_00ff) << 8) | ((
    x & 0x0000_ff00) >> 8);
    assert(byte_of(v, 0) == byte_of(x, 1) && byte_of(v, 1) == byte_of(x, 0) && byte_of(v, 2)
        == byte_of(x, 3) && byte_of(v, 3) == byte_of(x, 2)) by (bit_vector)
        requires
            v == ((x & 0x00ff_0000) << 8) | ((x & 0xff00_0000) >> 8) | ((x & 0x0000_00ff) << 8)
                | ((x & 0x0000_ff00) >> 8),
    ;
    c.r[data.0] = v;
}

/// Bitwise AND of registers `data.1` and `data.2` into register `data.0`.
pub fn and(c: &mut CPU, data: (usize, usize, usize, usize))
    requires
        data.0 < 32,
        data.1 < 32,
        data.2 < 32,
    ensures
        old(c).with_reg(
            *final(c),
            data.0 as int,
            old(c).r[data.1 as int] & old(c).r[data.2 as int],
        ),
{
    let v = c.r[data.1] & c.r[data.2];
    c.r[data.0] = v;
}

/// Bitwise OR of registers `data.1` and `data.2` into register `data.0`.
pub fn or(c: &mut CPU, data: (usize, usize, usize, usize))
    requires
        data.0 < 32,
        data.1 < 32,
        data.2 < 32,
    ensures
        old(c).with_reg(
            *final(c),
            data.0 as int,
            old(c).r[data.1 as int] | old(c).r[data.2 as int],
        ),
{
    let v = c.r[data.1] | c.r[data.2];
    c.r[data.0] = v;
}

/// Bitwise XOR of registers `data.1` and `data.2` into register `data.0`.
pub fn xor(c: &mut CPU, data: (usize, usize, usize, usize))
    requires
        data.0 < 32,
        data.1 < 32,
        data.2 < 32,
    ensures
        old(c).with_reg(
            *final(c),
            data.0 as int,
            old(c).r[data.1 as int] ^ old(c).r[data.2 as int],
        ),
{
    let v = c.r[data.1] ^ c.r[data.2];
    c.r[data.0] = v;
}

/// Bitwise NOR of registers `data.1` and `data.2` into register `data.0`.
pub fn nor(c: &mut CPU, data: (usize, usize, usize, usize))
    requires
        data.0 < 32,
        data.1 < 32,
        data.2 < 32,
    ensures
        old(c).with_reg(
            *final(c),
            data.0 as int,
            !(old(c).r[data.1 as int] | old(c).r[data.2 as int]),
        ),
{
    let v = !(c.r[data.1] | c.r[data.2]);
    c.r[data.0] = v;
}

/// AND of register `data.1` with the zero-extended immediate into register
/// `data.0`.
pub fn andi(c: &mut CPU, data: (usize, usize, u16))
    requires
        data.0 < 32,
        data.1 < 32,
    ensures
        old(c).with_reg(*final(c), data.0 as int, old(c).r[data.1 as int] & (data.2 as u32)),
{
    let v = c.r[data.1] & (data.2 as u32);
    c.r[data.0] = v;
}

/// OR of register `data.1` with the zero-extended immediate into register
/// `data.0`.
pub fn ori(c: &mut CPU, data: (usize, usize, u16))
    requires
        data.0 < 32,
        data.1 < 32,
    ensures
        old(c).with_reg(*final(c), data.0 as int, old(c).r[data.1 as int] | (data.2 as u32)),
{
    let v = c.r[data.1] | (data.2 as u32);
    c.r[data.0] = v;
}

/// XOR of register `data.1` with the zero-extended immediate into register
/// `data.0`.
pub fn xori(c: &mut CPU, data: (usize, usize, u16))
    requires
        data.0 < 32,
        data.1 < 32,
    ensures
        old(c).with_reg(*final(c), data.0 as int, old(c).r[data.1 as int] ^ (data.2 as u32)),
{
    let v = c.r[data.1] ^ (data.2 as u32);
    c.r[data.0] = v;
}

/// Bitwise complement of register `data.1` into register `data.0`.
pub fn not(c: &mut CPU, data: (usize, usize, usize, usize))
    requires
        data.0 < 32,
        data.1 < 32,
    ensures
        old(c).with_reg(*final(c), data.0 as int, !old(c).r[data.1 as int]),
{
    let v = !c.r[data.1];
    c.r[data.0] = v;
}

/// Complement of register `data.1` into register `data.0`: every bit is
/// inverted (one's complement, not arithmetic negation).
pub fn negu(c: &mut CPU, data: (usize, usize, usize, usize))
    requires
        data.0 < 32,
        data.1 < 32,
    ensures
        old(c).with_reg(*final(c), data.0 as int, !old(c).r[data.1 as int]),
{
    let v = !c.r[data.1];
    c.r[data.0] = v;
}

/// Copies register `data.1` into register `data.0`.
pub fn mov(c: &mut CPU, data: (usize, usize, usize, usize))
    requires
        data.0 < 32,
        data.1 < 32,
    ensures
        old(c).with_reg(*final(c), data.0 as int, old(c).r[data.1 as int]),
{
    let v = c.r[data.1];
    c.r[data.0] = v;
}

/// The low byte of register `data.1`, upper bits cleared, into register
/// `data.0`.
pub fn seb(c: &mut CPU, data: (usize, usize, usize, usize))
    requires
        data.0 < 32,
        data.1 < 32,
    ensures
        old(c).with_reg(*final(c), data.0 as int, old(c).r[data.1 as int] & 0xff),
{
    let v = c.r[data.1] & 0xff;
    c.r[data.0] = v;
}

/// The low halfword of register `data.1`, upper bits cleared, into
/// register `data.0`.
pub fn seh(c: &mut CPU, data: (usize, usize, usize, usize))
    requires
        data.0 < 32,
        data.1 < 32,
    ensures
        old(c).with_reg(*final(c), data.0 as int, old(c).r[data.1 as int] & 0xffff),
{
    let v = c.r[data.1] & 0xffff;
    c.r[data.0] = v;
}

/// Shift left logical: register `data.1` shifted left by the shift-amount
/// field `data.3` into register `data.0`.
pub fn sll(c: &mut CPU, data: (usize, usize, usize, usize))
    requires
        data.0 < 32,
        data.1 < 32,
        data.3 < 32,
    ensures
        old(c).with_reg(*final(c), data.0 as int, old(c).r[data.1 as int] << data.3 as u32),
{
    let v = c.r[data.1] << data.3 as u32;
    c.r[data.0] = v;
}

/// Shift right logical: register `data.1` shifted right by the
/// shift-amount field `data.3`, zero-filled, into register `data.0`.
pub fn srl(c: &mut CPU, data: (usize, usize, usize, usize))
    requires
        data.0 < 32,
        data.1 < 32,
        data.3 < 32,
    ensures
        old(c).with_reg(*final(c), data.0 as int, old(c).r[data.1 as int] >> data.3 as u32),
{
    let v = c.r[data.1] >> data.3 as u32;
    c.r[data.0] = v;
}

/// Rotate right: register `data.1` rotated right by the shift-amount field
/// `data.3` into register `data.0`. An amount of 0 leaves the value as is.
pub fn rotr(c: &mut CPU, data: (usize, usize, usize, usize))
    requires
        data.0 < 32,
        data.1 < 32,
        data.3 < 32,
    ensures
        old(c).with_reg(
            *final(c),
            data.0 as int,
            rotate_right(old(c).r[data.1 as int], data.3 as u32),
        ),
{
    let v = rotate(c.r[data.1], data.3 as u32);
    c.r[data.0] = v;
}

/// `x` rotated right by `n` places.
fn rotate(x: u32, n: u32) -> (r: u32)
    requires
        n < 32,
    ensures
        r == rotate_right(x, n),
{
    if n == 0 {
        x
    } else {
        (x >> n) | (x << (32 - n))
    }
}

/// The low 5 bits of `x`: a shift amount below 32.
fn shift_amount(x: u32) -> (r: u32)
    ensures
        r == x & 0x1f,
        r < 32,
{
    let r = x & 0x1f;
    assert(r < 32) by (bit_vector)
        requires
            r == x & 0x1f,
    ;
    r
}

/// Rotate right variable: register `data.1` rotated right by the low 5
/// bits of register `data.2` into register `data.0`.
pub fn rotrv(c: &mut CPU, data: (usize, usize, usize, usize))
    requires
        data.0 < 32,
        data.1 < 32,
        data.2 < 32,
    ensures
        old(c).with_reg(
            *final(c),
            data.0 as int,
            rotate_right(old(c).r[data.1 as int], old(c).r[data.2 as int] & 0x1f),
        ),
{
    let v = rotate(c.r[data.1], shift_amount(c.r[data.2]));
    c.r[data.0] = v;
}

/// Shift right logical variable: register `data.1` shifted right by the
/// low 5 bits of register `data.2`, zero-filled, into register `data.0`.
pub fn srlv(c: &mut CPU, data: (usize, usize, usize, usize))
    requires
        data.0 < 32,
        data.1 < 32,
        data.2 < 32,
    ensures
        old(c).with_reg(
            *final(c),
            data.0 as int,
            old(c).r[data.1 as int] >> (old(c).r[data.2 as int] & 0x1f),
        ),
{
    let v = c.r[data.1] >> shift_amount(c.r[data.2]);
    c.r[data.0] = v;
}

/// Shift left logical variable: register `data.1` shifted left by the low 5
/// bits of register `data.2` into register `data.0`.
pub fn sllv(c: &mut CPU, data: (usize, usize, usize))
    requires
        data.0 < 32,
        data.1 < 32,
        data.2 < 32,
    ensures
        old(c).with_reg(
            *final(c),
            data.0 as int,
            old(c).r[data.1 as int] << (old(c).r[data.2 as int] & 0x1f),
        ),
{
    let v = c.r[data.1] << shift_amount(c.r[data.2]);
    c.r[data.0] = v;
}

/// Load upper immediate: the immediate times 2^16 (the immediate in the
/// upper halfword, the lower one zero) into register `data.0`.
pub fn lui(c: &mut CPU, data: (usize, usize, u16))
    requires
        data.0 < 32,
    ensures
        old(c).with_reg(*final(c), data.0 as int, (data.2 * 0x1_0000) as u32),
{
    let i = data.2;
    let v = (i as u32) << 16;
    assert(v == (i * 0x1_0000) as u32) by (bit_vector)
        requires
            v == (i as u32) << 16,
    ;
    c.r[data.0] = v;
}

/// Move if not zero: register `data.1` into register `data.0` when register
/// `data.2` is nonzero; otherwise nothing changes.
pub fn movn(c: &mut CPU, data: (usize, usize, usize, usize))
    requires
        data.0 < 32,
        data.1 < 32,
        data.2 < 32,
    ensures
        old(c).with_reg(
            *final(c),
            data.0 as int,
            if old(c).r[data.2 as int] != 0 {
                old(c).r[data.1 as int]
            } else {
                old(c).r[data.0 as int]
            },
        ),
{
    if c.r[data.2] != 0 {
        c.r[data.0] = c.r[data.1];
    }
    assert(final(c).r@ =~= old(c).r@.update(data.0 as int, final(c).r[data.0 as int]));
}

/// Move if zero: register `data.1` into register `data.0` when register
/// `data.2` is zero; otherwise nothing changes.
pub fn movz(c: &mut CPU, data: (usize, usize, usize, usize))
    requires
        data.0 < 32,
        data.1 < 32,
        data.2 < 32,
    ensures
        old(c).with_reg(
            *final(c),
            data.0 as int,
            if old(c).r[data.2 as int] == 0 {
                old(c).r[data.1 as int]
            } else {
                old(c).r[data.0 as int]
            },
        ),
{
    if c.r[data.2] == 0 {
        c.r[data.0] = c.r[data.1];
    }
    assert(final(c).r@ =~= old(c).r@.update(data.0 as int, final(c).r[data.0 as int]));
}

/// Count ones: the number of set bits among all 32 of register `data.1`
/// into register `data.0`.
pub fn clo(c: &mut CPU, data: (usize, usize, usize, usize))
    requires
        data.0 < 32,
        data.1 < 32,
    ensures
        old(c).with_reg(*final(c), data.0 as int, ones(old(c).r[data.1 as int], 32) as u32),
{
    let x = c.r[data.1];
    let mut n: u32 = 0;
    let mut i: u32 = 0;
    while i < 32
        invariant
            i <= 32,
            n == ones(x, i as nat),
            n <= i,
        decreases 32 - i,
    {
        if (x >> i) & 1 == 1 {
            n = n + 1;
        }
        i = i + 1;
    }
    c.r[data.0] = n;
}

/// Count zeros: the number of clear bits among all 32 of register `data.1`
/// into register `data.0`.
pub fn clz(c: &mut CPU, data: (usize, usize, usize, usize))
    requires
        data.0 < 32,
        data.1 < 32,
    ensures
        old(c).with_reg(*final(c), data.0 as int, zeros(old(c).r[data.1 as int], 32) as u32),
{
    let x = c.r[data.1];
    let mut n: u32 = 0;
    let mut i: u32 = 0;
    while i < 32
        invariant
            i <= 32,
            n == zeros(x, i as nat),
            n <= i,
        decreases 32 - i,
    {
        if (x >> i) & 1 == 0 {
            n = n + 1;
        }
        i = i + 1;
    }
    c.r[data.0] = n;
}

/// Extract: the bits `data.2 .. data.2 + data.3` of register `data.1`, left
/// in place with all other bits cleared, into register `data.0`.
pub fn ext(c: &mut CPU, data: (usize, usize, usize, usize))
    requires
        data.0 < 32,
        data.1 < 32,
        data.2 < 32,
        data.3 < 32,
    ensures
        old(c).with_reg(*final(c), data.0 as int,
            old(c).r[data.1 as int] & field_mask(data.2 as u32, data.3 as u32)),
{
    let mask = field(data.2 as u32, data.3 as u32);
    c.r[data.0] = c.r[data.1] & mask;
}

/// Insert: the low `data.3` bits of register `data.1`, shifted up to bit
/// `data.2`, ORed into register `data.0`.
pub fn ins(c: &mut CPU, data: (usize, usize, usize, usize))
    requires
        data.0 < 32,
        data.1 < 32,
        data.2 < 32,
        data.3 < 32,
    ensures
        old(c).with_reg(
            *final(c),
            data.0 as int,
            old(c).r[data.0 as int] | ((old(c).r[data.1 as int] & low_mask(data.3 as u32))
                << data.2 as u32),
        ),
{
    let low = low_bits(data.3 as u32);
    let v = c.r[data.0] | ((c.r[data.1] & low) << data.2 as u32);
    c.r[data.0] = v;
}

/// A word with its lowest `size` bits set.
fn low_bits(size: u32) -> (r: u32)
    requires
        size < 32,
    ensures
        r == low_mask(size),
{
    assert(1u32 << size >= 1) by (bit_vector)
        requires
            size < 32,
    ;
    (1u32 << size) - 1
}

/// A word with bits `pos .. pos + size` set.
fn field(pos: u32, size: u32) -> (r: u32)
    requires
        pos < 32,
        size < 32,
    ensures
        r == field_mask(pos, size),
{
    low_bits(size) << pos
}

} // verus!
