//! Mathematical meaning of the 32-bit words that the engine computes with.
use vstd::arithmetic::div_mod::{lemma_fundamental_div_mod, lemma_fundamental_div_mod_converse};
use vstd::arithmetic::power2::{lemma_pow2_pos, pow2};
use vstd::bits::lemma_u32_shr_is_div;
use vstd::math::abs;
use vstd::prelude::*;

verus! {

/// `x` reduced to a 32-bit word (two's complement wrap-around).
pub open spec fn word(x: int) -> u32 {
    (x % 0x1_0000_0000) as u32
}

/// `x` reduced modulo 2^64.
pub open spec fn wrap64(x: int) -> int {
    x % 0x1_0000_0000_0000_0000
}

/// The signed (two's complement) value of a 32-bit word.
pub open spec fn signed(x: u32) -> int {
    if x < 0x8000_0000 {
        x as int
    } else {
        x - 0x1_0000_0000
    }
}

/// The signed (two's complement) value of a 16-bit immediate.
pub open spec fn signed16(i: u16) -> int {
    if i < 0x8000 {
        i as int
    } else {
        i - 0x1_0000
    }
}

/// A 16-bit immediate sign-extended to a word.
pub open spec fn sext16(i: u16) -> u32 {
    word(signed16(i))
}

/// 1 when bit `i` of `x` is set, else 0.
pub open spec fn one_at(x: u32, i: int) -> nat {
    if (x >> (i as u32)) & 1 == 1 {
        1
    } else {
        0
    }
}

/// 1 when bit `i` of `x` is clear, else 0.
pub open spec fn zero_at(x: u32, i: int) -> nat {
    if (x >> (i as u32)) & 1 == 0 {
        1
    } else {
        0
    }
}

/// How many of the lowest `n` bits of `x` are set.
pub open spec fn ones(x: u32, n: nat) -> nat
    decreases n,
{
    if n == 0 {
        0
    } else {
        ones(x, (n - 1) as nat) + one_at(x, n - 1)
    }
}

/// How many of the lowest `n` bits of `x` are clear.
pub open spec fn zeros(x: u32, n: nat) -> nat
    decreases n,
{
    if n == 0 {
        0
    } else {
        zeros(x, (n - 1) as nat) + zero_at(x, n - 1)
    }
}

/// `x` rotated right by `n` places (`n < 32`): the bits shifted out at the
/// bottom come back in at the top.
pub open spec fn rotate_right(x: u32, n: u32) -> u32 {
    if n == 0 {
        x
    } else {
        (x >> n) | (x << ((32 - n) as u32))
    }
}

/// `x` shifted right by `n` places, filling from the left with copies of
/// its sign bit.
pub open spec fn shift_right_arith(x: u32, n: u32) -> u32 {
    if x < 0x8000_0000 {
        x >> n
    } else {
        !((!x) >> n)
    }
}

/// Read as signed words, an arithmetic right shift by `n` is division by
/// 2^n rounded down.
pub proof fn lemma_shift_right_arith_divides(x: u32, n: u32)
    requires
        n < 32,
    ensures
        signed(shift_right_arith(x, n)) == signed(x) / (pow2(n as nat) as int),
{
    let p = pow2(n as nat) as int;
    lemma_pow2_pos(n as nat);
    if x < 0x8000_0000 {
        lemma_u32_shr_is_div(x, n);
        assert(x as nat / pow2(n as nat) <= x) by (nonlinear_arith)
            requires
                pow2(n as nat) > 0,
        ;
    } else {
        let m: u32 = !x;
        assert(m == 0xffff_ffff - x && m < 0x8000_0000) by (bit_vector)
            requires
                m == !x,
                x >= 0x8000_0000,
        ;
        let q: u32 = m >> n;
        lemma_u32_shr_is_div(m, n);
        assert(q <= m) by (nonlinear_arith)
            requires
                q == m as nat / pow2(n as nat),
                pow2(n as nat) > 0,
        ;
        let r: u32 = !q;
        assert(r == 0xffff_ffff - q) by (bit_vector)
            requires
                r == !q,
        ;
        lemma_fundamental_div_mod(m as int, p);
        let k = m as int % p;
        assert(signed(x) == (-(q as int) - 1) * p + (p - k - 1)) by (nonlinear_arith)
            requires
                m as int == p * (m as int / p) + k,
                q as int == m as int / p,
                signed(x) == -(m as int) - 1,
        ;
        lemma_fundamental_div_mod_converse(signed(x), p, -(q as int) - 1, p - k - 1);
    }
}

/// A word whose lowest `size` bits are set (`size < 32`).
pub open spec fn low_mask(size: u32) -> u32 {
    ((1u32 << size) - 1) as u32
}

/// A word whose bits `pos .. pos + size` are set (those below 32).
pub open spec fn field_mask(pos: u32, size: u32) -> u32 {
    low_mask(size) << pos
}

/// Byte `k` (0 is the lowest) of `x`.
pub open spec fn byte_of(x: u32, k: u32) -> u32 {
    (x >> (8 * k) as u32) & 0xff
}

/// The 64-bit quantity held by an accumulator pair.
pub open spec fn acc_of(hi: u32, lo: u32) -> int {
    hi * 0x1_0000_0000 + lo
}

/// Integer division rounded toward zero (`b != 0`).
pub open spec fn trunc_div(a: int, b: int) -> int {
    let q: int = (abs(a) / abs(b)) as int;
    if (a < 0) != (b < 0) {
        -q
    } else {
        q
    }
}

} // verus!
