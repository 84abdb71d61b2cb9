//! Laws that relate several instructions to one another.
use crate::bits::{field_mask, low_mask, ones, rotate_right, word, zeros};
use vstd::arithmetic::div_mod::{lemma_small_mod, lemma_sub_mod_noop};
use vstd::prelude::*;

verus! {

/// Adding `y` and then subtracting `y` (as `add`/`addu` then `sub`/`subu`
/// compute it, wrapping modulo 2^32) gives back `x`.
pub proof fn law_add_then_sub(x: u32, y: u32)
    ensures
        word(word(x + y) - y) == x,
{
    let m: int = 0x1_0000_0000;
    lemma_sub_mod_noop(x + y, y as int, m);
    lemma_small_mod(y as nat, m as nat);
    lemma_small_mod(x as nat, m as nat);
}

/// Inserting, at the same place, the field that `ext` pulled out of `x`
/// into a zero destination gives that field back whenever the field starts
/// at bit 0 or is empty (`ext` leaves the field in place, `ins` takes the
/// low bits of its source).
pub proof fn law_ext_then_ins(x: u32, pos: u32, size: u32)
    requires
        pos < 32,
        size < 32,
        pos == 0 || size == 0,
    ensures
        0u32 | (((x & field_mask(pos, size)) & low_mask(size)) << pos) == x & field_mask(pos, size),
{
    assert(0u32 | (((x & ((((1u32 << size) - 1) as u32) << pos)) & (((1u32 << size) - 1) as u32))
        << pos) == x & ((((1u32 << size) - 1) as u32) << pos)) by (bit_vector)
        requires
            pos < 32,
            size < 32,
            pos == 0 || size == 0,
    ;
}

/// Inserting the source shifted down by `pos` into a zero destination at
/// `pos` reproduces what `ext` extracts at `pos`, for every field.
pub proof fn law_ins_of_shifted_field(x: u32, pos: u32, size: u32)
    requires
        pos < 32,
        size < 32,
    ensures
        0u32 | (((x >> pos) & low_mask(size)) << pos) == x & field_mask(pos, size),
{
    assert(0u32 | (((x >> pos) & (((1u32 << size) - 1) as u32)) << pos) == x & ((((1u32 << size)
        - 1) as u32) << pos)) by (bit_vector)
        requires
            pos < 32,
            size < 32,
    ;
}

/// Rotating right by `n` and then by `32 - n` gives back `x`.
pub proof fn law_rotate_round_trip(x: u32, n: u32)
    requires
        1 <= n <= 31,
    ensures
        rotate_right(rotate_right(x, n), (32 - n) as u32) == x,
{
    assert(((((x >> n) | (x << ((32 - n) as u32))) >> ((32 - n) as u32)) | (((x >> n) | (x << ((
    32 - n) as u32))) << ((32 - ((32 - n) as u32)) as u32))) == x) by (bit_vector)
        requires
            1 <= n <= 31,
    ;
}

/// Among the lowest `n` bits, the set ones and the clear ones make `n`.
proof fn lemma_ones_zeros(x: u32, n: nat)
    ensures
        ones(x, n) + zeros(x, n) == n,
    decreases n,
{
    if n > 0 {
        lemma_ones_zeros(x, (n - 1) as nat);
        let k = (n - 1) as u32;
        assert((x >> k) & 1 == 0 || (x >> k) & 1 == 1) by (bit_vector);
    }
}

/// The counts of `clo` and `clz` on one word add up to 32.
pub proof fn law_clo_plus_clz(x: u32)
    ensures
        ones(x, 32) + zeros(x, 32) == 32,
{
    lemma_ones_zeros(x, 32);
}

} // verus!
