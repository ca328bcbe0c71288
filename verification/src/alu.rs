//! Arithmetic and logic of the SM83: 8-bit and 16-bit operations with
//! their Z/N/H/C flag derivations, and the rotate/shift cores shared by
//! the base and CB-prefixed instructions.

use vstd::prelude::*;

use crate::bits::spec_bit;
use crate::utils::{wrap16_add, wrap8_add, wrap8_sub};

verus! {

/// The F register built from its four defined flags; bits 0..=3 are zero.
#[verifier::opaque]
pub open spec fn spec_flags(z: bool, n: bool, h: bool, c: bool) -> u8 {
    (if z {
        0x80u8
    } else {
        0u8
    }) | (if n {
        0x40u8
    } else {
        0u8
    }) | (if h {
        0x20u8
    } else {
        0u8
    }) | (if c {
        0x10u8
    } else {
        0u8
    })
}

/// Zero flag of an F value.
pub open spec fn flag_z(f: u8) -> bool {
    spec_bit(f, 7)
}

/// Subtract flag of an F value.
pub open spec fn flag_n(f: u8) -> bool {
    spec_bit(f, 6)
}

/// Half-carry flag of an F value.
pub open spec fn flag_h(f: u8) -> bool {
    spec_bit(f, 5)
}

/// Carry flag of an F value.
pub open spec fn flag_c(f: u8) -> bool {
    spec_bit(f, 4)
}

/// An F value assembled from flags reads back those flags, and its low
/// nibble is zero.
pub broadcast proof fn lemma_flags_props(z: bool, n: bool, h: bool, c: bool)
    ensures
        #[trigger] spec_flags(z, n, h, c) & 0x0F == 0,
        flag_z(spec_flags(z, n, h, c)) == z,
        flag_n(spec_flags(z, n, h, c)) == n,
        flag_h(spec_flags(z, n, h, c)) == h,
        flag_c(spec_flags(z, n, h, c)) == c,
{
    reveal(spec_flags);
    let fz: u8 = if z {
        0x80
    } else {
        0
    };
    let fn_: u8 = if n {
        0x40
    } else {
        0
    };
    let fh: u8 = if h {
        0x20
    } else {
        0
    };
    let fc: u8 = if c {
        0x10
    } else {
        0
    };
    assert((fz | fn_ | fh | fc) & 0x0F == 0 && (((fz | fn_ | fh | fc) >> 7) & 1 == 1) == (fz
        == 0x80) && (((fz | fn_ | fh | fc) >> 6) & 1 == 1) == (fn_ == 0x40) && (((fz | fn_ | fh
        | fc) >> 5) & 1 == 1) == (fh == 0x20) && (((fz | fn_ | fh | fc) >> 4) & 1 == 1) == (fc
        == 0x10)) by (bit_vector)
        requires
            (fz == 0x80 || fz == 0) && (fn_ == 0x40 || fn_ == 0) && (fh == 0x20 || fh == 0) && (fc
                == 0x10 || fc == 0),
    ;
}

/// Masking keeps a byte at or below both the mask and itself.
pub broadcast proof fn lemma_u8_and_bounds(x: u8, m: u8)
    ensures
        #[trigger] (x & m) <= m,
        (x & m) <= x,
{
    assert((x & m) <= m && (x & m) <= x) by (bit_vector);
}

/// Masking keeps a u16 at or below both the mask and itself.
pub broadcast proof fn lemma_u16_and_bounds(x: u16, m: u16)
    ensures
        #[trigger] (x & m) <= m,
        (x & m) <= x,
{
    assert((x & m) <= m && (x & m) <= x) by (bit_vector);
}

/// Masking keeps a usize at or below both the mask and itself.
pub broadcast proof fn lemma_usize_and_bounds(x: usize, m: usize)
    ensures
        #[trigger] (x & m) <= m,
        (x & m) <= x,
{
    assert((x & m) <= m && (x & m) <= x) by (bit_vector);
}

/// A value masked to the high nibble, or the N bit alone, has low nibble
/// zero; an OR of two values with zero low nibbles keeps it zero.
pub broadcast proof fn lemma_low_nibble_zero(x: u8, y: u8)
    ensures
        #[trigger] (x & 0xF0) & 0x0F == 0,
        (x & 0x40) & 0x0F == 0,
        x & 0x0F == 0 && y & 0x0F == 0 ==> #[trigger] (x | y) & 0x0F == 0,
{
    assert(((x & 0xF0) & 0x0F == 0) && ((x & 0x40) & 0x0F == 0) && (x & 0x0F == 0 && y & 0x0F == 0
        ==> (x | y) & 0x0F == 0)) by (bit_vector);
}

/// A 16-bit value from a high and a low byte.
pub open spec fn combine16(hi: u8, lo: u8) -> u16 {
    ((hi as u16) << 8) | (lo as u16)
}

/// High byte of a 16-bit value.
pub open spec fn hi8(x: u16) -> u8 {
    (x >> 8) as u8
}

/// Low byte of a 16-bit value.
pub open spec fn lo8(x: u16) -> u8 {
    x as u8
}

/// Combining two bytes and splitting again yields the bytes, and the
/// combination equals the usual weighted sum.
pub broadcast proof fn lemma_combine16_split(hi: u8, lo: u8)
    ensures
        hi8(#[trigger] combine16(hi, lo)) == hi,
        lo8(combine16(hi, lo)) == lo,
        combine16(hi, lo) == hi * 256 + lo,
{
    assert(((((hi as u16) << 8) | (lo as u16)) >> 8) as u8 == hi && ((((hi as u16) << 8) | (
    lo as u16))) as u8 == lo && (((hi as u16) << 8) | (lo as u16)) == hi * 256 + lo)
        by (bit_vector);
}

/// Splitting a 16-bit value and recombining restores it.
pub broadcast proof fn lemma_split16_combine(x: u16)
    ensures
        #[trigger] combine16(hi8(x), lo8(x)) == x,
{
    assert(((((x >> 8) as u8) as u16) << 8) | ((x as u8) as u16) == x) by (bit_vector);
}

/// Combine two bytes into a 16-bit value.
pub fn combine16_exec(hi: u8, lo: u8) -> (r: u16)
    ensures
        r == combine16(hi, lo),
{
    ((hi as u16) << 8) | (lo as u16)
}

/// The F register built from its four defined flags.
pub fn flags_u8(z: bool, n: bool, h: bool, c: bool) -> (r: u8)
    ensures
        r == spec_flags(z, n, h, c),
{
    proof {
        reveal(spec_flags);
    }
    (if z {
        0x80u8
    } else {
        0u8
    }) | (if n {
        0x40u8
    } else {
        0u8
    }) | (if h {
        0x20u8
    } else {
        0u8
    }) | (if c {
        0x10u8
    } else {
        0u8
    })
}

/// 8-bit addition: result and flags. H uses the xor oracle on bit 4,
/// C is the carry out of bit 7, N is cleared.
#[verifier::opaque]
pub open spec fn spec_add8(a: u8, b: u8) -> (u8, u8) {
    let r = wrap8_add(a, b);
    (r, spec_flags(r == 0, false, (a ^ b ^ r) & 0x10 != 0, a + b > 0xFF))
}

/// 8-bit addition including the incoming carry. H from the nibble sum,
/// C from the full sum, N cleared.
#[verifier::opaque]
pub open spec fn spec_adc8(a: u8, b: u8, cin: bool) -> (u8, u8) {
    let ci: u8 = if cin {
        1
    } else {
        0
    };
    let r = (((a + b + ci) % 0x100) as u8);
    (r, spec_flags(r == 0, false, (a & 0x0F) + (b & 0x0F) + ci > 0x0F, a + b + ci > 0xFF))
}

/// 8-bit subtraction: H when the low nibble of `a` is smaller, C on
/// borrow, N set.
#[verifier::opaque]
pub open spec fn spec_sub8(a: u8, b: u8) -> (u8, u8) {
    let r = wrap8_sub(a, b);
    (r, spec_flags(r == 0, true, (a & 0x0F) < (b & 0x0F), a < b))
}

/// 8-bit subtraction including the incoming borrow.
#[verifier::opaque]
pub open spec fn spec_sbc8(a: u8, b: u8, cin: bool) -> (u8, u8) {
    let ci: u8 = if cin {
        1
    } else {
        0
    };
    let r = (((a - b - ci + 0x200) % 0x100) as u8);
    (r, spec_flags(r == 0, true, (a & 0x0F) < (b & 0x0F) + ci, a < b + ci))
}

/// Comparison: the flags of `a - b`, with H from the xor oracle.
#[verifier::opaque]
pub open spec fn spec_cp8(a: u8, b: u8) -> u8 {
    let r = wrap8_sub(a, b);
    spec_flags(r == 0, true, (a ^ b ^ r) & 0x10 != 0, a < b)
}

/// Bitwise AND: Z from the result, H always set, N and C cleared.
#[verifier::opaque]
pub open spec fn spec_and8(a: u8, b: u8) -> (u8, u8) {
    let r = a & b;
    (r, spec_flags(r == 0, false, true, false))
}

/// Bitwise OR: Z from the result, N, H and C cleared.
#[verifier::opaque]
pub open spec fn spec_or8(a: u8, b: u8) -> (u8, u8) {
    let r = a | b;
    (r, spec_flags(r == 0, false, false, false))
}

/// Bitwise XOR: Z from the result, N, H and C cleared.
#[verifier::opaque]
pub open spec fn spec_xor8(a: u8, b: u8) -> (u8, u8) {
    let r = a ^ b;
    (r, spec_flags(r == 0, false, false, false))
}

/// 8-bit increment: Z and H from the result, N cleared, C preserved.
#[verifier::opaque]
pub open spec fn spec_inc8(v: u8, f: u8) -> (u8, u8) {
    let r = wrap8_add(v, 1);
    (r, spec_flags(r == 0, false, (v & 0x0F) == 0x0F, flag_c(f)))
}

/// 8-bit decrement: Z and H from the result, N set, C preserved.
#[verifier::opaque]
pub open spec fn spec_dec8(v: u8, f: u8) -> (u8, u8) {
    let r = wrap8_sub(v, 1);
    (r, spec_flags(r == 0, true, (v & 0x0F) == 0, flag_c(f)))
}

/// ADD HL,rr: H from bit 11, C from bit 15, N cleared, Z preserved.
#[verifier::opaque]
pub open spec fn spec_add16(hl: u16, rr: u16, f: u8) -> (u16, u8) {
    let r = wrap16_add(hl, rr);
    (
        r,
        spec_flags(
            flag_z(f),
            false,
            ((hl as u32) ^ (rr as u32) ^ ((hl + rr) as u32)) & 0x1000 != 0,
            hl + rr > 0xFFFF,
        ),
    )
}

/// An offset byte sign-extended to 16 bits.
#[verifier::opaque]
pub open spec fn sign_extend16(off: u8) -> u16 {
    if off < 0x80 {
        off as u16
    } else {
        (off + 0xFF00) as u16
    }
}

/// SP plus a signed offset: Z and N cleared, H and C from the unsigned
/// low-byte addition at bits 3 and 7.
#[verifier::opaque]
pub open spec fn spec_add_sp(sp: u16, off: u8) -> (u16, u8) {
    let r = wrap16_add(sp, sign_extend16(off));
    (
        r,
        spec_flags(false, false, (sp & 0xF) + (off & 0xF) > 0xF, (sp & 0xFF) + (off & 0xFF) > 0xFF),
    )
}

/// Rotate left around the byte: bit 7 into bit 0 and into carry.
#[verifier::opaque]
pub open spec fn spec_rlc_core(v: u8) -> (u8, bool) {
    (
        (v << 1) | (if spec_bit(v, 7) {
            1u8
        } else {
            0u8
        }),
        spec_bit(v, 7),
    )
}

/// Rotate right around the byte: bit 0 into bit 7 and into carry.
#[verifier::opaque]
pub open spec fn spec_rrc_core(v: u8) -> (u8, bool) {
    (
        (v >> 1) | (if spec_bit(v, 0) {
            0x80u8
        } else {
            0u8
        }),
        spec_bit(v, 0),
    )
}

/// Rotate left through carry: carry into bit 0, bit 7 into carry.
#[verifier::opaque]
pub open spec fn spec_rl_core(v: u8, cin: bool) -> (u8, bool) {
    (
        (v << 1) | (if cin {
            1u8
        } else {
            0u8
        }),
        spec_bit(v, 7),
    )
}

/// Rotate right through carry: carry into bit 7, bit 0 into carry.
#[verifier::opaque]
pub open spec fn spec_rr_core(v: u8, cin: bool) -> (u8, bool) {
    (
        (v >> 1) | (if cin {
            0x80u8
        } else {
            0u8
        }),
        spec_bit(v, 0),
    )
}

/// Shift left arithmetic: zero into bit 0, bit 7 into carry.
#[verifier::opaque]
pub open spec fn spec_sla_core(v: u8) -> (u8, bool) {
    (v << 1, spec_bit(v, 7))
}

/// Shift right arithmetic: bit 7 kept, bit 0 into carry.
#[verifier::opaque]
pub open spec fn spec_sra_core(v: u8) -> (u8, bool) {
    (
        (v >> 1) | (if spec_bit(v, 7) {
            0x80u8
        } else {
            0u8
        }),
        spec_bit(v, 0),
    )
}

/// Shift right logical: zero into bit 7, bit 0 into carry.
#[verifier::opaque]
pub open spec fn spec_srl_core(v: u8) -> (u8, bool) {
    (v >> 1, spec_bit(v, 0))
}

/// Swap the nibbles.
#[verifier::opaque]
pub open spec fn spec_swap8(v: u8) -> u8 {
    (v >> 4) | (v << 4)
}

/// Decimal adjust after BCD arithmetic: the correction is keyed on N,
/// H and C; Z from the final value, H cleared, N preserved, C set when
/// a 0x60 correction was applied.
#[verifier::opaque]
pub open spec fn spec_daa(a: u8, f: u8) -> (u8, u8) {
    let corr0: u8 = (if flag_h(f) {
        0x06u8
    } else {
        0u8
    }) | (if flag_c(f) {
        0x60u8
    } else {
        0u8
    });
    if flag_n(f) {
        let r = wrap8_sub(a, corr0);
        (r, daa_flags(r, corr0, f))
    } else {
        let corr: u8 = corr0 | (if (a & 0x0F) > 9 {
            0x06u8
        } else {
            0u8
        }) | (if a > 0x99 {
            0x60u8
        } else {
            0u8
        });
        let r = wrap8_add(a, corr);
        (r, daa_flags(r, corr, f))
    }
}

/// Flags after DAA: only N survives from the old F.
#[verifier::opaque]
pub open spec fn daa_flags(r: u8, corr: u8, f: u8) -> u8 {
    (f & 0x40) | spec_flags(r == 0, false, false, corr & 0x60 != 0)
}

/// 8-bit addition, executable form.
pub fn alu_add8(a: u8, b: u8) -> (r: (u8, u8))
    ensures
        r == spec_add8(a, b),
{
    proof {
        reveal(spec_add8);
    }
    let v = a.wrapping_add(b);
    (v, flags_u8(v == 0, false, (a ^ b ^ v) & 0x10 != 0, (a as u16) + (b as u16) > 0xFF))
}

/// 8-bit addition with carry, executable form.
pub fn alu_adc8(a: u8, b: u8, cin: bool) -> (r: (u8, u8))
    ensures
        r == spec_adc8(a, b, cin),
{
    proof {
        reveal(spec_adc8);
    }
    let ci: u8 = if cin {
        1
    } else {
        0
    };
    let v = a.wrapping_add(b).wrapping_add(ci);
    proof {
        broadcast use lemma_u8_and_bounds;

    }
    (
        v,
        flags_u8(
            v == 0,
            false,
            (a & 0x0F) + (b & 0x0F) + ci > 0x0F,
            (a as u16) + (b as u16) + (ci as u16) > 0xFF,
        ),
    )
}

/// 8-bit subtraction, executable form.
pub fn alu_sub8(a: u8, b: u8) -> (r: (u8, u8))
    ensures
        r == spec_sub8(a, b),
{
    proof {
        reveal(spec_sub8);
    }
    let v = a.wrapping_sub(b);
    (v, flags_u8(v == 0, true, (a & 0x0F) < (b & 0x0F), a < b))
}

/// 8-bit subtraction with borrow, executable form.
pub fn alu_sbc8(a: u8, b: u8, cin: bool) -> (r: (u8, u8))
    ensures
        r == spec_sbc8(a, b, cin),
{
    proof {
        reveal(spec_sbc8);
    }
    let ci: u8 = if cin {
        1
    } else {
        0
    };
    let v = a.wrapping_sub(b).wrapping_sub(ci);
    proof {
        broadcast use lemma_u8_and_bounds;

    }
    (
        v,
        flags_u8(
            v == 0,
            true,
            (a & 0x0F) < (b & 0x0F) + ci,
            (a as u16) < (b as u16) + (ci as u16),
        ),
    )
}

/// Comparison, executable form: flags only.
pub fn alu_cp8(a: u8, b: u8) -> (r: u8)
    ensures
        r == spec_cp8(a, b),
{
    proof {
        reveal(spec_cp8);
    }
    let v = a.wrapping_sub(b);
    flags_u8(v == 0, true, (a ^ b ^ v) & 0x10 != 0, a < b)
}

/// AND, executable form.
pub fn alu_and8(a: u8, b: u8) -> (r: (u8, u8))
    ensures
        r == spec_and8(a, b),
{
    proof {
        reveal(spec_and8);
    }
    let v = a & b;
    (v, flags_u8(v == 0, false, true, false))
}

/// OR, executable form.
pub fn alu_or8(a: u8, b: u8) -> (r: (u8, u8))
    ensures
        r == spec_or8(a, b),
{
    proof {
        reveal(spec_or8);
    }
    let v = a | b;
    (v, flags_u8(v == 0, false, false, false))
}

/// XOR, executable form.
pub fn alu_xor8(a: u8, b: u8) -> (r: (u8, u8))
    ensures
        r == spec_xor8(a, b),
{
    proof {
        reveal(spec_xor8);
    }
    let v = a ^ b;
    (v, flags_u8(v == 0, false, false, false))
}

/// Increment, executable form.
pub fn alu_inc8(v: u8, f: u8) -> (r: (u8, u8))
    ensures
        r == spec_inc8(v, f),
{
    proof {
        reveal(spec_inc8);
    }
    let n = v.wrapping_add(1);
    (n, flags_u8(n == 0, false, (v & 0x0F) == 0x0F, is_flag_c(f)))
}

/// Decrement, executable form.
pub fn alu_dec8(v: u8, f: u8) -> (r: (u8, u8))
    ensures
        r == spec_dec8(v, f),
{
    proof {
        reveal(spec_dec8);
    }
    let n = v.wrapping_sub(1);
    (n, flags_u8(n == 0, true, (v & 0x0F) == 0, is_flag_c(f)))
}

/// ADD HL,rr, executable form.
pub fn alu_add16(hl: u16, rr: u16, f: u8) -> (r: (u16, u8))
    ensures
        r == spec_add16(hl, rr, f),
{
    proof {
        reveal(spec_add16);
    }
    let sum: u32 = (hl as u32) + (rr as u32);
    let v = hl.wrapping_add(rr);
    (
        v,
        flags_u8(
            is_flag_z(f),
            false,
            ((hl as u32) ^ (rr as u32) ^ sum) & 0x1000 != 0,
            sum > 0xFFFF,
        ),
    )
}

/// Sign extension of an offset byte, executable form.
pub fn sign_extend16_exec(off: u8) -> (r: u16)
    ensures
        r == sign_extend16(off),
{
    proof {
        reveal(sign_extend16);
    }
    if off < 0x80 {
        off as u16
    } else {
        (off as u16) + 0xFF00
    }
}

/// SP plus signed offset, executable form.
pub fn alu_add_sp(sp: u16, off: u8) -> (r: (u16, u8))
    ensures
        r == spec_add_sp(sp, off),
{
    proof {
        reveal(spec_add_sp);
        reveal(sign_extend16);
    }
    let v = sp.wrapping_add(sign_extend16_exec(off));
    proof {
        broadcast use lemma_u8_and_bounds;
        broadcast use lemma_u16_and_bounds;

    }
    (
        v,
        flags_u8(
            false,
            false,
            (sp & 0xF) + ((off & 0xF) as u16) > 0xF,
            (sp & 0xFF) + ((off & 0xFF) as u16) > 0xFF,
        ),
    )
}

/// Carry flag of F, executable form.
pub fn is_flag_c(f: u8) -> (r: bool)
    ensures
        r == flag_c(f),
{
    crate::bits::is_bit_set(f, 4)
}

/// Zero flag of F, executable form.
pub fn is_flag_z(f: u8) -> (r: bool)
    ensures
        r == flag_z(f),
{
    crate::bits::is_bit_set(f, 7)
}

/// Subtract flag of F, executable form.
pub fn is_flag_n(f: u8) -> (r: bool)
    ensures
        r == flag_n(f),
{
    crate::bits::is_bit_set(f, 6)
}

/// Half-carry flag of F, executable form.
pub fn is_flag_h(f: u8) -> (r: bool)
    ensures
        r == flag_h(f),
{
    crate::bits::is_bit_set(f, 5)
}

/// DAA, executable form.
pub fn alu_daa(a: u8, f: u8) -> (r: (u8, u8))
    ensures
        r == spec_daa(a, f),
{
    proof {
        reveal(spec_daa);
    }
    let corr0: u8 = (if is_flag_h(f) {
        0x06u8
    } else {
        0u8
    }) | (if is_flag_c(f) {
        0x60u8
    } else {
        0u8
    });
    if is_flag_n(f) {
        let v = a.wrapping_sub(corr0);
        (v, daa_flags_exec(v, corr0, f))
    } else {
        let corr: u8 = corr0 | (if (a & 0x0F) > 9 {
            0x06u8
        } else {
            0u8
        }) | (if a > 0x99 {
            0x60u8
        } else {
            0u8
        });
        let v = a.wrapping_add(corr);
        (v, daa_flags_exec(v, corr, f))
    }
}

/// Flags after DAA, executable form.
fn daa_flags_exec(r: u8, corr: u8, f: u8) -> (out: u8)
    ensures
        out == daa_flags(r, corr, f),
{
    proof {
        reveal(daa_flags);
    }
    (f & 0x40) | flags_u8(r == 0, false, false, corr & 0x60 != 0)
}


/// Rotate left around the byte, executable form.
pub fn alu_rlc(v: u8) -> (r: (u8, bool))
    ensures
        r == spec_rlc_core(v),
{
    proof {
        reveal(spec_rlc_core);
    }
    let c = crate::bits::is_bit_set(v, 7);
    (
        (v << 1u8) | (if c {
            1u8
        } else {
            0u8
        }),
        c,
    )
}

/// Rotate right around the byte, executable form.
pub fn alu_rrc(v: u8) -> (r: (u8, bool))
    ensures
        r == spec_rrc_core(v),
{
    proof {
        reveal(spec_rrc_core);
    }
    let c = crate::bits::is_bit_set(v, 0);
    (
        (v >> 1u8) | (if c {
            0x80u8
        } else {
            0u8
        }),
        c,
    )
}

/// Rotate left through carry, executable form.
pub fn alu_rl(v: u8, cin: bool) -> (r: (u8, bool))
    ensures
        r == spec_rl_core(v, cin),
{
    proof {
        reveal(spec_rl_core);
    }
    (
        (v << 1u8) | (if cin {
            1u8
        } else {
            0u8
        }),
        crate::bits::is_bit_set(v, 7),
    )
}

/// Rotate right through carry, executable form.
pub fn alu_rr(v: u8, cin: bool) -> (r: (u8, bool))
    ensures
        r == spec_rr_core(v, cin),
{
    proof {
        reveal(spec_rr_core);
    }
    (
        (v >> 1u8) | (if cin {
            0x80u8
        } else {
            0u8
        }),
        crate::bits::is_bit_set(v, 0),
    )
}

/// Shift left arithmetic, executable form.
pub fn alu_sla(v: u8) -> (r: (u8, bool))
    ensures
        r == spec_sla_core(v),
{
    proof {
        reveal(spec_sla_core);
    }
    (v << 1u8, crate::bits::is_bit_set(v, 7))
}

/// Shift right arithmetic, executable form.
pub fn alu_sra(v: u8) -> (r: (u8, bool))
    ensures
        r == spec_sra_core(v),
{
    proof {
        reveal(spec_sra_core);
    }
    let b7 = crate::bits::is_bit_set(v, 7);
    (
        (v >> 1u8) | (if b7 {
            0x80u8
        } else {
            0u8
        }),
        crate::bits::is_bit_set(v, 0),
    )
}

/// Shift right logical, executable form.
pub fn alu_srl(v: u8) -> (r: (u8, bool))
    ensures
        r == spec_srl_core(v),
{
    proof {
        reveal(spec_srl_core);
    }
    (v >> 1u8, crate::bits::is_bit_set(v, 0))
}

/// Swap the nibbles, executable form.
pub fn alu_swap(v: u8) -> (r: u8)
    ensures
        r == spec_swap8(v),
{
    proof {
        reveal(spec_swap8);
    }
    (v >> 4u8) | (v << 4u8)
}

} // verus!
