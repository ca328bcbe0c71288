//! Header checksum, interrupt vector lookup, physical address helpers,
//! and a binary rendering of the flag register.

use vstd::prelude::*;

use crate::bits::{is_bit_set, spec_bit};
use crate::globals::{
    INTR_HIGH_TO_LOW, INTR_LCD_STAT, INTR_SERIAL, INTR_TIMER, INTR_VBLANK, RAM_BANK_SIZE,
    ROM_BANK_SIZE,
};

verus! {

/// Sum of `x` and `y` modulo 256.
pub open spec fn wrap8_add(x: u8, y: u8) -> u8 {
    vstd::wrapping::u8_specs::wrapping_add(x, y)
}

/// Difference of `x` and `y` modulo 256.
pub open spec fn wrap8_sub(x: u8, y: u8) -> u8 {
    vstd::wrapping::u8_specs::wrapping_sub(x, y)
}

/// Sum of `x` and `y` modulo 2^16.
pub open spec fn wrap16_add(x: u16, y: u16) -> u16 {
    vstd::wrapping::u16_specs::wrapping_add(x, y)
}

/// Difference of `x` and `y` modulo 2^16.
pub open spec fn wrap16_sub(x: u16, y: u16) -> u16 {
    vstd::wrapping::u16_specs::wrapping_sub(x, y)
}

/// Running value of the header checksum over `s`: starting from 0,
/// each byte plus one is subtracted, all modulo 256.
pub open spec fn spec_checksum_acc(s: Seq<u8>) -> u8
    decreases s.len(),
{
    if s.len() == 0 {
        0
    } else {
        wrap8_sub(spec_checksum_acc(s.drop_last()), wrap8_add(s.last(), 1))
    }
}

/// Header checksum of `s`: the running value, minus one more.
pub open spec fn spec_checksum(s: Seq<u8>) -> u8 {
    wrap8_sub(spec_checksum_acc(s), 1)
}

/// Checksum over `mem[start..end]`, as the cartridge header defines it.
pub fn calculate_checksum_range(mem: &Vec<u8>, start: usize, end: usize) -> (r: u8)
    requires
        start <= end <= mem.len(),
    ensures
        r == spec_checksum(mem@.subrange(start as int, end as int)),
{
    let mut acc: u8 = 0;
    let mut i: usize = start;
    while i < end
        invariant
            start <= i <= end <= mem.len(),
            acc == spec_checksum_acc(mem@.subrange(start as int, i as int)),
        decreases end - i,
    {
        let y = mem[i].wrapping_add(1);
        acc = acc.wrapping_sub(y);
        i = i + 1;
        proof {
            assert(mem@.subrange(start as int, i as int).drop_last() =~= mem@.subrange(
                start as int,
                i - 1,
            ));
        }
    }
    proof {
        assert(mem@.subrange(start as int, end as int) == mem@.subrange(
            start as int,
            end as int,
        ));
    }
    acc.wrapping_sub(1)
}

/// Checksum of a whole byte vector.
pub fn calculate_checksum(mem: &Vec<u8>) -> (r: u8)
    ensures
        r == spec_checksum(mem@),
{
    let r = calculate_checksum_range(mem, 0, mem.len());
    proof {
        assert(mem@.subrange(0, mem@.len() as int) =~= mem@);
    }
    r
}

/// Service vector of interrupt bit `val`.
pub open spec fn spec_interrupt_vector(val: u8) -> u16 {
    match val {
        0 => INTR_VBLANK,
        1 => INTR_LCD_STAT,
        2 => INTR_TIMER,
        3 => INTR_SERIAL,
        _ => INTR_HIGH_TO_LOW,
    }
}

/// Service vector of interrupt bit `val`; only the five defined
/// interrupts have one.
pub fn interrupt_address(val: u8) -> (r: u16)
    requires
        val < 5,
    ensures
        r == spec_interrupt_vector(val),
{
    match val {
        0 => INTR_VBLANK,
        1 => INTR_LCD_STAT,
        2 => INTR_TIMER,
        3 => INTR_SERIAL,
        _ => INTR_HIGH_TO_LOW,
    }
}

/// Physical ROM offset of `address` within 16 KiB bank `bank`.
pub fn rom_absolute_address(bank: usize, address: usize) -> (r: usize)
    requires
        bank < 0x200,
        address <= 0xFFFF,
    ensures
        r == bank * ROM_BANK_SIZE + address,
{
    bank * ROM_BANK_SIZE + address
}

/// Physical SRAM offset of `address` within 8 KiB bank `bank`.
pub fn ram_absolute_address(bank: usize, address: usize) -> (r: usize)
    requires
        bank < 0x200,
        address <= 0xFFFF,
    ensures
        r == bank * RAM_BANK_SIZE + address,
{
    bank * RAM_BANK_SIZE + address
}

/// The character '1' where bit `i` of `v` is set, else '0'.
pub open spec fn spec_bit_char(v: u8, i: u8) -> char {
    if spec_bit(v, i) {
        '1'
    } else {
        '0'
    }
}

/// The rendering `format_binary` produces: `0b`, the high nibble,
/// an underscore, the low nibble.
pub open spec fn spec_format_binary(v: u8) -> Seq<char> {
    seq![
        '0',
        'b',
        spec_bit_char(v, 7),
        spec_bit_char(v, 6),
        spec_bit_char(v, 5),
        spec_bit_char(v, 4),
        '_',
        spec_bit_char(v, 3),
        spec_bit_char(v, 2),
        spec_bit_char(v, 1),
        spec_bit_char(v, 0),
    ]
}

/// Render a byte as binary with the nibbles separated, e.g. 0b1011_0000.
pub fn format_binary(value: u8) -> (r: String)
    ensures
        r@ == spec_format_binary(value),
{
    proof {
        reveal_strlit("0b");
        reveal_strlit("_");
        reveal_strlit("0");
        reveal_strlit("1");
    }
    let mut s = String::from_str("0b");
    append_bit_char(&mut s, value, 7);
    append_bit_char(&mut s, value, 6);
    append_bit_char(&mut s, value, 5);
    append_bit_char(&mut s, value, 4);
    s.append("_");
    append_bit_char(&mut s, value, 3);
    append_bit_char(&mut s, value, 2);
    append_bit_char(&mut s, value, 1);
    append_bit_char(&mut s, value, 0);
    proof {
        assert(s@ =~= spec_format_binary(value));
    }
    s
}

/// Append '1' or '0' for bit `i` of `v`.
fn append_bit_char(s: &mut String, v: u8, i: u8)
    requires
        i < 8,
    ensures
        final(s)@ == old(s)@ + seq![spec_bit_char(v, i)],
{
    proof {
        reveal_strlit("0");
        reveal_strlit("1");
    }
    if is_bit_set(v, i) {
        s.append("1");
        proof {
            assert(old(s)@ + "1"@ =~= old(s)@ + seq![spec_bit_char(v, i)]);
        }
    } else {
        s.append("0");
        proof {
            assert(old(s)@ + "0"@ =~= old(s)@ + seq![spec_bit_char(v, i)]);
        }
    }
}

} // verus!
