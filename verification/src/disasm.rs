//! Static decoding aids: a ROM listing for use as an oracle in
//! testing, and the header fields a cartridge declares.

use vstd::prelude::*;

use crate::cartridge::{cart_inv, cart_rom_spec, Cartridge};
use crate::globals::{
    opcode_length, spec_opcode_length, CART_CBG_FLAG, CART_DESTINATION_CODE, CART_GLOBAL_CHECKSUM_END,
    CART_GLOBAL_CHECKSUM_START, CART_HEADER_CHECKSUM, CART_OLD_LICENSEE_CODE, CART_ROM_SIZE,
    CART_SGB_FLAG, CART_SRAM_SIZE, CART_TITLE_END, CART_TITLE_START, CART_TYPE, ROM_BANK_SIZE,
};
use crate::utils::{calculate_checksum_range, spec_checksum};

verus! {

/// One decoded instruction of a ROM listing.
pub struct DisasmEntry {
    /// 16 KiB bank the instruction sits in.
    pub bank: usize,
    /// Physical ROM offset of the opcode byte.
    pub address: usize,
    /// The opcode byte; for a prefixed instruction, the byte after 0xCB.
    pub opcode: u8,
    /// Immediate operand, when the encoding carries one.
    pub value: u16,
    /// Whether the instruction came from the CB-prefixed table.
    pub cb: bool,
    /// Total byte count of the instruction.
    pub length: u8,
}

/// The opcode byte an entry names sits at its address, one byte in for
/// prefixed instructions.
pub open spec fn entry_decodes(e: DisasmEntry, rom: Seq<u8>) -> bool {
    &&& e.address < rom.len()
    &&& (if e.cb {
        e.address + 1 < rom.len() && e.opcode == rom[e.address + 1] && rom[e.address as int]
            == 0xCB
    } else {
        e.opcode == rom[e.address as int]
    })
}

/// The listing the decoder produces from position `i` of a ROM on:
/// NOP padding is skipped, a 0xCB prefix yields one entry naming the
/// byte after it, and other opcodes carry their immediate bytes
/// little-endian; an instruction truncated by the end of the image is
/// listed as a bare opcode.
pub open spec fn spec_disasm_from(rom: Seq<u8>, i: int) -> Seq<DisasmEntry>
    decreases rom.len() + 3 - i,
{
    if i < 0 || i >= rom.len() {
        Seq::empty()
    } else {
        let op = rom[i];
        let bank = ((i / (ROM_BANK_SIZE as int)) as usize);
        if op == 0x00 {
            spec_disasm_from(rom, i + 1)
        } else if op == 0xCB {
            if i + 1 < rom.len() {
                seq![
                    DisasmEntry {
                        bank,
                        address: i as usize,
                        opcode: rom[i + 1],
                        value: 0,
                        cb: true,
                        length: 2,
                    },
                ] + spec_disasm_from(rom, i + 2)
            } else {
                spec_disasm_from(rom, i + 2)
            }
        } else {
            let len = spec_opcode_length(op);
            if len == 2 && i + 1 < rom.len() {
                seq![
                    DisasmEntry {
                        bank,
                        address: i as usize,
                        opcode: op,
                        value: rom[i + 1] as u16,
                        cb: false,
                        length: 2,
                    },
                ] + spec_disasm_from(rom, i + 2)
            } else if len == 3 && i + 2 < rom.len() {
                seq![
                    DisasmEntry {
                        bank,
                        address: i as usize,
                        opcode: op,
                        value: crate::alu::combine16(rom[i + 2], rom[i + 1]),
                        cb: false,
                        length: 3,
                    },
                ] + spec_disasm_from(rom, i + 3)
            } else {
                seq![
                    DisasmEntry {
                        bank,
                        address: i as usize,
                        opcode: op,
                        value: 0,
                        cb: false,
                        length: 1,
                    },
                ] + spec_disasm_from(rom, i + 1)
            }
        }
    }
}

/// The full listing of a ROM image.
pub open spec fn spec_disasm(rom: Seq<u8>) -> Seq<DisasmEntry> {
    spec_disasm_from(rom, 0)
}

/// Decode a real mapper's ROM into a listing: exactly the entries of
/// `spec_disasm`, in order, and every entry decodes at its address.
#[verifier::rlimit(100)]
#[verifier::spinoff_prover]
pub fn disassemble(cart: &Cartridge) -> (r: Vec<DisasmEntry>)
    requires
        cart_inv(cart@),
        (cart@ is Mbc0) || (cart@ is Mbc1),
    ensures
        r@ == spec_disasm(cart_rom_spec(cart@)),
        forall|i: int|
            0 <= i < r@.len() ==> entry_decodes(#[trigger] r@[i], cart_rom_spec(cart@)),
{
    let rom = cart.rom();
    let mut out: Vec<DisasmEntry> = Vec::new();
    let mut i: usize = 0;
    proof {
        assert(out@ + spec_disasm_from(rom@, 0) =~= spec_disasm_from(rom@, 0));
    }
    while i < rom.len()
        invariant
            rom@ == cart_rom_spec(cart@),
            rom@.len() <= 0x200000,
            out@ + spec_disasm_from(rom@, i as int) == spec_disasm_from(rom@, 0),
            forall|k: int| 0 <= k < out@.len() ==> entry_decodes(#[trigger] out@[k], rom@),
        decreases rom@.len() + 3 - i,
    {
        let ghost out0 = out@;
        let bank = i / ROM_BANK_SIZE;
        let op = rom[i];
        if op == 0x00 {
            i = i + 1;
        } else if op == 0xCB {
            if i + 1 < rom.len() {
                let cb_op = rom[i + 1];
                let e = DisasmEntry {
                    bank,
                    address: i,
                    opcode: cb_op,
                    value: 0,
                    cb: true,
                    length: 2,
                };
                out.push(e);
                proof {
                    assert(out@ =~= out0 + seq![e]);
                    assert((out0 + seq![e]) + spec_disasm_from(rom@, i + 2) =~= out0 + (seq![e]
                        + spec_disasm_from(rom@, i + 2)));
                }
            }
            i = i + 2;
        } else {
            let len = opcode_length(op);
            if len == 2 && i + 1 < rom.len() {
                let e = DisasmEntry {
                    bank,
                    address: i,
                    opcode: op,
                    value: rom[i + 1] as u16,
                    cb: false,
                    length: 2,
                };
                out.push(e);
                proof {
                    assert(out@ =~= out0 + seq![e]);
                    assert((out0 + seq![e]) + spec_disasm_from(rom@, i + 2) =~= out0 + (seq![e]
                        + spec_disasm_from(rom@, i + 2)));
                }
                i = i + 2;
            } else if len == 3 && i + 2 < rom.len() {
                let lo = rom[i + 1];
                let hi = rom[i + 2];
                let e = DisasmEntry {
                    bank,
                    address: i,
                    opcode: op,
                    value: crate::alu::combine16_exec(hi, lo),
                    cb: false,
                    length: 3,
                };
                out.push(e);
                proof {
                    assert(out@ =~= out0 + seq![e]);
                    assert((out0 + seq![e]) + spec_disasm_from(rom@, i + 3) =~= out0 + (seq![e]
                        + spec_disasm_from(rom@, i + 3)));
                }
                i = i + 3;
            } else {
                let e = DisasmEntry {
                    bank,
                    address: i,
                    opcode: op,
                    value: 0,
                    cb: false,
                    length: 1,
                };
                out.push(e);
                proof {
                    assert(out@ =~= out0 + seq![e]);
                    assert((out0 + seq![e]) + spec_disasm_from(rom@, i + 1) =~= out0 + (seq![e]
                        + spec_disasm_from(rom@, i + 1)));
                }
                i = i + 1;
            }
        }
    }
    proof {
        assert(out@ + spec_disasm_from(rom@, i as int) =~= out@);
    }
    out
}

/// The header fields of a cartridge, as plain values.
pub struct CartMetadata {
    /// Title bytes, raw from the header.
    pub title: Vec<u8>,
    pub cgb_flag: u8,
    pub sgb_flag: u8,
    pub cart_type: u8,
    pub rom_size_code: u8,
    pub ram_size_code: u8,
    pub destination_code: u8,
    pub old_licensee_code: u8,
    pub header_checksum: u8,
    pub computed_checksum: u8,
    pub checksum_valid: bool,
    pub global_checksum: u16,
}

/// Read the header fields of a real mapper's ROM, and validate the
/// header checksum over 0x0134..=0x014C.
pub fn get_metadata(cart: &Cartridge) -> (r: CartMetadata)
    requires
        cart_inv(cart@),
        (cart@ is Mbc0) || (cart@ is Mbc1),
    ensures
        ({
            let rom = cart_rom_spec(cart@);
            &&& r.cgb_flag == rom[CART_CBG_FLAG as int]
            &&& r.sgb_flag == rom[CART_SGB_FLAG as int]
            &&& r.cart_type == rom[CART_TYPE as int]
            &&& r.rom_size_code == rom[CART_ROM_SIZE as int]
            &&& r.ram_size_code == rom[CART_SRAM_SIZE as int]
            &&& r.destination_code == rom[CART_DESTINATION_CODE as int]
            &&& r.old_licensee_code == rom[CART_OLD_LICENSEE_CODE as int]
            &&& r.header_checksum == rom[CART_HEADER_CHECKSUM as int]
            &&& r.computed_checksum == spec_checksum(
                rom.subrange(CART_TITLE_START as int, CART_HEADER_CHECKSUM as int),
            )
            &&& r.checksum_valid == (r.computed_checksum == r.header_checksum)
            &&& r.global_checksum == crate::alu::combine16(
                rom[CART_GLOBAL_CHECKSUM_START as int],
                rom[CART_GLOBAL_CHECKSUM_END as int],
            )
            &&& r.title@ == rom.subrange(CART_TITLE_START as int, CART_TITLE_END as int)
        }),
{
    let rom = cart.rom();
    proof {
        assert(rom@.len() >= 0x8000);
    }
    let mut title: Vec<u8> = Vec::new();
    let mut i: usize = CART_TITLE_START as usize;
    while i < CART_TITLE_END as usize
        invariant
            0x0134 <= i <= 0x0142,
            rom@ == cart_rom_spec(cart@),
            rom@.len() >= 0x8000,
            title@ == rom@.subrange(0x0134, i as int),
        decreases 0x0142 - i,
    {
        title.push(rom[i]);
        i = i + 1;
        proof {
            assert(title@ =~= rom@.subrange(0x0134, i as int));
        }
    }
    let computed = calculate_checksum_range(
        rom,
        CART_TITLE_START as usize,
        CART_HEADER_CHECKSUM as usize,
    );
    let header_checksum = rom[CART_HEADER_CHECKSUM as usize];
    CartMetadata {
        title,
        cgb_flag: rom[CART_CBG_FLAG as usize],
        sgb_flag: rom[CART_SGB_FLAG as usize],
        cart_type: rom[CART_TYPE as usize],
        rom_size_code: rom[CART_ROM_SIZE as usize],
        ram_size_code: rom[CART_SRAM_SIZE as usize],
        destination_code: rom[CART_DESTINATION_CODE as usize],
        old_licensee_code: rom[CART_OLD_LICENSEE_CODE as usize],
        header_checksum,
        computed_checksum: computed,
        checksum_valid: computed == header_checksum,
        global_checksum: crate::alu::combine16_exec(
            rom[CART_GLOBAL_CHECKSUM_START as usize],
            rom[CART_GLOBAL_CHECKSUM_END as usize],
        ),
    }
}

} // verus!
