//! Shared constants of the machine: address map, header offsets, timer
//! rates, flag bit positions, interrupt vectors, and the opcode length
//! table that the fetch stage consults.

use vstd::prelude::*;

verus! {

/// Cycle cost of one machine step, as returned by opcode handlers.
pub type OpCycles = u64;

pub const ROM_MAX_BANKS_MBC0: usize = 2;

pub const ROM_MAX_BANKS_MBC1: usize = 128;

pub const ROM_BANK_SIZE: usize = 0x4000;

pub const RAM_MAX_BANKS_MBC1: usize = 4;

pub const RAM_BANK_SIZE: usize = 0x2000;

pub const CYCLE_RETURN_4: OpCycles = 4;

pub const CYCLE_RETURN_8: OpCycles = 8;

pub const CYCLE_RETURN_12: OpCycles = 12;

pub const CYCLE_RETURN_16: OpCycles = 16;

pub const CYCLE_RETURN_20: OpCycles = 20;

pub const CYCLE_RETURN_24: OpCycles = 24;

/// Zero flag lives in bit 7 of F.
pub const BIT_FLAGZ: u8 = 7;

/// Subtract flag lives in bit 6 of F.
pub const BIT_FLAGN: u8 = 6;

/// Half-carry flag lives in bit 5 of F.
pub const BIT_FLAGH: u8 = 5;

/// Carry flag lives in bit 4 of F.
pub const BIT_FLAGC: u8 = 4;

pub const ROM_ADDRESS_START: u16 = 0x0000;

pub const ROM_ADDRESS_END: u16 = 0x3FFF;

pub const ROM1_ADDRESS_START: u16 = 0x4000;

pub const ROM1_ADDRESS_END: u16 = 0x7FFF;

pub const VRAM_ADDRESS_START: u16 = 0x8000;

pub const VRAM_ADDRESS_END: u16 = 0x9FFF;

pub const EXTERNAL_RAM_ADDRESS_START: u16 = 0xA000;

pub const EXTERNAL_RAM_ADDRESS_END: u16 = 0xBFFF;

pub const WRAM_ADDRESS_START: u16 = 0xC000;

pub const WRAM_ADDRESS_END: u16 = 0xCFFF;

pub const WRAM1_ADDRESS_START: u16 = 0xD000;

pub const WRAM1_ADDRESS_END: u16 = 0xDFFF;

/// Echo RAM mirrors 0xC000..=0xDDFF.
pub const ECHO_RAM_ADDRESS_START: u16 = 0xE000;

pub const ECHO_RAM_ADDRESS_END: u16 = 0xFDFF;

pub const OAM_ADDRESS_START: u16 = 0xFE00;

pub const OAM_ADDRESS_END: u16 = 0xFE9F;

pub const IO_ADDRESS_START: u16 = 0xFF00;

pub const IO_ADDRESS_END: u16 = 0xFF7F;

pub const HRAM_ADDRESS_START: u16 = 0xFF80;

pub const HRAM_ADDRESS_END: u16 = 0xFFFE;

pub const INTERRUPT_ENABLE_ADDRESS: u16 = 0xFFFF;

pub const CART_HEADER_START: u16 = 0x0100;

pub const CART_HEADER_END: u16 = 0x014F;

pub const CART_TITLE_START: u16 = 0x0134;

pub const CART_TITLE_END: u16 = 0x0142;

/// 0x80 means the game also runs on CGB, 0xC0 means CGB only.
pub const CART_CBG_FLAG: u16 = 0x0143;

pub const CART_SGB_FLAG: u16 = 0x0146;

pub const CART_TYPE: u16 = 0x0147;

pub const CART_ROM_SIZE: u16 = 0x0148;

pub const CART_SRAM_SIZE: u16 = 0x0149;

pub const CART_DESTINATION_CODE: u16 = 0x014A;

pub const CART_OLD_LICENSEE_CODE: u16 = 0x014B;

pub const CART_MASK_ROM_VERSION_NUMBER: u16 = 0x014C;

pub const CART_HEADER_CHECKSUM: u16 = 0x014D;

pub const CART_GLOBAL_CHECKSUM_START: u16 = 0x014E;

pub const CART_GLOBAL_CHECKSUM_END: u16 = 0x014F;

pub const CART_MBC0_ID: u8 = 0x00;

pub const CART_MBC1_ID: u8 = 0x01;

/// Joypad register.
pub const IO_P1_JOYP: u16 = 0xFF00;

/// Serial transfer data.
pub const IO_SB: u16 = 0xFF01;

/// Serial transfer control.
pub const IO_SC: u16 = 0xFF02;

/// Divider register.
pub const IO_DIV: u16 = 0xFF04;

/// Timer counter.
pub const IO_TIMA: u16 = 0xFF05;

/// Timer modulo.
pub const IO_TMA: u16 = 0xFF06;

/// Timer control.
pub const IO_TAC: u16 = 0xFF07;

/// Interrupt flag (pending) register.
pub const IO_IF: u16 = 0xFF0F;

/// LCD Y coordinate, stubbed because the core has no pixel unit.
pub const IO_LY: u16 = 0xFF44;

/// CGB speed-switch preparation register.
pub const IO_KEY1: u16 = 0xFF4D;

/// Main clock of the DMG in Hz.
pub const DMG_CLOCK_SPEED: u64 = 4194304;

/// DIV increment rate in Hz.
pub const GB_TIMER_FREQ: u64 = 16384;

/// Bit positions in IF and IE, in priority order.
pub const INTR_VBLANK_POS: u8 = 0;

pub const INTR_LCD_STAT_POS: u8 = 1;

pub const INTR_TIMER_POS: u8 = 2;

pub const INTR_SERIAL_POS: u8 = 3;

pub const INTR_HIGH_TO_LOW_POS: u8 = 4;

/// Fixed service vectors, same order as the bit positions.
pub const INTR_VBLANK: u16 = 0x0040;

pub const INTR_LCD_STAT: u16 = 0x0048;

pub const INTR_TIMER: u16 = 0x0050;

pub const INTR_SERIAL: u16 = 0x0058;

pub const INTR_HIGH_TO_LOW: u16 = 0x0060;

/// Byte count of an instruction (opcode plus operands); 0 marks the
/// eleven encodings the SM83 does not define.
pub open spec fn spec_opcode_length(op: u8) -> u8 {
    match op {
        0x01 | 0x08 | 0x11 | 0x21 | 0x31 => 3,
        0xC2 | 0xC3 | 0xC4 | 0xCA | 0xCC | 0xCD => 3,
        0xD2 | 0xD4 | 0xDA | 0xDC | 0xEA | 0xFA => 3,
        0x06 | 0x0E | 0x16 | 0x1E | 0x26 | 0x2E | 0x36 | 0x3E => 2,
        0x18 | 0x20 | 0x28 | 0x30 | 0x38 => 2,
        0xC6 | 0xCE | 0xD6 | 0xDE | 0xE6 | 0xEE | 0xF6 | 0xFE => 2,
        0xE0 | 0xE8 | 0xF0 | 0xF8 => 2,
        0xD3 | 0xDB | 0xDD | 0xE3 | 0xE4 | 0xEB | 0xEC | 0xED | 0xF4 | 0xFC | 0xFD => 0,
        _ => 1,
    }
}

/// Runtime form of the length table.
pub fn opcode_length(op: u8) -> (r: u8)
    ensures
        r == spec_opcode_length(op),
{
    match op {
        0x01 | 0x08 | 0x11 | 0x21 | 0x31 => 3,
        0xC2 | 0xC3 | 0xC4 | 0xCA | 0xCC | 0xCD => 3,
        0xD2 | 0xD4 | 0xDA | 0xDC | 0xEA | 0xFA => 3,
        0x06 | 0x0E | 0x16 | 0x1E | 0x26 | 0x2E | 0x36 | 0x3E => 2,
        0x18 | 0x20 | 0x28 | 0x30 | 0x38 => 2,
        0xC6 | 0xCE | 0xD6 | 0xDE | 0xE6 | 0xEE | 0xF6 | 0xFE => 2,
        0xE0 | 0xE8 | 0xF0 | 0xF8 => 2,
        0xD3 | 0xDB | 0xDD | 0xE3 | 0xE4 | 0xEB | 0xEC | 0xED | 0xF4 | 0xFC | 0xFD => 0,
        _ => 1,
    }
}

/// The eleven opcode bytes the SM83 leaves undefined.
pub open spec fn spec_is_illegal_opcode(op: u8) -> bool {
    op == 0xD3 || op == 0xDB || op == 0xDD || op == 0xE3 || op == 0xE4 || op == 0xEB || op
        == 0xEC || op == 0xED || op == 0xF4 || op == 0xFC || op == 0xFD
}

/// Runtime form of the illegal-opcode test.
pub fn is_illegal_opcode(op: u8) -> (r: bool)
    ensures
        r == spec_is_illegal_opcode(op),
{
    match op {
        0xD3 | 0xDB | 0xDD | 0xE3 | 0xE4 | 0xEB | 0xEC | 0xED | 0xF4 | 0xFC | 0xFD => true,
        _ => false,
    }
}

/// An encoding is illegal exactly when the length table holds 0 for it.
pub proof fn lemma_illegal_iff_length_zero(op: u8)
    ensures
        spec_is_illegal_opcode(op) <==> spec_opcode_length(op) == 0,
{
}

/// Human-readable CGB support flag, from the byte at 0x0143.
pub fn cbg_flag_map(value: u8) -> (r: &'static str)
    ensures
        value == 0x80 ==> r@ == "CGB/GB"@,
        value == 0xC0 ==> r@ == "CGB only"@,
        value != 0x80 && value != 0xC0 ==> r@ == "GB"@,
{
    match value {
        0x80 => "CGB/GB",
        0xC0 => "CGB only",
        _ => "GB",
    }
}

/// Human-readable cartridge type, from the byte at 0x0147.
pub fn cart_type_map(value: u8) -> (r: &'static str)
    ensures
        value == 0x00 ==> r@ == "ROM ONLY"@,
        value == 0x01 ==> r@ == "MBC1"@,
        value == 0x02 ==> r@ == "MBC1+RAM"@,
        value == 0x03 ==> r@ == "MBC1+RAM+BATTERY"@,
        value == 0x05 ==> r@ == "MBC2"@,
        value == 0x06 ==> r@ == "MBC2+BATTERY"@,
        value == 0x08 ==> r@ == "ROM+RAM"@,
        value == 0x09 ==> r@ == "ROM+RAM+BATTERY"@,
        value == 0x0B ==> r@ == "MMM01"@,
        value == 0x0C ==> r@ == "MMM01+RAM"@,
        value == 0x0D ==> r@ == "MMM01+RAM+BATTERY"@,
        value == 0x0F ==> r@ == "MBC3+TIMER+BATTERY"@,
        value == 0x10 ==> r@ == "MBC3+TIMER+RAM+BATTERY"@,
        value == 0x11 ==> r@ == "MBC3"@,
        value == 0x12 ==> r@ == "MBC3+RAM"@,
        value == 0x13 ==> r@ == "MBC3+RAM+BATTERY"@,
        value == 0x19 ==> r@ == "MBC5"@,
        value == 0x1A ==> r@ == "MBC5+RAM"@,
        value == 0x1B ==> r@ == "MBC5+RAM+BATTERY"@,
        value == 0x1C ==> r@ == "MBC5+RUMBLE"@,
        value == 0x1D ==> r@ == "MBC5+RUMBLE+RAM"@,
        value == 0x1E ==> r@ == "MBC5+RUMBLE+RAM+BATTERY"@,
        value == 0x20 ==> r@ == "MBC6"@,
        value == 0x22 ==> r@ == "MBC7+SENSOR+RUMBLE+RAM+BATTERY"@,
        value == 0xFC ==> r@ == "POCKET CAMERA"@,
        value == 0xFD ==> r@ == "BANDAI TAMA5"@,
        value == 0xFE ==> r@ == "HuC3"@,
        value == 0xFF ==> r@ == "HuC1+RAM+BATTERY"@,
        value != 0x00 && value != 0x01 && value != 0x02 && value != 0x03 && value != 0x05 && value != 0x06 && value != 0x08 && value != 0x09 && value != 0x0B && value != 0x0C && value != 0x0D && value != 0x0F && value != 0x10 && value != 0x11 && value != 0x12 && value != 0x13 && value != 0x19 && value != 0x1A && value != 0x1B && value != 0x1C && value != 0x1D && value != 0x1E && value != 0x20 && value != 0x22 && value != 0xFC && value != 0xFD && value != 0xFE && value != 0xFF ==> r@ == "UNKNOWN"@,
{
    match value {
        0x00 => "ROM ONLY",
        0x01 => "MBC1",
        0x02 => "MBC1+RAM",
        0x03 => "MBC1+RAM+BATTERY",
        0x05 => "MBC2",
        0x06 => "MBC2+BATTERY",
        0x08 => "ROM+RAM",
        0x09 => "ROM+RAM+BATTERY",
        0x0B => "MMM01",
        0x0C => "MMM01+RAM",
        0x0D => "MMM01+RAM+BATTERY",
        0x0F => "MBC3+TIMER+BATTERY",
        0x10 => "MBC3+TIMER+RAM+BATTERY",
        0x11 => "MBC3",
        0x12 => "MBC3+RAM",
        0x13 => "MBC3+RAM+BATTERY",
        0x19 => "MBC5",
        0x1A => "MBC5+RAM",
        0x1B => "MBC5+RAM+BATTERY",
        0x1C => "MBC5+RUMBLE",
        0x1D => "MBC5+RUMBLE+RAM",
        0x1E => "MBC5+RUMBLE+RAM+BATTERY",
        0x20 => "MBC6",
        0x22 => "MBC7+SENSOR+RUMBLE+RAM+BATTERY",
        0xFC => "POCKET CAMERA",
        0xFD => "BANDAI TAMA5",
        0xFE => "HuC3",
        0xFF => "HuC1+RAM+BATTERY",
        _ => "UNKNOWN",
    }
}

/// Human-readable ROM size, from the code at 0x0148.
pub fn rom_size_map(value: u8) -> (r: &'static str)
    ensures
        value == 0x00 ==> r@ == "32KB"@,
        value == 0x01 ==> r@ == "64KB"@,
        value == 0x02 ==> r@ == "128KB"@,
        value == 0x03 ==> r@ == "256KB"@,
        value == 0x04 ==> r@ == "512KB"@,
        value == 0x05 ==> r@ == "1MB"@,
        value == 0x06 ==> r@ == "2MB"@,
        value == 0x07 ==> r@ == "4MB"@,
        value == 0x52 ==> r@ == "1.1MB"@,
        value == 0x53 ==> r@ == "1.2MB"@,
        value == 0x54 ==> r@ == "1.5MB"@,
        value != 0x00 && value != 0x01 && value != 0x02 && value != 0x03 && value != 0x04 && value != 0x05 && value != 0x06 && value != 0x07 && value != 0x52 && value != 0x53 && value != 0x54 ==> r@ == "UNKNOWN"@,
{
    match value {
        0x00 => "32KB",
        0x01 => "64KB",
        0x02 => "128KB",
        0x03 => "256KB",
        0x04 => "512KB",
        0x05 => "1MB",
        0x06 => "2MB",
        0x07 => "4MB",
        0x52 => "1.1MB",
        0x53 => "1.2MB",
        0x54 => "1.5MB",
        _ => "UNKNOWN",
    }
}

/// Human-readable RAM size, from the code at 0x0149.
pub fn ram_size_map(value: u8) -> (r: &'static str)
    ensures
        value == 0x00 ==> r@ == "None"@,
        value == 0x01 ==> r@ == "2KB"@,
        value == 0x02 ==> r@ == "8KB"@,
        value == 0x03 ==> r@ == "32KB"@,
        value == 0x04 ==> r@ == "128KB"@,
        value == 0x05 ==> r@ == "64KB"@,
        value != 0x00 && value != 0x01 && value != 0x02 && value != 0x03 && value != 0x04 && value != 0x05 ==> r@ == "UNKNOWN"@,
{
    match value {
        0x00 => "None",
        0x01 => "2KB",
        0x02 => "8KB",
        0x03 => "32KB",
        0x04 => "128KB",
        0x05 => "64KB",
        _ => "UNKNOWN",
    }
}

/// Publisher name for the new licensee code at 0x0144.
pub fn new_licensee_code_map(value: u8) -> (r: &'static str)
    ensures
        value == 0x00 ==> r@ == "None"@,
        value == 0x01 ==> r@ == "Nintendo R&D1"@,
        value == 0x08 ==> r@ == "Capcom"@,
        value == 0x13 ==> r@ == "Electronic Arts"@,
        value == 0x18 ==> r@ == "Hudson Soft"@,
        value == 0x19 ==> r@ == "b-ai"@,
        value == 0x20 ==> r@ == "kss"@,
        value == 0x22 ==> r@ == "pow"@,
        value == 0x24 ==> r@ == "PCM Complete"@,
        value == 0x25 ==> r@ == "san-x"@,
        value == 0x28 ==> r@ == "Kemco Japan"@,
        value == 0x29 ==> r@ == "seta"@,
        value == 0x30 ==> r@ == "Viacom"@,
        value == 0x31 ==> r@ == "Nintendo"@,
        value == 0x32 ==> r@ == "Bandai"@,
        value == 0x33 ==> r@ == "Ocean/Acclaim"@,
        value == 0x34 ==> r@ == "Konami"@,
        value == 0x35 ==> r@ == "Hector"@,
        value == 0x37 ==> r@ == "Taito"@,
        value == 0x38 ==> r@ == "Hudson"@,
        value == 0x39 ==> r@ == "Banpresto"@,
        value == 0x41 ==> r@ == "Ubi Soft"@,
        value == 0x42 ==> r@ == "Atlus"@,
        value == 0x44 ==> r@ == "Malibu"@,
        value == 0x46 ==> r@ == "angel"@,
        value == 0x47 ==> r@ == "Bullet-Proof"@,
        value == 0x49 ==> r@ == "irem"@,
        value == 0x50 ==> r@ == "Absolute"@,
        value == 0x51 ==> r@ == "Acclaim"@,
        value == 0x52 ==> r@ == "Activision"@,
        value == 0x53 ==> r@ == "American sammy"@,
        value == 0x54 ==> r@ == "Konami"@,
        value == 0x55 ==> r@ == "Hi tech entertainment"@,
        value == 0x56 ==> r@ == "LJN"@,
        value == 0x57 ==> r@ == "Matchbox"@,
        value == 0x58 ==> r@ == "Mattel"@,
        value == 0x59 ==> r@ == "Milton Bradley"@,
        value == 0x60 ==> r@ == "Titus"@,
        value == 0x61 ==> r@ == "Virgin"@,
        value == 0x64 ==> r@ == "LucasArts"@,
        value == 0x67 ==> r@ == "Ocean"@,
        value == 0x69 ==> r@ == "Electronic Arts"@,
        value == 0x70 ==> r@ == "Infogrames"@,
        value == 0x71 ==> r@ == "Interplay"@,
        value == 0x72 ==> r@ == "Broderbund"@,
        value == 0x73 ==> r@ == "sculptured"@,
        value == 0x75 ==> r@ == "sci"@,
        value == 0x78 ==> r@ == "THQ"@,
        value == 0x79 ==> r@ == "Accolade"@,
        value == 0x80 ==> r@ == "misawa"@,
        value == 0x83 ==> r@ == "lozc"@,
        value == 0x86 ==> r@ == "tokuma Shoten Intermedia"@,
        value == 0x87 ==> r@ == "tsukuda ori"@,
        value == 0x91 ==> r@ == "Chunsoft"@,
        value == 0x92 ==> r@ == "Video system"@,
        value == 0x93 ==> r@ == "Ocean/Acclaim"@,
        value == 0x95 ==> r@ == "Varie"@,
        value == 0x96 ==> r@ == "Yonezawa/s'pal"@,
        value == 0x97 ==> r@ == "Kaneko"@,
        value == 0x99 ==> r@ == "Pack in soft"@,
        value == 0xA4 ==> r@ == "Konami (Yu-Gi-Oh!)"@,
        (value != 0x00 && value != 0x01 && value != 0x08 && value != 0x13 && value != 0x18 && 
            value != 0x19 && value != 0x20 && value != 0x22 && value != 0x24 && 
            value != 0x25 && value != 0x28 && value != 0x29 && value != 0x30 && 
            value != 0x31 && value != 0x32 && value != 0x33 && value != 0x34 && 
            value != 0x35 && value != 0x37 && value != 0x38 && value != 0x39 && 
            value != 0x41 && value != 0x42 && value != 0x44 && value != 0x46 && 
            value != 0x47 && value != 0x49 && value != 0x50 && value != 0x51 && 
            value != 0x52 && value != 0x53 && value != 0x54 && value != 0x55 && 
            value != 0x56 && value != 0x57 && value != 0x58 && value != 0x59 && 
            value != 0x60 && value != 0x61 && value != 0x64 && value != 0x67 && 
            value != 0x69 && value != 0x70 && value != 0x71 && value != 0x72 && 
            value != 0x73 && value != 0x75 && value != 0x78 && value != 0x79 && 
            value != 0x80 && value != 0x83 && value != 0x86 && value != 0x87 && 
            value != 0x91 && value != 0x92 && value != 0x93 && value != 0x95 && 
            value != 0x96 && value != 0x97 && value != 0x99 && value != 0xA4) ==> r@ == "UNKNOWN"@,
{
    match value {
        0x00 => "None",
        0x01 => "Nintendo R&D1",
        0x08 => "Capcom",
        0x13 => "Electronic Arts",
        0x18 => "Hudson Soft",
        0x19 => "b-ai",
        0x20 => "kss",
        0x22 => "pow",
        0x24 => "PCM Complete",
        0x25 => "san-x",
        0x28 => "Kemco Japan",
        0x29 => "seta",
        0x30 => "Viacom",
        0x31 => "Nintendo",
        0x32 => "Bandai",
        0x33 => "Ocean/Acclaim",
        0x34 => "Konami",
        0x35 => "Hector",
        0x37 => "Taito",
        0x38 => "Hudson",
        0x39 => "Banpresto",
        0x41 => "Ubi Soft",
        0x42 => "Atlus",
        0x44 => "Malibu",
        0x46 => "angel",
        0x47 => "Bullet-Proof",
        0x49 => "irem",
        0x50 => "Absolute",
        0x51 => "Acclaim",
        0x52 => "Activision",
        0x53 => "American sammy",
        0x54 => "Konami",
        0x55 => "Hi tech entertainment",
        0x56 => "LJN",
        0x57 => "Matchbox",
        0x58 => "Mattel",
        0x59 => "Milton Bradley",
        0x60 => "Titus",
        0x61 => "Virgin",
        0x64 => "LucasArts",
        0x67 => "Ocean",
        0x69 => "Electronic Arts",
        0x70 => "Infogrames",
        0x71 => "Interplay",
        0x72 => "Broderbund",
        0x73 => "sculptured",
        0x75 => "sci",
        0x78 => "THQ",
        0x79 => "Accolade",
        0x80 => "misawa",
        0x83 => "lozc",
        0x86 => "tokuma Shoten Intermedia",
        0x87 => "tsukuda ori",
        0x91 => "Chunsoft",
        0x92 => "Video system",
        0x93 => "Ocean/Acclaim",
        0x95 => "Varie",
        0x96 => "Yonezawa/s'pal",
        0x97 => "Kaneko",
        0x99 => "Pack in soft",
        0xA4 => "Konami (Yu-Gi-Oh!)",
        _ => "UNKNOWN",
    }
}

/// Market the cartridge was made for, from the byte at 0x014A.
pub fn destination_code_map(value: u8) -> (r: &'static str)
    ensures
        value == 0x00 ==> r@ == "Japanese"@,
        value == 0x01 ==> r@ == "Non-Japanese"@,
        value != 0x00 && value != 0x01 ==> r@ == "UNKNOWN"@,
{
    match value {
        0x00 => "Japanese",
        0x01 => "Non-Japanese",
        _ => "UNKNOWN",
    }
}

/// Publisher name for the old licensee code at 0x014B.
pub fn old_licensee_code_map(value: u8) -> (r: &'static str)
    ensures
        value == 0x00 ==> r@ == "None"@,
        value == 0x01 ==> r@ == "Nintendo"@,
        value == 0x08 ==> r@ == "Capcom"@,
        value == 0x09 ==> r@ == "Hot-B"@,
        value == 0x0A ==> r@ == "Jaleco"@,
        value == 0x0B ==> r@ == "Coconuts"@,
        value == 0x0C ==> r@ == "Elite Systems"@,
        value == 0x13 ==> r@ == "Electronic Arts"@,
        value == 0x18 ==> r@ == "Hudson Soft"@,
        value == 0x19 ==> r@ == "ITC Entertainment"@,
        value == 0x1A ==> r@ == "Yanoman"@,
        value == 0x1D ==> r@ == "Japan Clary"@,
        value == 0x1F ==> r@ == "Virgin"@,
        value == 0x24 ==> r@ == "PCM Complete"@,
        value == 0x25 ==> r@ == "San-X"@,
        value == 0x28 ==> r@ == "Kotobuki Systems"@,
        value == 0x29 ==> r@ == "Seta"@,
        value == 0x30 ==> r@ == "Infogrames"@,
        value == 0x31 ==> r@ == "Nintendo"@,
        value == 0x32 ==> r@ == "Bandai"@,
        value == 0x33 ==> r@ == "Use New Licensee Code"@,
        value == 0x34 ==> r@ == "Konami"@,
        value == 0x35 ==> r@ == "Hector"@,
        value == 0x38 ==> r@ == "Capcom"@,
        value == 0x39 ==> r@ == "Banpresto"@,
        value == 0x3C ==> r@ == "Entertainment I"@,
        value == 0x3E ==> r@ == "Gremlin Graphics"@,
        value == 0x41 ==> r@ == "Ubisoft"@,
        value == 0x42 ==> r@ == "Atlus"@,
        value == 0x44 ==> r@ == "Malibu"@,
        value == 0x46 ==> r@ == "Angel"@,
        value == 0x47 ==> r@ == "Spectrum Holoby"@,
        value == 0x49 ==> r@ == "Irem"@,
        value == 0x4A ==> r@ == "Virgin"@,
        value == 0x4D ==> r@ == "Malibu"@,
        value == 0x4F ==> r@ == "U.S. Gold"@,
        value == 0x50 ==> r@ == "Absolute"@,
        value == 0x51 ==> r@ == "Acclaim"@,
        value == 0x52 ==> r@ == "Activision"@,
        value == 0x53 ==> r@ == "American Sammy"@,
        value == 0x54 ==> r@ == "GameTek"@,
        value == 0x55 ==> r@ == "Park Place"@,
        value == 0x56 ==> r@ == "LJN"@,
        value == 0x57 ==> r@ == "Matchbox"@,
        value == 0x59 ==> r@ == "Milton Bradley"@,
        value == 0x5A ==> r@ == "Mindscape"@,
        value == 0x5B ==> r@ == "Romstar"@,
        value == 0x5C ==> r@ == "Naxat Soft"@,
        value == 0x5D ==> r@ == "Tradewest"@,
        value == 0x60 ==> r@ == "Titus"@,
        value == 0x61 ==> r@ == "Virgin"@,
        value == 0x67 ==> r@ == "Ocean"@,
        value == 0x69 ==> r@ == "Electronic Arts"@,
        value == 0x6E ==> r@ == "Elite Systems"@,
        value == 0x6F ==> r@ == "Electro Brain"@,
        value == 0x70 ==> r@ == "Infogrames"@,
        value == 0x71 ==> r@ == "Interplay"@,
        value == 0x72 ==> r@ == "Broderbund"@,
        value == 0x73 ==> r@ == "Sculptered Soft"@,
        value == 0x75 ==> r@ == "The Sales Curve"@,
        value == 0x78 ==> r@ == "THQ"@,
        value == 0x79 ==> r@ == "Accolade"@,
        value == 0x7A ==> r@ == "Triffix Entertainment"@,
        value == 0x7C ==> r@ == "Microprose"@,
        value == 0x7F ==> r@ == "Kemco"@,
        value == 0x80 ==> r@ == "Misawa Entertainment"@,
        value == 0x83 ==> r@ == "Lozc"@,
        value == 0x86 ==> r@ == "Tokuma Shoten Intermedia"@,
        value == 0x8B ==> r@ == "Bullet-Proof Software"@,
        value == 0x8C ==> r@ == "Vic Tokai"@,
        value == 0x8E ==> r@ == "Ape"@,
        value == 0x8F ==> r@ == "I'Max"@,
        value == 0x91 ==> r@ == "Chun Soft"@,
        value == 0x92 ==> r@ == "Video System"@,
        value == 0x93 ==> r@ == "Tsuburava"@,
        value == 0x95 ==> r@ == "Varie"@,
        value == 0x96 ==> r@ == "Yonezawa/S'Pal"@,
        value == 0x97 ==> r@ == "Kaneko"@,
        value == 0x99 ==> r@ == "Arc"@,
        value == 0x9A ==> r@ == "Nihon Bussan"@,
        value == 0x9B ==> r@ == "Tecmo"@,
        value == 0x9C ==> r@ == "Imagineer"@,
        value == 0x9D ==> r@ == "Banpresto"@,
        value == 0x9F ==> r@ == "Nova"@,
        value == 0xA1 ==> r@ == "Hori Electric"@,
        value == 0xA2 ==> r@ == "Bandai"@,
        value == 0xA4 ==> r@ == "Konami"@,
        value == 0xA6 ==> r@ == "Kawada"@,
        value == 0xA7 ==> r@ == "Takara"@,
        value == 0xA9 ==> r@ == "Technos Japan"@,
        value == 0xAA ==> r@ == "Broderbund"@,
        value == 0xAC ==> r@ == "Toei Animation"@,
        value == 0xAD ==> r@ == "Toho"@,
        value == 0xAF ==> r@ == "Namco"@,
        value == 0xB0 ==> r@ == "Acclaim"@,
        value == 0xB1 ==> r@ == "Ascii or Nexoft"@,
        value == 0xB2 ==> r@ == "Bandai"@,
        value == 0xB4 ==> r@ == "Enix"@,
        value == 0xB6 ==> r@ == "HAL"@,
        value == 0xB7 ==> r@ == "SNK"@,
        value == 0xB9 ==> r@ == "Pony Canyon"@,
        value == 0xBA ==> r@ == "Culture Brain"@,
        value == 0xBB ==> r@ == "Sunsoft"@,
        value == 0xBD ==> r@ == "Sony Imagesoft"@,
        value == 0xBF ==> r@ == "Sammy"@,
        value == 0xC0 ==> r@ == "Taito"@,
        value == 0xC2 ==> r@ == "Kemco"@,
        value == 0xC3 ==> r@ == "Square"@,
        value == 0xC4 ==> r@ == "Tokuma Shoten Intermedia"@,
        value == 0xC5 ==> r@ == "Data East"@,
        value == 0xC6 ==> r@ == "Tonkin House"@,
        value == 0xC8 ==> r@ == "Koei"@,
        value == 0xC9 ==> r@ == "UFL"@,
        value == 0xCA ==> r@ == "Ultra"@,
        value == 0xCB ==> r@ == "Vap"@,
        value == 0xCC ==> r@ == "Use"@,
        value == 0xCD ==> r@ == "Meldac"@,
        value == 0xCE ==> r@ == "Pony Canyon or"@,
        value == 0xCF ==> r@ == "Angel"@,
        value == 0xD0 ==> r@ == "Taito"@,
        value == 0xD1 ==> r@ == "Sofel"@,
        value == 0xD2 ==> r@ == "Quest"@,
        value == 0xD3 ==> r@ == "Sigma Enterprises"@,
        value == 0xD4 ==> r@ == "Ask Kodansha"@,
        value == 0xD6 ==> r@ == "Naxat Soft"@,
        value == 0xD7 ==> r@ == "Copya Systems"@,
        value == 0xD9 ==> r@ == "Banpresto"@,
        value == 0xDA ==> r@ == "Tomy"@,
        value == 0xDB ==> r@ == "LJN"@,
        value == 0xDD ==> r@ == "NCS"@,
        value == 0xDE ==> r@ == "Human"@,
        value == 0xDF ==> r@ == "Altron"@,
        value == 0xE0 ==> r@ == "Jaleco"@,
        value == 0xE1 ==> r@ == "Towachiki"@,
        value == 0xE2 ==> r@ == "Uutaka"@,
        value == 0xE3 ==> r@ == "Varie"@,
        value == 0xE5 ==> r@ == "Epoch"@,
        value == 0xE7 ==> r@ == "Athena"@,
        value == 0xE8 ==> r@ == "Asmik"@,
        value == 0xE9 ==> r@ == "Natsume"@,
        value == 0xEA ==> r@ == "King Records"@,
        value == 0xEB ==> r@ == "Atlus"@,
        value == 0xEC ==> r@ == "Epic/Sony Records"@,
        value == 0xEE ==> r@ == "IGS"@,
        value == 0xF0 ==> r@ == "A-Wave"@,
        value == 0xF3 ==> r@ == "Extreme Entertainment"@,
        value == 0xFF ==> r@ == "LJN"@,
        (value != 0x00 && value != 0x01 && value != 0x08 && value != 0x09 && value != 0x0A && 
            value != 0x0B && value != 0x0C && value != 0x13 && value != 0x18 && 
            value != 0x19 && value != 0x1A && value != 0x1D && value != 0x1F && 
            value != 0x24 && value != 0x25 && value != 0x28 && value != 0x29 && 
            value != 0x30 && value != 0x31 && value != 0x32 && value != 0x33 && 
            value != 0x34 && value != 0x35 && value != 0x38 && value != 0x39 && 
            value != 0x3C && value != 0x3E && value != 0x41 && value != 0x42 && 
            value != 0x44 && value != 0x46 && value != 0x47 && value != 0x49 && 
            value != 0x4A && value != 0x4D && value != 0x4F && value != 0x50 && 
            value != 0x51 && value != 0x52 && value != 0x53 && value != 0x54 && 
            value != 0x55 && value != 0x56 && value != 0x57 && value != 0x59 && 
            value != 0x5A && value != 0x5B && value != 0x5C && value != 0x5D && 
            value != 0x60 && value != 0x61 && value != 0x67 && value != 0x69 && 
            value != 0x6E && value != 0x6F && value != 0x70 && value != 0x71 && 
            value != 0x72 && value != 0x73 && value != 0x75 && value != 0x78 && 
            value != 0x79 && value != 0x7A && value != 0x7C && value != 0x7F && 
            value != 0x80 && value != 0x83 && value != 0x86 && value != 0x8B && 
            value != 0x8C && value != 0x8E && value != 0x8F && value != 0x91 && 
            value != 0x92 && value != 0x93 && value != 0x95 && value != 0x96 && 
            value != 0x97 && value != 0x99 && value != 0x9A && value != 0x9B && 
            value != 0x9C && value != 0x9D && value != 0x9F && value != 0xA1 && 
            value != 0xA2 && value != 0xA4 && value != 0xA6 && value != 0xA7 && 
            value != 0xA9 && value != 0xAA && value != 0xAC && value != 0xAD && 
            value != 0xAF && value != 0xB0 && value != 0xB1 && value != 0xB2 && 
            value != 0xB4 && value != 0xB6 && value != 0xB7 && value != 0xB9 && 
            value != 0xBA && value != 0xBB && value != 0xBD && value != 0xBF && 
            value != 0xC0 && value != 0xC2 && value != 0xC3 && value != 0xC4 && 
            value != 0xC5 && value != 0xC6 && value != 0xC8 && value != 0xC9 && 
            value != 0xCA && value != 0xCB && value != 0xCC && value != 0xCD && 
            value != 0xCE && value != 0xCF && value != 0xD0 && value != 0xD1 && 
            value != 0xD2 && value != 0xD3 && value != 0xD4 && value != 0xD6 && 
            value != 0xD7 && value != 0xD9 && value != 0xDA && value != 0xDB && 
            value != 0xDD && value != 0xDE && value != 0xDF && value != 0xE0 && 
            value != 0xE1 && value != 0xE2 && value != 0xE3 && value != 0xE5 && 
            value != 0xE7 && value != 0xE8 && value != 0xE9 && value != 0xEA && 
            value != 0xEB && value != 0xEC && value != 0xEE && value != 0xF0 && 
            value != 0xF3 && value != 0xFF) ==> r@ == "UNKNOWN"@,
{
    match value {
        0x00 => "None",
        0x01 => "Nintendo",
        0x08 => "Capcom",
        0x09 => "Hot-B",
        0x0A => "Jaleco",
        0x0B => "Coconuts",
        0x0C => "Elite Systems",
        0x13 => "Electronic Arts",
        0x18 => "Hudson Soft",
        0x19 => "ITC Entertainment",
        0x1A => "Yanoman",
        0x1D => "Japan Clary",
        0x1F => "Virgin",
        0x24 => "PCM Complete",
        0x25 => "San-X",
        0x28 => "Kotobuki Systems",
        0x29 => "Seta",
        0x30 => "Infogrames",
        0x31 => "Nintendo",
        0x32 => "Bandai",
        0x33 => "Use New Licensee Code",
        0x34 => "Konami",
        0x35 => "Hector",
        0x38 => "Capcom",
        0x39 => "Banpresto",
        0x3C => "Entertainment I",
        0x3E => "Gremlin Graphics",
        0x41 => "Ubisoft",
        0x42 => "Atlus",
        0x44 => "Malibu",
        0x46 => "Angel",
        0x47 => "Spectrum Holoby",
        0x49 => "Irem",
        0x4A => "Virgin",
        0x4D => "Malibu",
        0x4F => "U.S. Gold",
        0x50 => "Absolute",
        0x51 => "Acclaim",
        0x52 => "Activision",
        0x53 => "American Sammy",
        0x54 => "GameTek",
        0x55 => "Park Place",
        0x56 => "LJN",
        0x57 => "Matchbox",
        0x59 => "Milton Bradley",
        0x5A => "Mindscape",
        0x5B => "Romstar",
        0x5C => "Naxat Soft",
        0x5D => "Tradewest",
        0x60 => "Titus",
        0x61 => "Virgin",
        0x67 => "Ocean",
        0x69 => "Electronic Arts",
        0x6E => "Elite Systems",
        0x6F => "Electro Brain",
        0x70 => "Infogrames",
        0x71 => "Interplay",
        0x72 => "Broderbund",
        0x73 => "Sculptered Soft",
        0x75 => "The Sales Curve",
        0x78 => "THQ",
        0x79 => "Accolade",
        0x7A => "Triffix Entertainment",
        0x7C => "Microprose",
        0x7F => "Kemco",
        0x80 => "Misawa Entertainment",
        0x83 => "Lozc",
        0x86 => "Tokuma Shoten Intermedia",
        0x8B => "Bullet-Proof Software",
        0x8C => "Vic Tokai",
        0x8E => "Ape",
        0x8F => "I'Max",
        0x91 => "Chun Soft",
        0x92 => "Video System",
        0x93 => "Tsuburava",
        0x95 => "Varie",
        0x96 => "Yonezawa/S'Pal",
        0x97 => "Kaneko",
        0x99 => "Arc",
        0x9A => "Nihon Bussan",
        0x9B => "Tecmo",
        0x9C => "Imagineer",
        0x9D => "Banpresto",
        0x9F => "Nova",
        0xA1 => "Hori Electric",
        0xA2 => "Bandai",
        0xA4 => "Konami",
        0xA6 => "Kawada",
        0xA7 => "Takara",
        0xA9 => "Technos Japan",
        0xAA => "Broderbund",
        0xAC => "Toei Animation",
        0xAD => "Toho",
        0xAF => "Namco",
        0xB0 => "Acclaim",
        0xB1 => "Ascii or Nexoft",
        0xB2 => "Bandai",
        0xB4 => "Enix",
        0xB6 => "HAL",
        0xB7 => "SNK",
        0xB9 => "Pony Canyon",
        0xBA => "Culture Brain",
        0xBB => "Sunsoft",
        0xBD => "Sony Imagesoft",
        0xBF => "Sammy",
        0xC0 => "Taito",
        0xC2 => "Kemco",
        0xC3 => "Square",
        0xC4 => "Tokuma Shoten Intermedia",
        0xC5 => "Data East",
        0xC6 => "Tonkin House",
        0xC8 => "Koei",
        0xC9 => "UFL",
        0xCA => "Ultra",
        0xCB => "Vap",
        0xCC => "Use",
        0xCD => "Meldac",
        0xCE => "Pony Canyon or",
        0xCF => "Angel",
        0xD0 => "Taito",
        0xD1 => "Sofel",
        0xD2 => "Quest",
        0xD3 => "Sigma Enterprises",
        0xD4 => "Ask Kodansha",
        0xD6 => "Naxat Soft",
        0xD7 => "Copya Systems",
        0xD9 => "Banpresto",
        0xDA => "Tomy",
        0xDB => "LJN",
        0xDD => "NCS",
        0xDE => "Human",
        0xDF => "Altron",
        0xE0 => "Jaleco",
        0xE1 => "Towachiki",
        0xE2 => "Uutaka",
        0xE3 => "Varie",
        0xE5 => "Epoch",
        0xE7 => "Athena",
        0xE8 => "Asmik",
        0xE9 => "Natsume",
        0xEA => "King Records",
        0xEB => "Atlus",
        0xEC => "Epic/Sony Records",
        0xEE => "IGS",
        0xF0 => "A-Wave",
        0xF3 => "Extreme Entertainment",
        0xFF => "LJN",
        _ => "UNKNOWN",
    }
}

} // verus!
