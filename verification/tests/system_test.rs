use rubc::cartridge::Cartridge;
use rubc::gameboy::{Gameboy, GameboyBuilder};
use rubc::mbc::{IntoMBC, MBC0, MBC1};
use rubc::utils::calculate_checksum_range;
use rubc::GbError;

/// A 32 KiB ROM-only image with a valid header.
fn mbc0_image() -> Vec<u8> {
    let mut rom = vec![0u8; 0x8000];
    rom[0x0147] = 0x00;
    rom[0x0148] = 0x00;
    rom[0x0149] = 0x00;
    let chk = calculate_checksum_range(&rom, 0x0134, 0x014D);
    rom[0x014D] = chk;
    rom
}

/// A machine running a ROM-only cartridge on the normal bus.
fn dmg_gb() -> Gameboy {
    let cart = Cartridge::new(mbc0_image()).unwrap();
    GameboyBuilder::new().set_cart(cart).build()
}

#[test]
fn test_loader_accepts_and_rejects() {
    assert!(Cartridge::new(mbc0_image()).is_ok());

    let mut bad = mbc0_image();
    bad[0x014D] = bad[0x014D].wrapping_add(1);
    assert!(matches!(Cartridge::new(bad), Err(GbError::ChecksumMismatch)));

    let mut bad = mbc0_image();
    bad[0x0149] = 0x01;
    assert!(matches!(Cartridge::new(bad), Err(GbError::InvalidRamSize)));

    let mut bad = mbc0_image();
    bad[0x0147] = 0x19;
    let chk = calculate_checksum_range(&bad, 0x0134, 0x014D);
    bad[0x014D] = chk;
    assert!(matches!(Cartridge::new(bad), Err(GbError::UnsupportedCartType)));

    let mut bad = mbc0_image();
    bad[0x0148] = 0x01;
    let chk = calculate_checksum_range(&bad, 0x0134, 0x014D);
    bad[0x014D] = chk;
    assert!(matches!(Cartridge::new(bad), Err(GbError::RomSizeMismatch)));

    assert!(matches!(Cartridge::new(vec![0u8; 16]), Err(GbError::RomSizeMismatch)));
}

#[test]
fn test_loader_builds_mbc1() {
    let mut rom = vec![0u8; 0x40000];
    rom[0x0147] = 0x03;
    rom[0x0148] = 0x03;
    rom[0x0149] = 0x03;
    let chk = calculate_checksum_range(&rom, 0x0134, 0x014D);
    rom[0x014D] = chk;
    let cart = Cartridge::new(rom).unwrap();
    assert_eq!(cart.rom_banks(), 16);
    assert_eq!(cart.ram_banks(), 4);
}

#[test]
fn test_bus_round_trip_ram_hram_io() {
    // bus.write(a, v); bus.read(a) == v on work RAM, high RAM, and
    // unreserved I/O.
    let mut gb = dmg_gb();
    for &(a, v) in &[
        (0xC000u16, 0x12u8),
        (0xDFFF, 0x34),
        (0xFF80, 0x56),
        (0xFFFE, 0x78),
        (0xFF10, 0x9A),
        (0xFF01, 0xBC),
        (0xFFFF, 0x04),
    ] {
        gb.memory_write(a, v);
        assert_eq!(gb.memory_read(a), v);
    }
}

#[test]
fn test_echo_ram_mirrors_work_ram() {
    let mut gb = dmg_gb();
    gb.memory_write(0xC123, 0x42);
    assert_eq!(gb.memory_read(0xE123), 0x42);
    gb.memory_write(0xE200, 0x77);
    assert_eq!(gb.memory_read(0xC200), 0x77);
}

#[test]
fn test_rom_immutable_through_bus() {
    // Writes to 0x0000..=0x7FFF leave flat memory and the ROM image
    // untouched; on MBC0 they change nothing at all.
    let mut gb = dmg_gb();
    let before = gb.memory_read(0x2000);
    gb.memory_write(0x2000, 0xAA);
    assert_eq!(gb.memory_read(0x2000), before);
    assert_eq!(gb.memory[0x2000], 0x00);
    gb.memory_write(0x7FFF, 0x55);
    assert_eq!(gb.memory[0x7FFF], 0x00);
}

#[test]
fn test_ly_stub_and_serial_sink() {
    let mut gb = dmg_gb();
    assert_eq!(gb.memory_read(0xFF44), 0x90);
    gb.memory_write(0xFF01, b'P');
    gb.memory_write(0xFF02, 0x81);
    gb.memory_write(0xFF01, b'x');
    gb.memory_write(0xFF02, 0x00);
    assert_eq!(gb.serial_out, vec![b'P']);
}

#[test]
fn test_mbc1_mode0_low_region_reads_bank_zero() {
    let mut m = MBC1::new(128, 4);
    m.rom[0x0123] = 0x42;
    m.ram_bank_select = 1;
    m.mode = 0;
    assert_eq!(m.read(0x0123), 0x42);
}

#[test]
fn test_mbc1_bank_mapping() {
    // 128 banks, RAM select 1, ROM select 5, mode 0: guest 0x4321
    // reads physical bank 0x25.
    let mut m = MBC1::new(128, 4);
    m.rom[0x25 * 0x4000 + 0x0321] = 0x77;
    m.ram_bank_select = 1;
    m.rom_bank_select = 0x05;
    m.mode = 0;
    assert_eq!(m.read(0x4321), 0x77);
}

#[test]
fn test_mbc1_bank_select_never_zero() {
    let mut m = MBC1::new(64, 0);
    m.write(0x2000, 0x00);
    assert_eq!(m.rom_bank_select, 1);
    // A value whose masked select bits are zero is also promoted.
    m.write(0x2000, 0x20);
    assert_eq!(m.rom_bank_select, 1);
    m.write(0x2000, 0x07);
    assert_eq!(m.rom_bank_select, 7);
}

#[test]
fn test_mbc1_sram_gating() {
    let mut m = MBC1::new(32, 4);
    // Disabled RAM reads 0xFF and drops writes.
    assert_eq!(m.read_sram(0x0010), 0xFF);
    m.write_sram(0x0010, 0x31);
    m.write(0x0000, 0x0A);
    assert!(m.ram_enabled);
    assert_eq!(m.read_sram(0x0010), 0x00);
    m.write_sram(0x0010, 0x31);
    assert_eq!(m.read_sram(0x0010), 0x31);
    // Mode 1 banks the window.
    m.write(0x6000, 0x01);
    m.write(0x4000, 0x02);
    assert_eq!(m.read_sram(0x0010), 0x00);
    m.write(0x4000, 0x00);
    assert_eq!(m.read_sram(0x0010), 0x31);
    // Disabling again gates reads off.
    m.write(0x0000, 0x00);
    assert_eq!(m.read_sram(0x0010), 0xFF);
}

#[test]
fn test_mbc0_ignores_writes() {
    let mut m = MBC0::new();
    m.write(0x1000, 0x99);
    assert_eq!(m.read(0x1000), 0x00);
    assert_eq!(m.read_sram(0x0000), 0xFF);
    m.write_sram(0x0000, 0x12);
    assert_eq!(m.read_sram(0x0000), 0xFF);
}

#[test]
fn test_timer_div_increments() {
    let mut gb = dmg_gb();
    // 64 NOPs at 4 cycles each cross one 256-cycle DIV period.
    for _ in 0..64 {
        gb.tick().unwrap();
    }
    assert_eq!(gb.memory_read(0xFF04), 1);
    // Writing DIV resets it and both accumulators.
    gb.memory_write(0xFF04, 0xAB);
    assert_eq!(gb.memory_read(0xFF04), 0);
    assert_eq!(gb.timer_div_counter, 0);
    assert_eq!(gb.timer_tima_counter, 0);
}

#[test]
fn test_timer_overflow_interrupt() {
    // TAC=0x05 (16-cycle period), TMA=TIMA=0xFE, IE bit 2, master
    // enable on: the overflow lands on the eighth NOP, reloads TIMA
    // from TMA and jumps to the timer vector.
    let mut gb = dmg_gb();
    gb.memory_write(0xFF07, 0x05);
    gb.memory_write(0xFF06, 0xFE);
    gb.memory_write(0xFF05, 0xFE);
    gb.memory_write(0xFFFF, 0x04);
    gb.interrupts_on = true;
    for _ in 0..7 {
        assert_eq!(gb.tick().unwrap(), 4);
    }
    assert_eq!(gb.memory_read(0xFF05), 0xFF);
    let c = gb.tick().unwrap();
    assert_eq!(c, 24);
    assert_eq!(gb.cpu.pc, 0x0050);
    assert_eq!(gb.memory_read(0xFF05), 0xFE);
    assert!(!gb.interrupts_on);
    assert_eq!(gb.memory_read(0xFF0F) & 0x04, 0);
}

#[test]
fn test_tac_write_resets_counter_only_on_frequency_change() {
    let mut gb = dmg_gb();
    gb.memory_write(0xFF07, 0x05);
    for _ in 0..3 {
        gb.tick().unwrap();
    }
    assert!(gb.timer_tima_counter > 0);
    // Same frequency bits: the accumulator is kept.
    let acc = gb.timer_tima_counter;
    gb.memory_write(0xFF07, 0x05);
    assert_eq!(gb.timer_tima_counter, acc);
    // Different frequency bits: the accumulator resets.
    gb.memory_write(0xFF07, 0x06);
    assert_eq!(gb.timer_tima_counter, 0);
    // TAC reads back with its top five bits set.
    assert_eq!(gb.memory_read(0xFF07), 0x06 | 0xF8);
}

#[test]
fn test_boot_state() {
    let gb = dmg_gb();
    assert_eq!(gb.cpu.a, 0x01);
    assert_eq!(gb.cpu.f, 0xB0);
    assert_eq!(gb.cpu.b, 0x00);
    assert_eq!(gb.cpu.c, 0x13);
    assert_eq!(gb.cpu.d, 0x00);
    assert_eq!(gb.cpu.e, 0xD8);
    assert_eq!(gb.cpu.h, 0x01);
    assert_eq!(gb.cpu.l, 0x4D);
    assert_eq!(gb.cpu.sp, 0xFFFE);
    assert_eq!(gb.cpu.pc, 0x0100);
    assert!(!gb.cpu.halted);
    assert!(!gb.cpu.is_stuck);
    assert!(!gb.interrupts_on);
}

#[test]
fn test_cpu_helpers() {
    let mut gb = dmg_gb();
    gb.cpu.incr_pc(3);
    assert_eq!(gb.cpu.pc, 0x0103);
    gb.cpu.set_bc(0xBEEF);
    assert_eq!((gb.cpu.b, gb.cpu.c), (0xBE, 0xEF));
    gb.cpu.reset();
    assert_eq!(gb.cpu.pc, 0x0100);
}

#[test]
fn test_metadata_and_listing() {
    let mut rom = mbc0_image();
    // A two-instruction program at the entry point: LD A,0x42; JP 0x0150.
    rom[0x0150] = 0x3E;
    rom[0x0151] = 0x42;
    rom[0x0152] = 0xC3;
    rom[0x0153] = 0x50;
    rom[0x0154] = 0x01;
    rom[0x0155] = 0xCB;
    rom[0x0156] = 0x37; // SWAP A
    let chk = calculate_checksum_range(&rom, 0x0134, 0x014D);
    rom[0x014D] = chk;
    let cart = Cartridge::new(rom).unwrap();

    let meta = rubc::disasm::get_metadata(&cart);
    assert!(meta.checksum_valid);
    assert_eq!(meta.cart_type, 0x00);
    assert_eq!(meta.title.len(), 14);

    let listing = rubc::disasm::disassemble(&cart);
    let at = |addr: usize| listing.iter().find(|e| e.address == addr).unwrap();
    let e = at(0x0150);
    assert_eq!((e.opcode, e.value, e.length, e.cb), (0x3E, 0x42, 2, false));
    let e = at(0x0152);
    assert_eq!((e.opcode, e.value, e.length, e.cb), (0xC3, 0x0150, 3, false));
    let e = at(0x0155);
    assert_eq!((e.opcode, e.length, e.cb), (0x37, 2, true));
    assert_eq!(rubc::opcodes::op_code_names(0x3E, false), "LD A, d8");
    assert_eq!(rubc::opcodes::op_code_names(0x37, true), "SWAP A");
    assert_eq!(rubc::opcodes::op_code_names(0x00, false), "NOP");
}

#[test]
fn test_builder_options_and_breakpoints() {
    let cart = Cartridge::new(mbc0_image()).unwrap();
    let gb = GameboyBuilder::new()
        .set_cart(cart)
        .with_cpu_breakpoints(vec![0x0100, 0x4000])
        .panic_on_stuck()
        .build();
    assert!(gb.panic_on_stuck);
    assert!(gb.at_breakpoint());
    let mut gb = gb;
    gb.cpu.pc = 0x0101;
    assert!(!gb.at_breakpoint());
    gb.cpu.pc = 0x4000;
    assert!(gb.at_breakpoint());
}
