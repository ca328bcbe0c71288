use rubc::utils::{calculate_checksum, interrupt_address, ram_absolute_address, rom_absolute_address};

#[test]
fn test_checksum() {
    let data = vec![0x01, 0x02, 0x03, 0x04];
    assert_eq!(calculate_checksum(&data), 241);
}

#[test]
fn test_rom_absolute_addr() {
    assert_eq!(rom_absolute_address(0, 0x4000), 0x4000);
    assert_eq!(rom_absolute_address(1, 0x4000), 0x8000);
    assert_eq!(rom_absolute_address(2, 0x4000), 0xC000);
    assert_eq!(rom_absolute_address(2, 0x1223), 0x9223);
}

#[test]
fn test_ram_absolute_addr() {
    assert_eq!(ram_absolute_address(0, 0x0010), 0x0010);
    assert_eq!(ram_absolute_address(1, 0x0010), 0x2010);
    assert_eq!(ram_absolute_address(2, 0x0010), 0x4010);
    assert_eq!(ram_absolute_address(2, 0x1223), 0x5223);
}

#[test]
fn test_interrupt_vectors() {
    assert_eq!(interrupt_address(0), 0x0040);
    assert_eq!(interrupt_address(1), 0x0048);
    assert_eq!(interrupt_address(2), 0x0050);
    assert_eq!(interrupt_address(3), 0x0058);
    assert_eq!(interrupt_address(4), 0x0060);
}

#[test]
fn test_format_binary() {
    assert_eq!(rubc::format_binary(0xB0), "0b1011_0000");
    assert_eq!(rubc::format_binary(0x00), "0b0000_0000");
    assert_eq!(rubc::format_binary(0xFF), "0b1111_1111");
}

#[test]
fn test_bit_helpers() {
    assert!(rubc::bits::is_bit_set(0x80, 7));
    assert!(!rubc::bits::is_bit_set(0x80, 6));
    let mut v: u8 = 0;
    rubc::bits::set_bit(&mut v, 4);
    assert_eq!(v, 0x10);
    rubc::bits::toggle_bit(&mut v, 4);
    assert_eq!(v, 0x00);
    v = 0xFF;
    rubc::bits::clear_bit(&mut v, 0);
    assert_eq!(v, 0xFE);
    assert_eq!(rubc::bits::get_bit(0x04, 2), 1);
    assert_eq!(rubc::bits::get_bit(0x04, 3), 0);
}

#[test]
fn test_header_maps() {
    assert_eq!(rubc::globals::cart_type_map(0x00), "ROM ONLY");
    assert_eq!(rubc::globals::cart_type_map(0x01), "MBC1");
    assert_eq!(rubc::globals::rom_size_map(0x00), "32KB");
    assert_eq!(rubc::globals::ram_size_map(0x02), "8KB");
    assert_eq!(rubc::globals::destination_code_map(0x01), "Non-Japanese");
    assert_eq!(rubc::globals::old_licensee_code_map(0x01), "Nintendo");
    assert_eq!(rubc::globals::new_licensee_code_map(0x01), "Nintendo R&D1");
    assert_eq!(rubc::globals::cbg_flag_map(0x80), "CGB/GB");
}

#[test]
fn test_opcode_lengths() {
    assert_eq!(rubc::globals::opcode_length(0x00), 1);
    assert_eq!(rubc::globals::opcode_length(0x01), 3);
    assert_eq!(rubc::globals::opcode_length(0x06), 2);
    assert_eq!(rubc::globals::opcode_length(0xCB), 1);
    assert_eq!(rubc::globals::opcode_length(0xCD), 3);
    assert_eq!(rubc::globals::opcode_length(0xD3), 0);
    assert!(rubc::globals::is_illegal_opcode(0xD3));
    assert!(!rubc::globals::is_illegal_opcode(0xC3));
}
