use rubc::gameboy::{Gameboy, GameboyBuilder};

/// A machine on the flat test bus, as instruction-level vectors use it.
fn test_gb() -> Gameboy {
    GameboyBuilder::new().enable_test_mode().build()
}

#[test]
fn test_add_carry_boundary() {
    // 8-bit add 0xFF + 0x01: result 0x00, Z=1 H=1 C=1 N=0.
    let mut gb = test_gb();
    gb.cpu.a = 0xFF;
    gb.cpu.f = 0x00;
    let c = gb.execute_op_code(0xC6, 0x01).unwrap();
    assert_eq!(gb.cpu.a, 0x00);
    assert_eq!(gb.cpu.f, 0xB0);
    assert_eq!(c, 8);
}

#[test]
fn test_sub_half_borrow_boundary() {
    // 8-bit sub 0x10 - 0x01: result 0x0F, Z=0 H=1 C=0 N=1.
    let mut gb = test_gb();
    gb.cpu.a = 0x10;
    gb.cpu.f = 0x00;
    gb.execute_op_code(0xD6, 0x01).unwrap();
    assert_eq!(gb.cpu.a, 0x0F);
    assert_eq!(gb.cpu.f, 0x60);
}

#[test]
fn test_add_hl_hl_boundary() {
    // ADD HL,HL with HL=0x8000: HL=0x0000, C=1, H=0.
    let mut gb = test_gb();
    gb.cpu.h = 0x80;
    gb.cpu.l = 0x00;
    gb.cpu.f = 0x00;
    gb.execute_op_code(0x29, 0).unwrap();
    assert_eq!(gb.cpu.h, 0x00);
    assert_eq!(gb.cpu.l, 0x00);
    assert_eq!(gb.cpu.f, 0x10);
}

#[test]
fn test_swap_b() {
    // CB 0x30 swaps the nibbles of B and clears all flags.
    let mut gb = test_gb();
    gb.cpu.b = 0xAB;
    gb.cpu.f = 0xF0;
    let c = gb.execute_op_code_cb(0x30).unwrap();
    assert_eq!(gb.cpu.b, 0xBA);
    assert_eq!(gb.cpu.f, 0x00);
    assert_eq!(c, 8);
}

#[test]
fn test_push_pop_round_trip() {
    // PUSH rr then POP rr restores BC, DE and HL exactly.
    let mut gb = test_gb();
    gb.cpu.sp = 0xFFFE;
    gb.cpu.b = 0x12;
    gb.cpu.c = 0x34;
    gb.cpu.d = 0x56;
    gb.cpu.e = 0x78;
    gb.cpu.h = 0x9A;
    gb.cpu.l = 0xBC;
    gb.execute_op_code(0xC5, 0).unwrap();
    gb.cpu.b = 0;
    gb.cpu.c = 0;
    gb.execute_op_code(0xC1, 0).unwrap();
    assert_eq!((gb.cpu.b, gb.cpu.c), (0x12, 0x34));
    gb.execute_op_code(0xD5, 0).unwrap();
    gb.cpu.d = 0;
    gb.cpu.e = 0;
    gb.execute_op_code(0xD1, 0).unwrap();
    assert_eq!((gb.cpu.d, gb.cpu.e), (0x56, 0x78));
    gb.execute_op_code(0xE5, 0).unwrap();
    gb.cpu.h = 0;
    gb.cpu.l = 0;
    gb.execute_op_code(0xE1, 0).unwrap();
    assert_eq!((gb.cpu.h, gb.cpu.l), (0x9A, 0xBC));
}

#[test]
fn test_push_pop_af_masks_flags() {
    // The AF round trip zeroes the low nibble of F by design.
    let mut gb = test_gb();
    gb.cpu.sp = 0xFFFE;
    gb.cpu.a = 0x42;
    gb.cpu.f = 0xB5;
    gb.execute_op_code(0xF5, 0).unwrap();
    gb.cpu.a = 0;
    gb.cpu.f = 0;
    gb.execute_op_code(0xF1, 0).unwrap();
    assert_eq!(gb.cpu.a, 0x42);
    assert_eq!(gb.cpu.f, 0xB0);
}

#[test]
fn test_call_ret_round_trip() {
    // CALL then RET lands on the instruction after the CALL.
    let mut gb = test_gb();
    gb.cpu.sp = 0xFFFE;
    gb.cpu.pc = 0x0200;
    gb.execute_op_code(0xCD, 0x1234).unwrap();
    assert_eq!(gb.cpu.pc, 0x1234);
    gb.execute_op_code(0xC9, 0).unwrap();
    assert_eq!(gb.cpu.pc, 0x0203);
}

#[test]
fn test_di_clears_both_enables() {
    let mut gb = test_gb();
    gb.interrupts_on = true;
    gb.interrupt_enabling = true;
    gb.execute_op_code(0xF3, 0).unwrap();
    assert!(!gb.interrupts_on);
    assert!(!gb.interrupt_enabling);
}

#[test]
fn test_ei_delay_one_instruction() {
    // EI commits the master enable only after the next instruction;
    // a pending interrupt is serviced after that instruction, not
    // during it.
    let mut gb = test_gb();
    // Pending and enabled timer interrupt from the start.
    gb.memory_write(0xFF0F, 0x04);
    gb.memory_write(0xFFFF, 0x04);
    // EI at 0x0100, NOP at 0x0101 (the test controller ROM is zeroed).
    gb.memory_write(0x0100, 0xFB);
    gb.tick().unwrap();
    // EI ran; the commit happened without servicing anything.
    assert_eq!(gb.cpu.pc, 0x0101);
    assert!(gb.interrupts_on);
    assert!(!gb.interrupt_enabling);
    // The next instruction completes, then the interrupt dispatches.
    gb.tick().unwrap();
    assert_eq!(gb.cpu.pc, 0x0050);
    assert!(!gb.interrupts_on);
    assert_eq!(gb.memory_read(0xFF0F) & 0x04, 0);
}

#[test]
fn test_jr_loop_sets_stuck() {
    // JR with offset 0xFE jumps to itself; the stuck detector fires.
    let mut gb = test_gb();
    gb.memory_write(0x0100, 0x18);
    gb.memory_write(0x0101, 0xFE);
    gb.tick().unwrap();
    assert_eq!(gb.cpu.pc, 0x0100);
    assert!(gb.cpu.is_stuck);
    // A stuck machine only idles.
    assert_eq!(gb.tick().unwrap(), 4);
    assert_eq!(gb.cpu.pc, 0x0100);
}

#[test]
fn test_illegal_opcode_fails_tick() {
    let mut gb = test_gb();
    gb.memory_write(0x0100, 0xD3);
    assert!(gb.tick().is_err());
    assert!(gb.cpu.is_stuck);
}

#[test]
fn test_nop_vector_single_step() {
    // A one-instruction vector: preset registers and RAM, step a NOP,
    // and check the full post-state.
    let mut gb = test_gb();
    gb.cpu.a = 0x11;
    gb.cpu.b = 0x22;
    gb.cpu.c = 0x33;
    gb.cpu.d = 0x44;
    gb.cpu.e = 0x55;
    gb.cpu.f = 0x60;
    gb.cpu.h = 0x66;
    gb.cpu.l = 0x77;
    gb.cpu.sp = 0xABCD;
    gb.cpu.pc = 0xC000;
    gb.memory_write(0xC000, 0x00);
    gb.memory_write(0xC777, 0x5E);
    let c = gb.tick().unwrap();
    assert_eq!(c, 4);
    assert_eq!(gb.cpu.pc, 0xC001);
    assert_eq!(
        (gb.cpu.a, gb.cpu.b, gb.cpu.c, gb.cpu.d, gb.cpu.e, gb.cpu.f, gb.cpu.h, gb.cpu.l),
        (0x11, 0x22, 0x33, 0x44, 0x55, 0x60, 0x66, 0x77)
    );
    assert_eq!(gb.cpu.sp, 0xABCD);
    assert_eq!(gb.memory_read(0xC777), 0x5E);
}

#[test]
fn test_ld_hl_and_alu_through_memory() {
    // LD (HL),n then ADC A,(HL) with carry in.
    let mut gb = test_gb();
    gb.cpu.h = 0xC0;
    gb.cpu.l = 0x10;
    gb.execute_op_code(0x36, 0x0F).unwrap();
    assert_eq!(gb.memory_read(0xC010), 0x0F);
    gb.cpu.a = 0x01;
    gb.cpu.f = 0x10;
    gb.execute_op_code(0x8E, 0).unwrap();
    assert_eq!(gb.cpu.a, 0x11);
    assert_eq!(gb.cpu.f, 0x20);
}

#[test]
fn test_daa_after_bcd_add() {
    // 0x15 + 0x27 = 0x3C, adjusted to 0x42 for BCD.
    let mut gb = test_gb();
    gb.cpu.a = 0x15;
    gb.cpu.f = 0x00;
    gb.execute_op_code(0xC6, 0x27).unwrap();
    assert_eq!(gb.cpu.a, 0x3C);
    gb.execute_op_code(0x27, 0).unwrap();
    assert_eq!(gb.cpu.a, 0x42);
    assert_eq!(gb.cpu.f & 0x10, 0);
}

#[test]
fn test_cb_bit_res_set() {
    let mut gb = test_gb();
    gb.cpu.d = 0x08;
    gb.cpu.f = 0x00;
    // BIT 3,D: set -> Z=0, H=1.
    gb.execute_op_code_cb(0x5A).unwrap();
    assert_eq!(gb.cpu.f, 0x20);
    // RES 3,D clears it, SET 0,D sets bit 0.
    gb.execute_op_code_cb(0x9A).unwrap();
    assert_eq!(gb.cpu.d, 0x00);
    gb.execute_op_code_cb(0xC2).unwrap();
    assert_eq!(gb.cpu.d, 0x01);
}

#[test]
fn test_rotates_on_a() {
    let mut gb = test_gb();
    gb.cpu.a = 0x81;
    gb.cpu.f = 0x00;
    // RLCA: 0x81 -> 0x03, C=1, Z always 0.
    gb.execute_op_code(0x07, 0).unwrap();
    assert_eq!(gb.cpu.a, 0x03);
    assert_eq!(gb.cpu.f, 0x10);
    // RRA rotates through the carry.
    gb.execute_op_code(0x1F, 0).unwrap();
    assert_eq!(gb.cpu.a, 0x81);
    assert_eq!(gb.cpu.f, 0x10);
}

#[test]
fn test_jp_and_jr_conditions() {
    let mut gb = test_gb();
    gb.cpu.pc = 0x0100;
    gb.cpu.f = 0x80;
    // JP NZ not taken: 12 cycles, PC past the 3 bytes.
    let c = gb.execute_op_code(0xC2, 0x4000).unwrap();
    assert_eq!(c, 12);
    assert_eq!(gb.cpu.pc, 0x0103);
    // JR Z taken: 12 cycles, signed offset.
    let c = gb.execute_op_code(0x28, 0x10).unwrap();
    assert_eq!(c, 12);
    assert_eq!(gb.cpu.pc, 0x0115);
    // JR backwards.
    let c = gb.execute_op_code(0x18, 0xF0).unwrap();
    assert_eq!(c, 12);
    assert_eq!(gb.cpu.pc, 0x0107);
}

#[test]
fn test_add_sp_and_ld_hl_sp() {
    let mut gb = test_gb();
    gb.cpu.sp = 0xFFF8;
    gb.cpu.f = 0x00;
    // LD HL,SP+8: no carries out of bits 3 or 7 here? 0xF8+0x08 carries both.
    gb.execute_op_code(0xF8, 0x08).unwrap();
    assert_eq!((gb.cpu.h, gb.cpu.l), (0x00, 0x00));
    assert_eq!(gb.cpu.f, 0x30);
    // ADD SP,-8 wraps back.
    gb.execute_op_code(0xE8, 0xF8).unwrap();
    assert_eq!(gb.cpu.sp, 0xFFF0);
}

#[test]
fn test_halt_wakes_without_ime() {
    // HALT with a pending interrupt and the master enable off: the CPU
    // wakes and moves past HALT without dispatching.
    let mut gb = test_gb();
    gb.memory_write(0x0100, 0x76);
    gb.memory_write(0xFF0F, 0x04);
    gb.memory_write(0xFFFF, 0x04);
    // The interrupt stage of the same step already wakes the CPU: halt
    // falls, PC moves past HALT, and nothing is dispatched.
    gb.tick().unwrap();
    assert!(!gb.cpu.halted);
    assert_eq!(gb.cpu.pc, 0x0101);
    // Still pending: the wake did not consume the request.
    assert_eq!(gb.memory_read(0xFF0F) & 0x04, 0x04);
    assert!(!gb.interrupts_on);
}
