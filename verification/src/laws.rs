//! Machine-checked laws of the core: flag hygiene, ROM immutability,
//! banking guarantees, interrupt-enable sequencing, timer overflow
//! behaviour, and the stack and bus round trips.

use vstd::prelude::*;

use crate::alu::{
    combine16, daa_flags, hi8, lemma_combine16_split, lemma_flags_props, lemma_low_nibble_zero,
    lemma_split16_combine, lo8, spec_adc8, spec_add16, spec_add8, spec_add_sp, spec_and8, spec_cp8,
    spec_daa, spec_dec8, spec_flags, spec_inc8, spec_or8, spec_sbc8, spec_sub8, spec_xor8,
};
use crate::cartridge::cart_rom_spec;
use crate::gameboy::{
    bus_read_spec, bus_write_spec, gb_inv, spec_fetch_value, spec_handle_interrupts,
    spec_handle_timer, spec_tick, spec_tima_loop, GbView,
};
use crate::globals::{spec_is_illegal_opcode, IO_DIV, IO_LY, IO_TAC};
use crate::mbc::{mbc1_inv, mbc1_read_spec, mbc1_write_spec, Mbc1View};
use crate::opcodes::{
    spec_alu_apply, spec_call, spec_exec_alu, spec_exec_b0, spec_exec_b0q0, spec_exec_b0q1,
    spec_exec_b0q2, spec_exec_b0q3, spec_exec_b3, spec_exec_b3q0, spec_exec_b3q1, spec_exec_b3q2,
    spec_exec_b3q3, spec_exec_ld, spec_exec_op, spec_pop16_value, spec_push16, spec_ret_plain,
};
use crate::opcodes_cb::spec_exec_cb;
use crate::utils::{wrap16_add, wrap16_sub};

verus! {

/// A bus write never changes the CPU register file or the interrupt
/// master state.
pub proof fn lemma_bus_write_preserves_cpu(g: GbView, address: u16, value: u8)
    ensures
        bus_write_spec(g, address, value).cpu == g.cpu,
        bus_write_spec(g, address, value).interrupts_on == g.interrupts_on,
        bus_write_spec(g, address, value).interrupt_enabling == g.interrupt_enabling,
        bus_write_spec(g, address, value).test_mode == g.test_mode,
{
    reveal(bus_write_spec);
}

/// Whatever an ALU operation computes, the flag byte it produces has a
/// zero low nibble.
pub proof fn lemma_alu_flags_clean(kind: u8, a: u8, v: u8, f: u8)
    ensures
        spec_alu_apply(kind, a, v, f).1 & 0x0F == 0,
{
    reveal(spec_add8);
    reveal(spec_adc8);
    reveal(spec_sub8);
    reveal(spec_sbc8);
    reveal(spec_and8);
    reveal(spec_xor8);
    reveal(spec_or8);
    reveal(spec_cp8);
    broadcast use lemma_flags_props;

}

/// A CB-prefixed instruction either leaves F alone (RES and SET) or
/// writes a flag byte with a zero low nibble.
pub proof fn lemma_cb_flags_clean(g: GbView, op: u8)
    ensures
        spec_exec_cb(g, op).0.cpu.f == g.cpu.f || spec_exec_cb(g, op).0.cpu.f & 0x0F == 0,
{
    reveal(spec_exec_cb);
    broadcast use lemma_flags_props;

    if op >= 0x80 {
        lemma_bus_write_preserves_cpu(g, combine16(g.cpu.h, g.cpu.l), 0);
        reveal(bus_write_spec);
    }
}

/// F hygiene over the low quarter of the opcode map.
#[verifier::rlimit(100)]
#[verifier::spinoff_prover]
proof fn lemma_f_low_nibble_b0(g: GbView, op: u8, value: u16)
    requires
        op < 0x40,
    ensures
        spec_exec_b0(g, op, value).0.cpu.f == g.cpu.f || spec_exec_b0(g, op, value).0.cpu.f & 0x0F
            == 0,
{
    broadcast use lemma_flags_props;
    broadcast use lemma_low_nibble_zero;

    lemma_low_nibble_zero(g.cpu.f, 0);
    reveal(bus_write_spec);
    reveal(spec_inc8);
    reveal(spec_dec8);
    reveal(spec_add16);
    reveal(spec_daa);
    reveal(daa_flags);
    reveal(spec_exec_b0q0);
    reveal(spec_exec_b0q1);
    reveal(spec_exec_b0q2);
    reveal(spec_exec_b0q3);
    if op == 0x27 {
        lemma_daa_flags_clean(g.cpu.a, g.cpu.f);
    }
}

/// The flag byte DAA produces has a zero low nibble: only the N bit
/// survives from the old F, and the rest is rebuilt from flags.
proof fn lemma_daa_flags_clean(a: u8, f: u8)
    ensures
        spec_daa(a, f).1 & 0x0F == 0,
{
    reveal(spec_daa);
    reveal(daa_flags);
    broadcast use lemma_flags_props;

    lemma_low_nibble_zero(f, 0);
    let corr0: u8 = (if crate::alu::flag_h(f) {
        0x06u8
    } else {
        0u8
    }) | (if crate::alu::flag_c(f) {
        0x60u8
    } else {
        0u8
    });
    if crate::alu::flag_n(f) {
        let r = crate::utils::wrap8_sub(a, corr0);
        lemma_low_nibble_zero((f & 0x40), spec_flags(r == 0, false, false, corr0 & 0x60 != 0));
    } else {
        let corr: u8 = corr0 | (if (a & 0x0F) > 9 {
            0x06u8
        } else {
            0u8
        }) | (if a > 0x99 {
            0x60u8
        } else {
            0u8
        });
        let r = crate::utils::wrap8_add(a, corr);
        lemma_low_nibble_zero((f & 0x40), spec_flags(r == 0, false, false, corr & 0x60 != 0));
    }
}

/// F hygiene over the load quarter: no load touches F.
#[verifier::rlimit(100)]
#[verifier::spinoff_prover]
proof fn lemma_f_low_nibble_ld(g: GbView, op: u8)
    requires
        0x40 <= op < 0x80,
    ensures
        spec_exec_ld(g, op).0.cpu.f == g.cpu.f,
{
    reveal(bus_write_spec);
    reveal(spec_exec_ld);
}

/// F hygiene over the ALU quarter.
#[verifier::rlimit(100)]
#[verifier::spinoff_prover]
proof fn lemma_f_low_nibble_alu(g: GbView, op: u8)
    requires
        0x80 <= op < 0xC0,
    ensures
        spec_exec_alu(g, op).0.cpu.f & 0x0F == 0,
{
    reveal(spec_exec_alu);
    lemma_alu_flags_clean((op >> 3) & 0x07, g.cpu.a, crate::opcodes::spec_src(g, op & 0x07), g.cpu.f);
}

/// F hygiene over the high quarter of the opcode map.
#[verifier::rlimit(100)]
#[verifier::spinoff_prover]
proof fn lemma_f_low_nibble_b3(g: GbView, op: u8, value: u16)
    requires
        0xC0 <= op,
        !spec_is_illegal_opcode(op),
    ensures
        spec_exec_b3(g, op, value).0.cpu.f == g.cpu.f || spec_exec_b3(g, op, value).0.cpu.f & 0x0F
            == 0,
{
    broadcast use lemma_flags_props;
    broadcast use lemma_low_nibble_zero;

    lemma_low_nibble_zero(g.cpu.f, 0);
    reveal(bus_write_spec);
    reveal(spec_add_sp);
    reveal(spec_exec_b3q0);
    reveal(spec_exec_b3q1);
    reveal(spec_exec_b3q2);
    reveal(spec_exec_b3q3);
    lemma_alu_flags_clean(0, g.cpu.a, lo8(value), g.cpu.f);
    lemma_alu_flags_clean(1, g.cpu.a, lo8(value), g.cpu.f);
    lemma_alu_flags_clean(2, g.cpu.a, lo8(value), g.cpu.f);
    lemma_alu_flags_clean(3, g.cpu.a, lo8(value), g.cpu.f);
    lemma_alu_flags_clean(4, g.cpu.a, lo8(value), g.cpu.f);
    lemma_alu_flags_clean(5, g.cpu.a, lo8(value), g.cpu.f);
    lemma_alu_flags_clean(6, g.cpu.a, lo8(value), g.cpu.f);
    lemma_alu_flags_clean(7, g.cpu.a, lo8(value), g.cpu.f);
    if op == 0xCB {
        lemma_cb_flags_clean(
            crate::opcodes::adv_pc(g, 2),
            bus_read_spec(g, wrap16_add(g.cpu.pc, 1)),
        );
    }
    if op == 0xF1 {
        lemma_low_nibble_zero(lo8(spec_pop16_value(g)), 0);
    }
}

/// Every write an opcode makes to the F register leaves its low nibble
/// zero: after any defined opcode, F is either untouched or reads back
/// with bits 0..=3 clear.
pub proof fn lemma_f_low_nibble(g: GbView, op: u8, value: u16)
    requires
        !spec_is_illegal_opcode(op),
    ensures
        spec_exec_op(g, op, value).0.cpu.f == g.cpu.f || spec_exec_op(g, op, value).0.cpu.f & 0x0F
            == 0,
{
    if op < 0x40 {
        lemma_f_low_nibble_b0(g, op, value);
    } else if op < 0x80 {
        lemma_f_low_nibble_ld(g, op);
    } else if op < 0xC0 {
        lemma_f_low_nibble_alu(g, op);
    } else {
        lemma_f_low_nibble_b3(g, op, value);
    }
}

/// A bus write into cartridge ROM space never changes a real mapper's
/// ROM image, and never changes flat memory.
pub proof fn lemma_rom_immutable(g: GbView, address: u16, value: u8)
    requires
        address <= 0x7FFF,
        !(g.cart is Dummy),
    ensures
        cart_rom_spec(bus_write_spec(g, address, value).cart) == cart_rom_spec(g.cart),
        bus_write_spec(g, address, value).mem == g.mem,
{
    reveal(bus_write_spec);
}

/// With MBC1 in mode 0, guest reads below 0x4000 return the first ROM
/// bank verbatim.
pub proof fn lemma_mbc1_mode0_low_read(m: Mbc1View, address: usize)
    requires
        mbc1_inv(m),
        m.mode == 0,
        address <= 0x3FFF,
    ensures
        mbc1_read_spec(m, address) == m.rom[address as int],
{
}

/// A bank-select write of any value leaves MBC1's ROM bank select
/// nonzero: a masked result of zero is promoted to one.
pub proof fn lemma_mbc1_bank_select_nonzero(m: Mbc1View, address: usize, value: u8)
    requires
        mbc1_inv(m),
        0x2000 <= address <= 0x3FFF,
    ensures
        mbc1_write_spec(m, address, value).rom_bank_select >= 1,
        mbc1_write_spec(m, address, value).rom_bank_select != 0,
{
}

/// DI drops both the interrupt master enable and the pending EI latch,
/// whatever state it runs from.
pub proof fn lemma_di_disables_interrupts(g: GbView, value: u16)
    ensures
        !spec_exec_op(g, 0xF3, value).0.interrupts_on,
        !spec_exec_op(g, 0xF3, value).0.interrupt_enabling,
{
    reveal(spec_exec_b3q3);
}

/// EI only latches: immediately after EI executes, the master enable
/// is what it was, and the latch is set.
pub proof fn lemma_ei_latches(g: GbView, value: u16)
    ensures
        spec_exec_op(g, 0xFB, value).0.interrupt_enabling,
        spec_exec_op(g, 0xFB, value).0.interrupts_on == g.interrupts_on,
{
    reveal(spec_exec_b3q3);
}

/// The step after EI commits the master enable without dispatching
/// anything: no handler runs before the following instruction has
/// executed, whatever interrupts are pending.
pub proof fn lemma_ei_commit_services_nothing(g: GbView)
    requires
        g.interrupt_enabling,
    ensures
        spec_handle_interrupts(g) == (
            GbView { interrupts_on: true, interrupt_enabling: false, ..g },
            0u64,
        ),
{
}

/// One pass of the TIMA drain raises at most one timer request, and
/// whenever it raises one, TIMA was reloaded from TMA.
pub proof fn lemma_tima_overflow(counter: u64, tima: u8, tma: u8, iflag: u8, freq: u64)
    ensures
        ({
            let r = spec_tima_loop(counter, tima, tma, iflag, freq);
            r.2 == iflag || (r.2 == iflag | 0x04 && r.1 == tma)
        }),
    decreases counter,
{
    if freq == 0 || counter < freq {
    } else {
        let c2 = (counter - freq) as u64;
        if tima == 0xFF {
        } else {
            lemma_tima_overflow(c2, crate::utils::wrap8_add(tima, 1), tma, iflag, freq);
        }
    }
}

/// The guest-visible region where a plain byte cell sits behind the
/// bus: work RAM, its echo, video RAM, OAM, high RAM, the interrupt
/// enable register, and the I/O page without the timer registers, the
/// serial-start control case, and the stubbed LY.
pub open spec fn plain_bus_cell(g: GbView, address: u16) -> bool {
    if g.test_mode {
        address >= 0x8000
    } else {
        &&& address >= 0x8000
        &&& !(0xA000 <= address <= 0xBFFF)
        &&& address != IO_DIV
        &&& address != IO_TAC
        &&& address != IO_LY
    }
}

/// Writing a plain cell and reading it back returns the value written:
/// the round trip holds on work RAM, echo RAM, high RAM, and every
/// unreserved I/O address.
pub proof fn lemma_bus_round_trip(g: GbView, address: u16, value: u8)
    requires
        gb_inv(g),
        plain_bus_cell(g, address),
    ensures
        bus_read_spec(bus_write_spec(g, address, value), address) == value,
{
    reveal(bus_read_spec);
    reveal(bus_write_spec);
}

/// PUSH then POP restores the pushed 16-bit value and the stack
/// pointer, provided the two stack cells sit in plain memory; the AF
/// variant additionally masks the flag nibble, which `lo8` of the
/// popped value reflects.
pub proof fn lemma_push_pop_round_trip(g: GbView, v: u16)
    requires
        gb_inv(g),
        plain_bus_cell(g, wrap16_sub(g.cpu.sp, 1)),
        plain_bus_cell(g, wrap16_sub(g.cpu.sp, 2)),
        wrap16_sub(g.cpu.sp, 1) != wrap16_sub(g.cpu.sp, 2),
    ensures
        spec_pop16_value(spec_push16(g, v)) == v,
        wrap16_add(spec_push16(g, v).cpu.sp, 2) == g.cpu.sp,
{
    reveal(bus_read_spec);
    reveal(bus_write_spec);
    broadcast use lemma_combine16_split;

    lemma_split16_combine(v);
    assert(wrap16_add(wrap16_sub(g.cpu.sp, 2), 1) == wrap16_sub(g.cpu.sp, 1));
    assert(wrap16_add(wrap16_sub(g.cpu.sp, 2), 2) == g.cpu.sp);
}

/// CALL then RET resumes at the instruction immediately after the
/// CALL, with the stack pointer restored, provided the two stack cells
/// sit in plain memory.
pub proof fn lemma_call_ret_round_trip(g: GbView, target: u16)
    requires
        gb_inv(g),
        plain_bus_cell(g, wrap16_sub(g.cpu.sp, 1)),
        plain_bus_cell(g, wrap16_sub(g.cpu.sp, 2)),
        wrap16_sub(g.cpu.sp, 1) != wrap16_sub(g.cpu.sp, 2),
    ensures
        spec_call(g, target, true).0.cpu.pc == target,
        spec_ret_plain(spec_call(g, target, true).0).cpu.pc == wrap16_add(g.cpu.pc, 3),
        spec_ret_plain(spec_call(g, target, true).0).cpu.sp == g.cpu.sp,
{
    let ret = wrap16_add(g.cpu.pc, 3);
    let g1 = crate::opcodes::adv_pc(g, 3);
    lemma_bus_write_preserves_cpu(g1, wrap16_sub(g.cpu.sp, 1), hi8(ret));
    lemma_push_pop_round_trip(g1, ret);
    reveal(bus_read_spec);
    reveal(bus_write_spec);
    broadcast use lemma_combine16_split;

    lemma_split16_combine(ret);
    assert(wrap16_add(wrap16_sub(g.cpu.sp, 2), 1) == wrap16_sub(g.cpu.sp, 1));
    assert(wrap16_add(wrap16_sub(g.cpu.sp, 2), 2) == g.cpu.sp);
}


/// The step that executes EI dispatches nothing, whatever interrupts
/// are pending: it costs the plain four cycles, moves PC one byte (no
/// control transfer, no stack push), and only then commits the master
/// enable. Together with `lemma_service_follows_execution` this is the
/// one-instruction delay: the earliest dispatch happens in the next
/// step, after the following instruction has fully executed.
pub proof fn lemma_ei_one_instruction_delay(g: GbView)
    requires
        !g.cpu.halted,
        !g.cpu.is_stuck,
        !g.cpu.stopped,
        bus_read_spec(g, g.cpu.pc) == 0xFB,
    ensures
        spec_tick(g).2,
        spec_tick(g).1 == 4,
        spec_tick(g).0.cpu.pc == wrap16_add(g.cpu.pc, 1),
        spec_tick(g).0.cpu.sp == g.cpu.sp,
        spec_tick(g).0.interrupts_on,
        !spec_tick(g).0.interrupt_enabling,
{
    reveal(crate::opcodes::spec_exec_b3q3);
    let ec = spec_exec_op(g, 0xFB, 0);
    assert(ec.0.cpu.pc == wrap16_add(g.cpu.pc, 1));
    assert(wrap16_add(g.cpu.pc, 1) != g.cpu.pc);
}

/// Within one step of a running machine, the interrupt stage acts on
/// the state the instruction (and the timer) left behind: execution of
/// the instruction at PC strictly precedes any dispatch of that step.
pub proof fn lemma_service_follows_execution(g: GbView)
    requires
        !g.cpu.halted,
        !g.cpu.is_stuck,
        !g.cpu.stopped,
        crate::globals::spec_opcode_length(bus_read_spec(g, g.cpu.pc)) != 0,
    ensures
        ({
            let op = bus_read_spec(g, g.cpu.pc);
            let ec = spec_exec_op(g, op, spec_fetch_value(g, crate::globals::spec_opcode_length(op)));
            let g2 = if !ec.0.cpu.is_stuck && ec.0.cpu.pc == g.cpu.pc && ec.0.cpu.sp == g.cpu.sp
                && !ec.0.cpu.halted {
                GbView { cpu: crate::gameboy::Cpu { is_stuck: true, ..ec.0.cpu }, ..ec.0 }
            } else {
                ec.0
            };
            spec_tick(g).0 == spec_handle_interrupts(spec_handle_timer(g2, ec.1)).0
        }),
{
}

} // verus!
