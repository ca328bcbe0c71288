//! The base instruction set: one handler arm per opcode byte, each
//! proved against the spec-level transition `spec_exec_op`.

use vstd::prelude::*;

use crate::alu::{
    alu_adc8, alu_add16, alu_add8, alu_add_sp, alu_and8, alu_cp8, alu_daa, alu_dec8, alu_inc8,
    alu_or8, alu_sbc8, alu_sub8, alu_xor8, combine16, combine16_exec, flag_c, flag_z, flags_u8,
    hi8, is_flag_c, is_flag_z, lo8, sign_extend16, sign_extend16_exec, spec_adc8, spec_add16,
    spec_add8, spec_add_sp, spec_and8, spec_cp8, spec_daa, spec_dec8, spec_flags, spec_inc8,
    spec_or8, spec_rl_core, spec_rlc_core, spec_rr_core, spec_rrc_core, spec_sbc8, spec_sub8,
    spec_xor8,
};
use crate::bits::spec_bit;
use crate::gameboy::{bus_read_spec, bus_write_spec, gb_inv, Cpu, Gameboy, GbView};
use crate::globals::{is_illegal_opcode, spec_is_illegal_opcode, IO_DIV, IO_KEY1, OpCycles};
use crate::utils::{spec_interrupt_vector, wrap16_add, wrap16_sub};
use crate::GbError;

verus! {

/// 8-bit register for an index in instruction encodings:
/// 0 B, 1 C, 2 D, 3 E, 4 H, 5 L, 7 A (6 selects memory at HL).
pub open spec fn reg8(cpu: Cpu, idx: u8) -> u8 {
    match idx {
        0 => cpu.b,
        1 => cpu.c,
        2 => cpu.d,
        3 => cpu.e,
        4 => cpu.h,
        5 => cpu.l,
        _ => cpu.a,
    }
}

/// The register file with 8-bit register `idx` set to `v`.
pub open spec fn set_reg8(cpu: Cpu, idx: u8, v: u8) -> Cpu {
    match idx {
        0 => Cpu { b: v, ..cpu },
        1 => Cpu { c: v, ..cpu },
        2 => Cpu { d: v, ..cpu },
        3 => Cpu { e: v, ..cpu },
        4 => Cpu { h: v, ..cpu },
        5 => Cpu { l: v, ..cpu },
        _ => Cpu { a: v, ..cpu },
    }
}

/// The BC pair.
pub open spec fn get_bc(cpu: Cpu) -> u16 {
    combine16(cpu.b, cpu.c)
}

/// The DE pair.
pub open spec fn get_de(cpu: Cpu) -> u16 {
    combine16(cpu.d, cpu.e)
}

/// The HL pair.
pub open spec fn get_hl(cpu: Cpu) -> u16 {
    combine16(cpu.h, cpu.l)
}

/// 16-bit pair for an index in instruction encodings:
/// 0 BC, 1 DE, 2 HL, 3 SP.
pub open spec fn get_rr(cpu: Cpu, rr: u8) -> u16 {
    match rr {
        0 => get_bc(cpu),
        1 => get_de(cpu),
        2 => get_hl(cpu),
        _ => cpu.sp,
    }
}

/// The register file with pair `rr` set to `v`.
pub open spec fn set_rr(cpu: Cpu, rr: u8, v: u16) -> Cpu {
    match rr {
        0 => Cpu { b: hi8(v), c: lo8(v), ..cpu },
        1 => Cpu { d: hi8(v), e: lo8(v), ..cpu },
        2 => Cpu { h: hi8(v), l: lo8(v), ..cpu },
        _ => Cpu { sp: v, ..cpu },
    }
}

/// Operand an encoding index names: a register, or memory at HL.
pub open spec fn spec_src(g: GbView, idx: u8) -> u8 {
    if idx == 6 {
        bus_read_spec(g, get_hl(g.cpu))
    } else {
        reg8(g.cpu, idx)
    }
}

/// Machine state after storing to the operand an index names.
pub open spec fn spec_put(g: GbView, idx: u8, v: u8) -> GbView {
    if idx == 6 {
        bus_write_spec(g, get_hl(g.cpu), v)
    } else {
        GbView { cpu: set_reg8(g.cpu, idx, v), ..g }
    }
}

/// Machine state with only PC advanced by `n`.
pub open spec fn adv_pc(g: GbView, n: u16) -> GbView {
    GbView { cpu: Cpu { pc: wrap16_add(g.cpu.pc, n), ..g.cpu }, ..g }
}

/// Machine state after pushing `v`: high byte at SP-1, low byte at
/// SP-2, SP lowered by two.
pub open spec fn spec_push16(g: GbView, v: u16) -> GbView {
    let g1 = bus_write_spec(g, wrap16_sub(g.cpu.sp, 1), hi8(v));
    let g2 = bus_write_spec(g1, wrap16_sub(g.cpu.sp, 2), lo8(v));
    GbView { cpu: Cpu { sp: wrap16_sub(g.cpu.sp, 2), ..g2.cpu }, ..g2 }
}

/// Value popped from the stack: low byte at SP, high byte at SP+1.
pub open spec fn spec_pop16_value(g: GbView) -> u16 {
    combine16(bus_read_spec(g, wrap16_add(g.cpu.sp, 1)), bus_read_spec(g, g.cpu.sp))
}

impl Gameboy {
    /// Fetch the operand an encoding index names.
    pub(crate) fn get_src(&self, idx: u8) -> (r: u8)
        requires
            self.wf(),
            idx < 8,
        ensures
            r == spec_src(self@, idx),
    {
        match idx {
            0 => self.cpu.b,
            1 => self.cpu.c,
            2 => self.cpu.d,
            3 => self.cpu.e,
            4 => self.cpu.h,
            5 => self.cpu.l,
            6 => self.memory_read(combine16_exec(self.cpu.h, self.cpu.l)),
            _ => self.cpu.a,
        }
    }

    /// Store to the operand an encoding index names.
    #[verifier::rlimit(100)]
    #[verifier::spinoff_prover]
    pub(crate) fn put_dst(&mut self, idx: u8, v: u8)
        requires
            old(self).wf(),
            idx < 8,
        ensures
            final(self).wf(),
            final(self)@ == spec_put(old(self)@, idx, v),
    {
        match idx {
            0 => self.cpu.b = v,
            1 => self.cpu.c = v,
            2 => self.cpu.d = v,
            3 => self.cpu.e = v,
            4 => self.cpu.h = v,
            5 => self.cpu.l = v,
            6 => {
                let hl = combine16_exec(self.cpu.h, self.cpu.l);
                self.memory_write(hl, v);
            },
            _ => self.cpu.a = v,
        }
        proof {
            assert(self@ =~~= spec_put(old(self)@, idx, v));
        }
    }

    /// Push a 16-bit value.
    #[verifier::rlimit(100)]
    #[verifier::spinoff_prover]
    pub(crate) fn push16(&mut self, v: u16)
        requires
            old(self).wf(),
        ensures
            final(self).wf(),
            final(self)@ == spec_push16(old(self)@, v),
    {
        let sp = self.cpu.sp;
        self.memory_write(sp.wrapping_sub(1), (v >> 8) as u8);
        self.memory_write(sp.wrapping_sub(2), v as u8);
        self.cpu.sp = sp.wrapping_sub(2);
        proof {
            assert(self@ =~~= spec_push16(old(self)@, v));
        }
    }

    /// Pop a 16-bit value; SP rises by two.
    #[verifier::rlimit(100)]
    #[verifier::spinoff_prover]
    pub(crate) fn pop16(&mut self) -> (r: u16)
        requires
            old(self).wf(),
        ensures
            final(self).wf(),
            r == spec_pop16_value(old(self)@),
            final(self)@ == (GbView {
                cpu: Cpu { sp: wrap16_add(old(self)@.cpu.sp, 2), ..old(self)@.cpu },
                ..old(self)@
            }),
    {
        let lo = self.memory_read(self.cpu.sp);
        let hi = self.memory_read(self.cpu.sp.wrapping_add(1));
        self.cpu.sp = self.cpu.sp.wrapping_add(2);
        proof {
            assert(self@ =~~= (GbView {
                cpu: Cpu { sp: wrap16_add(old(self)@.cpu.sp, 2), ..old(self)@.cpu },
                ..old(self)@
            }));
        }
        combine16_exec(hi, lo)
    }
}

/// Transition of a register-to-register load (0x40..=0x7F): move one
/// byte, advance PC; 0x76 is HALT, which only sets the halt flag.
#[verifier::opaque]
pub open spec fn spec_exec_ld(g: GbView, op: u8) -> (GbView, OpCycles) {
    if op == 0x76 {
        (GbView { cpu: Cpu { halted: true, ..g.cpu }, ..g }, 4)
    } else {
        let dst = (op >> 3) & 0x07;
        let src = op & 0x07;
        let v = spec_src(g, src);
        let g1 = spec_put(g, dst, v);
        (adv_pc(g1, 1), if src == 6 || dst == 6 {
            8
        } else {
            4
        })
    }
}

/// Transition of an accumulator ALU instruction (0x80..=0xBF).
#[verifier::opaque]
pub open spec fn spec_exec_alu(g: GbView, op: u8) -> (GbView, OpCycles) {
    let kind = (op >> 3) & 0x07;
    let src = op & 0x07;
    let v = spec_src(g, src);
    let af = spec_alu_apply(kind, g.cpu.a, v, g.cpu.f);
    let g1 = GbView { cpu: Cpu { a: af.0, f: af.1, ..g.cpu }, ..g };
    (adv_pc(g1, 1), if src == 6 {
        8
    } else {
        4
    })
}

/// Accumulator and flags after ALU operation `kind` (the middle bits
/// of the opcode): ADD, ADC, SUB, SBC, AND, XOR, OR, CP.
pub open spec fn spec_alu_apply(kind: u8, a: u8, v: u8, f: u8) -> (u8, u8) {
    match kind {
        0 => spec_add8(a, v),
        1 => spec_adc8(a, v, flag_c(f)),
        2 => spec_sub8(a, v),
        3 => spec_sbc8(a, v, flag_c(f)),
        4 => spec_and8(a, v),
        5 => spec_xor8(a, v),
        6 => spec_or8(a, v),
        _ => (a, spec_cp8(a, v)),
    }
}

impl Gameboy {
    /// Register-to-register loads and HALT (0x40..=0x7F).
    #[verifier::rlimit(100)]
    #[verifier::spinoff_prover]
    fn exec_ld_block(&mut self, op: u8) -> (c: OpCycles)
        requires
            old(self).wf(),
            0x40 <= op < 0x80,
        ensures
            final(self).wf(),
            (final(self)@, c) == spec_exec_ld(old(self)@, op),
            c <= 24,
    {
        proof {
            reveal(spec_exec_ld);
        }
        if op == 0x76 {
            self.cpu.halted = true;
            proof {
                assert(self@ =~~= spec_exec_ld(old(self)@, op).0);
            }
            return 4;
        }
        let dst = (op >> 3) & 0x07;
        let src = op & 0x07;
        proof {
            broadcast use crate::alu::lemma_u8_and_bounds;

        }
        let v = self.get_src(src);
        self.put_dst(dst, v);
        self.cpu.pc = self.cpu.pc.wrapping_add(1);
        proof {
            assert(self@ =~~= spec_exec_ld(old(self)@, op).0);
        }
        if src == 6 || dst == 6 {
            8
        } else {
            4
        }
    }

    /// Accumulator arithmetic and logic (0x80..=0xBF).
    #[verifier::rlimit(100)]
    #[verifier::spinoff_prover]
    fn exec_alu_block(&mut self, op: u8) -> (c: OpCycles)
        requires
            old(self).wf(),
            0x80 <= op < 0xC0,
        ensures
            final(self).wf(),
            (final(self)@, c) == spec_exec_alu(old(self)@, op),
            c <= 24,
    {
        proof {
            reveal(spec_exec_alu);
        }
        let kind = (op >> 3) & 0x07;
        let src = op & 0x07;
        proof {
            broadcast use crate::alu::lemma_u8_and_bounds;

        }
        let v = self.get_src(src);
        let af = match kind {
            0 => alu_add8(self.cpu.a, v),
            1 => alu_adc8(self.cpu.a, v, is_flag_c(self.cpu.f)),
            2 => alu_sub8(self.cpu.a, v),
            3 => alu_sbc8(self.cpu.a, v, is_flag_c(self.cpu.f)),
            4 => alu_and8(self.cpu.a, v),
            5 => alu_xor8(self.cpu.a, v),
            6 => alu_or8(self.cpu.a, v),
            _ => (self.cpu.a, alu_cp8(self.cpu.a, v)),
        };
        self.cpu.a = af.0;
        self.cpu.f = af.1;
        self.cpu.pc = self.cpu.pc.wrapping_add(1);
        proof {
            assert(self@ =~~= spec_exec_alu(old(self)@, op).0);
        }
        if src == 6 {
            8
        } else {
            4
        }
    }
}

/// Transition of a relative jump: PC moves past the two-byte
/// instruction, plus the signed offset when taken.
pub open spec fn spec_jr(g: GbView, value: u16, taken: bool) -> (GbView, OpCycles) {
    if taken {
        (
            GbView {
                cpu: Cpu {
                    pc: wrap16_add(wrap16_add(g.cpu.pc, sign_extend16(lo8(value))), 2),
                    ..g.cpu
                },
                ..g
            },
            12,
        )
    } else {
        (adv_pc(g, 2), 8)
    }
}

/// Transition of an 8-bit increment or decrement on operand `idx`.
pub open spec fn spec_incdec(g: GbView, idx: u8, dec: bool) -> GbView {
    let v = spec_src(g, idx);
    let vf = if dec {
        spec_dec8(v, g.cpu.f)
    } else {
        spec_inc8(v, g.cpu.f)
    };
    let g1 = spec_put(g, idx, vf.0);
    GbView { cpu: Cpu { f: vf.1, pc: wrap16_add(g1.cpu.pc, 1), ..g1.cpu }, ..g1 }
}

/// Transition of STOP: on CGB a prepared speed switch toggles the
/// clock and rewrites KEY1, and DIV resets; PC skips the pad byte.
pub open spec fn spec_stop(g: GbView) -> GbView {
    if g.cgb_mode {
        let key1 = bus_read_spec(g, IO_KEY1);
        let g1 = if spec_bit(key1, 0) {
            bus_write_spec(GbView { double_speed: !g.double_speed, ..g }, IO_KEY1, key1 ^ 0x81)
        } else {
            g
        };
        let g2 = bus_write_spec(g1, IO_DIV, 0);
        adv_pc(g2, 2)
    } else {
        adv_pc(g, 2)
    }
}

/// Transition of the irregular low quarter of the opcode map
/// (0x00..=0x3F).
pub open spec fn spec_exec_b0(g: GbView, op: u8, value: u16) -> (GbView, OpCycles) {
    if op < 0x10 {
        spec_exec_b0q0(g, op, value)
    } else if op < 0x20 {
        spec_exec_b0q1(g, op, value)
    } else if op < 0x30 {
        spec_exec_b0q2(g, op, value)
    } else {
        spec_exec_b0q3(g, op, value)
    }
}

/// Opcodes 0x00..=0x0F: 16-bit BC ops, BC-indirect moves, B and C
/// steps, the around-the-byte accumulator rotates, and LD (u16),SP.
#[verifier::opaque]
pub open spec fn spec_exec_b0q0(g: GbView, op: u8, value: u16) -> (GbView, OpCycles) {
    let cpu = g.cpu;
    let f = cpu.f;
    match op {
        0x00 => (adv_pc(g, 1), 4),
        0x01 => (adv_pc(GbView { cpu: set_rr(cpu, 0, value), ..g }, 3), 4),
        0x02 => (adv_pc(bus_write_spec(g, get_bc(cpu), cpu.a), 1), 4),
        0x03 => (adv_pc(GbView { cpu: set_rr(cpu, 0, wrap16_add(get_bc(cpu), 1)), ..g }, 1), 4),
        0x04 => (spec_incdec(g, 0, false), 4),
        0x05 => (spec_incdec(g, 0, true), 4),
        0x06 => (adv_pc(spec_put(g, 0, lo8(value)), 2), 4),
        0x07 => (
            adv_pc(
                GbView {
                    cpu: Cpu {
                        a: spec_rlc_core(cpu.a).0,
                        f: spec_flags(false, false, false, spec_rlc_core(cpu.a).1),
                        ..cpu
                    },
                    ..g
                },
                1,
            ),
            4,
        ),
        0x08 => (
            adv_pc(
                bus_write_spec(
                    bus_write_spec(g, value, lo8(cpu.sp)),
                    wrap16_add(value, 1),
                    hi8(cpu.sp),
                ),
                3,
            ),
            20,
        ),
        0x09 => (spec_add_hl(g, 0), 8),
        0x0A => (
            adv_pc(GbView { cpu: Cpu { a: bus_read_spec(g, get_bc(cpu)), ..cpu }, ..g }, 1),
            8,
        ),
        0x0B => (adv_pc(GbView { cpu: set_rr(cpu, 0, wrap16_sub(get_bc(cpu), 1)), ..g }, 1), 8),
        0x0C => (spec_incdec(g, 1, false), 4),
        0x0D => (spec_incdec(g, 1, true), 4),
        0x0E => (adv_pc(spec_put(g, 1, lo8(value)), 2), 8),
        _ => (
            adv_pc(
                GbView {
                    cpu: Cpu {
                        a: spec_rrc_core(cpu.a).0,
                        f: spec_flags(false, false, false, spec_rrc_core(cpu.a).1),
                        ..cpu
                    },
                    ..g
                },
                1,
            ),
            4,
        ),
    }
}

/// Opcodes 0x10..=0x1F: STOP, the DE column, the through-carry
/// accumulator rotates, and the unconditional relative jump.
#[verifier::opaque]
pub open spec fn spec_exec_b0q1(g: GbView, op: u8, value: u16) -> (GbView, OpCycles) {
    let cpu = g.cpu;
    let f = cpu.f;
    match op {
        0x10 => (spec_stop(g), 4),
        0x11 => (adv_pc(GbView { cpu: set_rr(cpu, 1, value), ..g }, 3), 12),
        0x12 => (adv_pc(bus_write_spec(g, get_de(cpu), cpu.a), 1), 8),
        0x13 => (adv_pc(GbView { cpu: set_rr(cpu, 1, wrap16_add(get_de(cpu), 1)), ..g }, 1), 8),
        0x14 => (spec_incdec(g, 2, false), 4),
        0x15 => (spec_incdec(g, 2, true), 4),
        0x16 => (adv_pc(spec_put(g, 2, lo8(value)), 2), 8),
        0x17 => (
            adv_pc(
                GbView {
                    cpu: Cpu {
                        a: spec_rl_core(cpu.a, flag_c(f)).0,
                        f: spec_flags(false, false, false, spec_rl_core(cpu.a, flag_c(f)).1),
                        ..cpu
                    },
                    ..g
                },
                1,
            ),
            4,
        ),
        0x18 => spec_jr(g, value, true),
        0x19 => (spec_add_hl(g, 1), 8),
        0x1A => (
            adv_pc(GbView { cpu: Cpu { a: bus_read_spec(g, get_de(cpu)), ..cpu }, ..g }, 1),
            8,
        ),
        0x1B => (adv_pc(GbView { cpu: set_rr(cpu, 1, wrap16_sub(get_de(cpu), 1)), ..g }, 1), 8),
        0x1C => (spec_incdec(g, 3, false), 4),
        0x1D => (spec_incdec(g, 3, true), 4),
        0x1E => (adv_pc(spec_put(g, 3, lo8(value)), 2), 8),
        _ => (
            adv_pc(
                GbView {
                    cpu: Cpu {
                        a: spec_rr_core(cpu.a, flag_c(f)).0,
                        f: spec_flags(false, false, false, spec_rr_core(cpu.a, flag_c(f)).1),
                        ..cpu
                    },
                    ..g
                },
                1,
            ),
            4,
        ),
    }
}

/// Opcodes 0x20..=0x2F: the HL column with post-increment moves,
/// DAA, CPL, and the NZ/Z relative jumps.
#[verifier::opaque]
pub open spec fn spec_exec_b0q2(g: GbView, op: u8, value: u16) -> (GbView, OpCycles) {
    let cpu = g.cpu;
    let f = cpu.f;
    match op {
        0x20 => spec_jr(g, value, !flag_z(f)),
        0x21 => (adv_pc(GbView { cpu: set_rr(cpu, 2, value), ..g }, 3), 12),
        0x22 => (
            adv_pc(
                GbView {
                    cpu: set_rr(
                        bus_write_spec(g, get_hl(cpu), cpu.a).cpu,
                        2,
                        wrap16_add(get_hl(cpu), 1),
                    ),
                    ..bus_write_spec(g, get_hl(cpu), cpu.a)
                },
                1,
            ),
            8,
        ),
        0x23 => (adv_pc(GbView { cpu: set_rr(cpu, 2, wrap16_add(get_hl(cpu), 1)), ..g }, 1), 8),
        0x24 => (spec_incdec(g, 4, false), 4),
        0x25 => (spec_incdec(g, 4, true), 4),
        0x26 => (adv_pc(spec_put(g, 4, lo8(value)), 2), 8),
        0x27 => (
            adv_pc(
                GbView {
                    cpu: Cpu { a: spec_daa(cpu.a, f).0, f: spec_daa(cpu.a, f).1, ..cpu },
                    ..g
                },
                1,
            ),
            4,
        ),
        0x28 => spec_jr(g, value, flag_z(f)),
        0x29 => (spec_add_hl(g, 2), 8),
        0x2A => (
            adv_pc(
                GbView {
                    cpu: set_rr(
                        Cpu { a: bus_read_spec(g, get_hl(cpu)), ..cpu },
                        2,
                        wrap16_add(get_hl(cpu), 1),
                    ),
                    ..g
                },
                1,
            ),
            8,
        ),
        0x2B => (adv_pc(GbView { cpu: set_rr(cpu, 2, wrap16_sub(get_hl(cpu), 1)), ..g }, 1), 8),
        0x2C => (spec_incdec(g, 5, false), 4),
        0x2D => (spec_incdec(g, 5, true), 4),
        0x2E => (adv_pc(spec_put(g, 5, lo8(value)), 2), 8),
        _ => (
            adv_pc(
                GbView {
                    cpu: Cpu {
                        a: !cpu.a,
                        f: spec_flags(flag_z(f), true, true, flag_c(f)),
                        ..cpu
                    },
                    ..g
                },
                1,
            ),
            4,
        ),
    }
}

/// Opcodes 0x30..=0x3F: the SP column with post-decrement moves,
/// memory increments at HL, SCF, CCF, and the NC/C relative jumps.
#[verifier::opaque]
pub open spec fn spec_exec_b0q3(g: GbView, op: u8, value: u16) -> (GbView, OpCycles) {
    let cpu = g.cpu;
    let f = cpu.f;
    match op {
        0x30 => spec_jr(g, value, !flag_c(f)),
        0x31 => (adv_pc(GbView { cpu: set_rr(cpu, 3, value), ..g }, 3), 12),
        0x32 => (
            adv_pc(
                GbView {
                    cpu: set_rr(
                        bus_write_spec(g, get_hl(cpu), cpu.a).cpu,
                        2,
                        wrap16_sub(get_hl(cpu), 1),
                    ),
                    ..bus_write_spec(g, get_hl(cpu), cpu.a)
                },
                1,
            ),
            8,
        ),
        0x33 => (adv_pc(GbView { cpu: set_rr(cpu, 3, wrap16_add(cpu.sp, 1)), ..g }, 1), 8),
        0x34 => (spec_incdec(g, 6, false), 12),
        0x35 => (spec_incdec(g, 6, true), 12),
        0x36 => (adv_pc(spec_put(g, 6, lo8(value)), 2), 12),
        0x37 => (
            adv_pc(
                GbView {
                    cpu: Cpu { f: spec_flags(flag_z(f), false, false, true), ..cpu },
                    ..g
                },
                1,
            ),
            4,
        ),
        0x38 => spec_jr(g, value, flag_c(f)),
        0x39 => (spec_add_hl(g, 3), 8),
        0x3A => (
            adv_pc(
                GbView {
                    cpu: set_rr(
                        Cpu { a: bus_read_spec(g, get_hl(cpu)), ..cpu },
                        2,
                        wrap16_sub(get_hl(cpu), 1),
                    ),
                    ..g
                },
                1,
            ),
            8,
        ),
        0x3B => (adv_pc(GbView { cpu: set_rr(cpu, 3, wrap16_sub(cpu.sp, 1)), ..g }, 1), 8),
        0x3C => (spec_incdec(g, 7, false), 4),
        0x3D => (spec_incdec(g, 7, true), 4),
        0x3E => (adv_pc(spec_put(g, 7, lo8(value)), 2), 8),
        _ => (
            adv_pc(
                GbView {
                    cpu: Cpu { f: spec_flags(flag_z(f), false, false, !flag_c(f)), ..cpu },
                    ..g
                },
                1,
            ),
            4,
        ),
    
    }
}

/// Transition of ADD HL,rr.
pub open spec fn spec_add_hl(g: GbView, rr: u8) -> GbView {
    let hf = spec_add16(get_hl(g.cpu), get_rr(g.cpu, rr), g.cpu.f);
    adv_pc(
        GbView { cpu: Cpu { h: hi8(hf.0), l: lo8(hf.0), f: hf.1, ..g.cpu }, ..g },
        1,
    )
}


impl Gameboy {
    /// The 16-bit pair an encoding index names.
    #[verifier::rlimit(100)]
    #[verifier::spinoff_prover]
    fn get_rr16(&self, rr: u8) -> (r: u16)
        ensures
            r == get_rr(self.cpu, rr),
    {
        match rr {
            0 => combine16_exec(self.cpu.b, self.cpu.c),
            1 => combine16_exec(self.cpu.d, self.cpu.e),
            2 => combine16_exec(self.cpu.h, self.cpu.l),
            _ => self.cpu.sp,
        }
    }

    /// Store to the 16-bit pair an encoding index names.
    #[verifier::rlimit(100)]
    #[verifier::spinoff_prover]
    fn set_rr16(&mut self, rr: u8, v: u16)
        ensures
            final(self)@ == (GbView { cpu: set_rr(old(self).cpu, rr, v), ..old(self)@ }),
    {
        match rr {
            0 => {
                self.cpu.b = (v >> 8) as u8;
                self.cpu.c = v as u8;
            },
            1 => {
                self.cpu.d = (v >> 8) as u8;
                self.cpu.e = v as u8;
            },
            2 => {
                self.cpu.h = (v >> 8) as u8;
                self.cpu.l = v as u8;
            },
            _ => {
                self.cpu.sp = v;
            },
        }
        proof {
            assert(self@ =~~= (GbView { cpu: set_rr(old(self).cpu, rr, v), ..old(self)@ }));
        }
    }

    /// Relative jump on a decided condition.
    #[verifier::rlimit(100)]
    #[verifier::spinoff_prover]
    fn jr(&mut self, value: u16, taken: bool) -> (c: OpCycles)
        ensures
            (final(self)@, c) == spec_jr(old(self)@, value, taken),
            c <= 24,
    {
        if taken {
            self.cpu.pc = self.cpu.pc.wrapping_add(sign_extend16_exec(value as u8)).wrapping_add(
                2,
            );
            proof {
                assert(self@ =~~= spec_jr(old(self)@, value, true).0);
            }
            12
        } else {
            self.cpu.pc = self.cpu.pc.wrapping_add(2);
            proof {
                assert(self@ =~~= spec_jr(old(self)@, value, false).0);
            }
            8
        }
    }

    /// 8-bit increment or decrement of the operand `idx` names.
    #[verifier::rlimit(100)]
    #[verifier::spinoff_prover]
    fn incdec(&mut self, idx: u8, dec: bool)
        requires
            old(self).wf(),
            idx < 8,
        ensures
            final(self).wf(),
            final(self)@ == spec_incdec(old(self)@, idx, dec),
    {
        let v = self.get_src(idx);
        let vf = if dec {
            alu_dec8(v, self.cpu.f)
        } else {
            alu_inc8(v, self.cpu.f)
        };
        self.put_dst(idx, vf.0);
        self.cpu.f = vf.1;
        self.cpu.pc = self.cpu.pc.wrapping_add(1);
        proof {
            assert(self@ =~~= spec_incdec(old(self)@, idx, dec));
        }
    }

    /// ADD HL,rr.
    #[verifier::rlimit(100)]
    #[verifier::spinoff_prover]
    fn add_hl(&mut self, rr: u8)
        ensures
            final(self)@ == spec_add_hl(old(self)@, rr),
    {
        let hl = combine16_exec(self.cpu.h, self.cpu.l);
        let other = self.get_rr16(rr);
        let hf = alu_add16(hl, other, self.cpu.f);
        self.cpu.h = (hf.0 >> 8) as u8;
        self.cpu.l = hf.0 as u8;
        self.cpu.f = hf.1;
        self.cpu.pc = self.cpu.pc.wrapping_add(1);
        proof {
            assert(self@ =~~= spec_add_hl(old(self)@, rr));
        }
    }

    /// STOP: CGB speed switching and the skipped pad byte.
    #[verifier::rlimit(100)]
    #[verifier::spinoff_prover]
    fn stop_op(&mut self)
        requires
            old(self).wf(),
        ensures
            final(self).wf(),
            final(self)@ == spec_stop(old(self)@),
    {
        if self.cgb_mode {
            let key1 = self.memory_read(IO_KEY1);
            if crate::bits::is_bit_set(key1, 0) {
                self.double_speed = !self.double_speed;
                self.memory_write(IO_KEY1, key1 ^ 0x81);
            }
            self.memory_write(IO_DIV, 0);
        }
        self.cpu.pc = self.cpu.pc.wrapping_add(2);
        proof {
            assert(self@ =~~= spec_stop(old(self)@));
        }
    }

    /// Opcodes 0x00..=0x07.
    #[verifier::rlimit(100)]
    #[verifier::spinoff_prover]
    fn exec_b0q0a(&mut self, op: u8, value: u16) -> (c: OpCycles)
        requires
            old(self).wf(),
            0x00 <= op <= 0x07,
        ensures
            final(self).wf(),
            (final(self)@, c) == spec_exec_b0q0(old(self)@, op, value),
            c <= 24,
    {
        proof {
            reveal(spec_exec_b0q0);
        }
        match op {
            0x00 => {
                self.cpu.pc = self.cpu.pc.wrapping_add(1);
                proof {
                    assert(self@ =~~= spec_exec_b0q0(old(self)@, op, value).0);
                }
                4
            },
            0x01 => {
                self.set_rr16(0, value);
                self.cpu.pc = self.cpu.pc.wrapping_add(3);
                proof {
                    assert(self@ =~~= spec_exec_b0q0(old(self)@, op, value).0);
                }
                4
            },
            0x02 => {
                let addr = combine16_exec(self.cpu.b, self.cpu.c);
                self.memory_write(addr, self.cpu.a);
                self.cpu.pc = self.cpu.pc.wrapping_add(1);
                proof {
                    assert(self@ =~~= spec_exec_b0q0(old(self)@, op, value).0);
                }
                4
            },
            0x03 => {
                let v = combine16_exec(self.cpu.b, self.cpu.c).wrapping_add(1);
                self.set_rr16(0, v);
                self.cpu.pc = self.cpu.pc.wrapping_add(1);
                proof {
                    assert(self@ =~~= spec_exec_b0q0(old(self)@, op, value).0);
                }
                4
            },
            0x04 => {
                self.incdec(0, false);
                4
            },
            0x05 => {
                self.incdec(0, true);
                4
            },
            0x06 => {
                self.put_dst(0, value as u8);
                self.cpu.pc = self.cpu.pc.wrapping_add(2);
                proof {
                    assert(self@ =~~= spec_exec_b0q0(old(self)@, op, value).0);
                }
                4
            },
            _ => {
                let rc = crate::alu::alu_rlc(self.cpu.a);
                self.cpu.a = rc.0;
                self.cpu.f = flags_u8(false, false, false, rc.1);
                self.cpu.pc = self.cpu.pc.wrapping_add(1);
                proof {
                    assert(self@ =~~= spec_exec_b0q0(old(self)@, op, value).0);
                }
                4
            },
        }
    }

    /// Opcodes 0x08..=0x0F.
    #[verifier::rlimit(100)]
    #[verifier::spinoff_prover]
    fn exec_b0q0b(&mut self, op: u8, value: u16) -> (c: OpCycles)
        requires
            old(self).wf(),
            0x08 <= op <= 0x0F,
        ensures
            final(self).wf(),
            (final(self)@, c) == spec_exec_b0q0(old(self)@, op, value),
            c <= 24,
    {
        proof {
            reveal(spec_exec_b0q0);
        }
        match op {
            0x08 => {
                self.memory_write(value, self.cpu.sp as u8);
                self.memory_write(value.wrapping_add(1), (self.cpu.sp >> 8) as u8);
                self.cpu.pc = self.cpu.pc.wrapping_add(3);
                proof {
                    assert(self@ =~~= spec_exec_b0q0(old(self)@, op, value).0);
                }
                20
            },
            0x09 => {
                self.add_hl(0);
                8
            },
            0x0A => {
                let addr = combine16_exec(self.cpu.b, self.cpu.c);
                self.cpu.a = self.memory_read(addr);
                self.cpu.pc = self.cpu.pc.wrapping_add(1);
                proof {
                    assert(self@ =~~= spec_exec_b0q0(old(self)@, op, value).0);
                }
                8
            },
            0x0B => {
                let v = combine16_exec(self.cpu.b, self.cpu.c).wrapping_sub(1);
                self.set_rr16(0, v);
                self.cpu.pc = self.cpu.pc.wrapping_add(1);
                proof {
                    assert(self@ =~~= spec_exec_b0q0(old(self)@, op, value).0);
                }
                8
            },
            0x0C => {
                self.incdec(1, false);
                4
            },
            0x0D => {
                self.incdec(1, true);
                4
            },
            0x0E => {
                self.put_dst(1, value as u8);
                self.cpu.pc = self.cpu.pc.wrapping_add(2);
                proof {
                    assert(self@ =~~= spec_exec_b0q0(old(self)@, op, value).0);
                }
                8
            },
            _ => {
                let rc = crate::alu::alu_rrc(self.cpu.a);
                self.cpu.a = rc.0;
                self.cpu.f = flags_u8(false, false, false, rc.1);
                self.cpu.pc = self.cpu.pc.wrapping_add(1);
                proof {
                    assert(self@ =~~= spec_exec_b0q0(old(self)@, op, value).0);
                }
                4
            },
        
        }
    }

    /// Opcodes 0x00..=0x0F.
    fn exec_b0q0(&mut self, op: u8, value: u16) -> (c: OpCycles)
        requires
            old(self).wf(),
            0x00 <= op <= 0x0F,
        ensures
            final(self).wf(),
            (final(self)@, c) == spec_exec_b0q0(old(self)@, op, value),
            c <= 24,
    {
        if op < 0x08 {
            self.exec_b0q0a(op, value)
        } else {
            self.exec_b0q0b(op, value)
        }
    }

    /// Opcodes 0x10..=0x13.
    #[verifier::rlimit(100)]
    #[verifier::spinoff_prover]
    fn exec_b0q1ax(&mut self, op: u8, value: u16) -> (c: OpCycles)
        requires
            old(self).wf(),
            0x10 <= op <= 0x13,
        ensures
            final(self).wf(),
            (final(self)@, c) == spec_exec_b0q1(old(self)@, op, value),
            c <= 24,
    {
        proof {
            reveal(spec_exec_b0q1);
        }
        match op {
            0x10 => {
                self.stop_op();
                4
            },
            0x11 => {
                self.set_rr16(1, value);
                self.cpu.pc = self.cpu.pc.wrapping_add(3);
                proof {
                    assert(self@ == spec_exec_b0q1(old(self)@, op, value).0);
                }
                12
            },
            0x12 => {
                let addr = combine16_exec(self.cpu.d, self.cpu.e);
                self.memory_write(addr, self.cpu.a);
                self.cpu.pc = self.cpu.pc.wrapping_add(1);
                proof {
                    assert(self@ == spec_exec_b0q1(old(self)@, op, value).0);
                }
                8
            },
            _ => {
                let v = combine16_exec(self.cpu.d, self.cpu.e).wrapping_add(1);
                self.set_rr16(1, v);
                self.cpu.pc = self.cpu.pc.wrapping_add(1);
                proof {
                    assert(self@ == spec_exec_b0q1(old(self)@, op, value).0);
                }
                8
            },
        }
    }

    /// Opcodes 0x14..=0x17.
    #[verifier::rlimit(100)]
    #[verifier::spinoff_prover]
    fn exec_b0q1ay(&mut self, op: u8, value: u16) -> (c: OpCycles)
        requires
            old(self).wf(),
            0x14 <= op <= 0x17,
        ensures
            final(self).wf(),
            (final(self)@, c) == spec_exec_b0q1(old(self)@, op, value),
            c <= 24,
    {
        proof {
            reveal(spec_exec_b0q1);
        }
        match op {
            0x14 => {
                self.incdec(2, false);
                4
            },
            0x15 => {
                self.incdec(2, true);
                4
            },
            0x16 => {
                self.put_dst(2, value as u8);
                self.cpu.pc = self.cpu.pc.wrapping_add(2);
                proof {
                    assert(self@ == spec_exec_b0q1(old(self)@, op, value).0);
                }
                8
            },
            _ => {
                let rc = crate::alu::alu_rl(self.cpu.a, is_flag_c(self.cpu.f));
                self.cpu.a = rc.0;
                self.cpu.f = flags_u8(false, false, false, rc.1);
                self.cpu.pc = self.cpu.pc.wrapping_add(1);
                proof {
                    assert(self@ == spec_exec_b0q1(old(self)@, op, value).0);
                }
                4
            },
        
        }
    }

    /// Opcodes 0x10..=0x17.
    fn exec_b0q1a(&mut self, op: u8, value: u16) -> (c: OpCycles)
        requires
            old(self).wf(),
            0x10 <= op <= 0x17,
        ensures
            final(self).wf(),
            (final(self)@, c) == spec_exec_b0q1(old(self)@, op, value),
            c <= 24,
    {
        if op < 0x14 {
            self.exec_b0q1ax(op, value)
        } else {
            self.exec_b0q1ay(op, value)
        }
    }

    /// Opcodes 0x18..=0x1B.
    #[verifier::rlimit(100)]
    #[verifier::spinoff_prover]
    fn exec_b0q1bx(&mut self, op: u8, value: u16) -> (c: OpCycles)
        requires
            old(self).wf(),
            0x18 <= op <= 0x1B,
        ensures
            final(self).wf(),
            (final(self)@, c) == spec_exec_b0q1(old(self)@, op, value),
            c <= 24,
    {
        proof {
            reveal(spec_exec_b0q1);
        }
        match op {
            0x18 => self.jr(value, true),
            0x19 => {
                self.add_hl(1);
                8
            },
            0x1A => {
                let addr = combine16_exec(self.cpu.d, self.cpu.e);
                self.cpu.a = self.memory_read(addr);
                self.cpu.pc = self.cpu.pc.wrapping_add(1);
                proof {
                    assert(self@ == spec_exec_b0q1(old(self)@, op, value).0);
                }
                8
            },
            _ => {
                let v = combine16_exec(self.cpu.d, self.cpu.e).wrapping_sub(1);
                self.set_rr16(1, v);
                self.cpu.pc = self.cpu.pc.wrapping_add(1);
                proof {
                    assert(self@ == spec_exec_b0q1(old(self)@, op, value).0);
                }
                8
            },
        }
    }

    /// Opcodes 0x1C..=0x1F.
    #[verifier::rlimit(100)]
    #[verifier::spinoff_prover]
    fn exec_b0q1by(&mut self, op: u8, value: u16) -> (c: OpCycles)
        requires
            old(self).wf(),
            0x1C <= op <= 0x1F,
        ensures
            final(self).wf(),
            (final(self)@, c) == spec_exec_b0q1(old(self)@, op, value),
            c <= 24,
    {
        proof {
            reveal(spec_exec_b0q1);
        }
        match op {
            0x1C => {
                self.incdec(3, false);
                4
            },
            0x1D => {
                self.incdec(3, true);
                4
            },
            0x1E => {
                self.put_dst(3, value as u8);
                self.cpu.pc = self.cpu.pc.wrapping_add(2);
                proof {
                    assert(self@ == spec_exec_b0q1(old(self)@, op, value).0);
                }
                8
            },
            _ => {
                let rc = crate::alu::alu_rr(self.cpu.a, is_flag_c(self.cpu.f));
                self.cpu.a = rc.0;
                self.cpu.f = flags_u8(false, false, false, rc.1);
                self.cpu.pc = self.cpu.pc.wrapping_add(1);
                proof {
                    assert(self@ == spec_exec_b0q1(old(self)@, op, value).0);
                }
                4
            },
        
        
        }
    }

    /// Opcodes 0x18..=0x1F.
    fn exec_b0q1b(&mut self, op: u8, value: u16) -> (c: OpCycles)
        requires
            old(self).wf(),
            0x18 <= op <= 0x1F,
        ensures
            final(self).wf(),
            (final(self)@, c) == spec_exec_b0q1(old(self)@, op, value),
            c <= 24,
    {
        if op < 0x1C {
            self.exec_b0q1bx(op, value)
        } else {
            self.exec_b0q1by(op, value)
        }
    }

    /// Opcodes 0x10..=0x1F.
    fn exec_b0q1(&mut self, op: u8, value: u16) -> (c: OpCycles)
        requires
            old(self).wf(),
            0x10 <= op <= 0x1F,
        ensures
            final(self).wf(),
            (final(self)@, c) == spec_exec_b0q1(old(self)@, op, value),
            c <= 24,
    {
        if op < 0x18 {
            self.exec_b0q1a(op, value)
        } else {
            self.exec_b0q1b(op, value)
        }
    }

    /// Opcodes 0x20..=0x27.
    #[verifier::rlimit(100)]
    #[verifier::spinoff_prover]
    fn exec_b0q2a(&mut self, op: u8, value: u16) -> (c: OpCycles)
        requires
            old(self).wf(),
            0x20 <= op <= 0x27,
        ensures
            final(self).wf(),
            (final(self)@, c) == spec_exec_b0q2(old(self)@, op, value),
            c <= 24,
    {
        proof {
            reveal(spec_exec_b0q2);
        }
        match op {
            0x20 => {
                let taken = !is_flag_z(self.cpu.f);
                self.jr(value, taken)
            },
            0x21 => {
                self.set_rr16(2, value);
                self.cpu.pc = self.cpu.pc.wrapping_add(3);
                proof {
                    assert(self@ == spec_exec_b0q2(old(self)@, op, value).0);
                }
                12
            },
            0x22 => {
                let hl = combine16_exec(self.cpu.h, self.cpu.l);
                self.memory_write(hl, self.cpu.a);
                self.set_rr16(2, hl.wrapping_add(1));
                self.cpu.pc = self.cpu.pc.wrapping_add(1);
                proof {
                    assert(self@ == spec_exec_b0q2(old(self)@, op, value).0);
                }
                8
            },
            0x23 => {
                let v = combine16_exec(self.cpu.h, self.cpu.l).wrapping_add(1);
                self.set_rr16(2, v);
                self.cpu.pc = self.cpu.pc.wrapping_add(1);
                proof {
                    assert(self@ == spec_exec_b0q2(old(self)@, op, value).0);
                }
                8
            },
            0x24 => {
                self.incdec(4, false);
                4
            },
            0x25 => {
                self.incdec(4, true);
                4
            },
            0x26 => {
                self.put_dst(4, value as u8);
                self.cpu.pc = self.cpu.pc.wrapping_add(2);
                proof {
                    assert(self@ == spec_exec_b0q2(old(self)@, op, value).0);
                }
                8
            },
            _ => {
                let af = alu_daa(self.cpu.a, self.cpu.f);
                self.cpu.a = af.0;
                self.cpu.f = af.1;
                self.cpu.pc = self.cpu.pc.wrapping_add(1);
                proof {
                    assert(self@ == spec_exec_b0q2(old(self)@, op, value).0);
                }
                4
            },
        }
    }

    /// Opcodes 0x28..=0x2F.
    #[verifier::rlimit(100)]
    #[verifier::spinoff_prover]
    fn exec_b0q2b(&mut self, op: u8, value: u16) -> (c: OpCycles)
        requires
            old(self).wf(),
            0x28 <= op <= 0x2F,
        ensures
            final(self).wf(),
            (final(self)@, c) == spec_exec_b0q2(old(self)@, op, value),
            c <= 24,
    {
        proof {
            reveal(spec_exec_b0q2);
        }
        match op {
            0x28 => {
                let taken = is_flag_z(self.cpu.f);
                self.jr(value, taken)
            },
            0x29 => {
                self.add_hl(2);
                8
            },
            0x2A => {
                let hl = combine16_exec(self.cpu.h, self.cpu.l);
                self.cpu.a = self.memory_read(hl);
                self.set_rr16(2, hl.wrapping_add(1));
                self.cpu.pc = self.cpu.pc.wrapping_add(1);
                proof {
                    assert(self@ == spec_exec_b0q2(old(self)@, op, value).0);
                }
                8
            },
            0x2B => {
                let v = combine16_exec(self.cpu.h, self.cpu.l).wrapping_sub(1);
                self.set_rr16(2, v);
                self.cpu.pc = self.cpu.pc.wrapping_add(1);
                proof {
                    assert(self@ == spec_exec_b0q2(old(self)@, op, value).0);
                }
                8
            },
            0x2C => {
                self.incdec(5, false);
                4
            },
            0x2D => {
                self.incdec(5, true);
                4
            },
            0x2E => {
                self.put_dst(5, value as u8);
                self.cpu.pc = self.cpu.pc.wrapping_add(2);
                proof {
                    assert(self@ == spec_exec_b0q2(old(self)@, op, value).0);
                }
                8
            },
            _ => {
                self.cpu.a = !self.cpu.a;
                self.cpu.f = flags_u8(
                    is_flag_z(self.cpu.f),
                    true,
                    true,
                    is_flag_c(self.cpu.f),
                );
                self.cpu.pc = self.cpu.pc.wrapping_add(1);
                proof {
                    assert(self@ == spec_exec_b0q2(old(self)@, op, value).0);
                }
                4
            },
        
        }
    }

    /// Opcodes 0x20..=0x2F.
    fn exec_b0q2(&mut self, op: u8, value: u16) -> (c: OpCycles)
        requires
            old(self).wf(),
            0x20 <= op <= 0x2F,
        ensures
            final(self).wf(),
            (final(self)@, c) == spec_exec_b0q2(old(self)@, op, value),
            c <= 24,
    {
        if op < 0x28 {
            self.exec_b0q2a(op, value)
        } else {
            self.exec_b0q2b(op, value)
        }
    }

    /// Opcodes 0x30..=0x37.
    #[verifier::rlimit(100)]
    #[verifier::spinoff_prover]
    fn exec_b0q3a(&mut self, op: u8, value: u16) -> (c: OpCycles)
        requires
            old(self).wf(),
            0x30 <= op <= 0x37,
        ensures
            final(self).wf(),
            (final(self)@, c) == spec_exec_b0q3(old(self)@, op, value),
            c <= 24,
    {
        proof {
            reveal(spec_exec_b0q3);
        }
        match op {
            0x30 => {
                let taken = !is_flag_c(self.cpu.f);
                self.jr(value, taken)
            },
            0x31 => {
                self.set_rr16(3, value);
                self.cpu.pc = self.cpu.pc.wrapping_add(3);
                proof {
                    assert(self@ == spec_exec_b0q3(old(self)@, op, value).0);
                }
                12
            },
            0x32 => {
                let hl = combine16_exec(self.cpu.h, self.cpu.l);
                self.memory_write(hl, self.cpu.a);
                self.set_rr16(2, hl.wrapping_sub(1));
                self.cpu.pc = self.cpu.pc.wrapping_add(1);
                proof {
                    assert(self@ == spec_exec_b0q3(old(self)@, op, value).0);
                }
                8
            },
            0x33 => {
                let v = self.cpu.sp.wrapping_add(1);
                self.set_rr16(3, v);
                self.cpu.pc = self.cpu.pc.wrapping_add(1);
                proof {
                    assert(self@ == spec_exec_b0q3(old(self)@, op, value).0);
                }
                8
            },
            0x34 => {
                self.incdec(6, false);
                12
            },
            0x35 => {
                self.incdec(6, true);
                12
            },
            0x36 => {
                self.put_dst(6, value as u8);
                self.cpu.pc = self.cpu.pc.wrapping_add(2);
                proof {
                    assert(self@ == spec_exec_b0q3(old(self)@, op, value).0);
                }
                12
            },
            _ => {
                self.cpu.f = flags_u8(is_flag_z(self.cpu.f), false, false, true);
                self.cpu.pc = self.cpu.pc.wrapping_add(1);
                proof {
                    assert(self@ == spec_exec_b0q3(old(self)@, op, value).0);
                }
                4
            },
        }
    }

    /// Opcodes 0x38..=0x3F.
    #[verifier::rlimit(100)]
    #[verifier::spinoff_prover]
    fn exec_b0q3b(&mut self, op: u8, value: u16) -> (c: OpCycles)
        requires
            old(self).wf(),
            0x38 <= op <= 0x3F,
        ensures
            final(self).wf(),
            (final(self)@, c) == spec_exec_b0q3(old(self)@, op, value),
            c <= 24,
    {
        proof {
            reveal(spec_exec_b0q3);
        }
        match op {
            0x38 => {
                let taken = is_flag_c(self.cpu.f);
                self.jr(value, taken)
            },
            0x39 => {
                self.add_hl(3);
                8
            },
            0x3A => {
                let hl = combine16_exec(self.cpu.h, self.cpu.l);
                self.cpu.a = self.memory_read(hl);
                self.set_rr16(2, hl.wrapping_sub(1));
                self.cpu.pc = self.cpu.pc.wrapping_add(1);
                proof {
                    assert(self@ == spec_exec_b0q3(old(self)@, op, value).0);
                }
                8
            },
            0x3B => {
                let v = self.cpu.sp.wrapping_sub(1);
                self.set_rr16(3, v);
                self.cpu.pc = self.cpu.pc.wrapping_add(1);
                proof {
                    assert(self@ == spec_exec_b0q3(old(self)@, op, value).0);
                }
                8
            },
            0x3C => {
                self.incdec(7, false);
                4
            },
            0x3D => {
                self.incdec(7, true);
                4
            },
            0x3E => {
                self.put_dst(7, value as u8);
                self.cpu.pc = self.cpu.pc.wrapping_add(2);
                proof {
                    assert(self@ == spec_exec_b0q3(old(self)@, op, value).0);
                }
                8
            },
            _ => {
                self.cpu.f = flags_u8(
                    is_flag_z(self.cpu.f),
                    false,
                    false,
                    !is_flag_c(self.cpu.f),
                );
                self.cpu.pc = self.cpu.pc.wrapping_add(1);
                proof {
                    assert(self@ == spec_exec_b0q3(old(self)@, op, value).0);
                }
                4
            },
        
        }
    }

    /// Opcodes 0x30..=0x3F.
    fn exec_b0q3(&mut self, op: u8, value: u16) -> (c: OpCycles)
        requires
            old(self).wf(),
            0x30 <= op <= 0x3F,
        ensures
            final(self).wf(),
            (final(self)@, c) == spec_exec_b0q3(old(self)@, op, value),
            c <= 24,
    {
        if op < 0x38 {
            self.exec_b0q3a(op, value)
        } else {
            self.exec_b0q3b(op, value)
        }
    }
}


/// Transition of a conditional return: pop PC when taken, else step
/// past the one-byte instruction.
pub open spec fn spec_ret(g: GbView, taken: bool) -> (GbView, OpCycles) {
    if taken {
        (
            GbView {
                cpu: Cpu {
                    pc: spec_pop16_value(g),
                    sp: wrap16_add(g.cpu.sp, 2),
                    ..g.cpu
                },
                ..g
            },
            20,
        )
    } else {
        (adv_pc(g, 1), 8)
    }
}

/// Transition of an unconditional return, 16 cycles.
pub open spec fn spec_ret_plain(g: GbView) -> GbView {
    GbView {
        cpu: Cpu { pc: spec_pop16_value(g), sp: wrap16_add(g.cpu.sp, 2), ..g.cpu },
        ..g
    }
}

/// Transition of a conditional absolute jump.
pub open spec fn spec_jp(g: GbView, value: u16, taken: bool) -> (GbView, OpCycles) {
    if taken {
        (GbView { cpu: Cpu { pc: value, ..g.cpu }, ..g }, 16)
    } else {
        (adv_pc(g, 3), 12)
    }
}

/// Transition of a conditional call: PC first moves past the three
/// bytes; when taken, that return address is pushed and control moves
/// to the target.
pub open spec fn spec_call(g: GbView, value: u16, taken: bool) -> (GbView, OpCycles) {
    let g1 = adv_pc(g, 3);
    if taken {
        let g2 = spec_push16(g1, g1.cpu.pc);
        (GbView { cpu: Cpu { pc: value, ..g2.cpu }, ..g2 }, 24)
    } else {
        (g1, 12)
    }
}

/// Transition of RST: push the address after the one-byte instruction
/// and jump to the fixed target.
pub open spec fn spec_rst(g: GbView, target: u16) -> GbView {
    let g1 = adv_pc(g, 1);
    let g2 = spec_push16(g1, g1.cpu.pc);
    GbView { cpu: Cpu { pc: target, ..g2.cpu }, ..g2 }
}

/// Transition of an immediate-operand ALU instruction: the ALU step on
/// the low operand byte, PC past the two bytes.
pub open spec fn spec_alu_imm(g: GbView, kind: u8, value: u16) -> GbView {
    let af = spec_alu_apply(kind, g.cpu.a, lo8(value), g.cpu.f);
    adv_pc(GbView { cpu: Cpu { a: af.0, f: af.1, ..g.cpu }, ..g }, 2)
}

/// Transition of opcodes 0xC0..=0xCF: the Z-conditioned returns, jumps
/// and calls, BC stack ops, ADD/ADC immediates, RST 00/08, and the CB
/// prefix dispatch.
#[verifier::opaque]
pub open spec fn spec_exec_b3q0(g: GbView, op: u8, value: u16) -> (GbView, OpCycles) {
    let cpu = g.cpu;
    let f = cpu.f;
    match op {
        0xC0 => spec_ret(g, !flag_z(f)),
        0xC1 => (
            adv_pc(
                GbView {
                    cpu: set_rr(
                        Cpu { sp: wrap16_add(cpu.sp, 2), ..cpu },
                        0,
                        spec_pop16_value(g),
                    ),
                    ..g
                },
                1,
            ),
            12,
        ),
        0xC2 => spec_jp(g, value, !flag_z(f)),
        0xC3 => (GbView { cpu: Cpu { pc: value, ..cpu }, ..g }, 16),
        0xC4 => spec_call(g, value, !flag_z(f)),
        0xC5 => (adv_pc(spec_push16(g, get_bc(cpu)), 1), 16),
        0xC6 => (spec_alu_imm(g, 0, value), 8),
        0xC7 => (spec_rst(g, 0x00), 16),
        0xC8 => spec_ret(g, flag_z(f)),
        0xC9 => (spec_ret_plain(g), 16),
        0xCA => spec_jp(g, value, flag_z(f)),
        0xCB => spec_cb_prefix(g),
        0xCC => spec_call(g, value, flag_z(f)),
        0xCD => spec_call(g, value, true),
        0xCE => (spec_alu_imm(g, 1, value), 8),
        _ => (spec_rst(g, 0x08), 16),
    }
}

/// Transition of the CB prefix: fetch the second opcode byte, step PC
/// past both bytes, run the CB instruction; the prefix itself costs 4
/// cycles on top.
pub open spec fn spec_cb_prefix(g: GbView) -> (GbView, OpCycles) {
    let cb_op = bus_read_spec(g, wrap16_add(g.cpu.pc, 1));
    let r = crate::opcodes_cb::spec_exec_cb(adv_pc(g, 2), cb_op);
    (r.0, (4 + r.1) as OpCycles)
}

/// Transition of opcodes 0xD0..=0xDF: the C-conditioned returns, jumps
/// and calls, DE stack ops, SUB/SBC immediates, RETI, RST 10/18.
#[verifier::opaque]
pub open spec fn spec_exec_b3q1(g: GbView, op: u8, value: u16) -> (GbView, OpCycles) {
    let cpu = g.cpu;
    let f = cpu.f;
    match op {
        0xD0 => spec_ret(g, !flag_c(f)),
        0xD1 => (
            adv_pc(
                GbView {
                    cpu: set_rr(
                        Cpu { sp: wrap16_add(cpu.sp, 2), ..cpu },
                        1,
                        spec_pop16_value(g),
                    ),
                    ..g
                },
                1,
            ),
            12,
        ),
        0xD2 => spec_jp(g, value, !flag_c(f)),
        0xD4 => spec_call(g, value, !flag_c(f)),
        0xD5 => (adv_pc(spec_push16(g, get_de(cpu)), 1), 16),
        0xD6 => (spec_alu_imm(g, 2, value), 8),
        0xD7 => (spec_rst(g, 0x10), 16),
        0xD8 => spec_ret(g, flag_c(f)),
        0xD9 => (GbView { interrupts_on: true, ..spec_ret_plain(g) }, 16),
        0xDA => spec_jp(g, value, flag_c(f)),
        0xDC => spec_call(g, value, flag_c(f)),
        0xDE => (spec_alu_imm(g, 3, value), 8),
        _ => (spec_rst(g, 0x18), 16),
    }
}

/// Transition of opcodes 0xE0..=0xEF: the 0xFF00-paged and absolute
/// accumulator stores, HL stack ops, AND/XOR immediates, ADD SP,
/// JP (HL), RST 20/28.
#[verifier::opaque]
pub open spec fn spec_exec_b3q2(g: GbView, op: u8, value: u16) -> (GbView, OpCycles) {
    let cpu = g.cpu;
    match op {
        0xE0 => (adv_pc(bus_write_spec(g, 0xFF00 | value, cpu.a), 2), 12),
        0xE1 => (
            adv_pc(
                GbView {
                    cpu: set_rr(
                        Cpu { sp: wrap16_add(cpu.sp, 2), ..cpu },
                        2,
                        spec_pop16_value(g),
                    ),
                    ..g
                },
                1,
            ),
            12,
        ),
        0xE2 => (adv_pc(bus_write_spec(g, 0xFF00 | (cpu.c as u16), cpu.a), 1), 8),
        0xE5 => (adv_pc(spec_push16(g, get_hl(cpu)), 1), 16),
        0xE6 => (spec_alu_imm(g, 4, value), 8),
        0xE7 => (spec_rst(g, 0x20), 16),
        0xE8 => (
            adv_pc(
                GbView {
                    cpu: Cpu {
                        sp: spec_add_sp(cpu.sp, lo8(value)).0,
                        f: spec_add_sp(cpu.sp, lo8(value)).1,
                        ..cpu
                    },
                    ..g
                },
                2,
            ),
            16,
        ),
        0xE9 => (GbView { cpu: Cpu { pc: get_hl(cpu), ..cpu }, ..g }, 4),
        0xEA => (adv_pc(bus_write_spec(g, value, cpu.a), 3), 16),
        0xEE => (spec_alu_imm(g, 5, value), 8),
        _ => (spec_rst(g, 0x28), 16),
    }
}

/// Transition of opcodes 0xF0..=0xFF: the 0xFF00-paged and absolute
/// accumulator loads, AF stack ops (POP AF masks the flag nibble),
/// DI and EI, OR/CP immediates, LD HL,SP+i8, LD SP,HL, RST 30/38.
#[verifier::opaque]
pub open spec fn spec_exec_b3q3(g: GbView, op: u8, value: u16) -> (GbView, OpCycles) {
    let cpu = g.cpu;
    match op {
        0xF0 => (
            adv_pc(
                GbView { cpu: Cpu { a: bus_read_spec(g, 0xFF00 | value), ..cpu }, ..g },
                2,
            ),
            12,
        ),
        0xF1 => (
            adv_pc(
                GbView {
                    cpu: Cpu {
                        a: hi8(spec_pop16_value(g)),
                        f: lo8(spec_pop16_value(g)) & 0xF0,
                        sp: wrap16_add(cpu.sp, 2),
                        ..cpu
                    },
                    ..g
                },
                1,
            ),
            12,
        ),
        0xF2 => (
            adv_pc(
                GbView {
                    cpu: Cpu { a: bus_read_spec(g, 0xFF00 | (cpu.c as u16)), ..cpu },
                    ..g
                },
                1,
            ),
            8,
        ),
        0xF3 => (
            adv_pc(GbView { interrupts_on: false, interrupt_enabling: false, ..g }, 1),
            4,
        ),
        0xF5 => (adv_pc(spec_push16(g, combine16(cpu.a, cpu.f)), 1), 16),
        0xF6 => (spec_alu_imm(g, 6, value), 8),
        0xF7 => (spec_rst(g, 0x30), 16),
        0xF8 => (
            adv_pc(
                GbView {
                    cpu: Cpu {
                        h: hi8(spec_add_sp(cpu.sp, lo8(value)).0),
                        l: lo8(spec_add_sp(cpu.sp, lo8(value)).0),
                        f: spec_add_sp(cpu.sp, lo8(value)).1,
                        ..cpu
                    },
                    ..g
                },
                2,
            ),
            12,
        ),
        0xF9 => (adv_pc(GbView { cpu: Cpu { sp: get_hl(cpu), ..cpu }, ..g }, 1), 8),
        0xFA => (
            adv_pc(GbView { cpu: Cpu { a: bus_read_spec(g, value), ..cpu }, ..g }, 3),
            16,
        ),
        0xFB => (adv_pc(GbView { interrupt_enabling: true, ..g }, 1), 4),
        0xFE => (spec_alu_imm(g, 7, value), 8),
        _ => (spec_rst(g, 0x38), 16),
    }
}

/// Transition of the irregular high quarter of the opcode map
/// (0xC0..=0xFF, without the eleven undefined bytes).
pub open spec fn spec_exec_b3(g: GbView, op: u8, value: u16) -> (GbView, OpCycles) {
    if op < 0xD0 {
        spec_exec_b3q0(g, op, value)
    } else if op < 0xE0 {
        spec_exec_b3q1(g, op, value)
    } else if op < 0xF0 {
        spec_exec_b3q2(g, op, value)
    } else {
        spec_exec_b3q3(g, op, value)
    }
}

/// Transition of any defined opcode: the four quarters of the map.
pub open spec fn spec_exec_op(g: GbView, op: u8, value: u16) -> (GbView, OpCycles) {
    if op < 0x40 {
        spec_exec_b0(g, op, value)
    } else if op < 0x80 {
        spec_exec_ld(g, op)
    } else if op < 0xC0 {
        spec_exec_alu(g, op)
    } else {
        spec_exec_b3(g, op, value)
    }
}


impl Gameboy {
    /// Conditional return.
    #[verifier::rlimit(100)]
    #[verifier::spinoff_prover]
    fn ret_cond(&mut self, taken: bool) -> (c: OpCycles)
        requires
            old(self).wf(),
        ensures
            final(self).wf(),
            (final(self)@, c) == spec_ret(old(self)@, taken),
            c <= 24,
    {
        if taken {
            let v = self.pop16();
            self.cpu.pc = v;
            proof {
                assert(self@ =~~= spec_ret(old(self)@, true).0);
            }
            20
        } else {
            self.cpu.pc = self.cpu.pc.wrapping_add(1);
            proof {
                assert(self@ =~~= spec_ret(old(self)@, false).0);
            }
            8
        }
    }

    /// Conditional absolute jump.
    #[verifier::rlimit(100)]
    #[verifier::spinoff_prover]
    fn jp_cond(&mut self, value: u16, taken: bool) -> (c: OpCycles)
        ensures
            (final(self)@, c) == spec_jp(old(self)@, value, taken),
            c <= 24,
    {
        if taken {
            self.cpu.pc = value;
            proof {
                assert(self@ =~~= spec_jp(old(self)@, value, true).0);
            }
            16
        } else {
            self.cpu.pc = self.cpu.pc.wrapping_add(3);
            proof {
                assert(self@ =~~= spec_jp(old(self)@, value, false).0);
            }
            12
        }
    }

    /// Conditional call.
    #[verifier::rlimit(100)]
    #[verifier::spinoff_prover]
    fn call_cond(&mut self, value: u16, taken: bool) -> (c: OpCycles)
        requires
            old(self).wf(),
        ensures
            final(self).wf(),
            (final(self)@, c) == spec_call(old(self)@, value, taken),
            c <= 24,
    {
        self.cpu.pc = self.cpu.pc.wrapping_add(3);
        if taken {
            let ret = self.cpu.pc;
            self.push16(ret);
            self.cpu.pc = value;
            proof {
                assert(self@ =~~= spec_call(old(self)@, value, true).0);
            }
            24
        } else {
            proof {
                assert(self@ =~~= spec_call(old(self)@, value, false).0);
            }
            12
        }
    }

    /// Push the return address and jump to a fixed vector.
    #[verifier::rlimit(100)]
    #[verifier::spinoff_prover]
    fn rst(&mut self, target: u16)
        requires
            old(self).wf(),
        ensures
            final(self).wf(),
            final(self)@ == spec_rst(old(self)@, target),
    {
        self.cpu.pc = self.cpu.pc.wrapping_add(1);
        let ret = self.cpu.pc;
        self.push16(ret);
        self.cpu.pc = target;
        proof {
            assert(self@ =~~= spec_rst(old(self)@, target));
        }
    }

    /// ALU step on an immediate operand, PC past the two bytes.
    #[verifier::rlimit(100)]
    #[verifier::spinoff_prover]
    fn alu_imm(&mut self, kind: u8, value: u16)
        requires
            old(self).wf(),
            kind < 8,
        ensures
            final(self).wf(),
            final(self)@ == spec_alu_imm(old(self)@, kind, value),
    {
        let v = value as u8;
        let af = match kind {
            0 => alu_add8(self.cpu.a, v),
            1 => alu_adc8(self.cpu.a, v, is_flag_c(self.cpu.f)),
            2 => alu_sub8(self.cpu.a, v),
            3 => alu_sbc8(self.cpu.a, v, is_flag_c(self.cpu.f)),
            4 => alu_and8(self.cpu.a, v),
            5 => alu_xor8(self.cpu.a, v),
            6 => alu_or8(self.cpu.a, v),
            _ => (self.cpu.a, alu_cp8(self.cpu.a, v)),
        };
        self.cpu.a = af.0;
        self.cpu.f = af.1;
        self.cpu.pc = self.cpu.pc.wrapping_add(2);
        proof {
            assert(self@ =~~= spec_alu_imm(old(self)@, kind, value));
        }
    }

    /// Pop into the pair an index names and step PC.
    #[verifier::rlimit(100)]
    #[verifier::spinoff_prover]
    fn pop_rr(&mut self, rr: u8)
        requires
            old(self).wf(),
            rr < 3,
        ensures
            final(self).wf(),
            final(self)@ == (adv_pc(
                GbView {
                    cpu: set_rr(
                        Cpu { sp: wrap16_add(old(self)@.cpu.sp, 2), ..old(self)@.cpu },
                        rr,
                        spec_pop16_value(old(self)@),
                    ),
                    ..old(self)@
                },
                1,
            )),
    {
        let v = self.pop16();
        self.set_rr16(rr, v);
        self.cpu.pc = self.cpu.pc.wrapping_add(1);
        proof {
            assert(self@ =~~= (adv_pc(
                GbView {
                    cpu: set_rr(
                        Cpu { sp: wrap16_add(old(self)@.cpu.sp, 2), ..old(self)@.cpu },
                        rr,
                        spec_pop16_value(old(self)@),
                    ),
                    ..old(self)@
                },
                1,
            )));
        }
    }

    /// Opcodes 0xC0..=0xC7.
    #[verifier::rlimit(100)]
    #[verifier::spinoff_prover]
    fn exec_b3q0a(&mut self, op: u8, value: u16) -> (c: OpCycles)
        requires
            old(self).wf(),
            0xC0 <= op <= 0xC7,
        ensures
            final(self).wf(),
            (final(self)@, c) == spec_exec_b3q0(old(self)@, op, value),
            c <= 24,
    {
        proof {
            reveal(spec_exec_b3q0);
        }
        match op {
            0xC0 => {
                let taken = !is_flag_z(self.cpu.f);
                self.ret_cond(taken)
            },
            0xC1 => {
                self.pop_rr(0);
                12
            },
            0xC2 => {
                let taken = !is_flag_z(self.cpu.f);
                self.jp_cond(value, taken)
            },
            0xC3 => {
                self.cpu.pc = value;
                proof {
                    assert(self@ =~~= spec_exec_b3q0(old(self)@, op, value).0);
                }
                16
            },
            0xC4 => {
                let taken = !is_flag_z(self.cpu.f);
                self.call_cond(value, taken)
            },
            0xC5 => {
                let v = combine16_exec(self.cpu.b, self.cpu.c);
                self.push16(v);
                self.cpu.pc = self.cpu.pc.wrapping_add(1);
                proof {
                    assert(self@ =~~= spec_exec_b3q0(old(self)@, op, value).0);
                }
                16
            },
            0xC6 => {
                self.alu_imm(0, value);
                8
            },
            _ => {
                self.rst(0x00);
                16
            },
        }
    }

    /// Opcodes 0xC8..=0xCF, the CB prefix among them.
    #[verifier::rlimit(100)]
    #[verifier::spinoff_prover]
    fn exec_b3q0b(&mut self, op: u8, value: u16) -> (c: OpCycles)
        requires
            old(self).wf(),
            0xC8 <= op <= 0xCF,
        ensures
            final(self).wf(),
            (final(self)@, c) == spec_exec_b3q0(old(self)@, op, value),
            c <= 24,
    {
        proof {
            reveal(spec_exec_b3q0);
        }
        match op {
            0xC8 => {
                let taken = is_flag_z(self.cpu.f);
                self.ret_cond(taken)
            },
            0xC9 => {
                let v = self.pop16();
                self.cpu.pc = v;
                proof {
                    assert(self@ =~~= spec_exec_b3q0(old(self)@, op, value).0);
                }
                16
            },
            0xCA => {
                let taken = is_flag_z(self.cpu.f);
                self.jp_cond(value, taken)
            },
            0xCB => {
                let cb_op = self.memory_read(self.cpu.pc.wrapping_add(1));
                self.cpu.pc = self.cpu.pc.wrapping_add(2);
                let r = self.execute_op_code_cb(cb_op);
                let cycles: OpCycles = match r {
                    Ok(c) => c,
                    Err(_) => 0,
                };
                proof {
                    assert((self@, cycles) == crate::opcodes_cb::spec_exec_cb(
                        adv_pc(old(self)@, 2),
                        cb_op,
                    ));
                }
                4 + cycles
            },
            0xCC => {
                let taken = is_flag_z(self.cpu.f);
                self.call_cond(value, taken)
            },
            0xCD => self.call_cond(value, true),
            0xCE => {
                self.alu_imm(1, value);
                8
            },
            _ => {
                self.rst(0x08);
                16
            },
        }
    }

    /// Opcodes 0xD0..=0xD7.
    #[verifier::rlimit(100)]
    #[verifier::spinoff_prover]
    fn exec_b3q1a(&mut self, op: u8, value: u16) -> (c: OpCycles)
        requires
            old(self).wf(),
            0xD0 <= op <= 0xD7,
            !spec_is_illegal_opcode(op),
        ensures
            final(self).wf(),
            (final(self)@, c) == spec_exec_b3q1(old(self)@, op, value),
            c <= 24,
    {
        proof {
            reveal(spec_exec_b3q1);
        }
        match op {
            0xD0 => {
                let taken = !is_flag_c(self.cpu.f);
                self.ret_cond(taken)
            },
            0xD1 => {
                self.pop_rr(1);
                12
            },
            0xD2 => {
                let taken = !is_flag_c(self.cpu.f);
                self.jp_cond(value, taken)
            },
            0xD4 => {
                let taken = !is_flag_c(self.cpu.f);
                self.call_cond(value, taken)
            },
            0xD5 => {
                let v = combine16_exec(self.cpu.d, self.cpu.e);
                self.push16(v);
                self.cpu.pc = self.cpu.pc.wrapping_add(1);
                proof {
                    assert(self@ =~~= spec_exec_b3q1(old(self)@, op, value).0);
                }
                16
            },
            0xD6 => {
                self.alu_imm(2, value);
                8
            },
            _ => {
                self.rst(0x10);
                16
            },
        }
    }

    /// Opcodes 0xD8..=0xDF, RETI among them.
    #[verifier::rlimit(100)]
    #[verifier::spinoff_prover]
    fn exec_b3q1b(&mut self, op: u8, value: u16) -> (c: OpCycles)
        requires
            old(self).wf(),
            0xD8 <= op <= 0xDF,
            !spec_is_illegal_opcode(op),
        ensures
            final(self).wf(),
            (final(self)@, c) == spec_exec_b3q1(old(self)@, op, value),
            c <= 24,
    {
        proof {
            reveal(spec_exec_b3q1);
        }
        match op {
            0xD8 => {
                let taken = is_flag_c(self.cpu.f);
                self.ret_cond(taken)
            },
            0xD9 => {
                let v = self.pop16();
                self.cpu.pc = v;
                self.interrupts_on = true;
                proof {
                    assert(self@ =~~= spec_exec_b3q1(old(self)@, op, value).0);
                }
                16
            },
            0xDA => {
                let taken = is_flag_c(self.cpu.f);
                self.jp_cond(value, taken)
            },
            0xDC => {
                let taken = is_flag_c(self.cpu.f);
                self.call_cond(value, taken)
            },
            0xDE => {
                self.alu_imm(3, value);
                8
            },
            _ => {
                self.rst(0x18);
                16
            },
        }
    }

    /// Opcodes 0xE0..=0xE7.
    #[verifier::rlimit(100)]
    #[verifier::spinoff_prover]
    fn exec_b3q2a(&mut self, op: u8, value: u16) -> (c: OpCycles)
        requires
            old(self).wf(),
            0xE0 <= op <= 0xE7,
            !spec_is_illegal_opcode(op),
        ensures
            final(self).wf(),
            (final(self)@, c) == spec_exec_b3q2(old(self)@, op, value),
            c <= 24,
    {
        proof {
            reveal(spec_exec_b3q2);
        }
        match op {
            0xE0 => {
                self.memory_write(0xFF00 | value, self.cpu.a);
                self.cpu.pc = self.cpu.pc.wrapping_add(2);
                proof {
                    assert(self@ =~~= spec_exec_b3q2(old(self)@, op, value).0);
                }
                12
            },
            0xE1 => {
                self.pop_rr(2);
                12
            },
            0xE2 => {
                self.memory_write(0xFF00 | (self.cpu.c as u16), self.cpu.a);
                self.cpu.pc = self.cpu.pc.wrapping_add(1);
                proof {
                    assert(self@ =~~= spec_exec_b3q2(old(self)@, op, value).0);
                }
                8
            },
            0xE5 => {
                let v = combine16_exec(self.cpu.h, self.cpu.l);
                self.push16(v);
                self.cpu.pc = self.cpu.pc.wrapping_add(1);
                proof {
                    assert(self@ =~~= spec_exec_b3q2(old(self)@, op, value).0);
                }
                16
            },
            0xE6 => {
                self.alu_imm(4, value);
                8
            },
            _ => {
                self.rst(0x20);
                16
            },
        }
    }

    /// Opcodes 0xE8..=0xEF.
    #[verifier::rlimit(100)]
    #[verifier::spinoff_prover]
    fn exec_b3q2b(&mut self, op: u8, value: u16) -> (c: OpCycles)
        requires
            old(self).wf(),
            0xE8 <= op <= 0xEF,
            !spec_is_illegal_opcode(op),
        ensures
            final(self).wf(),
            (final(self)@, c) == spec_exec_b3q2(old(self)@, op, value),
            c <= 24,
    {
        proof {
            reveal(spec_exec_b3q2);
        }
        match op {
            0xE8 => {
                let sf = alu_add_sp(self.cpu.sp, value as u8);
                self.cpu.sp = sf.0;
                self.cpu.f = sf.1;
                self.cpu.pc = self.cpu.pc.wrapping_add(2);
                proof {
                    assert(self@ =~~= spec_exec_b3q2(old(self)@, op, value).0);
                }
                16
            },
            0xE9 => {
                self.cpu.pc = combine16_exec(self.cpu.h, self.cpu.l);
                proof {
                    assert(self@ =~~= spec_exec_b3q2(old(self)@, op, value).0);
                }
                4
            },
            0xEA => {
                self.memory_write(value, self.cpu.a);
                self.cpu.pc = self.cpu.pc.wrapping_add(3);
                proof {
                    assert(self@ =~~= spec_exec_b3q2(old(self)@, op, value).0);
                }
                16
            },
            0xEE => {
                self.alu_imm(5, value);
                8
            },
            _ => {
                self.rst(0x28);
                16
            },
        }
    }

    /// Opcodes 0xF0..=0xF7, DI among them.
    #[verifier::rlimit(100)]
    #[verifier::spinoff_prover]
    fn exec_b3q3a(&mut self, op: u8, value: u16) -> (c: OpCycles)
        requires
            old(self).wf(),
            0xF0 <= op <= 0xF7,
            !spec_is_illegal_opcode(op),
        ensures
            final(self).wf(),
            (final(self)@, c) == spec_exec_b3q3(old(self)@, op, value),
            c <= 24,
    {
        proof {
            reveal(spec_exec_b3q3);
        }
        match op {
            0xF0 => {
                self.cpu.a = self.memory_read(0xFF00 | value);
                self.cpu.pc = self.cpu.pc.wrapping_add(2);
                proof {
                    assert(self@ =~~= spec_exec_b3q3(old(self)@, op, value).0);
                }
                12
            },
            0xF1 => {
                let v = self.pop16();
                self.cpu.a = (v >> 8) as u8;
                self.cpu.f = (v as u8) & 0xF0;
                self.cpu.pc = self.cpu.pc.wrapping_add(1);
                proof {
                    assert(self@ =~~= spec_exec_b3q3(old(self)@, op, value).0);
                }
                12
            },
            0xF2 => {
                self.cpu.a = self.memory_read(0xFF00 | (self.cpu.c as u16));
                self.cpu.pc = self.cpu.pc.wrapping_add(1);
                proof {
                    assert(self@ =~~= spec_exec_b3q3(old(self)@, op, value).0);
                }
                8
            },
            0xF3 => {
                self.interrupts_on = false;
                self.interrupt_enabling = false;
                self.cpu.pc = self.cpu.pc.wrapping_add(1);
                proof {
                    assert(self@ =~~= spec_exec_b3q3(old(self)@, op, value).0);
                }
                4
            },
            0xF5 => {
                let v = combine16_exec(self.cpu.a, self.cpu.f);
                self.push16(v);
                self.cpu.pc = self.cpu.pc.wrapping_add(1);
                proof {
                    assert(self@ =~~= spec_exec_b3q3(old(self)@, op, value).0);
                }
                16
            },
            0xF6 => {
                self.alu_imm(6, value);
                8
            },
            _ => {
                self.rst(0x30);
                16
            },
        }
    }

    /// Opcodes 0xF8..=0xFF, EI among them.
    #[verifier::rlimit(100)]
    #[verifier::spinoff_prover]
    fn exec_b3q3b(&mut self, op: u8, value: u16) -> (c: OpCycles)
        requires
            old(self).wf(),
            0xF8 <= op,
            !spec_is_illegal_opcode(op),
        ensures
            final(self).wf(),
            (final(self)@, c) == spec_exec_b3q3(old(self)@, op, value),
            c <= 24,
    {
        proof {
            reveal(spec_exec_b3q3);
        }
        match op {
            0xF8 => {
                let sf = alu_add_sp(self.cpu.sp, value as u8);
                self.cpu.h = (sf.0 >> 8) as u8;
                self.cpu.l = sf.0 as u8;
                self.cpu.f = sf.1;
                self.cpu.pc = self.cpu.pc.wrapping_add(2);
                proof {
                    assert(self@ =~~= spec_exec_b3q3(old(self)@, op, value).0);
                }
                12
            },
            0xF9 => {
                self.cpu.sp = combine16_exec(self.cpu.h, self.cpu.l);
                self.cpu.pc = self.cpu.pc.wrapping_add(1);
                proof {
                    assert(self@ =~~= spec_exec_b3q3(old(self)@, op, value).0);
                }
                8
            },
            0xFA => {
                self.cpu.a = self.memory_read(value);
                self.cpu.pc = self.cpu.pc.wrapping_add(3);
                proof {
                    assert(self@ =~~= spec_exec_b3q3(old(self)@, op, value).0);
                }
                16
            },
            0xFB => {
                self.interrupt_enabling = true;
                self.cpu.pc = self.cpu.pc.wrapping_add(1);
                proof {
                    assert(self@ =~~= spec_exec_b3q3(old(self)@, op, value).0);
                }
                4
            },
            0xFE => {
                self.alu_imm(7, value);
                8
            },
            _ => {
                self.rst(0x38);
                16
            },
        }
    }

    /// Opcodes 0x00..=0x3F.
    fn exec_b0(&mut self, op: u8, value: u16) -> (c: OpCycles)
        requires
            old(self).wf(),
            op < 0x40,
        ensures
            final(self).wf(),
            (final(self)@, c) == spec_exec_b0(old(self)@, op, value),
            c <= 24,
    {
        if op < 0x10 {
            self.exec_b0q0(op, value)
        } else if op < 0x20 {
            self.exec_b0q1(op, value)
        } else if op < 0x30 {
            self.exec_b0q2(op, value)
        } else {
            self.exec_b0q3(op, value)
        }
    }

    /// Opcodes 0xC0..=0xFF, the undefined bytes excluded.
    fn exec_b3(&mut self, op: u8, value: u16) -> (c: OpCycles)
        requires
            old(self).wf(),
            0xC0 <= op,
            !spec_is_illegal_opcode(op),
        ensures
            final(self).wf(),
            (final(self)@, c) == spec_exec_b3(old(self)@, op, value),
            c <= 24,
    {
        if op < 0xC8 {
            self.exec_b3q0a(op, value)
        } else if op < 0xD0 {
            self.exec_b3q0b(op, value)
        } else if op < 0xD8 {
            self.exec_b3q1a(op, value)
        } else if op < 0xE0 {
            self.exec_b3q1b(op, value)
        } else if op < 0xE8 {
            self.exec_b3q2a(op, value)
        } else if op < 0xF0 {
            self.exec_b3q2b(op, value)
        } else if op < 0xF8 {
            self.exec_b3q3a(op, value)
        } else {
            self.exec_b3q3b(op, value)
        }
    }

    /// Execute one decoded instruction. An undefined opcode byte marks
    /// the CPU stuck and reports the decode failure; every defined
    /// opcode performs exactly the transition `spec_exec_op` gives and
    /// returns its cycle cost.
    pub fn execute_op_code(&mut self, op_code: u8, value: u16) -> (r: Result<OpCycles, GbError>)
        requires
            old(self).wf(),
        ensures
            final(self).wf(),
            spec_is_illegal_opcode(op_code) ==> {
                &&& r == Err::<OpCycles, GbError>(GbError::IllegalOpcode)
                &&& final(self)@ == (GbView {
                    cpu: Cpu { is_stuck: true, ..old(self)@.cpu },
                    ..old(self)@
                })
            },
            !spec_is_illegal_opcode(op_code) ==> {
                &&& r == Ok::<OpCycles, GbError>(spec_exec_op(old(self)@, op_code, value).1)
                &&& final(self)@ == spec_exec_op(old(self)@, op_code, value).0
                &&& spec_exec_op(old(self)@, op_code, value).1 <= 24
            },
    {
        if is_illegal_opcode(op_code) {
            self.cpu.is_stuck = true;
            proof {
                assert(self@ =~~= (GbView {
                    cpu: Cpu { is_stuck: true, ..old(self)@.cpu },
                    ..old(self)@
                }));
            }
            return Err(GbError::IllegalOpcode);
        }
        let c = if op_code < 0x40 {
            self.exec_b0(op_code, value)
        } else if op_code < 0x80 {
            self.exec_ld_block(op_code)
        } else if op_code < 0xC0 {
            self.exec_alu_block(op_code)
        } else {
            self.exec_b3(op_code, value)
        };
        Ok(c)
    }
}

/// Mnemonic of an opcode byte, from the base table or the
/// CB-prefixed table.
pub fn op_code_names(addr: u8, cb_mode: bool) -> &'static str {
    if cb_mode {
        match addr {
            0x00 => "RLC B",
            0x01 => "RLC C",
            0x02 => "RLC D",
            0x03 => "RLC E",
            0x04 => "RLC H",
            0x05 => "RLC L",
            0x06 => "RLC (HL)",
            0x07 => "RLC A",
            0x08 => "RRC B",
            0x09 => "RRC C",
            0x0A => "RRC D",
            0x0B => "RRC E",
            0x0C => "RRC H",
            0x0D => "RRC L",
            0x0E => "RRC (HL)",
            0x0F => "RRC A",
            0x10 => "RL B",
            0x11 => "RL C",
            0x12 => "RL D",
            0x13 => "RL E",
            0x14 => "RL H",
            0x15 => "RL L",
            0x16 => "RL (HL)",
            0x17 => "RL A",
            0x18 => "RR B",
            0x19 => "RR C",
            0x1A => "RR D",
            0x1B => "RR E",
            0x1C => "RR H",
            0x1D => "RR L",
            0x1E => "RR (HL)",
            0x1F => "RR A",
            0x20 => "SLA B",
            0x21 => "SLA C",
            0x22 => "SLA D",
            0x23 => "SLA E",
            0x24 => "SLA H",
            0x25 => "SLA L",
            0x26 => "SLA (HL)",
            0x27 => "SLA A",
            0x28 => "SRA B",
            0x29 => "SRA C",
            0x2A => "SRA D",
            0x2B => "SRA E",
            0x2C => "SRA H",
            0x2D => "SRA L",
            0x2E => "SRA (HL)",
            0x2F => "SRA A",
            0x30 => "SWAP B",
            0x31 => "SWAP C",
            0x32 => "SWAP D",
            0x33 => "SWAP E",
            0x34 => "SWAP H",
            0x35 => "SWAP L",
            0x36 => "SWAP (HL)",
            0x37 => "SWAP A",
            0x38 => "SRL B",
            0x39 => "SRL C",
            0x3A => "SRL D",
            0x3B => "SRL E",
            0x3C => "SRL H",
            0x3D => "SRL L",
            0x3E => "SRL (HL)",
            0x3F => "SRL A",
            0x40 => "BIT 0, B",
            0x41 => "BIT 0, C",
            0x42 => "BIT 0, D",
            0x43 => "BIT 0, E",
            0x44 => "BIT 0, H",
            0x45 => "BIT 0, L",
            0x46 => "BIT 0, (HL)",
            0x47 => "BIT 0, A",
            0x48 => "BIT 1, B",
            0x49 => "BIT 1, C",
            0x4A => "BIT 1, D",
            0x4B => "BIT 1, E",
            0x4C => "BIT 1, H",
            0x4D => "BIT 1, L",
            0x4E => "BIT 1, (HL)",
            0x4F => "BIT 1, A",
            0x50 => "BIT 2, B",
            0x51 => "BIT 2, C",
            0x52 => "BIT 2, D",
            0x53 => "BIT 2, E",
            0x54 => "BIT 2, H",
            0x55 => "BIT 2, L",
            0x56 => "BIT 2, (HL)",
            0x57 => "BIT 2, A",
            0x58 => "BIT 3, B",
            0x59 => "BIT 3, C",
            0x5A => "BIT 3, D",
            0x5B => "BIT 3, E",
            0x5C => "BIT 3, H",
            0x5D => "BIT 3, L",
            0x5E => "BIT 3, (HL)",
            0x5F => "BIT 3, A",
            0x60 => "BIT 4, B",
            0x61 => "BIT 4, C",
            0x62 => "BIT 4, D",
            0x63 => "BIT 4, E",
            0x64 => "BIT 4, H",
            0x65 => "BIT 4, L",
            0x66 => "BIT 4, (HL)",
            0x67 => "BIT 4, A",
            0x68 => "BIT 5, B",
            0x69 => "BIT 5, C",
            0x6A => "BIT 5, D",
            0x6B => "BIT 5, E",
            0x6C => "BIT 5, H",
            0x6D => "BIT 5, L",
            0x6E => "BIT 5, (HL)",
            0x6F => "BIT 5, A",
            0x70 => "BIT 6, B",
            0x71 => "BIT 6, C",
            0x72 => "BIT 6, D",
            0x73 => "BIT 6, E",
            0x74 => "BIT 6, H",
            0x75 => "BIT 6, L",
            0x76 => "BIT 6, (HL)",
            0x77 => "BIT 6, A",
            0x78 => "BIT 7, B",
            0x79 => "BIT 7, C",
            0x7A => "BIT 7, D",
            0x7B => "BIT 7, E",
            0x7C => "BIT 7, H",
            0x7D => "BIT 7, L",
            0x7E => "BIT 7, (HL)",
            0x7F => "BIT 7, A",
            0x80 => "RES 0, B",
            0x81 => "RES 0, C",
            0x82 => "RES 0, D",
            0x83 => "RES 0, E",
            0x84 => "RES 0, H",
            0x85 => "RES 0, L",
            0x86 => "RES 0, (HL)",
            0x87 => "RES 0, A",
            0x88 => "RES 1, B",
            0x89 => "RES 1, C",
            0x8A => "RES 1, D",
            0x8B => "RES 1, E",
            0x8C => "RES 1, H",
            0x8D => "RES 1, L",
            0x8E => "RES 1, (HL)",
            0x8F => "RES 1, A",
            0x90 => "RES 2, B",
            0x91 => "RES 2, C",
            0x92 => "RES 2, D",
            0x93 => "RES 2, E",
            0x94 => "RES 2, H",
            0x95 => "RES 2, L",
            0x96 => "RES 2, (HL)",
            0x97 => "RES 2, A",
            0x98 => "RES 3, B",
            0x99 => "RES 3, C",
            0x9A => "RES 3, D",
            0x9B => "RES 3, E",
            0x9C => "RES 3, H",
            0x9D => "RES 3, L",
            0x9E => "RES 3, (HL)",
            0x9F => "RES 3, A",
            0xA0 => "RES 4, B",
            0xA1 => "RES 4, C",
            0xA2 => "RES 4, D",
            0xA3 => "RES 4, E",
            0xA4 => "RES 4, H",
            0xA5 => "RES 4, L",
            0xA6 => "RES 4, (HL)",
            0xA7 => "RES 4, A",
            0xA8 => "RES 5, B",
            0xA9 => "RES 5, C",
            0xAA => "RES 5, D",
            0xAB => "RES 5, E",
            0xAC => "RES 5, H",
            0xAD => "RES 5, L",
            0xAE => "RES 5, (HL)",
            0xAF => "RES 5, A",
            0xB0 => "RES 6, B",
            0xB1 => "RES 6, C",
            0xB2 => "RES 6, D",
            0xB3 => "RES 6, E",
            0xB4 => "RES 6, H",
            0xB5 => "RES 6, L",
            0xB6 => "RES 6, (HL)",
            0xB7 => "RES 6, A",
            0xB8 => "RES 7, B",
            0xB9 => "RES 7, C",
            0xBA => "RES 7, D",
            0xBB => "RES 7, E",
            0xBC => "RES 7, H",
            0xBD => "RES 7, L",
            0xBE => "RES 7, (HL)",
            0xBF => "RES 7, A",
            0xC0 => "SET 0, B",
            0xC1 => "SET 0, C",
            0xC2 => "SET 0, D",
            0xC3 => "SET 0, E",
            0xC4 => "SET 0, H",
            0xC5 => "SET 0, L",
            0xC6 => "SET 0, (HL)",
            0xC7 => "SET 0, A",
            0xC8 => "SET 1, B",
            0xC9 => "SET 1, C",
            0xCA => "SET 1, D",
            0xCB => "SET 1, E",
            0xCC => "SET 1, H",
            0xCD => "SET 1, L",
            0xCE => "SET 1, (HL)",
            0xCF => "SET 1, A",
            0xD0 => "SET 2, B",
            0xD1 => "SET 2, C",
            0xD2 => "SET 2, D",
            0xD3 => "SET 2, E",
            0xD4 => "SET 2, H",
            0xD5 => "SET 2, L",
            0xD6 => "SET 2, (HL)",
            0xD7 => "SET 2, A",
            0xD8 => "SET 3, B",
            0xD9 => "SET 3, C",
            0xDA => "SET 3, D",
            0xDB => "SET 3, E",
            0xDC => "SET 3, H",
            0xDD => "SET 3, L",
            0xDE => "SET 3, (HL)",
            0xDF => "SET 3, A",
            0xE0 => "SET 4, B",
            0xE1 => "SET 4, C",
            0xE2 => "SET 4, D",
            0xE3 => "SET 4, E",
            0xE4 => "SET 4, H",
            0xE5 => "SET 4, L",
            0xE6 => "SET 4, (HL)",
            0xE7 => "SET 4, A",
            0xE8 => "SET 5, B",
            0xE9 => "SET 5, C",
            0xEA => "SET 5, D",
            0xEB => "SET 5, E",
            0xEC => "SET 5, H",
            0xED => "SET 5, L",
            0xEE => "SET 5, (HL)",
            0xEF => "SET 5, A",
            0xF0 => "SET 6, B",
            0xF1 => "SET 6, C",
            0xF2 => "SET 6, D",
            0xF3 => "SET 6, E",
            0xF4 => "SET 6, H",
            0xF5 => "SET 6, L",
            0xF6 => "SET 6, (HL)",
            0xF7 => "SET 6, A",
            0xF8 => "SET 7, B",
            0xF9 => "SET 7, C",
            0xFA => "SET 7, D",
            0xFB => "SET 7, E",
            0xFC => "SET 7, H",
            0xFD => "SET 7, L",
            0xFE => "SET 7, (HL)",
            _ => "SET 7, A",
        }
    } else {
        match addr {
            0x00 => "NOP",
            0x01 => "LD BC, d16",
            0x02 => "LD (BC), A",
            0x03 => "INC BC",
            0x04 => "INC B",
            0x05 => "DEC B",
            0x06 => "LD B, d8",
            0x07 => "RLCA",
            0x08 => "LD (a16), SP",
            0x09 => "ADD HL, BC",
            0x0A => "LD A, (BC)",
            0x0B => "DEC BC",
            0x0C => "INC C",
            0x0D => "DEC C",
            0x0E => "LD C, d8",
            0x0F => "RRCA",
            0x10 => "STOP 0",
            0x11 => "LD DE, d16",
            0x12 => "LD (DE), A",
            0x13 => "INC DE",
            0x14 => "INC D",
            0x15 => "DEC D",
            0x16 => "LD D, d8",
            0x17 => "RLA",
            0x18 => "JR r8",
            0x19 => "ADD HL, DE",
            0x1A => "LD A, (DE)",
            0x1B => "DEC DE",
            0x1C => "INC E",
            0x1D => "DEC E",
            0x1E => "LD E, d8",
            0x1F => "RRA",
            0x20 => "JR NZ, r8",
            0x21 => "LD HL, d16",
            0x22 => "LD (HL+), A",
            0x23 => "INC HL",
            0x24 => "INC H",
            0x25 => "DEC H",
            0x26 => "LD H, d8",
            0x27 => "DAA",
            0x28 => "JR Z, r8",
            0x29 => "ADD HL, HL",
            0x2A => "LD A, (HL+)",
            0x2B => "DEC HL",
            0x2C => "INC L",
            0x2D => "DEC L",
            0x2E => "LD L, d8",
            0x2F => "CPL",
            0x30 => "JR NC, r8",
            0x31 => "LD SP, d16",
            0x32 => "LD (HL-), A",
            0x33 => "INC SP",
            0x34 => "INC (HL)",
            0x35 => "DEC (HL)",
            0x36 => "LD (HL), d8",
            0x37 => "SCF",
            0x38 => "JR C, r8",
            0x39 => "ADD HL, SP",
            0x3A => "LD A, (HL-)",
            0x3B => "DEC SP",
            0x3C => "INC A",
            0x3D => "DEC A",
            0x3E => "LD A, d8",
            0x3F => "CCF",
            0x40 => "LD B, B",
            0x41 => "LD B, C",
            0x42 => "LD B, D",
            0x43 => "LD B, E",
            0x44 => "LD B, H",
            0x45 => "LD B, L",
            0x46 => "LD B, (HL)",
            0x47 => "LD B, A",
            0x48 => "LD C, B",
            0x49 => "LD C, C",
            0x4A => "LD C, D",
            0x4B => "LD C, E",
            0x4C => "LD C, H",
            0x4D => "LD C, L",
            0x4E => "LD C, (HL)",
            0x4F => "LD C, A",
            0x50 => "LD D, B",
            0x51 => "LD D, C",
            0x52 => "LD D, D",
            0x53 => "LD D, E",
            0x54 => "LD D, H",
            0x55 => "LD D, L",
            0x56 => "LD D, (HL)",
            0x57 => "LD D, A",
            0x58 => "LD E, B",
            0x59 => "LD E, C",
            0x5A => "LD E, D",
            0x5B => "LD E, E",
            0x5C => "LD E, H",
            0x5D => "LD E, L",
            0x5E => "LD E, (HL)",
            0x5F => "LD E, A",
            0x60 => "LD H, B",
            0x61 => "LD H, C",
            0x62 => "LD H, D",
            0x63 => "LD H, E",
            0x64 => "LD H, H",
            0x65 => "LD H, L",
            0x66 => "LD H, (HL)",
            0x67 => "LD H, A",
            0x68 => "LD L, B",
            0x69 => "LD L, C",
            0x6A => "LD L, D",
            0x6B => "LD L, E",
            0x6C => "LD L, H",
            0x6D => "LD L, L",
            0x6E => "LD L, (HL)",
            0x6F => "LD L, A",
            0x70 => "LD (HL), B",
            0x71 => "LD (HL), C",
            0x72 => "LD (HL), D",
            0x73 => "LD (HL), E",
            0x74 => "LD (HL), H",
            0x75 => "LD (HL), L",
            0x76 => "HALT",
            0x77 => "LD (HL), A",
            0x78 => "LD A, B",
            0x79 => "LD A, C",
            0x7A => "LD A, D",
            0x7B => "LD A, E",
            0x7C => "LD A, H",
            0x7D => "LD A, L",
            0x7E => "LD A, (HL)",
            0x7F => "LD A, A",
            0x80 => "ADD A, B",
            0x81 => "ADD A, C",
            0x82 => "ADD A, D",
            0x83 => "ADD A, E",
            0x84 => "ADD A, H",
            0x85 => "ADD A, L",
            0x86 => "ADD A, (HL)",
            0x87 => "ADD A, A",
            0x88 => "ADC A, B",
            0x89 => "ADC A, C",
            0x8A => "ADC A, D",
            0x8B => "ADC A, E",
            0x8C => "ADC A, H",
            0x8D => "ADC A, L",
            0x8E => "ADC A, (HL)",
            0x8F => "ADC A, A",
            0x90 => "SUB B",
            0x91 => "SUB C",
            0x92 => "SUB D",
            0x93 => "SUB E",
            0x94 => "SUB H",
            0x95 => "SUB L",
            0x96 => "SUB (HL)",
            0x97 => "SUB A",
            0x98 => "SBC A, B",
            0x99 => "SBC A, C",
            0x9A => "SBC A, D",
            0x9B => "SBC A, E",
            0x9C => "SBC A, H",
            0x9D => "SBC A, L",
            0x9E => "SBC A, (HL)",
            0x9F => "SBC A, A",
            0xA0 => "AND B",
            0xA1 => "AND C",
            0xA2 => "AND D",
            0xA3 => "AND E",
            0xA4 => "AND H",
            0xA5 => "AND L",
            0xA6 => "AND (HL)",
            0xA7 => "AND A",
            0xA8 => "XOR B",
            0xA9 => "XOR C",
            0xAA => "XOR D",
            0xAB => "XOR E",
            0xAC => "XOR H",
            0xAD => "XOR L",
            0xAE => "XOR (HL)",
            0xAF => "XOR A",
            0xB0 => "OR B",
            0xB1 => "OR C",
            0xB2 => "OR D",
            0xB3 => "OR E",
            0xB4 => "OR H",
            0xB5 => "OR L",
            0xB6 => "OR (HL)",
            0xB7 => "OR A",
            0xB8 => "CP B",
            0xB9 => "CP C",
            0xBA => "CP D",
            0xBB => "CP E",
            0xBC => "CP H",
            0xBD => "CP L",
            0xBE => "CP (HL)",
            0xBF => "CP A",
            0xC0 => "RET NZ",
            0xC1 => "POP BC",
            0xC2 => "JP NZ, a16",
            0xC3 => "JP a16",
            0xC4 => "CALL NZ, a16",
            0xC5 => "PUSH BC",
            0xC6 => "ADD A, d8",
            0xC7 => "RST 00H",
            0xC8 => "RET Z",
            0xC9 => "RET",
            0xCA => "JP Z, a16",
            0xCB => "PREFIX CB",
            0xCC => "CALL Z, a16",
            0xCD => "CALL a16",
            0xCE => "ADC A, d8",
            0xCF => "RST 08H",
            0xD0 => "RET NC",
            0xD1 => "POP DE",
            0xD2 => "JP NC, a16",
            0xD3 => "ILLEGAL",
            0xD4 => "CALL NC, a16",
            0xD5 => "PUSH DE",
            0xD6 => "SUB d8",
            0xD7 => "RST 10H",
            0xD8 => "RET C",
            0xD9 => "RETI",
            0xDA => "JP C, a16",
            0xDB => "ILLEGAL",
            0xDC => "CALL C, a16",
            0xDD => "ILLEGAL",
            0xDE => "SBC A, d8",
            0xDF => "RST 18H",
            0xE0 => "LDH (a8), A",
            0xE1 => "POP HL",
            0xE2 => "LD (C), A",
            0xE3 => "ILLEGAL",
            0xE4 => "ILLEGAL",
            0xE5 => "PUSH HL",
            0xE6 => "AND d8",
            0xE7 => "RST 20H",
            0xE8 => "ADD SP, r8",
            0xE9 => "JP (HL)",
            0xEA => "LD (a16), A",
            0xEB => "ILLEGAL",
            0xEC => "ILLEGAL",
            0xED => "ILLEGAL",
            0xEE => "XOR d8",
            0xEF => "RST 28H",
            0xF0 => "LDH A, (a8)",
            0xF1 => "POP AF",
            0xF2 => "LD A, (C)",
            0xF3 => "DI",
            0xF4 => "ILLEGAL",
            0xF5 => "PUSH AF",
            0xF6 => "OR d8",
            0xF7 => "RST 30H",
            0xF8 => "LD HL, SP+r8",
            0xF9 => "LD SP, HL",
            0xFA => "LD A, (a16)",
            0xFB => "EI",
            0xFC => "ILLEGAL",
            0xFD => "ILLEGAL",
            0xFE => "CP d8",
            _ => "RST 38H",
        }
    }
}

} // verus!
