//! The CB-prefixed instruction set: rotates, shifts, SWAP, and the
//! single-bit test/reset/set family, over the eight encoding operands.

use vstd::prelude::*;

use crate::alu::{
    alu_rl, alu_rlc, alu_rr, alu_rrc, alu_sla, alu_sra, alu_srl, alu_swap, flag_c, flags_u8,
    is_flag_c, spec_flags, spec_rl_core, spec_rlc_core, spec_rr_core, spec_rrc_core,
    spec_sla_core, spec_sra_core, spec_srl_core, spec_swap8,
};
use crate::bits::{is_bit_set, spec_bit};
use crate::gameboy::{Cpu, Gameboy, GbView};
use crate::globals::OpCycles;
use crate::opcodes::{spec_put, spec_src};
use crate::GbError;

verus! {

/// Result and carry of rotate/shift operation `kind` (the middle bits
/// of a CB opcode below 0x40): RLC, RRC, RL, RR, SLA, SRA, SWAP, SRL.
pub open spec fn spec_rot_apply(kind: u8, v: u8, cin: bool) -> (u8, bool) {
    match kind {
        0 => spec_rlc_core(v),
        1 => spec_rrc_core(v),
        2 => spec_rl_core(v, cin),
        3 => spec_rr_core(v, cin),
        4 => spec_sla_core(v),
        5 => spec_sra_core(v),
        6 => (spec_swap8(v), false),
        _ => spec_srl_core(v),
    }
}

/// Transition of a CB-prefixed instruction. The operand index is the
/// low three bits; rotates and shifts write back and set all four
/// flags from the result, BIT only sets flags, RES and SET only write
/// back. Memory operands cost 16 cycles (12 for BIT), registers 8.
#[verifier::opaque]
pub open spec fn spec_exec_cb(g: GbView, op: u8) -> (GbView, OpCycles) {
    let idx = op & 0x07;
    let b = (op >> 3) & 0x07;
    let v = spec_src(g, idx);
    if op < 0x40 {
        let rc = spec_rot_apply(b, v, flag_c(g.cpu.f));
        let g1 = spec_put(g, idx, rc.0);
        (
            GbView {
                cpu: Cpu { f: spec_flags(rc.0 == 0, false, false, rc.1), ..g1.cpu },
                ..g1
            },
            if idx == 6 {
                16
            } else {
                8
            },
        )
    } else if op < 0x80 {
        (
            GbView {
                cpu: Cpu {
                    f: spec_flags(!spec_bit(v, b), false, true, flag_c(g.cpu.f)),
                    ..g.cpu
                },
                ..g
            },
            if idx == 6 {
                12
            } else {
                8
            },
        )
    } else if op < 0xC0 {
        (
            spec_put(g, idx, v & !(1u8 << b)),
            if idx == 6 {
                16
            } else {
                8
            },
        )
    } else {
        (
            spec_put(g, idx, v | (1u8 << b)),
            if idx == 6 {
                16
            } else {
                8
            },
        )
    }
}

impl Gameboy {
    /// Rotates, shifts and SWAP (CB 0x00..=0x3F).
    #[verifier::rlimit(100)]
    #[verifier::spinoff_prover]
    fn exec_cb_rot(&mut self, op: u8) -> (c: OpCycles)
        requires
            old(self).wf(),
            op < 0x40,
        ensures
            final(self).wf(),
            (final(self)@, c) == spec_exec_cb(old(self)@, op),
            c <= 16,
    {
        proof {
            reveal(spec_exec_cb);
        }
        let idx = op & 0x07;
        let kind = (op >> 3) & 0x07;
        proof {
            broadcast use crate::alu::lemma_u8_and_bounds;

        }
        let v = self.get_src(idx);
        let rc = match kind {
            0 => alu_rlc(v),
            1 => alu_rrc(v),
            2 => alu_rl(v, is_flag_c(self.cpu.f)),
            3 => alu_rr(v, is_flag_c(self.cpu.f)),
            4 => alu_sla(v),
            5 => alu_sra(v),
            6 => (alu_swap(v), false),
            _ => alu_srl(v),
        };
        self.put_dst(idx, rc.0);
        self.cpu.f = flags_u8(rc.0 == 0, false, false, rc.1);
        proof {
            assert(self@ =~~= spec_exec_cb(old(self)@, op).0);
        }
        if idx == 6 {
            16
        } else {
            8
        }
    }

    /// BIT b (CB 0x40..=0x7F).
    fn exec_cb_bit(&mut self, op: u8) -> (c: OpCycles)
        requires
            old(self).wf(),
            0x40 <= op < 0x80,
        ensures
            final(self).wf(),
            (final(self)@, c) == spec_exec_cb(old(self)@, op),
            c <= 16,
    {
        proof {
            reveal(spec_exec_cb);
        }
        let idx = op & 0x07;
        let b = (op >> 3) & 0x07;
        proof {
            broadcast use crate::alu::lemma_u8_and_bounds;

        }
        let v = self.get_src(idx);
        self.cpu.f = flags_u8(!is_bit_set(v, b), false, true, is_flag_c(self.cpu.f));
        proof {
            assert(self@ =~~= spec_exec_cb(old(self)@, op).0);
        }
        if idx == 6 {
            12
        } else {
            8
        }
    }

    /// RES b (CB 0x80..=0xBF).
    fn exec_cb_res(&mut self, op: u8) -> (c: OpCycles)
        requires
            old(self).wf(),
            0x80 <= op < 0xC0,
        ensures
            final(self).wf(),
            (final(self)@, c) == spec_exec_cb(old(self)@, op),
            c <= 16,
    {
        proof {
            reveal(spec_exec_cb);
        }
        let idx = op & 0x07;
        let b = (op >> 3) & 0x07;
        proof {
            broadcast use crate::alu::lemma_u8_and_bounds;

        }
        let v = self.get_src(idx);
        self.put_dst(idx, v & !(1u8 << b));
        proof {
            assert(self@ =~~= spec_exec_cb(old(self)@, op).0);
        }
        if idx == 6 {
            16
        } else {
            8
        }
    }

    /// SET b (CB 0xC0..=0xFF).
    fn exec_cb_set(&mut self, op: u8) -> (c: OpCycles)
        requires
            old(self).wf(),
            0xC0 <= op,
        ensures
            final(self).wf(),
            (final(self)@, c) == spec_exec_cb(old(self)@, op),
            c <= 16,
    {
        proof {
            reveal(spec_exec_cb);
        }
        let idx = op & 0x07;
        let b = (op >> 3) & 0x07;
        proof {
            broadcast use crate::alu::lemma_u8_and_bounds;

        }
        let v = self.get_src(idx);
        self.put_dst(idx, v | (1u8 << b));
        proof {
            assert(self@ =~~= spec_exec_cb(old(self)@, op).0);
        }
        if idx == 6 {
            16
        } else {
            8
        }
    }

    /// Execute one CB-prefixed opcode. The PC is not touched here; the
    /// prefix dispatch in the base table accounts for both bytes.
    pub fn execute_op_code_cb(&mut self, op_code: u8) -> (r: Result<OpCycles, GbError>)
        requires
            old(self).wf(),
        ensures
            final(self).wf(),
            r is Ok,
            (final(self)@, r->Ok_0) == spec_exec_cb(old(self)@, op_code),
            r->Ok_0 <= 16,
    {
        if op_code < 0x40 {
            Ok(self.exec_cb_rot(op_code))
        } else if op_code < 0x80 {
            Ok(self.exec_cb_bit(op_code))
        } else if op_code < 0xC0 {
            Ok(self.exec_cb_res(op_code))
        } else {
            Ok(self.exec_cb_set(op_code))
        }
    }
}

} // verus!
