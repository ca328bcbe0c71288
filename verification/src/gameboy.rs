//! The machine: CPU register file, 64 KiB bus with its I/O side
//! effects, divider/timer unit, interrupt controller, and the
//! fetch-execute-advance orchestration.

use vstd::prelude::*;

use crate::bits::{is_bit_set, spec_bit};
use crate::cartridge::{cart_inv, cart_read_spec, cart_write_spec, CartView, Cartridge};
use crate::globals::{
    spec_opcode_length, IO_DIV, IO_IF, IO_LY, IO_SB, IO_SC, IO_TAC, IO_TIMA, IO_TMA,
    INTERRUPT_ENABLE_ADDRESS, OpCycles,
};
use crate::GbError;
use crate::mbc::zero_vec;
use crate::utils::{spec_interrupt_vector, wrap16_add, wrap16_sub, wrap8_add};
use crate::alu::{combine16, hi8, lo8};

verus! {

/// The SM83 register file and execution mode flags.
pub struct Cpu {
    pub a: u8,
    pub b: u8,
    pub c: u8,
    pub d: u8,
    pub e: u8,
    pub f: u8,
    pub h: u8,
    pub l: u8,
    pub sp: u16,
    pub pc: u16,
    pub halted: bool,
    pub is_stuck: bool,
    pub stopped: bool,
}

impl Cpu {
    /// The DMG boot state: registers as the boot ROM leaves them,
    /// PC at the cartridge entry point.
    pub fn reset(&mut self)
        ensures
            *final(self) == (Cpu {
                a: 0x01,
                f: 0xB0,
                b: 0x00,
                c: 0x13,
                d: 0x00,
                e: 0xD8,
                h: 0x01,
                l: 0x4D,
                sp: 0xFFFE,
                pc: 0x0100,
                halted: false,
                is_stuck: false,
                stopped: old(self).stopped,
            }),
    {
        self.a = 0x01;
        self.f = 0xB0;
        self.b = 0x00;
        self.c = 0x13;
        self.d = 0x00;
        self.e = 0xD8;
        self.h = 0x01;
        self.l = 0x4D;
        self.sp = 0xFFFE;
        self.pc = 0x0100;
        self.halted = false;
        self.is_stuck = false;
    }

    /// Advance PC by `value`, modulo 2^16.
    pub fn incr_pc(&mut self, value: u16)
        ensures
            *final(self) == (Cpu { pc: wrap16_add(old(self).pc, value), ..*old(self) }),
    {
        self.pc = self.pc.wrapping_add(value);
    }

    /// Load the BC pair.
    pub fn set_bc(&mut self, value: u16)
        ensures
            *final(self) == (Cpu { b: hi8(value), c: lo8(value), ..*old(self) }),
    {
        self.b = (value >> 8) as u8;
        self.c = value as u8;
    }
}

/// Mathematical state of the whole machine.
#[verifier::ext_equal]
pub ghost struct GbView {
    pub cpu: Cpu,
    pub cart: CartView,
    pub mem: Seq<u8>,
    pub interrupts_on: bool,
    pub interrupt_enabling: bool,
    pub double_speed: bool,
    pub cgb_mode: bool,
    pub test_mode: bool,
    pub div_counter: u64,
    pub tima_counter: u64,
    pub serial: Seq<u8>,
    pub breakpoints: Seq<usize>,
    pub panic_on_stuck: bool,
}

/// The emulator: CPU, cartridge, flat memory, timer accumulators,
/// interrupt master state, and the serial sink buffer.
pub struct Gameboy {
    pub cpu: Cpu,
    pub cart: Cartridge,
    pub double_speed: bool,
    pub cgb_mode: bool,
    pub interrupt_enabling: bool,
    pub interrupts_on: bool,
    pub timer_div_counter: u64,
    pub timer_tima_counter: u64,
    pub memory: Vec<u8>,
    pub serial_out: Vec<u8>,
    pub test_mode: bool,
    pub breakpoints: Vec<usize>,
    pub panic_on_stuck: bool,
}

impl View for Gameboy {
    type V = GbView;

    open spec fn view(&self) -> GbView {
        GbView {
            cpu: self.cpu,
            cart: self.cart@,
            mem: self.memory@,
            interrupts_on: self.interrupts_on,
            interrupt_enabling: self.interrupt_enabling,
            double_speed: self.double_speed,
            cgb_mode: self.cgb_mode,
            test_mode: self.test_mode,
            div_counter: self.timer_div_counter,
            tima_counter: self.timer_tima_counter,
            serial: self.serial_out@,
            breakpoints: self.breakpoints@,
            panic_on_stuck: self.panic_on_stuck,
        }
    }
}

/// Well-formed machine: full 64 KiB of memory, a well-formed cartridge
/// slot that is not empty.
pub open spec fn gb_inv(g: GbView) -> bool {
    g.mem.len() == 0x10000 && cart_inv(g.cart) && !(g.cart is Empty)
}

/// Byte the bus returns at `address`. In test mode the map is flat
/// except for cartridge ROM space; otherwise cartridge space and the
/// SRAM window go to the mapper, echo RAM mirrors work RAM, and LY
/// reads a fixed scanline.
#[verifier::opaque]
pub open spec fn bus_read_spec(g: GbView, address: u16) -> u8 {
    if g.test_mode {
        if address <= 0x7FFF {
            cart_read_spec(g.cart, address)
        } else {
            g.mem[address as int]
        }
    } else {
        if address <= 0x7FFF {
            cart_read_spec(g.cart, address)
        } else if 0xA000 <= address <= 0xBFFF {
            cart_read_spec(g.cart, address)
        } else if 0xE000 <= address <= 0xFDFF {
            g.mem[address - 0x2000]
        } else if address == IO_LY {
            0x90
        } else {
            g.mem[address as int]
        }
    }
}

/// Machine state after a bus write of `value` at `address`. Cartridge
/// space updates the mapper; DIV resets the divider and timer
/// accumulators; TAC stores with its top bits set and resets the timer
/// accumulator on a frequency change; a serial start (0x81 to SC)
/// appends the SB byte to the serial sink; echo RAM writes land in
/// work RAM; all else is a flat store.
#[verifier::opaque]
pub open spec fn bus_write_spec(g: GbView, address: u16, value: u8) -> GbView {
    if g.test_mode {
        if address <= 0x7FFF {
            GbView { cart: cart_write_spec(g.cart, address, value), ..g }
        } else {
            GbView { mem: g.mem.update(address as int, value), ..g }
        }
    } else {
        if address <= 0x7FFF {
            GbView { cart: cart_write_spec(g.cart, address, value), ..g }
        } else if 0xA000 <= address <= 0xBFFF {
            GbView { cart: cart_write_spec(g.cart, address, value), ..g }
        } else if 0xE000 <= address <= 0xFDFF {
            GbView { mem: g.mem.update(address - 0x2000, value), ..g }
        } else if address == IO_DIV {
            GbView {
                mem: g.mem.update(IO_DIV as int, 0),
                div_counter: 0,
                tima_counter: 0,
                ..g
            }
        } else if address == IO_TAC {
            GbView {
                mem: g.mem.update(IO_TAC as int, value | 0xF8),
                tima_counter: if g.mem[IO_TAC as int] & 0x3 != (value | 0xF8) & 0x3 {
                    0
                } else {
                    g.tima_counter
                },
                ..g
            }
        } else if address == IO_SC && value == 0x81 {
            GbView {
                mem: g.mem.update(address as int, value),
                serial: g.serial.push(g.mem[IO_SB as int]),
                ..g
            }
        } else {
            GbView { mem: g.mem.update(address as int, value), ..g }
        }
    }
}

/// Cycles per DIV tick.
pub open spec fn spec_div_period(double_speed: bool) -> u64 {
    if double_speed {
        128
    } else {
        256
    }
}

/// Cycles per TIMA tick for the two TAC frequency bits.
pub open spec fn spec_tima_period(bits: u8) -> u64 {
    match bits {
        0 => 1024,
        1 => 16,
        2 => 64,
        _ => 256,
    }
}

/// Sum of two accumulators modulo 2^64.
pub open spec fn wrap64_add(x: u64, y: u64) -> u64 {
    vstd::wrapping::u64_specs::wrapping_add(x, y)
}

/// Drain the divider accumulator: every full period increments DIV.
pub open spec fn spec_div_loop(counter: u64, div: u8, period: u64) -> (u64, u8)
    decreases counter,
{
    if period == 0 || counter < period {
        (counter, div)
    } else {
        spec_div_loop((counter - period) as u64, wrap8_add(div, 1), period)
    }
}

/// Drain the timer accumulator: every full period steps TIMA, and an
/// overflow reloads TIMA from TMA, requests the timer interrupt, and
/// stops draining.
pub open spec fn spec_tima_loop(counter: u64, tima: u8, tma: u8, iflag: u8, freq: u64) -> (
    u64,
    u8,
    u8,
)
    decreases counter,
{
    if freq == 0 || counter < freq {
        (counter, tima, iflag)
    } else {
        let c2 = (counter - freq) as u64;
        if tima == 0xFF {
            (c2, tma, iflag | 0x04)
        } else {
            spec_tima_loop(c2, wrap8_add(tima, 1), tma, iflag, freq)
        }
    }
}

/// Machine state after the timer unit absorbs `cycles`.
pub open spec fn spec_handle_timer(g: GbView, cycles: u64) -> GbView {
    let period = spec_div_period(g.double_speed);
    let dl = spec_div_loop(wrap64_add(g.div_counter, cycles), g.mem[IO_DIV as int], period);
    let g1 = GbView { mem: g.mem.update(IO_DIV as int, dl.1), div_counter: dl.0, ..g };
    if spec_bit(g1.mem[IO_TAC as int], 2) {
        let freq = spec_tima_period(g1.mem[IO_TAC as int] & 0x3);
        let tl = spec_tima_loop(
            wrap64_add(g1.tima_counter, cycles),
            g1.mem[IO_TIMA as int],
            g1.mem[IO_TMA as int],
            g1.mem[IO_IF as int],
            freq,
        );
        GbView {
            mem: g1.mem.update(IO_TIMA as int, tl.1).update(IO_IF as int, tl.2),
            tima_counter: tl.0,
            ..g1
        }
    } else {
        g1
    }
}

/// The lowest interrupt bit pending in both `req` and `enabled`.
pub open spec fn spec_pending_interrupt(req: u8, enabled: u8) -> Option<u8> {
    if spec_bit(req, 0) && spec_bit(enabled, 0) {
        Some(0u8)
    } else if spec_bit(req, 1) && spec_bit(enabled, 1) {
        Some(1u8)
    } else if spec_bit(req, 2) && spec_bit(enabled, 2) {
        Some(2u8)
    } else if spec_bit(req, 3) && spec_bit(enabled, 3) {
        Some(3u8)
    } else if spec_bit(req, 4) && spec_bit(enabled, 4) {
        Some(4u8)
    } else {
        None
    }
}

/// Machine state and cycle cost of servicing interrupt `i`: a halted
/// CPU with the master enable off only wakes (PC moves past HALT);
/// otherwise the master enable drops, the pending bit clears, PC is
/// pushed, and control transfers to the vector.
pub open spec fn spec_service_interrupt(g: GbView, i: u8) -> (GbView, u64) {
    if g.cpu.halted && !g.interrupts_on {
        (GbView { cpu: Cpu { halted: false, pc: wrap16_add(g.cpu.pc, 1), ..g.cpu }, ..g }, 0)
    } else {
        let g1 = GbView {
            interrupts_on: false,
            cpu: Cpu { halted: false, ..g.cpu },
            mem: g.mem.update(IO_IF as int, g.mem[IO_IF as int] & !(1u8 << i)),
            ..g
        };
        let g2 = bus_write_spec(g1, wrap16_sub(g.cpu.sp, 1), hi8(g.cpu.pc));
        let g3 = bus_write_spec(g2, wrap16_sub(g.cpu.sp, 2), lo8(g.cpu.pc));
        (
            GbView {
                cpu: Cpu {
                    sp: wrap16_sub(g.cpu.sp, 2),
                    pc: spec_interrupt_vector(i),
                    ..g3.cpu
                },
                ..g3
            },
            20,
        )
    }
}

/// Machine state and cycle cost of the interrupt stage: a pending EI
/// commits (and nothing is serviced that step); with the master enable
/// off and the CPU running nothing happens; otherwise the lowest
/// pending and enabled interrupt is serviced.
pub open spec fn spec_handle_interrupts(g: GbView) -> (GbView, u64) {
    if g.interrupt_enabling {
        (GbView { interrupts_on: true, interrupt_enabling: false, ..g }, 0)
    } else if !g.interrupts_on && !g.cpu.halted {
        (g, 0)
    } else {
        let req = bus_read_spec(g, IO_IF) | 0xE0;
        let enabled = bus_read_spec(g, INTERRUPT_ENABLE_ADDRESS);
        match spec_pending_interrupt(req, enabled) {
            Some(i) => spec_service_interrupt(g, i),
            None => (g, 0),
        }
    }
}

impl Gameboy {
    /// Well-formed machine.
    pub open spec fn wf(&self) -> bool {
        gb_inv(self@)
    }

    /// Read a byte from the bus.
    pub fn memory_read(&self, address: u16) -> (r: u8)
        requires
            self.wf(),
        ensures
            r == bus_read_spec(self@, address),
    {
        proof {
            reveal(bus_read_spec);
        }
        if self.test_mode {
            if address <= 0x7FFF {
                self.cart.read(address)
            } else {
                self.memory[address as usize]
            }
        } else {
            if address <= 0x7FFF {
                self.cart.read(address)
            } else if 0xA000 <= address && address <= 0xBFFF {
                self.cart.read(address)
            } else if 0xE000 <= address && address <= 0xFDFF {
                self.memory[(address - 0x2000) as usize]
            } else if address == IO_LY {
                0x90
            } else {
                self.memory[address as usize]
            }
        }
    }

    /// Write a byte to the bus, with the I/O side effects of
    /// `bus_write_spec`. A write into cartridge ROM space never
    /// changes memory.
    pub fn memory_write(&mut self, address: u16, value: u8)
        requires
            old(self).wf(),
        ensures
            final(self).wf(),
            final(self)@ == bus_write_spec(old(self)@, address, value),
            address <= 0x7FFF ==> final(self)@.mem == old(self)@.mem,
            final(self)@.cpu == old(self)@.cpu,
            final(self)@.interrupts_on == old(self)@.interrupts_on,
            final(self)@.interrupt_enabling == old(self)@.interrupt_enabling,
            final(self)@.double_speed == old(self)@.double_speed,
            final(self)@.cgb_mode == old(self)@.cgb_mode,
            final(self)@.test_mode == old(self)@.test_mode,
    {
        if self.test_mode {
            if address <= 0x7FFF {
                self.cart.write(address, value);
            } else {
                self.memory.set(address as usize, value);
            }
        } else {
            if address <= 0x7FFF {
                self.cart.write(address, value);
            } else if 0xA000 <= address && address <= 0xBFFF {
                self.cart.write(address, value);
            } else if 0xE000 <= address && address <= 0xFDFF {
                self.memory.set((address - 0x2000) as usize, value);
            } else if address == IO_DIV {
                self.timer_tima_counter = 0;
                self.timer_div_counter = 0;
                self.memory.set(IO_DIV as usize, 0);
            } else if address == IO_TAC {
                let current_freq = self.memory[IO_TAC as usize] & 0x3;
                self.memory.set(IO_TAC as usize, value | 0xF8);
                let new_freq = self.memory[IO_TAC as usize] & 0x3;
                if current_freq != new_freq {
                    self.timer_tima_counter = 0;
                }
            } else if address == IO_SC && value == 0x81 {
                self.memory.set(address as usize, value);
                let sb = self.memory[IO_SB as usize];
                self.serial_out.push(sb);
            } else {
                self.memory.set(address as usize, value);
            }
        }
        proof {
            reveal(bus_write_spec);
            assert(self@ =~~= bus_write_spec(old(self)@, address, value));
        }
    }

    /// Whether TAC bit 2 enables the timer.
    fn timer_enabled(&self) -> (r: bool)
        requires
            self.wf(),
        ensures
            r == spec_bit(self@.mem[IO_TAC as int], 2),
    {
        is_bit_set(self.memory[IO_TAC as usize], 2)
    }

    /// Cycles per TIMA tick under the current TAC setting.
    fn get_clock_freq_count(&self) -> (r: u64)
        requires
            self.wf(),
        ensures
            r == spec_tima_period(self@.mem[IO_TAC as int] & 0x3),
            r > 0,
    {
        match self.memory[IO_TAC as usize] & 0x3 {
            0 => 1024,
            1 => 16,
            2 => 64,
            _ => 256,
        }
    }

    /// Absorb `cycles` into the timer unit: DIV first, then TIMA with
    /// its overflow interrupt.
    pub fn handle_timer(&mut self, cycles: u64)
        requires
            old(self).wf(),
        ensures
            final(self).wf(),
            final(self)@ == spec_handle_timer(old(self)@, cycles),
    {
        let period: u64 = if self.double_speed {
            128
        } else {
            256
        };
        let acc = self.timer_div_counter.wrapping_add(cycles);
        let div = self.memory[IO_DIV as usize];
        let dl = div_loop(acc, div, period);
        self.timer_div_counter = dl.0;
        self.memory.set(IO_DIV as usize, dl.1);
        if self.timer_enabled() {
            let freq = self.get_clock_freq_count();
            let tacc = self.timer_tima_counter.wrapping_add(cycles);
            let tl = tima_loop(
                tacc,
                self.memory[IO_TIMA as usize],
                self.memory[IO_TMA as usize],
                self.memory[IO_IF as usize],
                freq,
            );
            self.timer_tima_counter = tl.0;
            self.memory.set(IO_TIMA as usize, tl.1);
            self.memory.set(IO_IF as usize, tl.2);
        }
        proof {
            assert(self@ =~~= spec_handle_timer(old(self)@, cycles));
        }
    }

    /// The interrupt stage: commit a pending EI, or service the lowest
    /// pending and enabled interrupt. Returns the cycles it consumed.
    pub fn handle_interrupts(&mut self) -> (r: u64)
        requires
            old(self).wf(),
        ensures
            final(self).wf(),
            (final(self)@, r) == spec_handle_interrupts(old(self)@),
            r <= 20,
    {
        if self.interrupt_enabling {
            self.interrupts_on = true;
            self.interrupt_enabling = false;
            proof {
                assert(self@ =~~= spec_handle_interrupts(old(self)@).0);
            }
            return 0;
        }
        if !self.interrupts_on && !self.cpu.halted {
            return 0;
        }
        let req = self.memory_read(IO_IF) | 0xE0;
        let enabled = self.memory_read(INTERRUPT_ENABLE_ADDRESS);
        let ghost g0 = old(self)@;
        let mut i: u8 = 0;
        while i < 5
            invariant
                i <= 5,
                g0 == old(self)@,
                self.wf(),
                self@ == g0,
                !g0.interrupt_enabling,
                g0.interrupts_on || g0.cpu.halted,
                req == bus_read_spec(g0, IO_IF) | 0xE0,
                enabled == bus_read_spec(g0, INTERRUPT_ENABLE_ADDRESS),
                forall|j: u8|
                    0 <= j < i ==> !(spec_bit(req, j) && spec_bit(enabled, j)),
            decreases 5 - i,
        {
            if is_bit_set(req, i) && is_bit_set(enabled, i) {
                let r = self.service_interrupt(i);
                proof {
                    assert(spec_pending_interrupt(req, enabled) == Some(i));
                }
                return r;
            }
            i = i + 1;
        }
        proof {
            assert(spec_pending_interrupt(req, enabled) is None);
        }
        0
    }

    /// Service interrupt `i`: wake a halted CPU, or dispatch to the
    /// vector with the master enable dropped and the pending bit
    /// cleared.
    #[verifier::rlimit(30)]
    fn service_interrupt(&mut self, i: u8) -> (r: u64)
        requires
            old(self).wf(),
            i < 5,
        ensures
            final(self).wf(),
            (final(self)@, r) == spec_service_interrupt(old(self)@, i),
    {
        let ghost g0 = old(self)@;
        if self.cpu.halted && !self.interrupts_on {
            self.cpu.halted = false;
            self.cpu.pc = self.cpu.pc.wrapping_add(1);
            proof {
                assert(self@ =~~= spec_service_interrupt(g0, i).0);
            }
            return 0;
        }
        self.interrupts_on = false;
        self.cpu.halted = false;
        let cleared = self.memory[IO_IF as usize] & !(1u8 << i);
        self.memory.set(IO_IF as usize, cleared);
        proof {
            assert(self@ =~~= (GbView {
                interrupts_on: false,
                cpu: Cpu { halted: false, ..g0.cpu },
                mem: g0.mem.update(IO_IF as int, g0.mem[IO_IF as int] & !(1u8 << i)),
                ..g0
            }));
        }
        let ghost g1 = self@;
        let sp = self.cpu.sp;
        let pc = self.cpu.pc;
        self.memory_write(sp.wrapping_sub(1), (pc >> 8) as u8);
        let ghost g2 = self@;
        proof {
            assert(g2 == bus_write_spec(g1, wrap16_sub(g0.cpu.sp, 1), hi8(g0.cpu.pc)));
        }
        self.memory_write(sp.wrapping_sub(2), pc as u8);
        let ghost g3 = self@;
        proof {
            assert(g3 == bus_write_spec(g2, wrap16_sub(g0.cpu.sp, 2), lo8(g0.cpu.pc)));
        }
        self.cpu.sp = sp.wrapping_sub(2);
        self.cpu.pc = crate::utils::interrupt_address(i);
        proof {
            assert(self@ =~~= (GbView {
                cpu: Cpu {
                    sp: wrap16_sub(g0.cpu.sp, 2),
                    pc: spec_interrupt_vector(i),
                    ..g3.cpu
                },
                ..g3
            }));
            assert(self@ =~~= spec_service_interrupt(g0, i).0);
        }
        20
    }
}

/// Drain the divider accumulator, executable form.
fn div_loop(counter: u64, div: u8, period: u64) -> (r: (u64, u8))
    requires
        period > 0,
    ensures
        r == spec_div_loop(counter, div, period),
    decreases counter,
{
    if counter < period {
        (counter, div)
    } else {
        div_loop(counter - period, div.wrapping_add(1), period)
    }
}

/// Drain the timer accumulator, executable form.
fn tima_loop(counter: u64, tima: u8, tma: u8, iflag: u8, freq: u64) -> (r: (u64, u8, u8))
    requires
        freq > 0,
    ensures
        r == spec_tima_loop(counter, tima, tma, iflag, freq),
    decreases counter,
{
    if counter < freq {
        (counter, tima, iflag)
    } else {
        let c2 = counter - freq;
        if tima == 0xFF {
            (c2, tma, iflag | 0x04)
        } else {
            tima_loop(c2, tima.wrapping_add(1), tma, iflag, freq)
        }
    }
}

/// Step-by-step construction of a machine.
pub struct GameboyBuilder {
    pub cart: Option<Cartridge>,
    pub cgb_mode: bool,
    pub test_mode: bool,
    pub breakpoints: Vec<usize>,
    pub panic_on_stuck: bool,
}

/// The machine a builder produces: boot-state CPU, zeroed memory and
/// accumulators, interrupts off, empty serial sink.
pub open spec fn spec_built_gb(
    cart: CartView,
    cgb_mode: bool,
    test_mode: bool,
    breakpoints: Seq<usize>,
    panic_on_stuck: bool,
) -> GbView {
    GbView {
        cpu: Cpu {
            a: 0x01,
            f: 0xB0,
            b: 0x00,
            c: 0x13,
            d: 0x00,
            e: 0xD8,
            h: 0x01,
            l: 0x4D,
            sp: 0xFFFE,
            pc: 0x0100,
            halted: false,
            is_stuck: false,
            stopped: false,
        },
        cart,
        mem: Seq::new(0x10000, |i: int| 0u8),
        interrupts_on: false,
        interrupt_enabling: false,
        double_speed: false,
        cgb_mode,
        test_mode,
        div_counter: 0,
        tima_counter: 0,
        serial: Seq::empty(),
        breakpoints,
        panic_on_stuck,
    }
}

impl GameboyBuilder {
    /// An empty builder: no cartridge, DMG mode, normal bus.
    pub fn new() -> (r: GameboyBuilder)
        ensures
            r.cart is None,
            !r.cgb_mode,
            !r.test_mode,
            r.breakpoints@ == Seq::<usize>::empty(),
            !r.panic_on_stuck,
    {
        GameboyBuilder {
            cart: None,
            cgb_mode: false,
            test_mode: false,
            breakpoints: Vec::new(),
            panic_on_stuck: false,
        }
    }

    /// Insert a cartridge.
    pub fn set_cart(self, cart: Cartridge) -> (r: GameboyBuilder)
        ensures
            r == (GameboyBuilder { cart: Some(cart), ..self }),
    {
        GameboyBuilder { cart: Some(cart), ..self }
    }

    /// Select CGB behaviour (double-speed switching on STOP).
    pub fn enable_cgb_mode(self) -> (r: GameboyBuilder)
        ensures
            r == (GameboyBuilder { cgb_mode: true, ..self }),
    {
        GameboyBuilder { cgb_mode: true, ..self }
    }

    /// Stop addresses a debugging host wants flagged while stepping.
    pub fn with_cpu_breakpoints(self, breakpoints: Vec<usize>) -> (r: GameboyBuilder)
        ensures
            r == (GameboyBuilder { breakpoints, ..self }),
    {
        GameboyBuilder { breakpoints, ..self }
    }

    /// Ask the host to abort rather than idle when the CPU gets stuck.
    pub fn panic_on_stuck(self) -> (r: GameboyBuilder)
        ensures
            r == (GameboyBuilder { panic_on_stuck: true, ..self }),
    {
        GameboyBuilder { panic_on_stuck: true, ..self }
    }

    /// Select the flat bus for instruction-level test vectors.
    pub fn enable_test_mode(self) -> (r: GameboyBuilder)
        ensures
            r == (GameboyBuilder { test_mode: true, ..self }),
    {
        GameboyBuilder { test_mode: true, ..self }
    }

    /// Build the machine; a builder without a cartridge gets the flat
    /// test controller.
    pub fn build(self) -> (r: Gameboy)
        requires
            (self.cart matches Some(c) ==> cart_inv(c@) && !(c@ is Empty)),
        ensures
            r.wf(),
            r@ == spec_built_gb(
                match self.cart {
                    Some(c) => c@,
                    None => CartView::Dummy(
                        crate::mbc::DummyMbcView {
                            rom: Seq::new((2 * 0x4000) as nat, |i: int| 0u8),
                            sram: Seq::new((4 * 0x2000) as nat, |i: int| 0u8),
                        },
                    ),
                },
                self.cgb_mode,
                self.test_mode,
                self.breakpoints@,
                self.panic_on_stuck,
            ),
    {
        let mut cpu = Cpu {
            a: 0,
            b: 0,
            c: 0,
            d: 0,
            e: 0,
            f: 0,
            h: 0,
            l: 0,
            sp: 0,
            pc: 0,
            halted: false,
            is_stuck: false,
            stopped: false,
        };
        cpu.reset();
        let cart = match self.cart {
            Some(c) => c,
            None => Cartridge::DummyMBC(crate::mbc::DummyMBC::new()),
        };
        let gb = Gameboy {
            cpu,
            cart,
            double_speed: false,
            cgb_mode: self.cgb_mode,
            interrupt_enabling: false,
            interrupts_on: false,
            timer_div_counter: 0,
            timer_tima_counter: 0,
            memory: zero_vec(0x10000),
            serial_out: Vec::new(),
            test_mode: self.test_mode,
            breakpoints: self.breakpoints,
            panic_on_stuck: self.panic_on_stuck,
        };
        proof {
            assert(gb@ =~~= spec_built_gb(
                gb@.cart,
                self.cgb_mode,
                self.test_mode,
                self.breakpoints@,
                self.panic_on_stuck,
            ));
        }
        gb
    }
}


/// Operand value fetched after the opcode: none, one byte, or two
/// bytes little-endian.
pub open spec fn spec_fetch_value(g: GbView, len: u8) -> u16 {
    if len == 2 {
        bus_read_spec(g, wrap16_add(g.cpu.pc, 1)) as u16
    } else if len == 3 {
        combine16(
            bus_read_spec(g, wrap16_add(g.cpu.pc, 2)),
            bus_read_spec(g, wrap16_add(g.cpu.pc, 1)),
        )
    } else {
        0
    }
}

/// One step of the machine: post state, cycles consumed, and whether
/// the step succeeded. A stopped or stuck CPU only idles. A running
/// CPU fetches and decodes at PC; an undefined byte marks it stuck and
/// fails the step; otherwise the instruction executes, the stuck
/// detector fires when neither PC nor SP moved on a non-halted CPU,
/// the timer absorbs the cycles, and pending interrupts are serviced.
/// A halted CPU skips straight to the timer and interrupt stages.
pub open spec fn spec_tick(g: GbView) -> (GbView, u64, bool) {
    if g.cpu.stopped || g.cpu.is_stuck {
        (g, 4, true)
    } else if !g.cpu.halted {
        let op = bus_read_spec(g, g.cpu.pc);
        let len = spec_opcode_length(op);
        if len == 0 {
            (GbView { cpu: Cpu { is_stuck: true, ..g.cpu }, ..g }, 4, false)
        } else {
            let ec = crate::opcodes::spec_exec_op(g, op, spec_fetch_value(g, len));
            let g2 = if !ec.0.cpu.is_stuck && ec.0.cpu.pc == g.cpu.pc && ec.0.cpu.sp == g.cpu.sp
                && !ec.0.cpu.halted {
                GbView { cpu: Cpu { is_stuck: true, ..ec.0.cpu }, ..ec.0 }
            } else {
                ec.0
            };
            let g3 = spec_handle_timer(g2, ec.1);
            let hi = spec_handle_interrupts(g3);
            (hi.0, (ec.1 + hi.1) as u64, true)
        }
    } else {
        let g3 = spec_handle_timer(g, 4);
        let hi = spec_handle_interrupts(g3);
        (hi.0, (4 + hi.1) as u64, true)
    }
}

impl Gameboy {
    /// Whether PC currently sits on one of the host's breakpoints.
    pub fn at_breakpoint(&self) -> (r: bool)
        ensures
            r == self@.breakpoints.contains(self@.cpu.pc as usize),
    {
        let pc = self.cpu.pc as usize;
        let mut i: usize = 0;
        while i < self.breakpoints.len()
            invariant
                i <= self.breakpoints@.len(),
                pc == self@.cpu.pc as usize,
                forall|j: int| 0 <= j < i ==> self.breakpoints@[j] != pc,
            decreases self.breakpoints@.len() - i,
        {
            if self.breakpoints[i] == pc {
                return true;
            }
            i = i + 1;
        }
        false
    }

    /// One step of the machine: fetch, decode, execute, stuck
    /// detection, timer, interrupts. Fails exactly when an undefined
    /// opcode byte is fetched, leaving the CPU marked stuck.
    #[verifier::rlimit(100)]
    #[verifier::spinoff_prover]
    pub fn tick(&mut self) -> (r: Result<OpCycles, GbError>)
        requires
            old(self).wf(),
        ensures
            final(self).wf(),
            final(self)@ == spec_tick(old(self)@).0,
            spec_tick(old(self)@).2 ==> r == Ok::<OpCycles, GbError>(spec_tick(old(self)@).1),
            !spec_tick(old(self)@).2 ==> r == Err::<OpCycles, GbError>(GbError::IllegalOpcode),
    {
        if self.cpu.stopped || self.cpu.is_stuck {
            return Ok(4);
        }
        if !self.cpu.halted {
            let ghost g0 = old(self)@;
            let op = self.memory_read(self.cpu.pc);
            let len = crate::globals::opcode_length(op);
            if len == 0 {
                self.cpu.is_stuck = true;
                proof {
                    assert(self@ =~~= spec_tick(g0).0);
                }
                return Err(GbError::IllegalOpcode);
            }
            let value: u16 = if len == 2 {
                self.memory_read(self.cpu.pc.wrapping_add(1)) as u16
            } else if len == 3 {
                let lo = self.memory_read(self.cpu.pc.wrapping_add(1));
                let hi = self.memory_read(self.cpu.pc.wrapping_add(2));
                crate::alu::combine16_exec(hi, lo)
            } else {
                0
            };
            let old_pc = self.cpu.pc;
            let old_sp = self.cpu.sp;
            proof {
                crate::globals::lemma_illegal_iff_length_zero(op);
            }
            let cycles: OpCycles = match self.execute_op_code(op, value) {
                Ok(c) => c,
                Err(_) => 0,
            };
            if !self.cpu.is_stuck && old_pc == self.cpu.pc && old_sp == self.cpu.sp
                && !self.cpu.halted {
                self.cpu.is_stuck = true;
            }
            proof {
                assert(self@ =~~= (if !crate::opcodes::spec_exec_op(
                    g0,
                    op,
                    spec_fetch_value(g0, len),
                ).0.cpu.is_stuck && crate::opcodes::spec_exec_op(
                    g0,
                    op,
                    spec_fetch_value(g0, len),
                ).0.cpu.pc == g0.cpu.pc && crate::opcodes::spec_exec_op(
                    g0,
                    op,
                    spec_fetch_value(g0, len),
                ).0.cpu.sp == g0.cpu.sp && !crate::opcodes::spec_exec_op(
                    g0,
                    op,
                    spec_fetch_value(g0, len),
                ).0.cpu.halted {
                    GbView {
                        cpu: Cpu {
                            is_stuck: true,
                            ..crate::opcodes::spec_exec_op(g0, op, spec_fetch_value(g0, len)).0.cpu
                        },
                        ..crate::opcodes::spec_exec_op(g0, op, spec_fetch_value(g0, len)).0
                    }
                } else {
                    crate::opcodes::spec_exec_op(g0, op, spec_fetch_value(g0, len)).0
                }));
            }
            self.handle_timer(cycles);
            let extra = self.handle_interrupts();
            proof {
                assert(self@ == spec_tick(g0).0);
            }
            Ok(cycles + extra)
        } else {
            self.handle_timer(4);
            let extra = self.handle_interrupts();
            proof {
                assert(self@ == spec_tick(old(self)@).0);
            }
            Ok(4 + extra)
        }
    }
}

} // verus!
