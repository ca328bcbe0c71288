//! Memory bank controllers: the address mapping from the guest's
//! 16-bit bus to physical ROM and SRAM offsets, and the bank-select
//! registers that guest writes into ROM address space update.

use vstd::prelude::*;

use crate::globals::{
    RAM_BANK_SIZE, RAM_MAX_BANKS_MBC1, ROM_BANK_SIZE, ROM_MAX_BANKS_MBC0, ROM_MAX_BANKS_MBC1,
};
use crate::utils::{ram_absolute_address, rom_absolute_address};

verus! {

/// A left shift by five of a small bank index is a multiplication by 32.
pub broadcast proof fn lemma_bank_shift(x: usize)
    requires
        x <= 3,
    ensures
        #[trigger] (x << 5) == x * 32,
{
    assert(x <= 3 ==> (x << 5) == x * 32) by (bit_vector);
}

/// An OR of two values at or below 0x7F stays at or below 0x7F.
pub broadcast proof fn lemma_or_bank_bound(a: usize, b: usize)
    requires
        a <= 0x7F,
        b <= 0x7F,
    ensures
        #[trigger] (a | b) <= 0x7F,
{
    assert(a <= 0x7F && b <= 0x7F ==> (a | b) <= 0x7F) by (bit_vector);
}

/// Mathematical state of the test controller: flat, fully writable.
#[verifier::ext_equal]
pub ghost struct DummyMbcView {
    pub rom: Seq<u8>,
    pub sram: Seq<u8>,
}

/// Mathematical state of MBC0: a fixed 32 KiB ROM.
#[verifier::ext_equal]
pub ghost struct Mbc0View {
    pub rom: Seq<u8>,
}

/// Mathematical state of MBC1: the images plus the banking registers.
#[verifier::ext_equal]
pub ghost struct Mbc1View {
    pub rom: Seq<u8>,
    pub sram: Seq<u8>,
    pub rom_banks: usize,
    pub ram_banks: usize,
    pub ram_enabled: bool,
    pub rom_bank_select: usize,
    pub ram_bank_select: usize,
    pub rom_mask: u8,
    pub mode: u8,
}

/// The bank-select mask a ROM of `rom_banks` banks gets: smaller ROMs
/// expose fewer select bits.
pub open spec fn spec_rom_mask(rom_banks: usize) -> u8 {
    match rom_banks {
        2 => 0x01,
        4 => 0x03,
        8 => 0x07,
        16 => 0x0F,
        _ => 0x1F,
    }
}

/// Bank counts MBC1 supports.
pub open spec fn valid_mbc1_banks(rom_banks: usize) -> bool {
    rom_banks == 2 || rom_banks == 4 || rom_banks == 8 || rom_banks == 16 || rom_banks == 32
        || rom_banks == 64 || rom_banks == 128
}

/// Well-formed test controller: full-bus ROM image and four SRAM banks.
pub open spec fn dummy_inv(v: DummyMbcView) -> bool {
    v.rom.len() == ROM_MAX_BANKS_MBC0 * ROM_BANK_SIZE && v.sram.len() == 4 * RAM_BANK_SIZE
}

/// Well-formed MBC0: exactly two ROM banks.
pub open spec fn mbc0_inv(v: Mbc0View) -> bool {
    v.rom.len() == ROM_MAX_BANKS_MBC0 * ROM_BANK_SIZE
}

/// Well-formed MBC1: full-size images, a supported bank count, a mask
/// that matches it, a five-bit nonzero ROM select, a two-bit RAM select,
/// and a one-bit mode.
pub open spec fn mbc1_inv(m: Mbc1View) -> bool {
    &&& m.rom.len() == ROM_MAX_BANKS_MBC1 * ROM_BANK_SIZE
    &&& m.sram.len() == RAM_MAX_BANKS_MBC1 * RAM_BANK_SIZE
    &&& valid_mbc1_banks(m.rom_banks)
    &&& m.rom_mask == spec_rom_mask(m.rom_banks)
    &&& 1 <= m.rom_bank_select <= 0x1F
    &&& m.ram_bank_select <= 3
    &&& m.mode <= 1
    &&& m.ram_banks <= 16
}

/// ROM bank MBC1 maps guest [0x0000,0x3FFF] to: bank 0, except in
/// mode 1 where the RAM select supplies the upper bits.
pub open spec fn mbc1_low_bank(m: Mbc1View) -> usize {
    if m.mode == 1 {
        (m.ram_bank_select << 5) & m.rom_banks
    } else {
        0
    }
}

/// ROM bank MBC1 maps guest [0x4000,0x7FFF] to.
pub open spec fn mbc1_high_bank(m: Mbc1View) -> usize {
    ((m.ram_bank_select << 5) % m.rom_banks) | m.rom_bank_select
}

/// SRAM bank MBC1 addresses: the RAM select in mode 1, else bank 0.
pub open spec fn mbc1_sram_bank(m: Mbc1View) -> usize {
    if m.mode == 1 && m.ram_banks > 0 {
        m.ram_bank_select % m.ram_banks
    } else {
        0
    }
}

/// Byte MBC1 returns for a guest ROM-space read.
pub open spec fn mbc1_read_spec(m: Mbc1View, address: usize) -> u8 {
    if address <= 0x3FFF {
        m.rom[mbc1_low_bank(m) * ROM_BANK_SIZE + address]
    } else {
        m.rom[mbc1_high_bank(m) * ROM_BANK_SIZE + (address - 0x4000)]
    }
}

/// Register state after a guest write into MBC1's ROM address space.
pub open spec fn mbc1_write_spec(m: Mbc1View, address: usize, value: u8) -> Mbc1View {
    if address <= 0x1FFF {
        Mbc1View { ram_enabled: (value & 0x0F) == 0x0A, ..m }
    } else if address <= 0x3FFF {
        let sel = (value & m.rom_mask) as usize;
        Mbc1View {
            rom_bank_select: if sel == 0 {
                1
            } else {
                sel
            },
            ..m
        }
    } else if address <= 0x5FFF {
        Mbc1View { ram_bank_select: (value & 0x03) as usize, ..m }
    } else {
        Mbc1View { mode: value & 0x01, ..m }
    }
}

/// Byte MBC1 returns for an SRAM read at `address` (an offset into the
/// 8 KiB window): 0xFF while RAM is disabled or absent.
pub open spec fn mbc1_read_sram_spec(m: Mbc1View, address: usize) -> u8 {
    if !m.ram_enabled || m.ram_banks == 0 {
        0xFF
    } else {
        m.sram[mbc1_sram_bank(m) * RAM_BANK_SIZE + address]
    }
}

/// SRAM state after a guest write: dropped while RAM is disabled or
/// absent.
pub open spec fn mbc1_write_sram_spec(m: Mbc1View, address: usize, value: u8) -> Mbc1View {
    if !m.ram_enabled || m.ram_banks == 0 {
        m
    } else {
        Mbc1View {
            sram: m.sram.update(mbc1_sram_bank(m) * RAM_BANK_SIZE + address, value),
            ..m
        }
    }
}

/// Every bank MBC1 can form stays inside its images.
pub proof fn lemma_mbc1_banks_in_range(m: Mbc1View)
    requires
        mbc1_inv(m),
    ensures
        mbc1_low_bank(m) <= 0x7F,
        mbc1_high_bank(m) <= 0x7F,
        mbc1_sram_bank(m) <= 3,
{
    broadcast use lemma_bank_shift;
    broadcast use crate::alu::lemma_usize_and_bounds;

    assert((m.ram_bank_select << 5) <= 96);
    assert(((m.ram_bank_select << 5) % m.rom_banks) < m.rom_banks);
    lemma_or_bank_bound((m.ram_bank_select << 5) % m.rom_banks, m.rom_bank_select);
    if m.mode == 1 && m.ram_banks > 0 {
        vstd::arithmetic::div_mod::lemma_mod_decreases(
            m.ram_bank_select as nat,
            m.ram_banks as nat,
        );
    }
}

/// The guest-visible interface of a bank controller: ROM-space reads
/// and writes (the latter update registers, never ROM) and SRAM-window
/// reads and writes, each pinned to the controller's mapping spec.
pub trait IntoMBC: View + Sized {
    /// Structural well-formedness of the controller.
    spec fn inv(&self) -> bool;

    /// Value a ROM-space read returns.
    spec fn read_spec(&self, address: usize) -> u8;

    /// State after a ROM-space write.
    spec fn write_spec(&self, address: usize, value: u8) -> Self::V;

    /// Value an SRAM-window read returns.
    spec fn read_sram_spec(&self, address: usize) -> u8;

    /// State after an SRAM-window write.
    spec fn write_sram_spec(&self, address: usize, value: u8) -> Self::V;

    /// Read from guest ROM space; `address` is the raw bus address.
    fn read(&self, address: usize) -> (r: u8)
        requires
            self.inv(),
            address <= 0x7FFF,
        ensures
            r == self.read_spec(address),
    ;

    /// Write into guest ROM space; `address` is the raw bus address.
    fn write(&mut self, address: usize, value: u8)
        requires
            old(self).inv(),
            address <= 0x7FFF,
        ensures
            final(self).inv(),
            final(self)@ == old(self).write_spec(address, value),
    ;

    /// Read from the SRAM window; `address` is an offset below 0x2000.
    fn read_sram(&self, address: usize) -> (r: u8)
        requires
            self.inv(),
            address < 0x2000,
        ensures
            r == self.read_sram_spec(address),
    ;

    /// Write into the SRAM window; `address` is an offset below 0x2000.
    fn write_sram(&mut self, address: usize, value: u8)
        requires
            old(self).inv(),
            address < 0x2000,
        ensures
            final(self).inv(),
            final(self)@ == old(self).write_sram_spec(address, value),
    ;
}

/// A flat, fully writable controller for instruction-level test
/// harnesses, which need to preset arbitrary ROM-space bytes.
pub struct DummyMBC {
    pub rom: Vec<u8>,
    pub sram: Vec<u8>,
}

impl View for DummyMBC {
    type V = DummyMbcView;

    open spec fn view(&self) -> DummyMbcView {
        DummyMbcView { rom: self.rom@, sram: self.sram@ }
    }
}

/// A vector of `n` zero bytes.
pub fn zero_vec(n: usize) -> (r: Vec<u8>)
    ensures
        r@ == Seq::new(n as nat, |i: int| 0u8),
{
    let mut v: Vec<u8> = Vec::new();
    let mut i: usize = 0;
    while i < n
        invariant
            i == v@.len() <= n,
            forall|j: int| 0 <= j < i ==> v@[j] == 0u8,
        decreases n - i,
    {
        v.push(0);
        i = i + 1;
    }
    proof {
        assert(v@ =~= Seq::new(n as nat, |i: int| 0u8));
    }
    v
}

impl DummyMBC {
    /// A zeroed test controller.
    pub fn new() -> (r: Self)
        ensures
            r.inv(),
            r@.rom == Seq::new((ROM_MAX_BANKS_MBC0 * ROM_BANK_SIZE) as nat, |i: int| 0u8),
            r@.sram == Seq::new((4 * RAM_BANK_SIZE) as nat, |i: int| 0u8),
    {
        DummyMBC { rom: zero_vec(ROM_MAX_BANKS_MBC0 * ROM_BANK_SIZE), sram: zero_vec(4 * RAM_BANK_SIZE) }
    }
}

impl IntoMBC for DummyMBC {
    open spec fn inv(&self) -> bool {
        dummy_inv(self@)
    }

    open spec fn read_spec(&self, address: usize) -> u8 {
        self@.rom[address as int]
    }

    open spec fn write_spec(&self, address: usize, value: u8) -> DummyMbcView {
        DummyMbcView { rom: self@.rom.update(address as int, value), ..self@ }
    }

    open spec fn read_sram_spec(&self, address: usize) -> u8 {
        self@.sram[address as int]
    }

    open spec fn write_sram_spec(&self, address: usize, value: u8) -> DummyMbcView {
        DummyMbcView { sram: self@.sram.update(address as int, value), ..self@ }
    }

    fn read(&self, address: usize) -> u8 {
        self.rom[address]
    }

    fn write(&mut self, address: usize, value: u8) {
        self.rom.set(address, value);
    }

    fn read_sram(&self, address: usize) -> u8 {
        self.sram[address]
    }

    fn write_sram(&mut self, address: usize, value: u8) {
        self.sram.set(address, value);
    }
}

/// The 32 KiB ROM-only cartridge: reads are raw, writes are dropped,
/// and there is no SRAM.
pub struct MBC0 {
    pub rom: Vec<u8>,
}

impl View for MBC0 {
    type V = Mbc0View;

    open spec fn view(&self) -> Mbc0View {
        Mbc0View { rom: self.rom@ }
    }
}

impl MBC0 {
    /// A zeroed ROM-only cartridge.
    pub fn new() -> (r: Self)
        ensures
            r.inv(),
            r@.rom == Seq::new((ROM_MAX_BANKS_MBC0 * ROM_BANK_SIZE) as nat, |i: int| 0u8),
    {
        MBC0 { rom: zero_vec(ROM_MAX_BANKS_MBC0 * ROM_BANK_SIZE) }
    }
}

impl IntoMBC for MBC0 {
    open spec fn inv(&self) -> bool {
        mbc0_inv(self@)
    }

    open spec fn read_spec(&self, address: usize) -> u8 {
        self@.rom[address as int]
    }

    open spec fn write_spec(&self, address: usize, value: u8) -> Mbc0View {
        self@
    }

    open spec fn read_sram_spec(&self, address: usize) -> u8 {
        0xFF
    }

    open spec fn write_sram_spec(&self, address: usize, value: u8) -> Mbc0View {
        self@
    }

    fn read(&self, address: usize) -> u8 {
        self.rom[address]
    }

    fn write(&mut self, address: usize, value: u8) {
    }

    fn read_sram(&self, address: usize) -> u8 {
        0xFF
    }

    fn write_sram(&mut self, address: usize, value: u8) {
    }
}

/// MBC1: up to 128 ROM banks and 4 SRAM banks, selected by guest
/// writes into ROM address space.
pub struct MBC1 {
    pub rom: Vec<u8>,
    pub sram: Vec<u8>,
    pub rom_banks: usize,
    pub ram_banks: usize,
    pub ram_enabled: bool,
    pub rom_bank_select: usize,
    pub ram_bank_select: usize,
    pub rom_mask: u8,
    pub mode: u8,
}

impl View for MBC1 {
    type V = Mbc1View;

    open spec fn view(&self) -> Mbc1View {
        Mbc1View {
            rom: self.rom@,
            sram: self.sram@,
            rom_banks: self.rom_banks,
            ram_banks: self.ram_banks,
            ram_enabled: self.ram_enabled,
            rom_bank_select: self.rom_bank_select,
            ram_bank_select: self.ram_bank_select,
            rom_mask: self.rom_mask,
            mode: self.mode,
        }
    }
}

impl MBC1 {
    /// A zeroed MBC1 with its mask derived from the bank count:
    /// RAM disabled, ROM bank 1, RAM bank 0, mode 0.
    pub fn new(rom_banks: usize, ram_banks: usize) -> (r: Self)
        requires
            valid_mbc1_banks(rom_banks),
            ram_banks <= 16,
        ensures
            r.inv(),
            r@ == (Mbc1View {
                rom: Seq::new((ROM_MAX_BANKS_MBC1 * ROM_BANK_SIZE) as nat, |i: int| 0u8),
                sram: Seq::new((RAM_MAX_BANKS_MBC1 * RAM_BANK_SIZE) as nat, |i: int| 0u8),
                rom_banks,
                ram_banks,
                ram_enabled: false,
                rom_bank_select: 1,
                ram_bank_select: 0,
                rom_mask: spec_rom_mask(rom_banks),
                mode: 0,
            }),
    {
        let rom_mask: u8 = match rom_banks {
            2 => 0x01,
            4 => 0x03,
            8 => 0x07,
            16 => 0x0F,
            _ => 0x1F,
        };
        MBC1 {
            rom: zero_vec(ROM_MAX_BANKS_MBC1 * ROM_BANK_SIZE),
            sram: zero_vec(RAM_MAX_BANKS_MBC1 * RAM_BANK_SIZE),
            rom_banks,
            ram_banks,
            ram_enabled: false,
            rom_bank_select: 1,
            ram_bank_select: 0,
            rom_mask,
            mode: 0,
        }
    }
}

impl IntoMBC for MBC1 {
    open spec fn inv(&self) -> bool {
        mbc1_inv(self@)
    }

    open spec fn read_spec(&self, address: usize) -> u8 {
        mbc1_read_spec(self@, address)
    }

    open spec fn write_spec(&self, address: usize, value: u8) -> Mbc1View {
        mbc1_write_spec(self@, address, value)
    }

    open spec fn read_sram_spec(&self, address: usize) -> u8 {
        mbc1_read_sram_spec(self@, address)
    }

    open spec fn write_sram_spec(&self, address: usize, value: u8) -> Mbc1View {
        mbc1_write_sram_spec(self@, address, value)
    }

    fn read(&self, address: usize) -> u8 {
        proof {
            lemma_mbc1_banks_in_range(self@);
        }
        if address <= 0x3FFF {
            let bank: usize = if self.mode == 1 {
                (self.ram_bank_select << 5) & self.rom_banks
            } else {
                0
            };
            self.rom[rom_absolute_address(bank, address)]
        } else {
            let bank: usize = ((self.ram_bank_select << 5) % self.rom_banks)
                | self.rom_bank_select;
            self.rom[rom_absolute_address(bank, address - 0x4000)]
        }
    }

    fn write(&mut self, address: usize, value: u8) {
        proof {
            broadcast use crate::alu::lemma_u8_and_bounds;

        }
        if address <= 0x1FFF {
            self.ram_enabled = (value & 0x0F) == 0x0A;
        } else if address <= 0x3FFF {
            let sel = (value & self.rom_mask) as usize;
            if sel == 0 {
                self.rom_bank_select = 1;
            } else {
                self.rom_bank_select = sel;
            }
        } else if address <= 0x5FFF {
            self.ram_bank_select = (value & 0x03) as usize;
        } else {
            self.mode = value & 0x01;
        }
        proof {
            assert(self@ =~= old(self).write_spec(address, value));
        }
    }

    fn read_sram(&self, address: usize) -> u8 {
        proof {
            lemma_mbc1_banks_in_range(self@);
        }
        if !self.ram_enabled || self.ram_banks == 0 {
            return 0xFF;
        }
        let bank: usize = if self.mode == 1 {
            self.ram_bank_select % self.ram_banks
        } else {
            0
        };
        self.sram[ram_absolute_address(bank, address)]
    }

    fn write_sram(&mut self, address: usize, value: u8) {
        proof {
            lemma_mbc1_banks_in_range(self@);
        }
        if !self.ram_enabled || self.ram_banks == 0 {
            proof {
                assert(self@ =~= old(self).write_sram_spec(address, value));
            }
            return ;
        }
        let bank: usize = if self.mode == 1 {
            self.ram_bank_select % self.ram_banks
        } else {
            0
        };
        self.sram.set(ram_absolute_address(bank, address), value);
        proof {
            assert(self@ =~= old(self).write_sram_spec(address, value));
        }
    }
}

} // verus!
