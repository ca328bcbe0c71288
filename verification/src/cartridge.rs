//! The cartridge: a tagged choice of bank controller, the guest-facing
//! read/write dispatch, and the header-validating loader.

use vstd::prelude::*;

use crate::globals::{
    CART_HEADER_CHECKSUM, CART_ROM_SIZE, CART_SRAM_SIZE, CART_TITLE_START, CART_TYPE,
    RAM_BANK_SIZE, RAM_MAX_BANKS_MBC1, ROM_BANK_SIZE, ROM_MAX_BANKS_MBC0, ROM_MAX_BANKS_MBC1,
};
use crate::mbc::{
    dummy_inv, mbc0_inv, mbc1_inv, mbc1_read_spec, mbc1_read_sram_spec, mbc1_write_spec,
    mbc1_write_sram_spec, spec_rom_mask, DummyMBC, DummyMbcView, IntoMBC, Mbc0View, Mbc1View, MBC0,
    MBC1,
};
use crate::utils::{calculate_checksum_range, spec_checksum};
use crate::GbError;

verus! {

/// A cartridge slot: empty, a flat test controller, or a real mapper.
pub enum Cartridge {
    Empty,
    DummyMBC(DummyMBC),
    MBC0(MBC0),
    MBC1(MBC1),
}

/// Mathematical state of the cartridge slot.
#[verifier::ext_equal]
pub ghost enum CartView {
    Empty,
    Dummy(DummyMbcView),
    Mbc0(Mbc0View),
    Mbc1(Mbc1View),
}

impl View for Cartridge {
    type V = CartView;

    open spec fn view(&self) -> CartView {
        match self {
            Cartridge::Empty => CartView::Empty,
            Cartridge::DummyMBC(m) => CartView::Dummy(m@),
            Cartridge::MBC0(m) => CartView::Mbc0(m@),
            Cartridge::MBC1(m) => CartView::Mbc1(m@),
        }
    }
}

/// Well-formed cartridge: the chosen controller is well-formed.
pub open spec fn cart_inv(c: CartView) -> bool {
    match c {
        CartView::Empty => true,
        CartView::Dummy(v) => dummy_inv(v),
        CartView::Mbc0(v) => mbc0_inv(v),
        CartView::Mbc1(v) => mbc1_inv(v),
    }
}

/// Byte a guest read at `address` returns: ROM space and the SRAM
/// window go to the controller, everything else reads 0.
pub open spec fn cart_read_spec(c: CartView, address: u16) -> u8 {
    if address <= 0x7FFF {
        match c {
            CartView::Empty => 0xFF,
            CartView::Dummy(v) => v.rom[address as int],
            CartView::Mbc0(v) => v.rom[address as int],
            CartView::Mbc1(v) => mbc1_read_spec(v, address as usize),
        }
    } else if 0xA000 <= address <= 0xBFFF {
        match c {
            CartView::Empty => 0xFF,
            CartView::Dummy(v) => v.sram[address - 0xA000],
            CartView::Mbc0(v) => 0xFF,
            CartView::Mbc1(v) => mbc1_read_sram_spec(v, (address - 0xA000) as usize),
        }
    } else {
        0
    }
}

/// Cartridge state after a guest write at `address`: ROM space updates
/// mapper registers (or raw bytes on the test controller), the SRAM
/// window updates SRAM, everything else is dropped.
pub open spec fn cart_write_spec(c: CartView, address: u16, value: u8) -> CartView {
    if address <= 0x7FFF {
        match c {
            CartView::Empty => c,
            CartView::Dummy(v) => CartView::Dummy(
                DummyMbcView { rom: v.rom.update(address as int, value), ..v },
            ),
            CartView::Mbc0(v) => c,
            CartView::Mbc1(v) => CartView::Mbc1(mbc1_write_spec(v, address as usize, value)),
        }
    } else if 0xA000 <= address <= 0xBFFF {
        match c {
            CartView::Empty => c,
            CartView::Dummy(v) => CartView::Dummy(
                DummyMbcView { sram: v.sram.update(address - 0xA000, value), ..v },
            ),
            CartView::Mbc0(v) => c,
            CartView::Mbc1(v) => CartView::Mbc1(
                mbc1_write_sram_spec(v, (address - 0xA000) as usize, value),
            ),
        }
    } else {
        c
    }
}

/// ROM image of the cartridge; only real mappers own one.
pub open spec fn cart_rom_spec(c: CartView) -> Seq<u8> {
    match c {
        CartView::Mbc0(v) => v.rom,
        CartView::Mbc1(v) => v.rom,
        _ => Seq::empty(),
    }
}

/// ROM bank count of a real mapper.
pub open spec fn cart_rom_banks_spec(c: CartView) -> usize {
    match c {
        CartView::Mbc1(v) => v.rom_banks,
        _ => ROM_MAX_BANKS_MBC0,
    }
}

/// SRAM bank count of a real mapper.
pub open spec fn cart_ram_banks_spec(c: CartView) -> usize {
    match c {
        CartView::Mbc1(v) => v.ram_banks,
        _ => 0,
    }
}

/// `dst` with its prefix replaced by `src`.
pub open spec fn overwrite_prefix(dst: Seq<u8>, src: Seq<u8>) -> Seq<u8> {
    Seq::new(
        dst.len(),
        |i: int|
            if i < src.len() {
                src[i]
            } else {
                dst[i]
            },
    )
}

/// Cartridge state after an image is copied in: the ROM prefix of a
/// real mapper is replaced, anything else is left alone.
pub open spec fn cart_load_rom_spec(c: CartView, rom: Seq<u8>) -> CartView {
    match c {
        CartView::Mbc0(v) => CartView::Mbc0(Mbc0View { rom: overwrite_prefix(v.rom, rom) }),
        CartView::Mbc1(v) => CartView::Mbc1(Mbc1View { rom: overwrite_prefix(v.rom, rom), ..v }),
        _ => c,
    }
}

/// Copy `src` over the front of `dst`.
fn copy_prefix(dst: &mut Vec<u8>, src: &Vec<u8>)
    requires
        src.len() <= old(dst).len(),
    ensures
        final(dst)@ == overwrite_prefix(old(dst)@, src@),
{
    let mut i: usize = 0;
    while i < src.len()
        invariant
            i <= src.len() <= dst.len(),
            dst@.len() == old(dst)@.len(),
            forall|j: int| 0 <= j < i ==> dst@[j] == src@[j],
            forall|j: int| i <= j < dst@.len() ==> dst@[j] == old(dst)@[j],
        decreases src.len() - i,
    {
        dst.set(i, src[i]);
        i = i + 1;
    }
    proof {
        assert(dst@ =~= overwrite_prefix(old(dst)@, src@));
    }
}

/// Declared ROM bank count for the size code at 0x0148; 0 marks an
/// unknown code.
pub open spec fn spec_rom_banks_of_code(code: u8) -> usize {
    match code {
        0x00 => 2,
        0x01 => 4,
        0x02 => 8,
        0x03 => 16,
        0x04 => 32,
        0x05 => 64,
        0x06 => 128,
        0x07 => 256,
        0x08 => 512,
        _ => 0,
    }
}

/// Declared SRAM bank count for the size code at 0x0149; code 0 means
/// no RAM, code 1 does not exist.
pub open spec fn spec_ram_banks_of_code(code: u8) -> usize {
    match code {
        0x00 => 0,
        0x02 => 1,
        0x03 => 4,
        0x04 => 16,
        0x05 => 8,
        _ => 0,
    }
}

/// Whether the SRAM size code is one the header format defines.
pub open spec fn spec_ram_code_valid(code: u8) -> bool {
    code == 0x00 || code == 0x02 || code == 0x03 || code == 0x04 || code == 0x05
}

/// The cartridge the loader builds from an image, or the error it
/// rejects the image with. Checks run in this order: the ROM size code
/// and the image length, the SRAM size code, the header checksum, the
/// cartridge type.
pub open spec fn spec_load_cart(rom: Seq<u8>) -> Result<CartView, GbError> {
    let rb = spec_rom_banks_of_code(rom[CART_ROM_SIZE as int]);
    let ram_code = rom[CART_SRAM_SIZE as int];
    let cart_type = rom[CART_TYPE as int];
    if rom.len() < 0x150 {
        Err(GbError::RomSizeMismatch)
    } else if rb == 0 || rb * ROM_BANK_SIZE != rom.len() {
        Err(GbError::RomSizeMismatch)
    } else if !spec_ram_code_valid(ram_code) {
        Err(GbError::InvalidRamSize)
    } else if spec_checksum(rom.subrange(CART_TITLE_START as int, CART_HEADER_CHECKSUM as int))
        != rom[CART_HEADER_CHECKSUM as int] {
        Err(GbError::ChecksumMismatch)
    } else if cart_type == 0x00 {
        if rb == 2 {
            Ok(
                CartView::Mbc0(
                    Mbc0View {
                        rom: overwrite_prefix(
                            Seq::new((ROM_MAX_BANKS_MBC0 * ROM_BANK_SIZE) as nat, |i: int| 0u8),
                            rom,
                        ),
                    },
                ),
            )
        } else {
            Err(GbError::RomSizeMismatch)
        }
    } else if cart_type == 0x01 || cart_type == 0x02 || cart_type == 0x03 {
        if rb <= 128 {
            Ok(
                CartView::Mbc1(
                    Mbc1View {
                        rom: overwrite_prefix(
                            Seq::new((ROM_MAX_BANKS_MBC1 * ROM_BANK_SIZE) as nat, |i: int| 0u8),
                            rom,
                        ),
                        sram: Seq::new((RAM_MAX_BANKS_MBC1 * RAM_BANK_SIZE) as nat, |i: int| 0u8),
                        rom_banks: rb,
                        ram_banks: spec_ram_banks_of_code(ram_code),
                        ram_enabled: false,
                        rom_bank_select: 1,
                        ram_bank_select: 0,
                        rom_mask: spec_rom_mask(rb),
                        mode: 0,
                    },
                ),
            )
        } else {
            Err(GbError::RomSizeMismatch)
        }
    } else {
        Err(GbError::UnsupportedCartType)
    }
}

impl Cartridge {
    /// The ROM image of a real mapper.
    pub fn rom(&self) -> (r: &Vec<u8>)
        requires
            (self@ is Mbc0) || (self@ is Mbc1),
        ensures
            r@ == cart_rom_spec(self@),
    {
        match self {
            Cartridge::MBC0(m) => &m.rom,
            Cartridge::MBC1(m) => &m.rom,
            _ => unreached(),
        }
    }

    /// Copy an image into a real mapper's ROM; other slots are left as
    /// they are.
    pub fn load_rom(&mut self, rom: &Vec<u8>)
        requires
            (old(self)@ is Mbc0) ==> rom.len() <= ROM_MAX_BANKS_MBC0 * ROM_BANK_SIZE,
            (old(self)@ is Mbc1) ==> rom.len() <= ROM_MAX_BANKS_MBC1 * ROM_BANK_SIZE,
            cart_inv(old(self)@),
        ensures
            final(self)@ == cart_load_rom_spec(old(self)@, rom@),
            cart_inv(final(self)@),
    {
        match self {
            Cartridge::MBC0(m) => {
                copy_prefix(&mut m.rom, rom);
            },
            Cartridge::MBC1(m) => {
                copy_prefix(&mut m.rom, rom);
            },
            _ => {},
        }
        proof {
            assert(self@ =~~= cart_load_rom_spec(old(self)@, rom@));
        }
    }

    /// ROM bank count of a real mapper.
    pub fn rom_banks(&self) -> (r: usize)
        requires
            (self@ is Mbc0) || (self@ is Mbc1),
        ensures
            r == cart_rom_banks_spec(self@),
    {
        match self {
            Cartridge::MBC0(_) => ROM_MAX_BANKS_MBC0,
            Cartridge::MBC1(m) => m.rom_banks,
            _ => unreached(),
        }
    }

    /// SRAM bank count of a real mapper.
    pub fn ram_banks(&self) -> (r: usize)
        requires
            (self@ is Mbc0) || (self@ is Mbc1),
        ensures
            r == cart_ram_banks_spec(self@),
    {
        match self {
            Cartridge::MBC0(_) => 0,
            Cartridge::MBC1(m) => m.ram_banks,
            _ => unreached(),
        }
    }

    /// Guest read of cartridge space.
    pub fn read(&self, address: u16) -> (r: u8)
        requires
            cart_inv(self@),
            !(self@ is Empty),
        ensures
            r == cart_read_spec(self@, address),
    {
        if address <= 0x7FFF {
            match self {
                Cartridge::DummyMBC(m) => m.read(address as usize),
                Cartridge::MBC0(m) => m.read(address as usize),
                Cartridge::MBC1(m) => m.read(address as usize),
                Cartridge::Empty => unreached(),
            }
        } else if 0xA000 <= address && address <= 0xBFFF {
            match self {
                Cartridge::DummyMBC(m) => m.read_sram((address - 0xA000) as usize),
                Cartridge::MBC0(m) => m.read_sram((address - 0xA000) as usize),
                Cartridge::MBC1(m) => m.read_sram((address - 0xA000) as usize),
                Cartridge::Empty => unreached(),
            }
        } else {
            0
        }
    }

    /// Guest write into cartridge space.
    pub fn write(&mut self, address: u16, value: u8)
        requires
            cart_inv(old(self)@),
            !(old(self)@ is Empty),
        ensures
            final(self)@ == cart_write_spec(old(self)@, address, value),
            cart_inv(final(self)@),
    {
        if address <= 0x7FFF {
            match self {
                Cartridge::DummyMBC(m) => m.write(address as usize, value),
                Cartridge::MBC0(m) => m.write(address as usize, value),
                Cartridge::MBC1(m) => m.write(address as usize, value),
                Cartridge::Empty => unreached(),
            }
        } else if 0xA000 <= address && address <= 0xBFFF {
            match self {
                Cartridge::DummyMBC(m) => m.write_sram((address - 0xA000) as usize, value),
                Cartridge::MBC0(m) => m.write_sram((address - 0xA000) as usize, value),
                Cartridge::MBC1(m) => m.write_sram((address - 0xA000) as usize, value),
                Cartridge::Empty => unreached(),
            }
        }
        proof {
            assert(self@ =~~= cart_write_spec(old(self)@, address, value));
        }
    }

    /// The empty slot.
    pub fn empty() -> (r: Self)
        ensures
            r@ is Empty,
    {
        Self::Empty
    }

    /// Build a cartridge from a raw image: decode the size codes,
    /// validate the header checksum, pick the mapper, copy the image in.
    pub fn new(rom: Vec<u8>) -> (r: Result<Cartridge, GbError>)
        ensures
            (r is Ok) == (spec_load_cart(rom@) is Ok),
            r is Ok ==> (r->Ok_0)@ == spec_load_cart(rom@)->Ok_0 && cart_inv((r->Ok_0)@),
            r is Err ==> r->Err_0 == spec_load_cart(rom@)->Err_0,
    {
        if rom.len() < 0x150 {
            return Err(GbError::RomSizeMismatch);
        }
        let rb: usize = match rom[CART_ROM_SIZE as usize] {
            0x00 => 2,
            0x01 => 4,
            0x02 => 8,
            0x03 => 16,
            0x04 => 32,
            0x05 => 64,
            0x06 => 128,
            0x07 => 256,
            0x08 => 512,
            _ => 0,
        };
        if rb == 0 || rb * ROM_BANK_SIZE != rom.len() {
            return Err(GbError::RomSizeMismatch);
        }
        let ram_code = rom[CART_SRAM_SIZE as usize];
        let ram_banks: usize = match ram_code {
            0x00 => 0,
            0x02 => 1,
            0x03 => 4,
            0x04 => 16,
            0x05 => 8,
            _ => 0,
        };
        if !(ram_code == 0x00 || ram_code == 0x02 || ram_code == 0x03 || ram_code == 0x04
            || ram_code == 0x05) {
            return Err(GbError::InvalidRamSize);
        }
        let checksum = calculate_checksum_range(
            &rom,
            CART_TITLE_START as usize,
            CART_HEADER_CHECKSUM as usize,
        );
        if checksum != rom[CART_HEADER_CHECKSUM as usize] {
            return Err(GbError::ChecksumMismatch);
        }
        let cart_type = rom[CART_TYPE as usize];
        if cart_type == 0x00 {
            if rb == 2 {
                let mut cart = Cartridge::MBC0(MBC0::new());
                cart.load_rom(&rom);
                Ok(cart)
            } else {
                Err(GbError::RomSizeMismatch)
            }
        } else if cart_type == 0x01 || cart_type == 0x02 || cart_type == 0x03 {
            if rb <= 128 {
                let mut cart = Cartridge::MBC1(MBC1::new(rb, ram_banks));
                cart.load_rom(&rom);
                Ok(cart)
            } else {
                Err(GbError::RomSizeMismatch)
            }
        } else {
            Err(GbError::UnsupportedCartType)
        }
    }
}

} // verus!
