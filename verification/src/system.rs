use crate::apu::APU;
use crate::cart::{has_magic, load_to_cart, parse_image, whole_image, Cart, CartLoadResult, CartView};
use crate::ppu::{PpuView, PPU};
use vstd::prelude::*;

verus! {

/// Bytes of scratch RAM.
pub const SCRATCH_RAM_SIZE: usize = 0x800;

/// The backing stores that the bus routes to. Every address belongs to
/// exactly one of them: see [`region_of`].
#[derive(Debug, Clone, Copy, PartialEq, Eq, Structural)]
pub enum Region {
    /// `0x0000..0x2000`: the scratch RAM, four times over.
    Ram,
    /// `0x2000..0x4000`: the registers of the video peripheral.
    Video,
    /// `0x4000..0x4020`: the registers of the audio peripheral.
    Audio,
    /// `0x4020..=0xffff`: the cartridge.
    Cartridge,
}

/// The backing store that `address` resolves to.
pub open spec fn region_at(address: u16) -> Region {
    if address < 0x2000 {
        Region::Ram
    } else if address < 0x4000 {
        Region::Video
    } else if address < 0x4020 {
        Region::Audio
    } else {
        Region::Cartridge
    }
}

/// The cell of scratch RAM behind an address of the RAM region: the RAM
/// repeats every `0x800` bytes.
pub open spec fn ram_cell(address: u16) -> int {
    (address % 0x800) as int
}

/// The address that follows `address`; the one after the last is the first.
pub open spec fn next_address(address: u16) -> u16 {
    if address == 0xffff {
        0
    } else {
        (address + 1) as u16
    }
}

/// The little-endian word made of a low and a high byte.
pub open spec fn word_of(low: u8, high: u8) -> u16 {
    (low as u16) | ((high as u16) << 8)
}

/// The word made of two bytes is the low byte and 256 times the high byte.
pub proof fn lemma_word_of_is_a_sum(low: u8, high: u8)
    ensures
        word_of(low, high) == low + 0x100 * high,
{
    assert((low as u16) | ((high as u16) << 8) == low + 0x100 * high) by (bit_vector);
}

/// What a [`System`] is, as far as its callers can tell.
pub struct SystemView {
    /// The scratch RAM.
    pub ram: Seq<u8>,
    /// The video peripheral.
    pub ppu: PpuView,
    /// The cartridge in the slot.
    pub cart: CartView,
}

impl SystemView {
    pub open spec fn well_formed(self) -> bool {
        self.ram.len() == SCRATCH_RAM_SIZE && self.cart.well_formed()
    }

    /// The system as it is switched on with `cart` in the slot: the RAM
    /// cleared, the video peripheral at the start of a frame.
    pub open spec fn power_on(cart: CartView) -> SystemView {
        SystemView {
            ram: Seq::new(SCRATCH_RAM_SIZE as nat, |i: int| 0u8),
            ppu: PpuView { clock: 0, in_vblank: false },
            cart,
        }
    }

    /// The byte that the cartridge holds at `address`. The first program
    /// page lies at `0x8000..0xc000` and the last one at `0xc000..=0xffff`,
    /// so a single page is seen twice. Below `0x8000`, and where the
    /// cartridge has no program page, the cartridge answers with zero.
    pub open spec fn mapper_byte(self, address: u16) -> u8 {
        let pages = self.cart.prg_rom_pages;
        if address < 0x8000 || pages.len() == 0 {
            0
        } else if address < 0xc000 {
            pages[0][address - 0x8000]
        } else {
            pages[pages.len() - 1][address - 0xc000]
        }
    }

    /// The byte that a read of `address` returns.
    pub open spec fn peek(self, address: u16) -> u8 {
        match region_at(address) {
            Region::Ram => self.ram[ram_cell(address)],
            Region::Video => self.ppu.status(),
            Region::Audio => 0,
            Region::Cartridge => self.mapper_byte(address),
        }
    }

    /// The system after a read of `address`: a read of a video register
    /// lowers the vertical-blank flag, any other read changes nothing.
    pub open spec fn after_read(self, address: u16) -> SystemView {
        match region_at(address) {
            Region::Video => SystemView { ppu: self.ppu.after_read(), ..self },
            _ => self,
        }
    }

    /// The system after `value` has been written to `address`: a write to
    /// the RAM region changes one cell, any other write changes nothing.
    pub open spec fn after_write(self, address: u16, value: u8) -> SystemView {
        match region_at(address) {
            Region::Ram => SystemView { ram: self.ram.update(ram_cell(address), value), ..self },
            _ => self,
        }
    }

    /// A read of one byte: what it returns and what it leaves behind.
    pub open spec fn read(self, address: u16) -> (u8, SystemView) {
        (self.peek(address), self.after_read(address))
    }

    /// A read of the word at `address`: the high byte is read first, from
    /// the address that follows, then the low byte.
    pub open spec fn read_word(self, address: u16) -> (u16, SystemView) {
        let (high, after_high) = self.read(next_address(address));
        let (low, after_low) = after_high.read(address);
        (word_of(low, high), after_low)
    }

    /// The system after the video clock has advanced by `cycles`.
    pub open spec fn after_tick(self, cycles: u64) -> SystemView {
        SystemView { ppu: self.ppu.after_tick(cycles), ..self }
    }
}

/// The bus: it owns the scratch RAM, the two peripherals and the cartridge,
/// and routes every access to the one of them that the address belongs to.
#[derive(Debug)]
pub struct System {
    scratch_ram: Vec<u8>,
    ppu: PPU,
    apu: APU,
    cart: Cart,
}

impl View for System {
    type V = SystemView;

    closed spec fn view(&self) -> SystemView {
        SystemView { ram: self.scratch_ram@, ppu: self.ppu@, cart: self.cart@ }
    }
}

/// The backing store that `address` resolves to.
pub fn region_of(address: u16) -> (region: Region)
    ensures
        region == region_at(address),
{
    if address < 0x2000 {
        Region::Ram
    } else if address < 0x4000 {
        Region::Video
    } else if address < 0x4020 {
        Region::Audio
    } else {
        Region::Cartridge
    }
}

impl System {
    #[verifier::type_invariant]
    spec fn ram_is_whole(&self) -> bool {
        self.scratch_ram@.len() == SCRATCH_RAM_SIZE && self.cart@.well_formed()
    }

    /// Switches the system on with the cartridge that `contents`, the bytes
    /// of a ROM file, describes.
    pub fn new(contents: &[u8]) -> (result: CartLoadResult<Self>)
        requires
            has_magic(contents@) ==> whole_image(contents@),
        ensures
            has_magic(contents@) <==> result is Ok,
            result matches Err(error) ==> error is FileNotARom,
            result matches Ok(system) ==> system@ == SystemView::power_on(parse_image(contents@))
                && system@.well_formed(),
    {
        match load_to_cart(contents) {
            Ok(cart) => {
                let scratch_ram: Vec<u8> = vec![0u8; SCRATCH_RAM_SIZE];
                let system = System { scratch_ram, ppu: PPU::new(), apu: APU::new(), cart };
                assert(system@.ram =~= SystemView::power_on(parse_image(contents@)).ram);
                Ok(system)
            },
            Err(error) => Err(error),
        }
    }

    /// Reads the byte at `address`.
    pub fn read_byte(&mut self, address: u16) -> (value: u8)
        ensures
            (value, final(self)@) == old(self)@.read(address),
            final(self)@.cart == old(self)@.cart,
            final(self)@.well_formed(),
    {
        proof {
            use_type_invariant(&*self);
        }
        match region_of(address) {
            Region::Ram => {
                assert(address & 0x7ff == address % 0x800) by (bit_vector);
                self.scratch_ram[(address & 0x7ff) as usize]
            },
            Region::Video => self.ppu.read_address(address),
            Region::Audio => self.apu.read_address(address),
            Region::Cartridge => self.read_mapper_byte(address),
        }
    }

    /// The byte that a read of `address` would return. Nothing changes: the
    /// vertical-blank flag stays as it is.
    pub fn peek(&self, address: u16) -> (value: u8)
        ensures
            value == self@.peek(address),
            self@.well_formed(),
    {
        proof {
            use_type_invariant(self);
        }
        match region_of(address) {
            Region::Ram => {
                assert(address & 0x7ff == address % 0x800) by (bit_vector);
                self.scratch_ram[(address & 0x7ff) as usize]
            },
            Region::Video => if self.ppu.in_vblank() {
                0x80
            } else {
                0
            },
            Region::Audio => self.apu.read_address(address),
            Region::Cartridge => self.read_mapper_byte(address),
        }
    }

    /// Writes `value` to `address`.
    pub fn write_byte(&mut self, address: u16, value: u8)
        ensures
            final(self)@ == old(self)@.after_write(address, value),
            final(self)@.cart == old(self)@.cart,
            final(self)@.well_formed(),
    {
        proof {
            use_type_invariant(&*self);
        }
        match region_of(address) {
            Region::Ram => {
                assert(address & 0x7ff == address % 0x800) by (bit_vector);
                self.scratch_ram[(address & 0x7ff) as usize] = value;
            },
            Region::Video => self.ppu.write_address(address, value),
            Region::Audio => self.apu.write_address(address, value),
            Region::Cartridge => self.write_mapper_byte(address, value),
        }
    }

    /// Reads the little-endian word whose low byte is at `address`. The
    /// address that follows `0xffff` is `0x0000`. The word is made of the
    /// two bytes that two byte reads return: first the high one, then the
    /// low one.
    pub fn read_word(&mut self, address: u16) -> (word: u16)
        ensures
            (word, final(self)@) == old(self)@.read_word(address),
            word == (old(self)@.after_read(next_address(address)).peek(address) as u16) | ((old(
                self,
            )@.peek(next_address(address)) as u16) << 8),
            final(self)@.cart == old(self)@.cart,
    {
        let high: u8 = self.read_byte(address.wrapping_add(1));
        let low: u8 = self.read_byte(address);
        (low as u16) | ((high as u16) << 8)
    }

    /// Advances the clock of the video peripheral by `cycles`.
    pub fn tick(&mut self, cycles: u64)
        ensures
            final(self)@ == old(self)@.after_tick(cycles),
            final(self)@.well_formed(),
    {
        proof {
            use_type_invariant(&*self);
        }
        self.ppu.tick(cycles);
    }

    /// The cartridge in the slot.
    pub fn cart(&self) -> (cart: &Cart)
        ensures
            cart@ == self@.cart,
    {
        &self.cart
    }

    /// Reads a byte of program ROM.
    fn read_mapper_byte(&self, address: u16) -> (value: u8)
        ensures
            value == self@.mapper_byte(address),
    {
        let pages = self.cart.prg_rom_pages();
        if address < 0x8000 || pages.len() == 0 {
            0
        } else if address < 0xc000 {
            // We know that `address` is in the first page
            assert(crate::cart::pages_view(*pages)[0] == pages@[0]@);
            pages[0][(address - 0x8000) as usize]
        } else {
            assert(crate::cart::pages_view(*pages)[pages.len() - 1] == pages@[pages.len() - 1]@);
            pages[pages.len() - 1][(address - 0xc000) as usize]
        }
    }

    /// The cartridge has nothing that a write could change.
    fn write_mapper_byte(&self, _address: u16, _value: u8) {
    }
}

/// A byte written to an address of the scratch RAM is read back from that
/// address and from its three mirrors: the four addresses `cell`,
/// `cell + 0x0800`, `cell + 0x1000` and `cell + 0x1800` are one storage cell.
pub proof fn lemma_ram_mirrors(system: SystemView, cell: u16, written: u16, read: u16, value: u8)
    requires
        system.well_formed(),
        cell < 0x0800,
        written == cell || written == cell + 0x0800 || written == cell + 0x1000 || written == cell
            + 0x1800,
        read == cell || read == cell + 0x0800 || read == cell + 0x1000 || read == cell + 0x1800,
    ensures
        system.after_write(written, value).peek(read) == value,
        system.after_write(written, value).after_read(read) == system.after_write(written, value),
{
}

/// A word read is two byte reads put together: the low byte comes from
/// `address` and the high byte from the address that follows. Left out is
/// the one case in which the first of the two reads changes what the second
/// returns, a raised vertical-blank flag with both bytes among the video
/// registers.
pub proof fn lemma_word_is_two_bytes(system: SystemView, address: u16)
    requires
        !(system.ppu.in_vblank && 0x2000 <= address < 0x3fff),
    ensures
        system.read_word(address).0 == (system.peek(address) as u16) | ((system.peek(
            next_address(address),
        ) as u16) << 8),
{
}

/// With a single page of program ROM in the cartridge, the two halves of
/// the cartridge's address range show the same bytes.
pub proof fn lemma_single_page_mirrors(system: SystemView, offset: u16)
    requires
        system.cart.prg_rom_pages.len() == 1,
        offset < 0x4000,
    ensures
        system.peek((0x8000 + offset) as u16) == system.peek((0xc000 + offset) as u16),
{
}

} // verus!
