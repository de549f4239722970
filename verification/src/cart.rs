use vstd::prelude::*;

verus! {

/// Bytes of the header that precedes the ROM pages in an image.
pub const HEADER_SIZE: usize = 16;

/// Bytes in one page of program ROM.
pub const PRG_ROM_PAGE_SIZE: usize = 16 * 1024;

/// Bytes in one page of graphics ROM.
pub const CHR_ROM_PAGE_SIZE: usize = 8 * 1024;

/// The error type of the standard library's I/O operations, carried by
/// [`CartLoadError::IoError`] and never looked into.
#[verifier::external_type_specification]
#[verifier::external_body]
pub struct ExIoError(std::io::Error);

/// Why no cartridge could be had from a ROM file.
#[derive(Debug)]
pub enum CartLoadError {
    /// The bytes do not begin with the four magic bytes of a ROM image.
    FileNotARom,
    /// The file could not be opened.
    FileNotFound,
    /// The file was opened and reading it failed.
    IoError(std::io::Error),
}

pub type CartLoadResult<T> = Result<T, CartLoadError>;

/// How the cartridge wires the console's two name tables.
#[derive(Debug, Clone, Copy, PartialEq, Eq, Structural)]
pub enum Mirroring {
    HorizontalOrMapperControlled,
    Vertical,
}

/// What a [`Cart`] holds.
pub struct CartView {
    pub mirroring: Mirroring,
    pub battery_present: bool,
    pub trainer_present: bool,
    pub hard_wired_four_screen_mode: bool,
    pub mapper: u8,
    /// The program ROM, page by page.
    pub prg_rom_pages: Seq<Seq<u8>>,
    /// The graphics ROM, page by page.
    pub chr_rom_pages: Seq<Seq<u8>>,
}

impl CartView {
    /// Every page has exactly its fixed size, and the page counts fit the one
    /// header byte that each of them was read from.
    pub open spec fn well_formed(self) -> bool {
        &&& self.prg_rom_pages.len() <= 255
        &&& self.chr_rom_pages.len() <= 255
        &&& forall|i: int|
            0 <= i < self.prg_rom_pages.len() ==> (#[trigger] self.prg_rom_pages[i]).len()
                == PRG_ROM_PAGE_SIZE
        &&& forall|i: int|
            0 <= i < self.chr_rom_pages.len() ==> (#[trigger] self.chr_rom_pages[i]).len()
                == CHR_ROM_PAGE_SIZE
    }
}

/// Whether `image` begins with the magic bytes `N`, `E`, `S`, `0x1a`.
pub open spec fn has_magic(image: Seq<u8>) -> bool {
    &&& image.len() >= 4
    &&& image[0] == 0x4e
    &&& image[1] == 0x45
    &&& image[2] == 0x53
    &&& image[3] == 0x1a
}

/// The number of bytes that the header of `image` accounts for: the flag
/// bytes alone where it announces no page at all, else the whole header and
/// every page behind it.
pub open spec fn image_len(image: Seq<u8>) -> int
    recommends
        image.len() >= 6,
{
    if image[4] == 0 && image[5] == 0 {
        8
    } else {
        HEADER_SIZE + image[4] * PRG_ROM_PAGE_SIZE + image[5] * CHR_ROM_PAGE_SIZE
    }
}

/// Whether `image` is long enough to hold all that its header announces.
pub open spec fn whole_image(image: Seq<u8>) -> bool {
    image.len() >= 8 && image.len() >= image_len(image)
}

/// `count` pages of `size` bytes each, cut from `image` one after the other
/// from offset `start` on.
pub open spec fn pages_of(image: Seq<u8>, start: int, count: int, size: int) -> Seq<Seq<u8>> {
    Seq::new(count as nat, |p: int| image.subrange(start + p * size, start + (p + 1) * size))
}

/// The cartridge that a whole image with the magic bytes describes.
///
/// Byte 4 counts the program pages and byte 5 the graphics pages. Bit 0 of
/// byte 6 selects the mirroring, bit 1 tells of a battery, bit 2 of a trainer
/// block and bit 3 of four-screen mode. The mapper number takes its low
/// nibble from the high nibble of byte 6 and its high nibble from byte 7.
/// Program pages start right behind the header and graphics pages right
/// behind the program pages; a trainer block shifts nothing.
pub open spec fn parse_image(image: Seq<u8>) -> CartView
    recommends
        has_magic(image),
        whole_image(image),
{
    CartView {
        mirroring: if image[6] & 0x01 == 0x01 {
            Mirroring::Vertical
        } else {
            Mirroring::HorizontalOrMapperControlled
        },
        battery_present: image[6] & 0x02 == 0x02,
        trainer_present: image[6] & 0x04 == 0x04,
        hard_wired_four_screen_mode: image[6] & 0x08 == 0x08,
        mapper: ((image[6] >> 4) + (image[7] & 0xf0)) as u8,
        prg_rom_pages: pages_of(
            image,
            HEADER_SIZE as int,
            image[4] as int,
            PRG_ROM_PAGE_SIZE as int,
        ),
        chr_rom_pages: pages_of(
            image,
            HEADER_SIZE + image[4] * PRG_ROM_PAGE_SIZE,
            image[5] as int,
            CHR_ROM_PAGE_SIZE as int,
        ),
    }
}

/// The contents of a list of pages.
pub open spec fn pages_view(pages: Vec<Vec<u8>>) -> Seq<Seq<u8>> {
    Seq::new(pages@.len(), |i: int| pages@[i]@)
}

/// A cartridge: the ROM pages of an image and what its header says of them.
/// Nothing changes it once it is loaded.
#[derive(Debug)]
pub struct Cart {
    prg_rom: usize,
    chr_rom: usize,
    mirroring: Mirroring,
    battery_present: bool,
    trainer_present: bool,
    hard_wired_four_screen_mode: bool,
    mapper: u8,
    prg_rom_pages: Vec<Vec<u8>>,
    chr_rom_pages: Vec<Vec<u8>>,
}

impl View for Cart {
    type V = CartView;

    closed spec fn view(&self) -> CartView {
        CartView {
            mirroring: self.mirroring,
            battery_present: self.battery_present,
            trainer_present: self.trainer_present,
            hard_wired_four_screen_mode: self.hard_wired_four_screen_mode,
            mapper: self.mapper,
            prg_rom_pages: pages_view(self.prg_rom_pages),
            chr_rom_pages: pages_view(self.chr_rom_pages),
        }
    }
}

impl Cart {
    #[verifier::type_invariant]
    spec fn counts_and_sizes_agree(&self) -> bool {
        &&& self.prg_rom == self.prg_rom_pages@.len()
        &&& self.chr_rom == self.chr_rom_pages@.len()
        &&& self@.well_formed()
    }

    /// The number of program-ROM pages.
    pub fn prg_rom(&self) -> (count: usize)
        ensures
            count == self@.prg_rom_pages.len(),
            self@.well_formed(),
    {
        proof {
            use_type_invariant(self);
        }
        self.prg_rom
    }

    /// The number of graphics-ROM pages.
    pub fn chr_rom(&self) -> (count: usize)
        ensures
            count == self@.chr_rom_pages.len(),
            self@.well_formed(),
    {
        proof {
            use_type_invariant(self);
        }
        self.chr_rom
    }

    pub fn mirroring(&self) -> (mirroring: Mirroring)
        ensures
            mirroring == self@.mirroring,
    {
        self.mirroring
    }

    pub fn battery_present(&self) -> (present: bool)
        ensures
            present == self@.battery_present,
    {
        self.battery_present
    }

    pub fn trainer_present(&self) -> (present: bool)
        ensures
            present == self@.trainer_present,
    {
        self.trainer_present
    }

    pub fn hard_wired_four_screen_mode(&self) -> (four_screen: bool)
        ensures
            four_screen == self@.hard_wired_four_screen_mode,
    {
        self.hard_wired_four_screen_mode
    }

    pub fn mapper(&self) -> (mapper: u8)
        ensures
            mapper == self@.mapper,
    {
        self.mapper
    }

    /// The program ROM, page by page.
    pub fn prg_rom_pages(&self) -> (pages: &Vec<Vec<u8>>)
        ensures
            pages_view(*pages) == self@.prg_rom_pages,
            self@.well_formed(),
    {
        proof {
            use_type_invariant(self);
        }
        &self.prg_rom_pages
    }

    /// The graphics ROM, page by page.
    pub fn chr_rom_pages(&self) -> (pages: &Vec<Vec<u8>>)
        ensures
            pages_view(*pages) == self@.chr_rom_pages,
            self@.well_formed(),
    {
        proof {
            use_type_invariant(self);
        }
        &self.chr_rom_pages
    }
}

/// Whether `contents` is long enough to hold all that its header announces.
pub fn is_whole_image(contents: &[u8]) -> (whole: bool)
    ensures
        whole == whole_image(contents@),
{
    if contents.len() < 8 {
        return false;
    }
    let prg_rom: usize = contents[4] as usize;
    let chr_rom: usize = contents[5] as usize;
    if prg_rom == 0 && chr_rom == 0 {
        return true;
    }
    contents.len() >= HEADER_SIZE + prg_rom * PRG_ROM_PAGE_SIZE + chr_rom * CHR_ROM_PAGE_SIZE
}

/// Whether `contents` begins with the magic bytes of a ROM image.
pub fn starts_with_magic(contents: &[u8]) -> (magic: bool)
    ensures
        magic == has_magic(contents@),
{
    contents.len() >= 4 && contents[0] == 0x4e && contents[1] == 0x45 && contents[2] == 0x53
        && contents[3] == 0x1a
}

/// Copies the `size` bytes of `contents` that start at `start`.
fn copy_page(contents: &[u8], start: usize, size: usize) -> (page: Vec<u8>)
    requires
        start + size <= contents@.len(),
    ensures
        page@ == contents@.subrange(start as int, start + size),
{
    let length: usize = contents.len();
    let mut page: Vec<u8> = Vec::new();
    let mut offset: usize = 0;
    while offset < size
        invariant
            offset <= size,
            start + size <= length == contents@.len(),
            page@ == contents@.subrange(start as int, start + offset),
        decreases size - offset,
    {
        page.push(contents[start + offset]);
        offset += 1;
        assert(page@ =~= contents@.subrange(start as int, start + offset));
    }
    page
}

/// Cuts `count` pages of `size` bytes each out of `contents`, from `start` on.
fn slice_pages(contents: &[u8], start: usize, count: usize, size: usize) -> (pages: Vec<Vec<u8>>)
    requires
        count > 0 ==> start + count * size <= contents@.len(),
    ensures
        pages_view(pages) == pages_of(contents@, start as int, count as int, size as int),
        pages@.len() == count,
        forall|i: int| 0 <= i < count ==> (#[trigger] pages@[i])@.len() == size,
{
    let length: usize = contents.len();
    let mut pages: Vec<Vec<u8>> = Vec::new();
    let mut page: usize = 0;
    let mut position: usize = start;
    while page < count
        invariant
            page <= count,
            count > 0 ==> start + count * size <= length == contents@.len(),
            position == start + page * size,
            pages@.len() == page,
            forall|i: int|
                0 <= i < page ==> {
                    &&& (#[trigger] pages@[i])@.len() == size
                    &&& pages@[i]@ == contents@.subrange(start + i * size, start + (i + 1) * size)
                },
        decreases count - page,
    {
        assert(page * size + size <= count * size && (page + 1) * size == page * size + size)
            by (nonlinear_arith)
            requires
                0 <= page < count,
                0 <= size,
        ;
        let current_page = copy_page(contents, position, size);
        pages.push(current_page);
        page += 1;
        position += size;
    }
    assert(pages_view(pages) =~= pages_of(contents@, start as int, count as int, size as int));
    pages
}

/// Load the contents of a ROM file to a [`Cart`].
///
/// The image is turned down as no ROM exactly where it lacks the magic
/// bytes; any other image gives the cartridge that [`parse_image`] describes.
/// An image that has the magic bytes must be whole, which
/// [`is_whole_image`] tests.
pub fn load_to_cart(contents: &[u8]) -> (result: CartLoadResult<Cart>)
    requires
        has_magic(contents@) ==> whole_image(contents@),
    ensures
        has_magic(contents@) <==> result is Ok,
        result matches Err(error) ==> error is FileNotARom,
        result matches Ok(cart) ==> cart@ == parse_image(contents@) && cart@.well_formed(),
{
    // Check that this is a valid ROM file
    if !starts_with_magic(contents) {
        return Err(CartLoadError::FileNotARom);
    }
    let prg_rom: usize = contents[4] as usize;
    let chr_rom: usize = contents[5] as usize;
    let flags: u8 = contents[6];
    let mirroring = if flags & 0x01 == 0x01 {
        Mirroring::Vertical
    } else {
        Mirroring::HorizontalOrMapperControlled
    };
    let battery_present = flags & 0x02 == 0x02;
    let trainer_present = flags & 0x04 == 0x04;
    let hard_wired_four_screen_mode = flags & 0x08 == 0x08;

    let upper: u8 = contents[7];
    assert((flags >> 4) + (upper & 0xf0) <= 255) by (bit_vector);
    let mapper: u8 = (flags >> 4) + (upper & 0xf0);

    let prg_rom_pages = slice_pages(contents, HEADER_SIZE, prg_rom, PRG_ROM_PAGE_SIZE);
    let chr_rom_pages = slice_pages(
        contents,
        HEADER_SIZE + prg_rom * PRG_ROM_PAGE_SIZE,
        chr_rom,
        CHR_ROM_PAGE_SIZE,
    );
    let cart = Cart {
        prg_rom,
        chr_rom,
        mirroring,
        battery_present,
        trainer_present,
        hard_wired_four_screen_mode,
        mapper,
        prg_rom_pages,
        chr_rom_pages,
    };
    assert(cart@.prg_rom_pages =~= parse_image(contents@).prg_rom_pages);
    assert(cart@.chr_rom_pages =~= parse_image(contents@).chr_rom_pages);
    Ok(cart)
}

} // verus!
