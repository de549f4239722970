//! The processing core of an 8-bit home console: the cartridge image loader,
//! the memory bus with its two peripheral register blocks, and the CPU that
//! steps through the program one instruction at a time.
//!
//! Each executable type has a view, a plain mathematical value, and the
//! contracts speak of the views: [`CartView`], [`PpuView`], [`SystemView`]
//! and [`CpuView`]. What one instruction does is [`CpuView::step`].

mod apu;
mod cart;
mod cpu;
mod instruction;
mod laws;
mod model;
mod ppu;
mod system;
mod video;

pub use apu::APU;
pub use cart::{
    has_magic, image_len, is_whole_image, load_to_cart, pages_of, pages_view, parse_image,
    starts_with_magic, whole_image, Cart, CartLoadError, CartLoadResult, CartView, Mirroring,
    CHR_ROM_PAGE_SIZE, HEADER_SIZE, PRG_ROM_PAGE_SIZE,
};
pub use cpu::CPU;
pub use instruction::{decode, decoded, Family, Instruction, Mnemonic, Mode, MAX_BASE_CYCLES};
pub use laws::{
    lemma_adc_immediate, lemma_branch_cycles, lemma_brk, lemma_lda_immediate,
    lemma_push_then_pull, lemma_status_byte, lemma_status_round_trip,
};
pub use model::{
    displaced, low_byte, page_of, stack_address, CpuView, Registers, Trace, BREAK_VECTOR,
    MAX_STEP_CYCLES, POWER_UP_STACK_POINTER, RESET_VECTOR, STACK_BASE,
};
pub use ppu::{PpuView, CLOCKS_PER_FRAME, CLOCKS_PER_FRAME_BEFORE_VBLANK, PPU};
pub use system::{
    lemma_ram_mirrors, lemma_single_page_mirrors, lemma_word_is_two_bytes, lemma_word_of_is_a_sum,
    next_address, ram_cell, region_at, region_of, word_of, Region, System, SystemView,
    SCRATCH_RAM_SIZE,
};
pub use video::{
    can_follow, can_move, cursor_start, diagonal_point, frame_step, is_within_reach, moved, Event,
    FrameAction, Key, Point, CURSOR_START,
};
