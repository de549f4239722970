use vstd::prelude::*;

verus! {

/// Clock units in one full frame: 341 per scanline, 262 scanlines.
pub const CLOCKS_PER_FRAME: u64 = 341 * 262;

/// Clock units of a frame that pass before the vertical blank begins.
pub const CLOCKS_PER_FRAME_BEFORE_VBLANK: u64 = 341 * 242;

/// What a [`PPU`] is, as far as its callers can tell.
pub struct PpuView {
    /// Position of the clock inside the current frame.
    pub clock: nat,
    /// Whether the vertical-blank flag is raised.
    pub in_vblank: bool,
}

impl PpuView {
    /// The state after the clock has advanced by `cycles`: the position wraps
    /// at the end of the frame, and the flag is raised exactly while the
    /// position lies past the visible part of the frame.
    pub open spec fn after_tick(self, cycles: u64) -> PpuView {
        let clock = ((self.clock + cycles) % (CLOCKS_PER_FRAME as int)) as nat;
        PpuView { clock, in_vblank: clock > CLOCKS_PER_FRAME_BEFORE_VBLANK }
    }

    /// The status byte that a register read returns: bit 7 is the flag.
    pub open spec fn status(self) -> u8 {
        if self.in_vblank {
            0x80
        } else {
            0
        }
    }

    /// The state after a register read: the flag is lowered.
    pub open spec fn after_read(self) -> PpuView {
        PpuView { in_vblank: false, ..self }
    }
}

/// Picture Processing Unit (PPU).
///
/// Only its timing is modelled: a clock that runs through the frame, and the
/// vertical-blank flag that the clock raises and a register read lowers.
#[allow(clippy::upper_case_acronyms)]
#[derive(Debug)]
pub struct PPU {
    clock: u64,
    in_vblank: bool,
}

impl View for PPU {
    type V = PpuView;

    closed spec fn view(&self) -> PpuView {
        PpuView { clock: self.clock as nat, in_vblank: self.in_vblank }
    }
}

impl PPU {
    #[verifier::type_invariant]
    spec fn within_frame(&self) -> bool {
        self.clock < CLOCKS_PER_FRAME
    }

    /// A PPU at the start of a frame, outside the vertical blank.
    pub fn new() -> (ppu: Self)
        ensures
            ppu@ == (PpuView { clock: 0, in_vblank: false }),
    {
        Self { clock: 0, in_vblank: false }
    }

    /// Tick the PPU's clock by a number of `cycles`.
    pub fn tick(&mut self, cycles: u64)
        ensures
            final(self)@ == old(self)@.after_tick(cycles),
            final(self)@.clock < CLOCKS_PER_FRAME,
        no_unwind
    {
        proof {
            use_type_invariant(&*self);
            vstd::arithmetic::div_mod::lemma_add_mod_noop_right(
                self.clock as int,
                cycles as int,
                CLOCKS_PER_FRAME as int,
            );
        }
        let clock: u64 = (self.clock + cycles % CLOCKS_PER_FRAME) % CLOCKS_PER_FRAME;
        *self = PPU { clock, in_vblank: clock > CLOCKS_PER_FRAME_BEFORE_VBLANK };
    }

    /// Reads the status register, which lowers the vertical-blank flag.
    pub fn read_address(&mut self, _address: u16) -> (status: u8)
        ensures
            status == old(self)@.status(),
            final(self)@ == old(self)@.after_read(),
        no_unwind
    {
        proof {
            use_type_invariant(&*self);
        }
        let status: u8 = if self.in_vblank {
            0x80
        } else {
            0
        };
        self.in_vblank = false;
        status
    }

    /// Writes to the video registers are dropped.
    pub fn write_address(&self, _address: u16, _value: u8) {
    }

    /// Whether the vertical-blank flag is raised.
    pub fn in_vblank(&self) -> (flag: bool)
        ensures
            flag == self@.in_vblank,
    {
        self.in_vblank
    }
}

} // verus!
