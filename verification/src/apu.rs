use vstd::prelude::*;

verus! {

/// Audio Processing Unit (APU).
///
/// Sound synthesis is not modelled: the register block reads as zero and
/// swallows every write.
#[allow(clippy::upper_case_acronyms)]
#[derive(Debug)]
pub struct APU {}

impl APU {
    pub fn new() -> (apu: Self)
        ensures
            apu == (APU {  }),
    {
        Self {  }
    }

    /// Every audio register reads as zero.
    pub fn read_address(&self, _address: u16) -> (value: u8)
        ensures
            value == 0,
    {
        0
    }

    /// Writes to the audio registers are dropped.
    pub fn write_address(&self, _address: u16, _value: u8) {
    }
}

} // verus!
