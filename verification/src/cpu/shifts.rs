use super::CPU;
use crate::instruction::{Family, Instruction, Mnemonic, Mode, MAX_BASE_CYCLES};
use crate::model::MAX_STEP_CYCLES;
use vstd::prelude::*;

verus! {

impl CPU {
    // Memory and registers, counted up and down -------------------------------------------------
    /// DECrement memory
    fn dec(&mut self, mode: Mode, cycles: u8) -> (address: u16)
        requires
            old(self)@.clock + cycles + 1 <= u64::MAX,
        ensures
            final(self)@ == old(self)@.dec(mode, cycles),
            address == old(self)@.operand_address(mode, false).0,
            final(self).keeps(*old(self)),
            old(self)@.clock + cycles <= final(self)@.clock <= old(self)@.clock + cycles + 1,
    {
        let address = self.begin(mode, cycles, false);

        let intermediate = self.read_byte(address).wrapping_sub(1);
        self.test_negative(intermediate);
        self.test_zero(intermediate);
        self.write_byte(address, intermediate);
        address
    }

    /// INCrement memory
    fn inc(&mut self, mode: Mode, cycles: u8) -> (address: u16)
        requires
            old(self)@.clock + cycles + 1 <= u64::MAX,
        ensures
            final(self)@ == old(self)@.inc(mode, cycles),
            address == old(self)@.operand_address(mode, false).0,
            final(self).keeps(*old(self)),
            old(self)@.clock + cycles <= final(self)@.clock <= old(self)@.clock + cycles + 1,
    {
        let address = self.begin(mode, cycles, false);

        let intermediate = self.read_byte(address).wrapping_add(1);
        self.test_negative(intermediate);
        self.test_zero(intermediate);
        self.write_byte(address, intermediate);
        address
    }

    /// DEcrement X
    fn dex(&mut self, cycles: u8)
        requires
            old(self)@.clock + cycles <= u64::MAX,
        ensures
            final(self)@ == old(self)@.dex(cycles),
            final(self).keeps(*old(self)),
            final(self)@.clock == old(self)@.clock + cycles,
    {
        self.begin_implied(cycles);

        self.x = self.x.wrapping_sub(1);
        self.test_negative(self.x);
        self.test_zero(self.x);
    }

    /// DEcrement Y
    fn dey(&mut self, cycles: u8)
        requires
            old(self)@.clock + cycles <= u64::MAX,
        ensures
            final(self)@ == old(self)@.dey(cycles),
            final(self).keeps(*old(self)),
            final(self)@.clock == old(self)@.clock + cycles,
    {
        self.begin_implied(cycles);

        self.y = self.y.wrapping_sub(1);
        self.test_negative(self.y);
        self.test_zero(self.y);
    }

    /// INcrement X
    fn inx(&mut self, cycles: u8)
        requires
            old(self)@.clock + cycles <= u64::MAX,
        ensures
            final(self)@ == old(self)@.inx(cycles),
            final(self).keeps(*old(self)),
            final(self)@.clock == old(self)@.clock + cycles,
    {
        self.begin_implied(cycles);

        self.x = self.x.wrapping_add(1);
        self.test_negative(self.x);
        self.test_zero(self.x);
    }

    /// INcrement Y
    fn iny(&mut self, cycles: u8)
        requires
            old(self)@.clock + cycles <= u64::MAX,
        ensures
            final(self)@ == old(self)@.iny(cycles),
            final(self).keeps(*old(self)),
            final(self)@.clock == old(self)@.clock + cycles,
    {
        self.begin_implied(cycles);

        self.y = self.y.wrapping_add(1);
        self.test_negative(self.y);
        self.test_zero(self.y);
    }

    // Shifts and rotates ------------------------------------------------------------------------
    /// Arithmetic Shift Left
    fn asl(&mut self, mode: Mode, cycles: u8) -> (operand: Option<u16>)
        requires
            old(self)@.clock + cycles + 1 <= u64::MAX,
        ensures
            final(self)@ == old(self)@.asl(mode, cycles),
            operand == if mode == Mode::Accumulator {
                None
            } else {
                Some(old(self)@.operand_address(mode, false).0)
            },
            final(self).keeps(*old(self)),
            old(self)@.clock + cycles <= final(self)@.clock <= old(self)@.clock + cycles + 1,
    {
        // Dealing with the accumulator directly doesn't fit the pattern well, so handle separately
        match mode {
            Mode::Accumulator => {
                self.carry = self.a & 0x80 == 0x80;
                self.a = self.a << 1u8;
                self.test_negative(self.a);
                self.test_zero(self.a);
                self.begin_implied(cycles);
                None
            },
            _ => {
                let address = self.begin(mode, cycles, false);

                let mut intermediate = self.read_byte(address);
                self.carry = intermediate & 0x80 == 0x80;
                intermediate = intermediate << 1u8;
                self.test_negative(intermediate);
                self.test_zero(intermediate);
                self.write_byte(address, intermediate);
                Some(address)
            },
        }
    }

    /// Logical Shift Right
    fn lsr(&mut self, mode: Mode, cycles: u8) -> (operand: Option<u16>)
        requires
            old(self)@.clock + cycles + 1 <= u64::MAX,
        ensures
            final(self)@ == old(self)@.lsr(mode, cycles),
            operand == if mode == Mode::Accumulator {
                None
            } else {
                Some(old(self)@.operand_address(mode, false).0)
            },
            final(self).keeps(*old(self)),
            old(self)@.clock + cycles <= final(self)@.clock <= old(self)@.clock + cycles + 1,
    {
        // Dealing with the accumulator directly doesn't fit the pattern well, so handle separately
        match mode {
            Mode::Accumulator => {
                self.carry = self.a & 0x01 == 0x01;
                self.a = self.a >> 1u8;
                self.test_negative(self.a);
                self.test_zero(self.a);
                self.begin_implied(cycles);
                None
            },
            _ => {
                let address = self.begin(mode, cycles, false);

                let mut intermediate = self.read_byte(address);
                self.carry = intermediate & 0x01 == 0x01;
                intermediate = intermediate >> 1u8;
                self.test_negative(intermediate);
                self.test_zero(intermediate);
                self.write_byte(address, intermediate);
                Some(address)
            },
        }
    }

    /// ROtate Left
    fn rol(&mut self, mode: Mode, cycles: u8) -> (operand: Option<u16>)
        requires
            old(self)@.clock + cycles + 1 <= u64::MAX,
        ensures
            final(self)@ == old(self)@.rol(mode, cycles),
            operand == if mode == Mode::Accumulator {
                None
            } else {
                Some(old(self)@.operand_address(mode, false).0)
            },
            final(self).keeps(*old(self)),
            old(self)@.clock + cycles <= final(self)@.clock <= old(self)@.clock + cycles + 1,
    {
        let carry_value: u8 = if self.carry {
            0x01
        } else {
            0
        };

        // Dealing with the accumulator directly doesn't fit the pattern well, so handle separately
        match mode {
            Mode::Accumulator => {
                self.carry = self.a & 0x80 == 0x80;
                self.a = (self.a << 1u8) | carry_value;
                self.test_negative(self.a);
                self.test_zero(self.a);
                self.begin_implied(cycles);
                None
            },
            _ => {
                let address = self.begin(mode, cycles, false);

                let mut intermediate = self.read_byte(address);
                self.carry = intermediate & 0x80 == 0x80;
                intermediate = (intermediate << 1u8) | carry_value;
                self.test_negative(intermediate);
                self.test_zero(intermediate);
                self.write_byte(address, intermediate);
                Some(address)
            },
        }
    }

    /// ROtate Right
    fn ror(&mut self, mode: Mode, cycles: u8) -> (operand: Option<u16>)
        requires
            old(self)@.clock + cycles + 1 <= u64::MAX,
        ensures
            final(self)@ == old(self)@.ror(mode, cycles),
            operand == if mode == Mode::Accumulator {
                None
            } else {
                Some(old(self)@.operand_address(mode, false).0)
            },
            final(self).keeps(*old(self)),
            old(self)@.clock + cycles <= final(self)@.clock <= old(self)@.clock + cycles + 1,
    {
        let carry_value: u8 = if self.carry {
            0x80
        } else {
            0
        };

        // Dealing with the accumulator directly doesn't fit the pattern well, so handle separately
        match mode {
            Mode::Accumulator => {
                self.carry = self.a & 0x01 == 0x01;
                self.a = (self.a >> 1u8) | carry_value;
                self.test_negative(self.a);
                self.test_zero(self.a);
                self.begin_implied(cycles);
                None
            },
            _ => {
                let address = self.begin(mode, cycles, false);

                let mut intermediate = self.read_byte(address);
                self.carry = intermediate & 0x01 == 0x01;
                intermediate = (intermediate >> 1u8) | carry_value;
                self.test_negative(intermediate);
                self.test_zero(intermediate);
                self.write_byte(address, intermediate);
                Some(address)
            },
        }
    }

    /// Carries out an instruction of the counting family.
    #[verifier::rlimit(50)]
    pub(super) fn execute_counting(&mut self, instruction: Instruction) -> (operand: Option<u16>)
        requires
            instruction.mnemonic.family() == Family::Counting,
            old(self)@.clock + MAX_STEP_CYCLES <= u64::MAX,
            2 <= instruction.cycles <= MAX_BASE_CYCLES,
        ensures
            final(self)@ == old(self)@.execute(instruction),
            operand == old(self)@.traced_operand(instruction),
            final(self).keeps(*old(self)),
            old(self)@.clock < final(self)@.clock <= old(self)@.clock + MAX_STEP_CYCLES,
    {
        let mode = instruction.mode;
        let cycles = instruction.cycles;
        match instruction.mnemonic {
            Mnemonic::Asl => self.asl(mode, cycles),
            Mnemonic::Dec => Some(self.dec(mode, cycles)),
            Mnemonic::Dex => {
                self.dex(cycles);
                None
            },
            Mnemonic::Dey => {
                self.dey(cycles);
                None
            },
            Mnemonic::Inc => Some(self.inc(mode, cycles)),
            Mnemonic::Inx => {
                self.inx(cycles);
                None
            },
            Mnemonic::Iny => {
                self.iny(cycles);
                None
            },
            Mnemonic::Lsr => self.lsr(mode, cycles),
            Mnemonic::Rol => self.rol(mode, cycles),
            Mnemonic::Ror => self.ror(mode, cycles),
            // no other instruction is of this family
            _ => None,
        }
    }
}

} // verus!
