use super::CPU;
use crate::instruction::{Family, Instruction, Mnemonic, Mode, MAX_BASE_CYCLES};
use crate::model::MAX_STEP_CYCLES;
use vstd::prelude::*;

verus! {

impl CPU {
    // Logical and arithmetic commands -----------------------------------------------------------
    /// bitwise OR with Accumulator
    fn ora(&mut self, mode: Mode, cycles: u8) -> (address: u16)
        requires
            old(self)@.clock + cycles + 1 <= u64::MAX,
        ensures
            final(self)@ == old(self)@.ora(mode, cycles),
            address == old(self)@.operand_address(mode, false).0,
            final(self).keeps(*old(self)),
            old(self)@.clock + cycles <= final(self)@.clock <= old(self)@.clock + cycles + 1,
    {
        let (address, operand) = self.operand(mode, cycles, true);
        self.a |= operand;
        self.test_negative(self.a);
        self.test_zero(self.a);
        address
    }

    /// bitwise AND with accumulator
    fn and(&mut self, mode: Mode, cycles: u8) -> (address: u16)
        requires
            old(self)@.clock + cycles + 1 <= u64::MAX,
        ensures
            final(self)@ == old(self)@.and(mode, cycles),
            address == old(self)@.operand_address(mode, false).0,
            final(self).keeps(*old(self)),
            old(self)@.clock + cycles <= final(self)@.clock <= old(self)@.clock + cycles + 1,
    {
        let (address, operand) = self.operand(mode, cycles, true);
        self.a &= operand;
        self.test_negative(self.a);
        self.test_zero(self.a);
        address
    }

    /// bitwise Exclusive OR
    fn eor(&mut self, mode: Mode, cycles: u8) -> (address: u16)
        requires
            old(self)@.clock + cycles + 1 <= u64::MAX,
        ensures
            final(self)@ == old(self)@.eor(mode, cycles),
            address == old(self)@.operand_address(mode, false).0,
            final(self).keeps(*old(self)),
            old(self)@.clock + cycles <= final(self)@.clock <= old(self)@.clock + cycles + 1,
    {
        let (address, operand) = self.operand(mode, cycles, true);
        self.a ^= operand;
        self.test_negative(self.a);
        self.test_zero(self.a);
        address
    }

    /// Adds `operand` and the carry to the accumulator.
    fn add_with_carry(&mut self, operand: u8)
        ensures
            final(self)@ == old(self)@.add_with_carry(operand),
            final(self).keeps(*old(self)),
    {
        let carry_in: i16 = if self.carry {
            1
        } else {
            0
        };
        let intermediate: i16 = self.a as i16 + operand as i16 + carry_in;
        self.overflow = !(-128 <= intermediate && intermediate <= 127);
        self.carry = !(0 <= intermediate && intermediate <= 0xff);
        self.a = (intermediate % 0x100) as u8;

        self.test_negative(self.a);
        self.test_zero(self.a);
    }

    /// Subtracts `operand` from the accumulator, and one more where the
    /// carry is clear.
    fn subtract_with_carry(&mut self, operand: u8)
        ensures
            final(self)@ == old(self)@.subtract_with_carry(operand),
            final(self).keeps(*old(self)),
    {
        let borrow: i16 = if self.carry {
            0
        } else {
            1
        };
        let intermediate: i16 = self.a as i16 - operand as i16 - borrow;
        self.overflow = !(-128 <= intermediate && intermediate <= 127);
        self.carry = !(0 <= intermediate && intermediate <= 0xff);
        self.a = if intermediate < 0 {
            (intermediate + 0x100) as u8
        } else {
            intermediate as u8
        };

        self.test_negative(self.a);
        self.test_zero(self.a);
    }

    /// ADd with Carry
    fn adc(&mut self, mode: Mode, cycles: u8) -> (address: u16)
        requires
            old(self)@.clock + cycles + 1 <= u64::MAX,
        ensures
            final(self)@ == old(self)@.adc(mode, cycles),
            address == old(self)@.operand_address(mode, false).0,
            final(self).keeps(*old(self)),
            old(self)@.clock + cycles <= final(self)@.clock <= old(self)@.clock + cycles + 1,
    {
        let (address, operand) = self.operand(mode, cycles, true);
        self.add_with_carry(operand);
        address
    }

    /// SuBtract with Carry
    fn sbc(&mut self, mode: Mode, cycles: u8) -> (address: u16)
        requires
            old(self)@.clock + cycles + 1 <= u64::MAX,
        ensures
            final(self)@ == old(self)@.sbc(mode, cycles),
            address == old(self)@.operand_address(mode, false).0,
            final(self).keeps(*old(self)),
            old(self)@.clock + cycles <= final(self)@.clock <= old(self)@.clock + cycles + 1,
    {
        let (address, operand) = self.operand(mode, cycles, true);
        self.subtract_with_carry(operand);
        address
    }

    /// Holds `register` against `operand` and sets negative, zero and carry.
    fn compare(&mut self, register: u8, operand: u8)
        ensures
            final(self)@ == old(self)@.compared(register, operand),
            final(self).keeps(*old(self)),
    {
        let intermediate = register.wrapping_sub(operand);
        self.negative = intermediate & 0x80 == 0x80;
        self.zero = register == operand;
        self.carry = register >= operand;
    }

    /// CoMPare accumulator
    fn cmp(&mut self, mode: Mode, cycles: u8) -> (address: u16)
        requires
            old(self)@.clock + cycles + 1 <= u64::MAX,
        ensures
            final(self)@ == old(self)@.compare_a(mode, cycles),
            address == old(self)@.operand_address(mode, false).0,
            final(self).keeps(*old(self)),
            old(self)@.clock + cycles <= final(self)@.clock <= old(self)@.clock + cycles + 1,
    {
        let (address, operand) = self.operand(mode, cycles, true);
        self.compare(self.a, operand);
        address
    }

    /// ComPare X register
    fn cpx(&mut self, mode: Mode, cycles: u8) -> (address: u16)
        requires
            old(self)@.clock + cycles + 1 <= u64::MAX,
        ensures
            final(self)@ == old(self)@.cpx(mode, cycles),
            address == old(self)@.operand_address(mode, false).0,
            final(self).keeps(*old(self)),
            old(self)@.clock + cycles <= final(self)@.clock <= old(self)@.clock + cycles + 1,
    {
        let (address, operand) = self.operand(mode, cycles, true);
        self.compare(self.x, operand);
        address
    }

    /// ComPare Y register
    fn cpy(&mut self, mode: Mode, cycles: u8) -> (address: u16)
        requires
            old(self)@.clock + cycles + 1 <= u64::MAX,
        ensures
            final(self)@ == old(self)@.cpy(mode, cycles),
            address == old(self)@.operand_address(mode, false).0,
            final(self).keeps(*old(self)),
            old(self)@.clock + cycles <= final(self)@.clock <= old(self)@.clock + cycles + 1,
    {
        let (address, operand) = self.operand(mode, cycles, true);
        self.compare(self.y, operand);
        address
    }

    /// test BITs
    fn bit(&mut self, mode: Mode, cycles: u8) -> (address: u16)
        requires
            old(self)@.clock + cycles + 1 <= u64::MAX,
        ensures
            final(self)@ == old(self)@.bit(mode, cycles),
            address == old(self)@.operand_address(mode, false).0,
            final(self).keeps(*old(self)),
            old(self)@.clock + cycles <= final(self)@.clock <= old(self)@.clock + cycles + 1,
    {
        let (address, value) = self.operand(mode, cycles, true);
        self.zero = value & self.a == 0;
        self.negative = value & 0x80 == 0x80;
        self.overflow = value & 0x40 == 0x40;
        address
    }

    /// Carries out an instruction of the arithmetic family.
    #[verifier::rlimit(40)]
    pub(super) fn execute_arithmetic(&mut self, instruction: Instruction) -> (operand: Option<u16>)
        requires
            instruction.mnemonic.family() == Family::Arithmetic,
            old(self)@.clock + MAX_STEP_CYCLES <= u64::MAX,
            2 <= instruction.cycles <= MAX_BASE_CYCLES,
        ensures
            final(self)@ == old(self)@.execute(instruction),
            operand == old(self)@.traced_operand(instruction),
            final(self).keeps(*old(self)),
            old(self)@.clock < final(self)@.clock <= old(self)@.clock + MAX_STEP_CYCLES,
    {
        let mode = instruction.mode;
        let cycles = instruction.cycles;
        match instruction.mnemonic {
            Mnemonic::Adc => Some(self.adc(mode, cycles)),
            Mnemonic::And => Some(self.and(mode, cycles)),
            Mnemonic::Bit => Some(self.bit(mode, cycles)),
            Mnemonic::Cmp => Some(self.cmp(mode, cycles)),
            Mnemonic::Cpx => Some(self.cpx(mode, cycles)),
            Mnemonic::Cpy => Some(self.cpy(mode, cycles)),
            Mnemonic::Eor => Some(self.eor(mode, cycles)),
            Mnemonic::Ora => Some(self.ora(mode, cycles)),
            Mnemonic::Sbc => Some(self.sbc(mode, cycles)),
            // no other instruction is of this family
            _ => None,
        }
    }
}

} // verus!
