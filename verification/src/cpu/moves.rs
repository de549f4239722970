use super::CPU;
use crate::instruction::{Family, Instruction, Mnemonic, Mode, MAX_BASE_CYCLES};
use crate::model::MAX_STEP_CYCLES;
use vstd::prelude::*;

verus! {

impl CPU {
    // Move commands -----------------------------------------------------------------------------
    /// LoaD Accumulator
    fn lda(&mut self, mode: Mode, cycles: u8) -> (address: u16)
        requires
            old(self)@.clock + cycles + 1 <= u64::MAX,
        ensures
            final(self)@ == old(self)@.lda(mode, cycles),
            address == old(self)@.operand_address(mode, false).0,
            final(self).keeps(*old(self)),
            old(self)@.clock + cycles <= final(self)@.clock <= old(self)@.clock + cycles + 1,
    {
        let (address, intermediate) = self.operand(mode, cycles, true);
        self.test_negative(intermediate);
        self.test_zero(intermediate);

        self.a = intermediate;
        address
    }

    /// LoaD X register
    fn ldx(&mut self, mode: Mode, cycles: u8) -> (address: u16)
        requires
            old(self)@.clock + cycles + 1 <= u64::MAX,
        ensures
            final(self)@ == old(self)@.ldx(mode, cycles),
            address == old(self)@.operand_address(mode, false).0,
            final(self).keeps(*old(self)),
            old(self)@.clock + cycles <= final(self)@.clock <= old(self)@.clock + cycles + 1,
    {
        let (address, intermediate) = self.operand(mode, cycles, true);
        self.test_negative(intermediate);
        self.test_zero(intermediate);

        self.x = intermediate;
        address
    }

    /// LoaD Y register
    fn ldy(&mut self, mode: Mode, cycles: u8) -> (address: u16)
        requires
            old(self)@.clock + cycles + 1 <= u64::MAX,
        ensures
            final(self)@ == old(self)@.ldy(mode, cycles),
            address == old(self)@.operand_address(mode, false).0,
            final(self).keeps(*old(self)),
            old(self)@.clock + cycles <= final(self)@.clock <= old(self)@.clock + cycles + 1,
    {
        let (address, intermediate) = self.operand(mode, cycles, true);
        self.test_negative(intermediate);
        self.test_zero(intermediate);

        self.y = intermediate;
        address
    }

    /// STore Accumulator
    fn sta(&mut self, mode: Mode, cycles: u8) -> (address: u16)
        requires
            old(self)@.clock + cycles + 1 <= u64::MAX,
        ensures
            final(self)@ == old(self)@.sta(mode, cycles),
            address == old(self)@.operand_address(mode, false).0,
            final(self).keeps(*old(self)),
            old(self)@.clock + cycles <= final(self)@.clock <= old(self)@.clock + cycles + 1,
    {
        let address = self.begin(mode, cycles, false);

        self.write_byte(address, self.a);
        address
    }

    /// STore X register
    fn stx(&mut self, mode: Mode, cycles: u8) -> (address: u16)
        requires
            old(self)@.clock + cycles + 1 <= u64::MAX,
        ensures
            final(self)@ == old(self)@.stx(mode, cycles),
            address == old(self)@.operand_address(mode, false).0,
            final(self).keeps(*old(self)),
            old(self)@.clock + cycles <= final(self)@.clock <= old(self)@.clock + cycles + 1,
    {
        let address = self.begin(mode, cycles, false);

        self.write_byte(address, self.x);
        address
    }

    /// STore Y register
    fn sty(&mut self, mode: Mode, cycles: u8) -> (address: u16)
        requires
            old(self)@.clock + cycles + 1 <= u64::MAX,
        ensures
            final(self)@ == old(self)@.sty(mode, cycles),
            address == old(self)@.operand_address(mode, false).0,
            final(self).keeps(*old(self)),
            old(self)@.clock + cycles <= final(self)@.clock <= old(self)@.clock + cycles + 1,
    {
        let address = self.begin(mode, cycles, false);

        self.write_byte(address, self.y);
        address
    }

    /// Transfer A to X
    fn tax(&mut self, cycles: u8)
        requires
            old(self)@.clock + cycles <= u64::MAX,
        ensures
            final(self)@ == old(self)@.tax(cycles),
            final(self).keeps(*old(self)),
            final(self)@.clock == old(self)@.clock + cycles,
    {
        self.begin_implied(cycles);

        self.test_negative(self.a);
        self.test_zero(self.a);

        self.x = self.a;
    }

    /// Transfer X to A
    fn txa(&mut self, cycles: u8)
        requires
            old(self)@.clock + cycles <= u64::MAX,
        ensures
            final(self)@ == old(self)@.txa(cycles),
            final(self).keeps(*old(self)),
            final(self)@.clock == old(self)@.clock + cycles,
    {
        self.begin_implied(cycles);

        self.test_negative(self.x);
        self.test_zero(self.x);

        self.a = self.x;
    }

    /// Transfer A to Y
    fn tay(&mut self, cycles: u8)
        requires
            old(self)@.clock + cycles <= u64::MAX,
        ensures
            final(self)@ == old(self)@.tay(cycles),
            final(self).keeps(*old(self)),
            final(self)@.clock == old(self)@.clock + cycles,
    {
        self.begin_implied(cycles);

        self.test_negative(self.a);
        self.test_zero(self.a);

        self.y = self.a;
    }

    /// Transfer Y to A
    fn tya(&mut self, cycles: u8)
        requires
            old(self)@.clock + cycles <= u64::MAX,
        ensures
            final(self)@ == old(self)@.tya(cycles),
            final(self).keeps(*old(self)),
            final(self)@.clock == old(self)@.clock + cycles,
    {
        self.begin_implied(cycles);

        self.test_negative(self.y);
        self.test_zero(self.y);

        self.a = self.y;
    }

    /// Transfer S to X
    fn tsx(&mut self, cycles: u8)
        requires
            old(self)@.clock + cycles <= u64::MAX,
        ensures
            final(self)@ == old(self)@.tsx(cycles),
            final(self).keeps(*old(self)),
            final(self)@.clock == old(self)@.clock + cycles,
    {
        self.begin_implied(cycles);

        self.test_negative(self.s);
        self.test_zero(self.s);

        self.x = self.s;
    }

    /// Transfer X to S
    fn txs(&mut self, cycles: u8)
        requires
            old(self)@.clock + cycles <= u64::MAX,
        ensures
            final(self)@ == old(self)@.txs(cycles),
            final(self).keeps(*old(self)),
            final(self)@.clock == old(self)@.clock + cycles,
    {
        self.begin_implied(cycles);

        self.s = self.x;
    }

    /// PuLl Accumulator
    fn pla(&mut self, cycles: u8)
        requires
            old(self)@.clock + cycles <= u64::MAX,
        ensures
            final(self)@ == old(self)@.pla(cycles),
            final(self).keeps(*old(self)),
            final(self)@.clock == old(self)@.clock + cycles,
    {
        self.begin_implied(cycles);

        let intermediate = self.pull();

        self.test_negative(intermediate);
        self.test_zero(intermediate);

        self.a = intermediate;
    }

    /// PusH Accumulator
    fn pha(&mut self, cycles: u8)
        requires
            old(self)@.clock + cycles <= u64::MAX,
        ensures
            final(self)@ == old(self)@.pha(cycles),
            final(self).keeps(*old(self)),
            final(self)@.clock == old(self)@.clock + cycles,
    {
        self.begin_implied(cycles);

        self.push(self.a);
    }

    /// PuLl Processor status
    fn plp(&mut self, cycles: u8)
        requires
            old(self)@.clock + cycles <= u64::MAX,
        ensures
            final(self)@ == old(self)@.plp(cycles),
            final(self).keeps(*old(self)),
            final(self)@.clock == old(self)@.clock + cycles,
    {
        self.begin_implied(cycles);

        self.pull_status();
    }

    /// PusH Processor status
    fn php(&mut self, cycles: u8)
        requires
            old(self)@.clock + cycles <= u64::MAX,
        ensures
            final(self)@ == old(self)@.php(cycles),
            final(self).keeps(*old(self)),
            final(self)@.clock == old(self)@.clock + cycles,
    {
        self.begin_implied(cycles);

        self.push_status();
    }

    /// Carries out an instruction of the move family.
    #[verifier::rlimit(60)]
    pub(super) fn execute_move(&mut self, instruction: Instruction) -> (operand: Option<u16>)
        requires
            instruction.mnemonic.family() == Family::Move,
            old(self)@.clock + MAX_STEP_CYCLES <= u64::MAX,
            2 <= instruction.cycles <= MAX_BASE_CYCLES,
        ensures
            final(self)@ == old(self)@.execute(instruction),
            operand == old(self)@.traced_operand(instruction),
            final(self).keeps(*old(self)),
            old(self)@.clock < final(self)@.clock <= old(self)@.clock + MAX_STEP_CYCLES,
    {
        let mode = instruction.mode;
        let cycles = instruction.cycles;
        match instruction.mnemonic {
            Mnemonic::Lda => Some(self.lda(mode, cycles)),
            Mnemonic::Ldx => Some(self.ldx(mode, cycles)),
            Mnemonic::Ldy => Some(self.ldy(mode, cycles)),
            Mnemonic::Pha => {
                self.pha(cycles);
                None
            },
            Mnemonic::Php => {
                self.php(cycles);
                None
            },
            Mnemonic::Pla => {
                self.pla(cycles);
                None
            },
            Mnemonic::Plp => {
                self.plp(cycles);
                None
            },
            Mnemonic::Sta => Some(self.sta(mode, cycles)),
            Mnemonic::Stx => Some(self.stx(mode, cycles)),
            Mnemonic::Sty => Some(self.sty(mode, cycles)),
            Mnemonic::Tax => {
                self.tax(cycles);
                None
            },
            Mnemonic::Tay => {
                self.tay(cycles);
                None
            },
            Mnemonic::Tsx => {
                self.tsx(cycles);
                None
            },
            Mnemonic::Txa => {
                self.txa(cycles);
                None
            },
            Mnemonic::Txs => {
                self.txs(cycles);
                None
            },
            Mnemonic::Tya => {
                self.tya(cycles);
                None
            },
            // no other instruction is of this family
            _ => None,
        }
    }
}

} // verus!
