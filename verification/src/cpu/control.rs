use super::CPU;
use crate::instruction::{Family, Instruction, Mnemonic, Mode, MAX_BASE_CYCLES};
use crate::model::{BREAK_VECTOR, MAX_STEP_CYCLES};
use vstd::prelude::*;

verus! {

impl CPU {
    // Jump/Flag commands ------------------------------------------------------------------------
    /// Common function for branching opcodes.
    fn branch(&mut self) -> (target: u16)
        requires
            old(self)@.clock + 4 <= u64::MAX,
        ensures
            final(self)@ == old(self)@.branch(),
            target == old(self)@.relative().0,
            final(self).keeps(*old(self)),
            old(self)@.clock + 3 <= final(self)@.clock <= old(self)@.clock + 4,
    {
        let next = self.pc.wrapping_add(2);
        let prev_page = next >> 8;
        let target = self.relative();
        self.pc = target;

        let new_page = self.pc >> 8;
        if prev_page != new_page {
            self.clock += 4;
        } else {
            self.clock += 3;
        }
        target
    }

    fn branch_if(&mut self, condition: bool) -> (target: Option<u16>)
        requires
            old(self)@.clock + 4 <= u64::MAX,
        ensures
            final(self)@ == old(self)@.branch_if(condition),
            target == if condition {
                Some(old(self)@.relative().0)
            } else {
                None
            },
            final(self).keeps(*old(self)),
            old(self)@.clock + 2 <= final(self)@.clock <= old(self)@.clock + 4,
    {
        if condition {
            Some(self.branch())
        } else {
            self.charge(2);
            self.advance(Mode::Relative);
            None
        }
    }

    /// Branch on PLus
    fn bpl(&mut self) -> (target: Option<u16>)
        requires
            old(self)@.clock + 4 <= u64::MAX,
        ensures
            final(self)@ == old(self)@.branch_if(!old(self)@.negative),
            target == if !old(self)@.negative {
                Some(old(self)@.relative().0)
            } else {
                None
            },
            final(self).keeps(*old(self)),
            old(self)@.clock + 2 <= final(self)@.clock <= old(self)@.clock + 4,
    {
        self.branch_if(!self.negative)
    }

    /// Branch on MInus
    fn bmi(&mut self) -> (target: Option<u16>)
        requires
            old(self)@.clock + 4 <= u64::MAX,
        ensures
            final(self)@ == old(self)@.branch_if(old(self)@.negative),
            target == if old(self)@.negative {
                Some(old(self)@.relative().0)
            } else {
                None
            },
            final(self).keeps(*old(self)),
            old(self)@.clock + 2 <= final(self)@.clock <= old(self)@.clock + 4,
    {
        self.branch_if(self.negative)
    }

    /// Branch on oVerflow Clear
    fn bvc(&mut self) -> (target: Option<u16>)
        requires
            old(self)@.clock + 4 <= u64::MAX,
        ensures
            final(self)@ == old(self)@.branch_if(!old(self)@.overflow),
            target == if !old(self)@.overflow {
                Some(old(self)@.relative().0)
            } else {
                None
            },
            final(self).keeps(*old(self)),
            old(self)@.clock + 2 <= final(self)@.clock <= old(self)@.clock + 4,
    {
        self.branch_if(!self.overflow)
    }

    /// Branch on oVerflow Set
    fn bvs(&mut self) -> (target: Option<u16>)
        requires
            old(self)@.clock + 4 <= u64::MAX,
        ensures
            final(self)@ == old(self)@.branch_if(old(self)@.overflow),
            target == if old(self)@.overflow {
                Some(old(self)@.relative().0)
            } else {
                None
            },
            final(self).keeps(*old(self)),
            old(self)@.clock + 2 <= final(self)@.clock <= old(self)@.clock + 4,
    {
        self.branch_if(self.overflow)
    }

    /// Branch on Carry Clear
    fn bcc(&mut self) -> (target: Option<u16>)
        requires
            old(self)@.clock + 4 <= u64::MAX,
        ensures
            final(self)@ == old(self)@.branch_if(!old(self)@.carry),
            target == if !old(self)@.carry {
                Some(old(self)@.relative().0)
            } else {
                None
            },
            final(self).keeps(*old(self)),
            old(self)@.clock + 2 <= final(self)@.clock <= old(self)@.clock + 4,
    {
        self.branch_if(!self.carry)
    }

    /// Branch on Carry Set
    fn bcs(&mut self) -> (target: Option<u16>)
        requires
            old(self)@.clock + 4 <= u64::MAX,
        ensures
            final(self)@ == old(self)@.branch_if(old(self)@.carry),
            target == if old(self)@.carry {
                Some(old(self)@.relative().0)
            } else {
                None
            },
            final(self).keeps(*old(self)),
            old(self)@.clock + 2 <= final(self)@.clock <= old(self)@.clock + 4,
    {
        self.branch_if(self.carry)
    }

    /// Branch on Not Equal
    fn bne(&mut self) -> (target: Option<u16>)
        requires
            old(self)@.clock + 4 <= u64::MAX,
        ensures
            final(self)@ == old(self)@.branch_if(!old(self)@.zero),
            target == if !old(self)@.zero {
                Some(old(self)@.relative().0)
            } else {
                None
            },
            final(self).keeps(*old(self)),
            old(self)@.clock + 2 <= final(self)@.clock <= old(self)@.clock + 4,
    {
        self.branch_if(!self.zero)
    }

    /// Branch on EQual
    fn beq(&mut self) -> (target: Option<u16>)
        requires
            old(self)@.clock + 4 <= u64::MAX,
        ensures
            final(self)@ == old(self)@.branch_if(old(self)@.zero),
            target == if old(self)@.zero {
                Some(old(self)@.relative().0)
            } else {
                None
            },
            final(self).keeps(*old(self)),
            old(self)@.clock + 2 <= final(self)@.clock <= old(self)@.clock + 4,
    {
        self.branch_if(self.zero)
    }

    /// BReaK
    fn brk(&mut self, cycles: u8)
        requires
            old(self)@.clock + cycles <= u64::MAX,
        ensures
            final(self)@ == old(self)@.brk(cycles),
            final(self).keeps(*old(self)),
            final(self)@.clock == old(self)@.clock + cycles,
    {
        self.begin_implied(cycles);

        self.push_word(self.pc);

        self.pc = self.read_word(BREAK_VECTOR);
        self.break_flag = true;
        self.interrupt_disable = true;
    }

    /// ReTurn from Interrupt
    fn rti(&mut self, cycles: u8)
        requires
            old(self)@.clock + cycles <= u64::MAX,
        ensures
            final(self)@ == old(self)@.rti(cycles),
            final(self).keeps(*old(self)),
            final(self)@.clock == old(self)@.clock + cycles,
    {
        self.charge(cycles);
        self.pull_status();
        self.pull_pc();
    }

    /// Jump to SubRoutine
    fn jsr(&mut self, mode: Mode, cycles: u8) -> (address: u16)
        requires
            old(self)@.clock + cycles + 1 <= u64::MAX,
        ensures
            final(self)@ == old(self)@.jsr(mode, cycles),
            address == old(self)@.operand_address(mode, false).0,
            final(self).keeps(*old(self)),
            old(self)@.clock + cycles <= final(self)@.clock <= old(self)@.clock + cycles + 1,
    {
        let return_address = self.pc.wrapping_add(2);
        let address = self.operand_address(mode, false);
        self.charge(cycles);

        self.push_word(return_address);

        self.pc = address;
        address
    }

    /// ReTurn from Subroutine
    fn rts(&mut self, cycles: u8)
        requires
            old(self)@.clock + cycles <= u64::MAX,
        ensures
            final(self)@ == old(self)@.rts(cycles),
            final(self).keeps(*old(self)),
            final(self)@.clock == old(self)@.clock + cycles,
    {
        self.charge(cycles);
        self.pull_pc()
    }

    /// JuMP
    fn jmp(&mut self, mode: Mode, cycles: u8) -> (address: u16)
        requires
            old(self)@.clock + cycles + 1 <= u64::MAX,
        ensures
            final(self)@ == old(self)@.jmp(mode, cycles),
            address == old(self)@.operand_address(mode, false).0,
            final(self).keeps(*old(self)),
            old(self)@.clock + cycles <= final(self)@.clock <= old(self)@.clock + cycles + 1,
    {
        let address = self.operand_address(mode, false);
        self.charge(cycles);

        self.pc = address;
        address
    }

    /// CLear Carry
    fn clc(&mut self, cycles: u8)
        requires
            old(self)@.clock + cycles <= u64::MAX,
        ensures
            final(self)@ == old(self)@.clc(cycles),
            final(self).keeps(*old(self)),
            final(self)@.clock == old(self)@.clock + cycles,
    {
        self.begin_implied(cycles);
        self.carry = false;
    }

    /// SEt Carry
    fn sec(&mut self, cycles: u8)
        requires
            old(self)@.clock + cycles <= u64::MAX,
        ensures
            final(self)@ == old(self)@.sec(cycles),
            final(self).keeps(*old(self)),
            final(self)@.clock == old(self)@.clock + cycles,
    {
        self.begin_implied(cycles);
        self.carry = true;
    }

    /// CLear Decimal
    fn cld(&mut self, cycles: u8)
        requires
            old(self)@.clock + cycles <= u64::MAX,
        ensures
            final(self)@ == old(self)@.cld(cycles),
            final(self).keeps(*old(self)),
            final(self)@.clock == old(self)@.clock + cycles,
    {
        self.begin_implied(cycles);
        self.decimal = false;
    }

    /// SEt Decimal
    fn sed(&mut self, cycles: u8)
        requires
            old(self)@.clock + cycles <= u64::MAX,
        ensures
            final(self)@ == old(self)@.sed(cycles),
            final(self).keeps(*old(self)),
            final(self)@.clock == old(self)@.clock + cycles,
    {
        self.begin_implied(cycles);
        self.decimal = true;
    }

    /// CLear Interrupt
    fn cli(&mut self, cycles: u8)
        requires
            old(self)@.clock + cycles <= u64::MAX,
        ensures
            final(self)@ == old(self)@.cli(cycles),
            final(self).keeps(*old(self)),
            final(self)@.clock == old(self)@.clock + cycles,
    {
        self.begin_implied(cycles);
        self.interrupt_disable = false;
    }

    /// SEt Interrupt
    fn sei(&mut self, cycles: u8)
        requires
            old(self)@.clock + cycles <= u64::MAX,
        ensures
            final(self)@ == old(self)@.sei(cycles),
            final(self).keeps(*old(self)),
            final(self)@.clock == old(self)@.clock + cycles,
    {
        self.begin_implied(cycles);
        self.interrupt_disable = true;
    }

    /// CLear oVerflow
    fn clv(&mut self, cycles: u8)
        requires
            old(self)@.clock + cycles <= u64::MAX,
        ensures
            final(self)@ == old(self)@.clv(cycles),
            final(self).keeps(*old(self)),
            final(self)@.clock == old(self)@.clock + cycles,
    {
        self.begin_implied(cycles);
        self.overflow = false;
    }

    /// No OPeration
    fn nop(&mut self, cycles: u8)
        requires
            old(self)@.clock + cycles <= u64::MAX,
        ensures
            final(self)@ == old(self)@.nop(cycles),
            final(self).keeps(*old(self)),
            final(self)@.clock == old(self)@.clock + cycles,
    {
        self.begin_implied(cycles);
    }

    /// Carries out a conditional branch.
    pub(super) fn execute_branch(&mut self, instruction: Instruction) -> (operand: Option<u16>)
        requires
            instruction.mnemonic.family() == Family::Branch,
            old(self)@.clock + MAX_STEP_CYCLES <= u64::MAX,
            2 <= instruction.cycles <= MAX_BASE_CYCLES,
        ensures
            final(self)@ == old(self)@.execute(instruction),
            operand == old(self)@.traced_operand(instruction),
            final(self).keeps(*old(self)),
            old(self)@.clock < final(self)@.clock <= old(self)@.clock + MAX_STEP_CYCLES,
    {
        match instruction.mnemonic {
            Mnemonic::Bcc => self.bcc(),
            Mnemonic::Bcs => self.bcs(),
            Mnemonic::Beq => self.beq(),
            Mnemonic::Bmi => self.bmi(),
            Mnemonic::Bne => self.bne(),
            Mnemonic::Bpl => self.bpl(),
            Mnemonic::Bvc => self.bvc(),
            Mnemonic::Bvs => self.bvs(),
            // no other instruction is of this family
            _ => None,
        }
    }

    /// Carries out an instruction of the control family.
    pub(super) fn execute_control(&mut self, instruction: Instruction) -> (operand: Option<u16>)
        requires
            instruction.mnemonic.family() == Family::Control,
            old(self)@.clock + MAX_STEP_CYCLES <= u64::MAX,
            2 <= instruction.cycles <= MAX_BASE_CYCLES,
        ensures
            final(self)@ == old(self)@.execute(instruction),
            operand == old(self)@.traced_operand(instruction),
            final(self).keeps(*old(self)),
            old(self)@.clock < final(self)@.clock <= old(self)@.clock + MAX_STEP_CYCLES,
    {
        let mode = instruction.mode;
        let cycles = instruction.cycles;
        match instruction.mnemonic {
            Mnemonic::Brk => {
                self.brk(cycles);
                None
            },
            Mnemonic::Clc => {
                self.clc(cycles);
                None
            },
            Mnemonic::Cld => {
                self.cld(cycles);
                None
            },
            Mnemonic::Cli => {
                self.cli(cycles);
                None
            },
            Mnemonic::Clv => {
                self.clv(cycles);
                None
            },
            Mnemonic::Jmp => Some(self.jmp(mode, cycles)),
            Mnemonic::Jsr => Some(self.jsr(mode, cycles)),
            Mnemonic::Nop => {
                self.nop(cycles);
                None
            },
            Mnemonic::Rti => {
                self.rti(cycles);
                None
            },
            Mnemonic::Rts => {
                self.rts(cycles);
                None
            },
            Mnemonic::Sec => {
                self.sec(cycles);
                None
            },
            Mnemonic::Sed => {
                self.sed(cycles);
                None
            },
            Mnemonic::Sei => {
                self.sei(cycles);
                None
            },
            // no other instruction is of this family
            _ => None,
        }
    }
}

} // verus!
