use crate::cart::{has_magic, parse_image, whole_image, CartLoadResult};
use crate::instruction::{decode, Family, Instruction, Mnemonic, Mode, MAX_BASE_CYCLES};
use crate::model::{
    displaced, CpuView, Registers, Trace, MAX_STEP_CYCLES, POWER_UP_STACK_POINTER, RESET_VECTOR,
    STACK_BASE,
};
use crate::system::{System, SystemView};
use vstd::prelude::*;

mod arithmetic;
mod control;
mod moves;
mod shifts;

verus! {

/// The 2A03 NES CPU core, which is based on the 6502 processor
///
/// See: <https://www.nesdev.org/wiki/CPU_registers>
#[allow(clippy::upper_case_acronyms)]
#[derive(Debug)]
pub struct CPU {
    /// Accumulator
    a: u8,
    /// Indexes used for several addressing modes
    x: u8,
    y: u8,
    /// Program counter
    pc: u16,
    /// Stack pointer
    s: u8,
    /// Status register flags
    ///
    /// See: <https://www.nesdev.org/wiki/Status_flags>
    carry: bool,
    zero: bool,
    interrupt_disable: bool,
    decimal: bool,
    break_flag: bool,
    overflow: bool,
    negative: bool,
    /// System
    system: System,
    /// Clock
    clock: u64,
    /// What the trace says of the last instruction that was traced
    debug_state: Option<Trace>,
    debug_enabled: bool,
}

impl View for CPU {
    type V = CpuView;

    closed spec fn view(&self) -> CpuView {
        CpuView {
            a: self.a,
            x: self.x,
            y: self.y,
            pc: self.pc,
            s: self.s,
            carry: self.carry,
            zero: self.zero,
            interrupt_disable: self.interrupt_disable,
            decimal: self.decimal,
            break_flag: self.break_flag,
            overflow: self.overflow,
            negative: self.negative,
            clock: self.clock as nat,
            bus: self.system@,
        }
    }
}

/// `from` moved by a signed 8-bit displacement, given as its byte.
fn displace(from: u16, displacement: u8) -> (target: u16)
    ensures
        target == displaced(from, displacement),
{
    if displacement < 0x80 {
        from.wrapping_add(displacement as u16)
    } else {
        from.wrapping_sub(0x100 - displacement as u16)
    }
}

impl CPU {
    /// Whether the processor keeps a trace of what it runs.
    pub closed spec fn tracing(&self) -> bool {
        self.debug_enabled
    }

    /// The trace of the last instruction that was traced.
    pub closed spec fn traced(&self) -> Option<Trace> {
        self.debug_state
    }

    /// Whether tracing and the cartridge are as they were in `before`. No
    /// instruction changes either.
    pub open spec fn keeps(&self, before: CPU) -> bool {
        &&& self.tracing() == before.tracing()
        &&& self.traced() == before.traced()
        &&& self@.bus.cart == before@.bus.cart
    }

    /// Create a new CPU, in the power up state, on a system with the
    /// cartridge that `contents`, the bytes of a ROM file, describes.
    ///
    /// See: <https://www.nesdev.org/wiki/CPU_power_up_state>
    pub fn new(contents: &[u8], debug_enabled: bool) -> (result: CartLoadResult<Self>)
        requires
            has_magic(contents@) ==> whole_image(contents@),
        ensures
            has_magic(contents@) <==> result is Ok,
            result matches Err(error) ==> error is FileNotARom,
            result matches Ok(cpu) ==> {
                &&& cpu@ == CpuView::power_up(SystemView::power_on(parse_image(contents@)))
                &&& cpu.tracing() == debug_enabled
                &&& cpu.traced() is None
            },
    {
        match System::new(contents) {
            Ok(system) => {
                let mut system = system;
                let reset_vector = system.read_word(RESET_VECTOR);
                Ok(
                    Self {
                        a: 0,
                        x: 0,
                        y: 0,
                        s: POWER_UP_STACK_POINTER,
                        pc: reset_vector,
                        carry: false,
                        zero: false,
                        interrupt_disable: true,
                        decimal: false,
                        break_flag: false,
                        overflow: false,
                        negative: false,
                        system,
                        clock: 0,
                        debug_state: None,
                        debug_enabled,
                    },
                )
            },
            Err(error) => Err(error),
        }
    }

    /// The registers and flags.
    pub fn registers(&self) -> (registers: Registers)
        ensures
            registers == self@.registers(),
    {
        Registers {
            a: self.a,
            x: self.x,
            y: self.y,
            pc: self.pc,
            s: self.s,
            carry: self.carry,
            zero: self.zero,
            interrupt_disable: self.interrupt_disable,
            decimal: self.decimal,
            break_flag: self.break_flag,
            overflow: self.overflow,
            negative: self.negative,
        }
    }

    /// The cycles counted since power-up.
    pub fn clock(&self) -> (clock: u64)
        ensures
            clock == self@.clock,
    {
        self.clock
    }

    /// The bus that the processor is bound to.
    pub fn system(&self) -> (system: &System)
        ensures
            system@ == self@.bus,
    {
        &self.system
    }

    /// Whether the processor keeps a trace of what it runs.
    pub fn debug_enabled(&self) -> (enabled: bool)
        ensures
            enabled == self.tracing(),
    {
        self.debug_enabled
    }

    /// The trace of the last instruction that was traced: none before the
    /// first one, and none ever while tracing is off.
    pub fn last_trace(&self) -> (trace: Option<Trace>)
        ensures
            trace == self.traced(),
    {
        self.debug_state
    }

    /// Advances the clock of the video peripheral by `cycles`. The processor
    /// itself stays as it is.
    pub fn tick(&mut self, cycles: u64)
        ensures
            final(self)@ == (CpuView { bus: old(self)@.bus.after_tick(cycles), ..old(self)@ }),
            final(self).tracing() == old(self).tracing(),
            final(self).traced() == old(self).traced(),
    {
        self.system.tick(cycles);
    }

    /// Whether [`Self::run_opcode`] can run the next instruction.
    pub fn can_run_opcode(&self) -> (can: bool)
        ensures
            can == self@.can_step(),
    {
        let opcode = self.system.peek(self.pc);
        decode(opcode).is_some() && self.clock <= u64::MAX - MAX_STEP_CYCLES
    }

    /// The registers and flags as a trace is to show them, where tracing is on.
    fn save_debug_state(&self) -> (saved: Option<Registers>)
        ensures
            saved == if self.tracing() {
                Some(self@.registers())
            } else {
                None
            },
    {
        if !self.debug_enabled {
            return None;
        }
        Some(self.registers())
    }

    /// Keeps the trace of an instruction, where tracing is on.
    fn debug_opcode(&mut self, saved: Option<Registers>, mnemonic: Mnemonic, operand: Option<u16>)
        ensures
            final(self)@ == old(self)@,
            final(self).tracing() == old(self).tracing(),
            final(self).traced() == match saved {
                Some(registers) => Some(Trace { registers, mnemonic, operand }),
                None => old(self).traced(),
            },
    {
        match saved {
            Some(registers) => {
                self.debug_state = Some(Trace { registers, mnemonic, operand });
            },
            None => {},
        }
    }

    /// Runs the instruction at the program counter.
    ///
    /// The processor and the bus end as [`CpuView::step`] says. Beside that,
    /// where tracing is on, the trace of this instruction is kept; where it
    /// is off, the last trace stays what it was. The opcode must be one of
    /// the opcode table and the clock must have room, which
    /// [`Self::can_run_opcode`] tests.
    pub fn run_opcode(&mut self)
        requires
            old(self)@.can_step(),
        ensures
            final(self)@ == old(self)@.step(),
            final(self).tracing() == old(self).tracing(),
            final(self).traced() == if old(self).tracing() {
                Some(old(self)@.trace_of_step())
            } else {
                old(self).traced()
            },
            final(self)@.bus.cart == old(self)@.bus.cart,
            old(self)@.clock < final(self)@.clock <= old(self)@.clock + MAX_STEP_CYCLES,
    {
        proof {
            reveal(CpuView::read);
        }
        // Save debug state before altering the counters/registers
        let saved = self.save_debug_state();

        let opcode = self.read_byte(self.pc);
        let instruction = match decode(opcode) {
            Some(instruction) => instruction,
            // not reached: the opcode is one of the opcode table
            None => {
                return ;
            },
        };
        let operand = self.execute(instruction);
        self.debug_opcode(saved, instruction.mnemonic, operand);
    }

    /// Carries out `instruction`, whose opcode has been fetched, and returns
    /// the address that a trace of it names.
    fn execute(&mut self, instruction: Instruction) -> (operand: Option<u16>)
        requires
            old(self)@.clock + MAX_STEP_CYCLES <= u64::MAX,
            2 <= instruction.cycles <= MAX_BASE_CYCLES,
        ensures
            final(self)@ == old(self)@.execute(instruction),
            operand == old(self)@.traced_operand(instruction),
            final(self).keeps(*old(self)),
            old(self)@.clock < final(self)@.clock <= old(self)@.clock + MAX_STEP_CYCLES,
    {
        match instruction.mnemonic.family_of() {
            Family::Arithmetic => self.execute_arithmetic(instruction),
            Family::Counting => self.execute_counting(instruction),
            Family::Move => self.execute_move(instruction),
            Family::Branch => self.execute_branch(instruction),
            Family::Control => self.execute_control(instruction),
        }
    }

    // The bus -----------------------------------------------------------------------------------
    fn read_byte(&mut self, address: u16) -> (value: u8)
        ensures
            (value, final(self)@) == old(self)@.read(address),
            final(self).keeps(*old(self)),
            final(self)@.differs_in_bus_only(old(self)@),
    {
        proof {
            reveal(CpuView::read);
        }
        self.system.read_byte(address)
    }

    fn read_word(&mut self, address: u16) -> (word: u16)
        ensures
            (word, final(self)@) == old(self)@.read_word(address),
            final(self).keeps(*old(self)),
            final(self)@.differs_in_bus_only(old(self)@),
    {
        proof {
            reveal(CpuView::read_word);
        }
        self.system.read_word(address)
    }

    fn write_byte(&mut self, address: u16, value: u8)
        ensures
            final(self)@ == old(self)@.write(address, value),
            final(self).keeps(*old(self)),
            final(self)@.differs_in_bus_only(old(self)@),
    {
        proof {
            reveal(CpuView::write);
        }
        self.system.write_byte(address, value);
    }

    // Counters ----------------------------------------------------------------------------------
    /// Puts `cycles` on the clock.
    fn charge(&mut self, cycles: u8)
        requires
            old(self)@.clock + cycles <= u64::MAX,
        ensures
            final(self)@ == old(self)@.charge(cycles as nat),
            final(self).keeps(*old(self)),
    {
        self.clock += cycles as u64;
    }

    /// Moves the program counter past an instruction of `mode`.
    fn advance(&mut self, mode: Mode)
        ensures
            final(self)@ == old(self)@.advance(mode),
            final(self).keeps(*old(self)),
    {
        self.pc = self.pc.wrapping_add(mode.encoded_length());
    }

    // Addressing modes --------------------------------------------------------------------------
    fn immediate(&self) -> (address: u16)
        ensures
            address == self@.immediate(),
    {
        self.pc.wrapping_add(1)
    }

    fn general_zero_page(&mut self, to_add: u8) -> (address: u16)
        ensures
            (address, final(self)@) == old(self)@.general_zero_page(to_add),
            final(self).keeps(*old(self)),
            final(self)@.differs_in_bus_only(old(self)@),
    {
        let next_address = self.immediate();
        self.read_byte(next_address).wrapping_add(to_add) as u16
    }

    fn zero_page(&mut self) -> (address: u16)
        ensures
            (address, final(self)@) == old(self)@.zero_page(),
            final(self).keeps(*old(self)),
            final(self)@.differs_in_bus_only(old(self)@),
    {
        self.general_zero_page(0)
    }

    fn zero_page_x(&mut self) -> (address: u16)
        ensures
            (address, final(self)@) == old(self)@.zero_page_x(),
            final(self).keeps(*old(self)),
            final(self)@.differs_in_bus_only(old(self)@),
    {
        self.general_zero_page(self.x)
    }

    fn zero_page_y(&mut self) -> (address: u16)
        ensures
            (address, final(self)@) == old(self)@.zero_page_y(),
            final(self).keeps(*old(self)),
            final(self)@.differs_in_bus_only(old(self)@),
    {
        self.general_zero_page(self.y)
    }

    fn indirect_zero_page_x(&mut self) -> (address: u16)
        ensures
            (address, final(self)@) == old(self)@.indirect_zero_page_x(),
            final(self).keeps(*old(self)),
            final(self)@.differs_in_bus_only(old(self)@),
    {
        let pointer = self.zero_page_x();
        self.read_word(pointer)
    }

    /// Adds `index` to `base`, and a cycle to the clock where that crosses
    /// into another page and the instruction pays for it.
    fn indexed(&mut self, base: u16, index: u8, extra_clock_for_page_fault: bool) -> (address: u16)
        requires
            old(self)@.clock + 1 <= u64::MAX,
        ensures
            (address, final(self)@) == old(self)@.indexed(base, index, extra_clock_for_page_fault),
            address == old(self)@.indexed(base, index, false).0,
            final(self).keeps(*old(self)),
            final(self)@.differs_in_bus_and_cycle_only(old(self)@),
    {
        let page1 = base >> 8;
        let address = base.wrapping_add(index as u16);
        let page2 = address >> 8;
        if extra_clock_for_page_fault && page1 != page2 {
            self.clock += 1;
        }
        address
    }

    fn indirect_zero_page_y(&mut self, extra_clock_for_page_fault: bool) -> (address: u16)
        requires
            old(self)@.clock + 1 <= u64::MAX,
        ensures
            (address, final(self)@) == old(self)@.indirect_zero_page_y(extra_clock_for_page_fault),
            address == old(self)@.indirect_zero_page_y(false).0,
            final(self).keeps(*old(self)),
            final(self)@.differs_in_bus_and_cycle_only(old(self)@),
    {
        let y = self.y;
        let pointer = self.zero_page();
        let pre_index = self.read_word(pointer);
        self.indexed(pre_index, y, extra_clock_for_page_fault)
    }

    fn absolute(&mut self) -> (address: u16)
        ensures
            (address, final(self)@) == old(self)@.absolute(),
            final(self).keeps(*old(self)),
            final(self)@.differs_in_bus_only(old(self)@),
    {
        let next_address = self.immediate();
        self.read_word(next_address)
    }

    fn absolute_x(&mut self, extra_clock_for_page_fault: bool) -> (address: u16)
        requires
            old(self)@.clock + 1 <= u64::MAX,
        ensures
            (address, final(self)@) == old(self)@.absolute_x(extra_clock_for_page_fault),
            address == old(self)@.absolute_x(false).0,
            final(self).keeps(*old(self)),
            final(self)@.differs_in_bus_and_cycle_only(old(self)@),
    {
        let x = self.x;
        let base = self.absolute();
        self.indexed(base, x, extra_clock_for_page_fault)
    }

    fn absolute_y(&mut self, extra_clock_for_page_fault: bool) -> (address: u16)
        requires
            old(self)@.clock + 1 <= u64::MAX,
        ensures
            (address, final(self)@) == old(self)@.absolute_y(extra_clock_for_page_fault),
            address == old(self)@.absolute_y(false).0,
            final(self).keeps(*old(self)),
            final(self)@.differs_in_bus_and_cycle_only(old(self)@),
    {
        let y = self.y;
        let base = self.absolute();
        self.indexed(base, y, extra_clock_for_page_fault)
    }

    fn indirect(&mut self) -> (address: u16)
        ensures
            (address, final(self)@) == old(self)@.indirect(),
            final(self).keeps(*old(self)),
            final(self)@.differs_in_bus_only(old(self)@),
    {
        let pointer = self.absolute();
        self.read_word(pointer)
    }

    fn relative(&mut self) -> (address: u16)
        ensures
            (address, final(self)@) == old(self)@.relative(),
            final(self).keeps(*old(self)),
            final(self)@.differs_in_bus_only(old(self)@),
    {
        let next = self.pc.wrapping_add(2);
        let arg_address = self.immediate();
        let displacement = self.read_byte(arg_address);
        displace(next, displacement)
    }

    /// Finds the address that an instruction of `mode` works on.
    fn operand_address(&mut self, mode: Mode, extra_clock_for_page_fault: bool) -> (address: u16)
        requires
            old(self)@.clock + 1 <= u64::MAX,
        ensures
            (address, final(self)@) == old(self)@.operand_address(mode, extra_clock_for_page_fault),
            address == old(self)@.operand_address(mode, false).0,
            final(self).keeps(*old(self)),
            final(self)@.differs_in_bus_and_cycle_only(old(self)@),
    {
        proof {
            reveal(CpuView::operand_address);
        }
        match mode {
            Mode::Implied | Mode::Accumulator | Mode::Immediate => self.immediate(),
            Mode::ZeroPage => self.zero_page(),
            Mode::ZeroPageX => self.zero_page_x(),
            Mode::ZeroPageY => self.zero_page_y(),
            Mode::IndirectX => self.indirect_zero_page_x(),
            Mode::IndirectY => self.indirect_zero_page_y(extra_clock_for_page_fault),
            Mode::Absolute => self.absolute(),
            Mode::AbsoluteX => self.absolute_x(extra_clock_for_page_fault),
            Mode::AbsoluteY => self.absolute_y(extra_clock_for_page_fault),
            Mode::Indirect => self.indirect(),
            Mode::Relative => self.relative(),
        }
    }

    /// Begins an instruction with an operand: finds the operand's address,
    /// counts the cycles and moves the program counter on.
    fn begin(&mut self, mode: Mode, cycles: u8, extra_clock_for_page_fault: bool) -> (address: u16)
        requires
            old(self)@.clock + cycles + 1 <= u64::MAX,
        ensures
            (address, final(self)@) == old(self)@.begin(mode, cycles, extra_clock_for_page_fault),
            address == old(self)@.operand_address(mode, false).0,
            final(self).keeps(*old(self)),
            old(self)@.clock + cycles <= final(self)@.clock <= old(self)@.clock + cycles + 1,
    {
        let address = self.operand_address(mode, extra_clock_for_page_fault);
        self.charge(cycles);
        self.advance(mode);
        address
    }

    /// Begins an instruction without an operand.
    fn begin_implied(&mut self, cycles: u8)
        requires
            old(self)@.clock + cycles <= u64::MAX,
        ensures
            final(self)@ == old(self)@.begin_implied(cycles),
            final(self).keeps(*old(self)),
    {
        self.charge(cycles);
        self.advance(Mode::Implied);
    }

    /// Begins an instruction with an operand and reads the operand.
    fn operand(&mut self, mode: Mode, cycles: u8, extra_clock_for_page_fault: bool) -> (found: (
        u16,
        u8,
    ))
        requires
            old(self)@.clock + cycles + 1 <= u64::MAX,
        ensures
            (found.1, final(self)@) == old(self)@.operand(mode, cycles, extra_clock_for_page_fault),
            found.0 == old(self)@.operand_address(mode, false).0,
            final(self).keeps(*old(self)),
            old(self)@.clock + cycles <= final(self)@.clock <= old(self)@.clock + cycles + 1,
    {
        let address = self.begin(mode, cycles, extra_clock_for_page_fault);
        let operand = self.read_byte(address);
        (address, operand)
    }

    // Helpers for setting flags -----------------------------------------------------------------
    fn test_negative(&mut self, value: u8)
        ensures
            final(self)@ == old(self)@.test_negative(value),
            final(self).keeps(*old(self)),
    {
        self.negative = value & 0x80 == 0x80;
    }

    fn test_zero(&mut self, value: u8)
        ensures
            final(self)@ == old(self)@.test_zero(value),
            final(self).keeps(*old(self)),
    {
        self.zero = value == 0;
    }

    // The stack ---------------------------------------------------------------------------------
    /// Push a byte to System
    fn push(&mut self, value: u8)
        ensures
            final(self)@ == old(self)@.push(value),
            final(self).keeps(*old(self)),
            final(self)@.clock == old(self)@.clock,
    {
        self.write_byte(STACK_BASE + self.s as u16, value);
        self.s = self.s.wrapping_sub(1);
    }

    /// Pull a byte from System
    fn pull(&mut self) -> (value: u8)
        ensures
            (value, final(self)@) == old(self)@.pull(),
            final(self).keeps(*old(self)),
            final(self)@.clock == old(self)@.clock,
    {
        self.s = self.s.wrapping_add(1);
        self.read_byte(STACK_BASE + self.s as u16)
    }

    /// Pull status from System
    fn pull_status(&mut self)
        ensures
            final(self)@ == old(self)@.pull_status(),
            final(self).keeps(*old(self)),
            final(self)@.clock == old(self)@.clock,
    {
        let intermediate = self.pull();

        self.negative = intermediate & 0x80 == 0x80;
        self.overflow = intermediate & 0x40 == 0x40;
        self.decimal = intermediate & 0x08 == 0x08;
        self.interrupt_disable = intermediate & 0x04 == 0x04;
        self.zero = intermediate & 0x02 == 0x02;
        self.carry = intermediate & 0x01 == 0x01;
    }

    /// Pull program counter
    fn pull_pc(&mut self)
        ensures
            final(self)@ == old(self)@.pull_pc(),
            final(self).keeps(*old(self)),
            final(self)@.clock == old(self)@.clock,
    {
        let low = self.pull();
        let high = self.pull();
        self.pc = (low as u16) | ((high as u16) << 8);
    }

    /// Push status to System
    fn push_status(&mut self)
        ensures
            final(self)@ == old(self)@.push_status(),
            final(self).keeps(*old(self)),
            final(self)@.clock == old(self)@.clock,
    {
        let negative: u8 = if self.negative {
            0x80
        } else {
            0
        };
        let overflow: u8 = if self.overflow {
            0x40
        } else {
            0
        };
        let break_flag: u8 = if self.break_flag {
            0x10
        } else {
            0
        };
        let decimal: u8 = if self.decimal {
            0x08
        } else {
            0
        };
        let interrupt_disable: u8 = if self.interrupt_disable {
            0x04
        } else {
            0
        };
        let zero: u8 = if self.zero {
            0x02
        } else {
            0
        };
        let carry: u8 = if self.carry {
            0x01
        } else {
            0
        };
        // bit 5 is always 1
        let intermediate: u8 = negative | overflow | 0x20 | break_flag | decimal | interrupt_disable
            | zero | carry;
        self.push(intermediate);
    }

    /// Push word to System
    fn push_word(&mut self, value: u16)
        ensures
            final(self)@ == old(self)@.push_word(value),
            final(self).keeps(*old(self)),
            final(self)@.clock == old(self)@.clock,
    {
        let first_byte = (value >> 8) as u8;
        self.push(first_byte);

        let second_byte = (value & 0xff) as u8;
        self.push(second_byte);
    }
}

} // verus!
