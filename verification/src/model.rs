use crate::instruction::{decoded, Instruction, Mnemonic, Mode};
use crate::system::SystemView;
use vstd::prelude::*;

verus! {

/// The stack lives in the page that starts here.
pub const STACK_BASE: u16 = 0x0100;

/// Where the program counter is fetched from at power-up.
pub const RESET_VECTOR: u16 = 0xfffc;

/// Where the program counter is fetched from on a break.
pub const BREAK_VECTOR: u16 = 0xfffe;

/// The stack pointer at power-up.
pub const POWER_UP_STACK_POINTER: u8 = 0xfd;

/// A bound on the cycles that one instruction takes: the most that the
/// opcode table starts from, and one for a page that is crossed.
pub const MAX_STEP_CYCLES: u64 = 8;

/// The registers and flags of the processor at one moment.
#[derive(Debug, Clone, Copy, PartialEq, Eq, Structural)]
pub struct Registers {
    /// Accumulator
    pub a: u8,
    /// Index X
    pub x: u8,
    /// Index Y
    pub y: u8,
    /// Program counter
    pub pc: u16,
    /// Stack pointer
    pub s: u8,
    pub carry: bool,
    pub zero: bool,
    pub interrupt_disable: bool,
    pub decimal: bool,
    pub break_flag: bool,
    pub overflow: bool,
    pub negative: bool,
}

/// What a trace says of one instruction: the registers and flags as they
/// were before it, its name, and the address it worked on, if it had one.
#[derive(Debug, Clone, Copy, PartialEq, Eq)]
pub struct Trace {
    pub registers: Registers,
    pub mnemonic: Mnemonic,
    pub operand: Option<u16>,
}

/// The 256-byte page that `address` lies in.
pub open spec fn page_of(address: u16) -> u16 {
    address >> 8
}

/// `from` moved by a signed 8-bit displacement, given as its byte.
pub open spec fn displaced(from: u16, displacement: u8) -> u16 {
    if displacement < 0x80 {
        from.wrapping_add(displacement as u16)
    } else {
        from.wrapping_sub((0x100 - displacement) as u16)
    }
}

/// The eight bits that `value` is cut down to.
pub open spec fn low_byte(value: int) -> u8 {
    (value % 0x100) as u8
}

/// The address of the stack cell that the stack pointer `s` points at.
pub open spec fn stack_address(s: u8) -> u16 {
    (STACK_BASE + s) as u16
}

/// The processor and the bus it is bound to, as far as callers can tell.
pub struct CpuView {
    pub a: u8,
    pub x: u8,
    pub y: u8,
    pub pc: u16,
    pub s: u8,
    pub carry: bool,
    pub zero: bool,
    pub interrupt_disable: bool,
    pub decimal: bool,
    pub break_flag: bool,
    pub overflow: bool,
    pub negative: bool,
    /// The cycles counted since power-up.
    pub clock: nat,
    /// The bus.
    pub bus: SystemView,
}

impl CpuView {
    pub open spec fn registers(self) -> Registers {
        Registers {
            a: self.a,
            x: self.x,
            y: self.y,
            pc: self.pc,
            s: self.s,
            carry: self.carry,
            zero: self.zero,
            interrupt_disable: self.interrupt_disable,
            decimal: self.decimal,
            break_flag: self.break_flag,
            overflow: self.overflow,
            negative: self.negative,
        }
    }

    /// The processor at power-up on `bus`: the registers cleared, the stack
    /// pointer at `0xfd`, interrupts disabled, and the program counter read
    /// from the reset vector.
    pub open spec fn power_up(bus: SystemView) -> CpuView {
        let (reset, after) = bus.read_word(RESET_VECTOR);
        CpuView {
            a: 0,
            x: 0,
            y: 0,
            pc: reset,
            s: POWER_UP_STACK_POINTER,
            carry: false,
            zero: false,
            interrupt_disable: true,
            decimal: false,
            break_flag: false,
            overflow: false,
            negative: false,
            clock: 0,
            bus: after,
        }
    }

    /// Whether `self` is `before` but for the bus.
    pub open spec fn differs_in_bus_only(self, before: CpuView) -> bool {
        self == (CpuView { bus: self.bus, ..before })
    }

    /// Whether `self` is `before` but for the bus and for one cycle that may
    /// have been added to the clock: all that finding an operand changes.
    pub open spec fn differs_in_bus_and_cycle_only(self, before: CpuView) -> bool {
        &&& self == (CpuView { bus: self.bus, clock: self.clock, ..before })
        &&& before.clock <= self.clock <= before.clock + 1
    }

    // The bus -----------------------------------------------------------------------------------
    /// A read of one byte: what it returns and what it leaves behind.
    #[verifier::opaque]
    pub open spec fn read(self, address: u16) -> (u8, CpuView) {
        (self.bus.peek(address), CpuView { bus: self.bus.after_read(address), ..self })
    }

    /// A read of one word, the high byte first.
    #[verifier::opaque]
    pub open spec fn read_word(self, address: u16) -> (u16, CpuView) {
        (self.bus.read_word(address).0, CpuView { bus: self.bus.read_word(address).1, ..self })
    }

    /// What a write of one byte leaves behind.
    #[verifier::opaque]
    pub open spec fn write(self, address: u16, value: u8) -> CpuView {
        CpuView { bus: self.bus.after_write(address, value), ..self }
    }

    // Counters ----------------------------------------------------------------------------------
    /// `cycles` more on the clock.
    pub open spec fn charge(self, cycles: nat) -> CpuView {
        CpuView { clock: self.clock + cycles, ..self }
    }

    /// The program counter moved past an instruction of `mode`.
    pub open spec fn advance(self, mode: Mode) -> CpuView {
        CpuView { pc: self.pc.wrapping_add(mode.length()), ..self }
    }

    // Flags -------------------------------------------------------------------------------------
    /// The negative flag takes bit 7 of `value`.
    pub open spec fn test_negative(self, value: u8) -> CpuView {
        CpuView { negative: value & 0x80 == 0x80, ..self }
    }

    /// The zero flag tells whether `value` is zero.
    pub open spec fn test_zero(self, value: u8) -> CpuView {
        CpuView { zero: value == 0, ..self }
    }

    /// The status byte as it is pushed: negative, overflow, a bit that is
    /// always set, break, decimal, interrupt-disable, zero, carry, from bit 7
    /// down to bit 0.
    pub open spec fn status_byte(self) -> u8 {
        (if self.negative { 0x80u8 } else { 0u8 })
            | (if self.overflow { 0x40u8 } else { 0u8 })
            | 0x20u8
            | (if self.break_flag { 0x10u8 } else { 0u8 })
            | (if self.decimal { 0x08u8 } else { 0u8 })
            | (if self.interrupt_disable { 0x04u8 } else { 0u8 })
            | (if self.zero { 0x02u8 } else { 0u8 })
            | (if self.carry { 0x01u8 } else { 0u8 })
    }

    /// The flags taken from a status byte. The break flag is not among them.
    pub open spec fn with_status(self, status: u8) -> CpuView {
        CpuView {
            negative: status & 0x80 == 0x80,
            overflow: status & 0x40 == 0x40,
            decimal: status & 0x08 == 0x08,
            interrupt_disable: status & 0x04 == 0x04,
            zero: status & 0x02 == 0x02,
            carry: status & 0x01 == 0x01,
            ..self
        }
    }

    // Addressing modes --------------------------------------------------------------------------
    /// The address behind the opcode.
    pub open spec fn immediate(self) -> u16 {
        self.pc.wrapping_add(1)
    }

    /// The zero-page address behind the opcode, with `to_add` added to it
    /// inside the zero page: the sum keeps its low eight bits.
    pub open spec fn general_zero_page(self, to_add: u8) -> (u16, CpuView) {
        let (base, after) = self.read(self.immediate());
        (base.wrapping_add(to_add) as u16, after)
    }

    pub open spec fn zero_page(self) -> (u16, CpuView) {
        self.general_zero_page(0)
    }

    pub open spec fn zero_page_x(self) -> (u16, CpuView) {
        self.general_zero_page(self.x)
    }

    pub open spec fn zero_page_y(self) -> (u16, CpuView) {
        self.general_zero_page(self.y)
    }

    pub open spec fn indirect_zero_page_x(self) -> (u16, CpuView) {
        let (pointer, after) = self.zero_page_x();
        after.read_word(pointer)
    }

    /// `base` with `index` added, and one cycle more where the sum lies in
    /// another page than `base` and the instruction pays for that.
    pub open spec fn indexed(self, base: u16, index: u8, extra_clock_for_page_fault: bool) -> (
        u16,
        CpuView,
    ) {
        let address = base.wrapping_add(index as u16);
        if extra_clock_for_page_fault && page_of(base) != page_of(address) {
            (address, self.charge(1))
        } else {
            (address, self)
        }
    }

    pub open spec fn indirect_zero_page_y(self, extra_clock_for_page_fault: bool) -> (
        u16,
        CpuView,
    ) {
        let (pointer, after) = self.zero_page();
        let (pre_index, read) = after.read_word(pointer);
        read.indexed(pre_index, self.y, extra_clock_for_page_fault)
    }

    pub open spec fn absolute(self) -> (u16, CpuView) {
        self.read_word(self.immediate())
    }

    pub open spec fn absolute_x(self, extra_clock_for_page_fault: bool) -> (u16, CpuView) {
        let (base, after) = self.absolute();
        after.indexed(base, self.x, extra_clock_for_page_fault)
    }

    pub open spec fn absolute_y(self, extra_clock_for_page_fault: bool) -> (u16, CpuView) {
        let (base, after) = self.absolute();
        after.indexed(base, self.y, extra_clock_for_page_fault)
    }

    /// The address in the word that the two bytes behind the opcode point at.
    pub open spec fn indirect(self) -> (u16, CpuView) {
        let (pointer, after) = self.absolute();
        after.read_word(pointer)
    }

    /// Where the displacement behind the opcode leads, counted from the
    /// instruction that follows.
    pub open spec fn relative(self) -> (u16, CpuView) {
        let (displacement, after) = self.read(self.immediate());
        (displaced(self.pc.wrapping_add(2), displacement), after)
    }

    /// The address that an instruction of `mode` works on, with what finding
    /// it does to the bus and the clock. The two modes without an operand
    /// are given the address behind the opcode.
    #[verifier::opaque]
    pub open spec fn operand_address(self, mode: Mode, extra_clock_for_page_fault: bool) -> (
        u16,
        CpuView,
    ) {
        match mode {
            Mode::Implied | Mode::Accumulator | Mode::Immediate => (self.immediate(), self),
            Mode::ZeroPage => self.zero_page(),
            Mode::ZeroPageX => self.zero_page_x(),
            Mode::ZeroPageY => self.zero_page_y(),
            Mode::IndirectX => self.indirect_zero_page_x(),
            Mode::IndirectY => self.indirect_zero_page_y(extra_clock_for_page_fault),
            Mode::Absolute => self.absolute(),
            Mode::AbsoluteX => self.absolute_x(extra_clock_for_page_fault),
            Mode::AbsoluteY => self.absolute_y(extra_clock_for_page_fault),
            Mode::Indirect => self.indirect(),
            Mode::Relative => self.relative(),
        }
    }

    /// How an instruction with an operand begins: the operand's address is
    /// found, the clock gets the instruction's cycles and the program counter
    /// moves past the instruction.
    pub open spec fn begin(self, mode: Mode, cycles: u8, extra_clock_for_page_fault: bool) -> (
        u16,
        CpuView,
    ) {
        let (address, found) = self.operand_address(mode, extra_clock_for_page_fault);
        (address, found.charge(cycles as nat).advance(mode))
    }

    /// How an instruction without an operand begins.
    pub open spec fn begin_implied(self, cycles: u8) -> CpuView {
        self.charge(cycles as nat).advance(Mode::Implied)
    }

    // The stack ---------------------------------------------------------------------------------
    /// `value` written where the stack pointer points, and the pointer one
    /// lower; below zero it goes on from `0xff`.
    pub open spec fn push(self, value: u8) -> CpuView {
        let written = self.write(stack_address(self.s), value);
        CpuView { s: self.s.wrapping_sub(1), ..written }
    }

    /// The stack pointer one higher, going on from zero above `0xff`, and the
    /// byte read where it then points.
    pub open spec fn pull(self) -> (u8, CpuView) {
        let s = self.s.wrapping_add(1);
        (CpuView { s, ..self }).read(stack_address(s))
    }

    /// The high byte of `value` pushed, then the low byte.
    pub open spec fn push_word(self, value: u16) -> CpuView {
        self.push((value >> 8) as u8).push((value & 0xff) as u8)
    }

    /// The status byte pushed.
    pub open spec fn push_status(self) -> CpuView {
        self.push(self.status_byte())
    }

    /// A byte pulled and the flags taken from it.
    pub open spec fn pull_status(self) -> CpuView {
        let (status, pulled) = self.pull();
        pulled.with_status(status)
    }

    /// A low and a high byte pulled, in that order, into the program counter.
    pub open spec fn pull_pc(self) -> CpuView {
        let (low, first) = self.pull();
        let (high, second) = first.pull();
        CpuView { pc: crate::system::word_of(low, high), ..second }
    }

    // Logical and arithmetic commands -----------------------------------------------------------
    /// The accumulator becomes `value`, and negative and zero follow it.
    pub open spec fn with_a(self, value: u8) -> CpuView {
        (CpuView { a: value, ..self }).test_negative(value).test_zero(value)
    }

    pub open spec fn with_x(self, value: u8) -> CpuView {
        (CpuView { x: value, ..self }).test_negative(value).test_zero(value)
    }

    pub open spec fn with_y(self, value: u8) -> CpuView {
        (CpuView { y: value, ..self }).test_negative(value).test_zero(value)
    }

    /// The operand read, at the address that [`Self::begin`] finds.
    pub open spec fn operand(self, mode: Mode, cycles: u8, extra_clock_for_page_fault: bool) -> (
        u8,
        CpuView,
    ) {
        let (address, begun) = self.begin(mode, cycles, extra_clock_for_page_fault);
        begun.read(address)
    }

    /// bitwise OR with Accumulator
    pub open spec fn ora(self, mode: Mode, cycles: u8) -> CpuView {
        let (operand, read) = self.operand(mode, cycles, true);
        read.with_a(read.a | operand)
    }

    /// bitwise AND with accumulator
    pub open spec fn and(self, mode: Mode, cycles: u8) -> CpuView {
        let (operand, read) = self.operand(mode, cycles, true);
        read.with_a(read.a & operand)
    }

    /// bitwise Exclusive OR
    pub open spec fn eor(self, mode: Mode, cycles: u8) -> CpuView {
        let (operand, read) = self.operand(mode, cycles, true);
        read.with_a(read.a ^ operand)
    }

    /// The accumulator and the flags after `operand` and the carry have been
    /// added: overflow tells that the sum lies outside `-128..=127`, carry
    /// that it does not fit in eight bits.
    pub open spec fn add_with_carry(self, operand: u8) -> CpuView {
        let sum: int = self.a + operand + (if self.carry { 1int } else { 0int });
        (CpuView { overflow: !(-128 <= sum <= 127), carry: !(0 <= sum <= 0xff), ..self }).with_a(
            low_byte(sum),
        )
    }

    /// The accumulator and the flags after `operand` has been subtracted,
    /// and one more where the carry is clear.
    pub open spec fn subtract_with_carry(self, operand: u8) -> CpuView {
        let difference: int = self.a - operand - (if self.carry { 0int } else { 1int });
        (CpuView {
            overflow: !(-128 <= difference <= 127),
            carry: !(0 <= difference <= 0xff),
            ..self
        }).with_a(low_byte(difference))
    }

    /// The flags after `register` has been held against `operand`: negative
    /// is bit 7 of the difference, zero tells that the two are equal, carry
    /// that the register is not the smaller one.
    pub open spec fn compared(self, register: u8, operand: u8) -> CpuView {
        let difference: int = register - operand;
        CpuView {
            negative: low_byte(difference) & 0x80 == 0x80,
            zero: difference == 0,
            carry: difference >= 0,
            ..self
        }
    }

    /// ADd with Carry
    pub open spec fn adc(self, mode: Mode, cycles: u8) -> CpuView {
        let (operand, read) = self.operand(mode, cycles, true);
        read.add_with_carry(operand)
    }

    /// SuBtract with Carry
    pub open spec fn sbc(self, mode: Mode, cycles: u8) -> CpuView {
        let (operand, read) = self.operand(mode, cycles, true);
        read.subtract_with_carry(operand)
    }

    /// CoMPare accumulator
    pub open spec fn compare_a(self, mode: Mode, cycles: u8) -> CpuView {
        let (operand, read) = self.operand(mode, cycles, true);
        read.compared(read.a, operand)
    }

    /// ComPare X register
    pub open spec fn cpx(self, mode: Mode, cycles: u8) -> CpuView {
        let (operand, read) = self.operand(mode, cycles, true);
        read.compared(read.x, operand)
    }

    /// ComPare Y register
    pub open spec fn cpy(self, mode: Mode, cycles: u8) -> CpuView {
        let (operand, read) = self.operand(mode, cycles, true);
        read.compared(read.y, operand)
    }

    /// test BITs
    pub open spec fn bit(self, mode: Mode, cycles: u8) -> CpuView {
        let (operand, read) = self.operand(mode, cycles, true);
        CpuView {
            zero: operand & read.a == 0,
            negative: operand & 0x80 == 0x80,
            overflow: operand & 0x40 == 0x40,
            ..read
        }
    }

    // Memory and registers, counted up and down -------------------------------------------------
    /// The byte at the operand's address replaced by `change` of it, and
    /// negative and zero set from the new byte.
    pub open spec fn modify(self, mode: Mode, cycles: u8, change: spec_fn(u8) -> u8) -> CpuView {
        let (address, begun) = self.begin(mode, cycles, false);
        let (operand, read) = begun.read(address);
        read.test_negative(change(operand)).test_zero(change(operand)).write(
            address,
            change(operand),
        )
    }

    /// DECrement memory
    pub open spec fn dec(self, mode: Mode, cycles: u8) -> CpuView {
        self.modify(mode, cycles, |operand: u8| operand.wrapping_sub(1))
    }

    /// INCrement memory
    pub open spec fn inc(self, mode: Mode, cycles: u8) -> CpuView {
        self.modify(mode, cycles, |operand: u8| operand.wrapping_add(1))
    }

    /// DEcrement X
    pub open spec fn dex(self, cycles: u8) -> CpuView {
        self.begin_implied(cycles).with_x(self.x.wrapping_sub(1))
    }

    /// DEcrement Y
    pub open spec fn dey(self, cycles: u8) -> CpuView {
        self.begin_implied(cycles).with_y(self.y.wrapping_sub(1))
    }

    /// INcrement X
    pub open spec fn inx(self, cycles: u8) -> CpuView {
        self.begin_implied(cycles).with_x(self.x.wrapping_add(1))
    }

    /// INcrement Y
    pub open spec fn iny(self, cycles: u8) -> CpuView {
        self.begin_implied(cycles).with_y(self.y.wrapping_add(1))
    }

    // Shifts and rotates ------------------------------------------------------------------------
    /// A shift or rotate of one byte: the accumulator in accumulator mode,
    /// else the byte at the operand's address. The carry becomes `carry_out`
    /// of the old byte, the byte becomes `change` of it, and negative and
    /// zero follow the new byte.
    pub open spec fn shift(
        self,
        mode: Mode,
        cycles: u8,
        carry_out: spec_fn(u8) -> bool,
        change: spec_fn(u8) -> u8,
    ) -> CpuView {
        if mode == Mode::Accumulator {
            (CpuView { carry: carry_out(self.a), ..self.begin_implied(cycles) }).with_a(
                change(self.a),
            )
        } else {
            let (address, begun) = self.begin(mode, cycles, false);
            let (operand, read) = begun.read(address);
            (CpuView { carry: carry_out(operand), ..read }).test_negative(
                change(operand),
            ).test_zero(change(operand)).write(address, change(operand))
        }
    }

    /// Arithmetic Shift Left: bit 7 goes to the carry, bit 0 becomes zero.
    pub open spec fn asl(self, mode: Mode, cycles: u8) -> CpuView {
        self.shift(mode, cycles, |operand: u8| operand & 0x80 == 0x80, |operand: u8| operand << 1)
    }

    /// Logical Shift Right: bit 0 goes to the carry, bit 7 becomes zero.
    pub open spec fn lsr(self, mode: Mode, cycles: u8) -> CpuView {
        self.shift(mode, cycles, |operand: u8| operand & 0x01 == 0x01, |operand: u8| operand >> 1)
    }

    /// ROtate Left: bit 7 goes to the carry, the old carry becomes bit 0.
    pub open spec fn rol(self, mode: Mode, cycles: u8) -> CpuView {
        let carry_in: u8 = if self.carry { 0x01 } else { 0 };
        self.shift(
            mode,
            cycles,
            |operand: u8| operand & 0x80 == 0x80,
            |operand: u8| (operand << 1) | carry_in,
        )
    }

    /// ROtate Right: bit 0 goes to the carry, the old carry becomes bit 7.
    pub open spec fn ror(self, mode: Mode, cycles: u8) -> CpuView {
        let carry_in: u8 = if self.carry { 0x80 } else { 0 };
        self.shift(
            mode,
            cycles,
            |operand: u8| operand & 0x01 == 0x01,
            |operand: u8| (operand >> 1) | carry_in,
        )
    }

    // Move commands -----------------------------------------------------------------------------
    /// LoaD Accumulator
    pub open spec fn lda(self, mode: Mode, cycles: u8) -> CpuView {
        let (operand, read) = self.operand(mode, cycles, true);
        read.with_a(operand)
    }

    /// LoaD X register
    pub open spec fn ldx(self, mode: Mode, cycles: u8) -> CpuView {
        let (operand, read) = self.operand(mode, cycles, true);
        read.with_x(operand)
    }

    /// LoaD Y register
    pub open spec fn ldy(self, mode: Mode, cycles: u8) -> CpuView {
        let (operand, read) = self.operand(mode, cycles, true);
        read.with_y(operand)
    }

    /// STore Accumulator. No flag changes, and a page crossed on the way to
    /// the operand costs nothing.
    pub open spec fn sta(self, mode: Mode, cycles: u8) -> CpuView {
        let (address, begun) = self.begin(mode, cycles, false);
        begun.write(address, begun.a)
    }

    /// STore X register
    pub open spec fn stx(self, mode: Mode, cycles: u8) -> CpuView {
        let (address, begun) = self.begin(mode, cycles, false);
        begun.write(address, begun.x)
    }

    /// STore Y register
    pub open spec fn sty(self, mode: Mode, cycles: u8) -> CpuView {
        let (address, begun) = self.begin(mode, cycles, false);
        begun.write(address, begun.y)
    }

    /// Transfer A to X
    pub open spec fn tax(self, cycles: u8) -> CpuView {
        self.begin_implied(cycles).with_x(self.a)
    }

    /// Transfer X to A
    pub open spec fn txa(self, cycles: u8) -> CpuView {
        self.begin_implied(cycles).with_a(self.x)
    }

    /// Transfer A to Y
    pub open spec fn tay(self, cycles: u8) -> CpuView {
        self.begin_implied(cycles).with_y(self.a)
    }

    /// Transfer Y to A
    pub open spec fn tya(self, cycles: u8) -> CpuView {
        self.begin_implied(cycles).with_a(self.y)
    }

    /// Transfer S to X
    pub open spec fn tsx(self, cycles: u8) -> CpuView {
        self.begin_implied(cycles).with_x(self.s)
    }

    /// Transfer X to S. The one transfer that leaves the flags alone.
    pub open spec fn txs(self, cycles: u8) -> CpuView {
        CpuView { s: self.x, ..self.begin_implied(cycles) }
    }

    /// PuLl Accumulator
    pub open spec fn pla(self, cycles: u8) -> CpuView {
        let (value, pulled) = self.begin_implied(cycles).pull();
        pulled.with_a(value)
    }

    /// PusH Accumulator
    pub open spec fn pha(self, cycles: u8) -> CpuView {
        self.begin_implied(cycles).push(self.a)
    }

    /// PuLl Processor status
    pub open spec fn plp(self, cycles: u8) -> CpuView {
        self.begin_implied(cycles).pull_status()
    }

    /// PusH Processor status
    pub open spec fn php(self, cycles: u8) -> CpuView {
        self.begin_implied(cycles).push_status()
    }

    // Jump/Flag commands ------------------------------------------------------------------------
    /// A branch that is taken: the program counter goes where the
    /// displacement leads, for three cycles, or for four where that is in
    /// another page than the instruction behind the branch.
    pub open spec fn branch(self) -> CpuView {
        let (target, found) = self.relative();
        let next = self.pc.wrapping_add(2);
        (CpuView { pc: target, ..found }).charge(
            if page_of(next) != page_of(target) {
                4
            } else {
                3
            },
        )
    }

    /// A branch on `condition`: taken where it holds, else two cycles and
    /// on to the next instruction.
    pub open spec fn branch_if(self, condition: bool) -> CpuView {
        if condition {
            self.branch()
        } else {
            self.charge(2).advance(Mode::Relative)
        }
    }

    /// Whether the branch `mnemonic` is taken, and `false` for every other
    /// instruction.
    pub open spec fn branches_on(self, mnemonic: Mnemonic) -> bool {
        match mnemonic {
            Mnemonic::Bpl => !self.negative,
            Mnemonic::Bmi => self.negative,
            Mnemonic::Bvc => !self.overflow,
            Mnemonic::Bvs => self.overflow,
            Mnemonic::Bcc => !self.carry,
            Mnemonic::Bcs => self.carry,
            Mnemonic::Bne => !self.zero,
            Mnemonic::Beq => self.zero,
            _ => false,
        }
    }

    /// BReaK: the address behind the opcode is pushed, break and
    /// interrupt-disable are set, and the program counter is read from the
    /// break vector.
    pub open spec fn brk(self, cycles: u8) -> CpuView {
        let pushed = self.begin_implied(cycles).push_word(self.pc.wrapping_add(1));
        let (vector, read) = pushed.read_word(BREAK_VECTOR);
        CpuView { pc: vector, break_flag: true, interrupt_disable: true, ..read }
    }

    /// ReTurn from Interrupt
    pub open spec fn rti(self, cycles: u8) -> CpuView {
        self.charge(cycles as nat).pull_status().pull_pc()
    }

    /// Jump to SubRoutine: the address of the instruction's last byte is
    /// pushed, and the program counter becomes the operand's address.
    pub open spec fn jsr(self, mode: Mode, cycles: u8) -> CpuView {
        let (target, found) = self.operand_address(mode, false);
        CpuView {
            pc: target,
            ..found.charge(cycles as nat).push_word(self.pc.wrapping_add(2))
        }
    }

    /// ReTurn from Subroutine
    pub open spec fn rts(self, cycles: u8) -> CpuView {
        self.charge(cycles as nat).pull_pc()
    }

    /// JuMP
    pub open spec fn jmp(self, mode: Mode, cycles: u8) -> CpuView {
        let (target, found) = self.operand_address(mode, false);
        CpuView { pc: target, ..found.charge(cycles as nat) }
    }

    /// CLear Carry
    pub open spec fn clc(self, cycles: u8) -> CpuView {
        CpuView { carry: false, ..self.begin_implied(cycles) }
    }

    /// SEt Carry
    pub open spec fn sec(self, cycles: u8) -> CpuView {
        CpuView { carry: true, ..self.begin_implied(cycles) }
    }

    /// CLear Decimal
    pub open spec fn cld(self, cycles: u8) -> CpuView {
        CpuView { decimal: false, ..self.begin_implied(cycles) }
    }

    /// SEt Decimal
    pub open spec fn sed(self, cycles: u8) -> CpuView {
        CpuView { decimal: true, ..self.begin_implied(cycles) }
    }

    /// CLear Interrupt
    pub open spec fn cli(self, cycles: u8) -> CpuView {
        CpuView { interrupt_disable: false, ..self.begin_implied(cycles) }
    }

    /// SEt Interrupt
    pub open spec fn sei(self, cycles: u8) -> CpuView {
        CpuView { interrupt_disable: true, ..self.begin_implied(cycles) }
    }

    /// CLear oVerflow
    pub open spec fn clv(self, cycles: u8) -> CpuView {
        CpuView { overflow: false, ..self.begin_implied(cycles) }
    }

    /// No OPeration
    pub open spec fn nop(self, cycles: u8) -> CpuView {
        self.begin_implied(cycles)
    }

    // One instruction ---------------------------------------------------------------------------
    /// The processor after `instruction`, whose opcode has been fetched.
    pub open spec fn execute(self, instruction: Instruction) -> CpuView {
        let mode = instruction.mode;
        let cycles = instruction.cycles;
        match instruction.mnemonic {
            Mnemonic::Adc => self.adc(mode, cycles),
            Mnemonic::And => self.and(mode, cycles),
            Mnemonic::Asl => self.asl(mode, cycles),
            Mnemonic::Bcc
            | Mnemonic::Bcs
            | Mnemonic::Beq
            | Mnemonic::Bmi
            | Mnemonic::Bne
            | Mnemonic::Bpl
            | Mnemonic::Bvc
            | Mnemonic::Bvs => self.branch_if(self.branches_on(instruction.mnemonic)),
            Mnemonic::Bit => self.bit(mode, cycles),
            Mnemonic::Brk => self.brk(cycles),
            Mnemonic::Clc => self.clc(cycles),
            Mnemonic::Cld => self.cld(cycles),
            Mnemonic::Cli => self.cli(cycles),
            Mnemonic::Clv => self.clv(cycles),
            Mnemonic::Cmp => self.compare_a(mode, cycles),
            Mnemonic::Cpx => self.cpx(mode, cycles),
            Mnemonic::Cpy => self.cpy(mode, cycles),
            Mnemonic::Dec => self.dec(mode, cycles),
            Mnemonic::Dex => self.dex(cycles),
            Mnemonic::Dey => self.dey(cycles),
            Mnemonic::Eor => self.eor(mode, cycles),
            Mnemonic::Inc => self.inc(mode, cycles),
            Mnemonic::Inx => self.inx(cycles),
            Mnemonic::Iny => self.iny(cycles),
            Mnemonic::Jmp => self.jmp(mode, cycles),
            Mnemonic::Jsr => self.jsr(mode, cycles),
            Mnemonic::Lda => self.lda(mode, cycles),
            Mnemonic::Ldx => self.ldx(mode, cycles),
            Mnemonic::Ldy => self.ldy(mode, cycles),
            Mnemonic::Lsr => self.lsr(mode, cycles),
            Mnemonic::Nop => self.nop(cycles),
            Mnemonic::Ora => self.ora(mode, cycles),
            Mnemonic::Pha => self.pha(cycles),
            Mnemonic::Php => self.php(cycles),
            Mnemonic::Pla => self.pla(cycles),
            Mnemonic::Plp => self.plp(cycles),
            Mnemonic::Rol => self.rol(mode, cycles),
            Mnemonic::Ror => self.ror(mode, cycles),
            Mnemonic::Rti => self.rti(cycles),
            Mnemonic::Rts => self.rts(cycles),
            Mnemonic::Sbc => self.sbc(mode, cycles),
            Mnemonic::Sec => self.sec(cycles),
            Mnemonic::Sed => self.sed(cycles),
            Mnemonic::Sei => self.sei(cycles),
            Mnemonic::Sta => self.sta(mode, cycles),
            Mnemonic::Stx => self.stx(mode, cycles),
            Mnemonic::Sty => self.sty(mode, cycles),
            Mnemonic::Tax => self.tax(cycles),
            Mnemonic::Tay => self.tay(cycles),
            Mnemonic::Tsx => self.tsx(cycles),
            Mnemonic::Txa => self.txa(cycles),
            Mnemonic::Txs => self.txs(cycles),
            Mnemonic::Tya => self.tya(cycles),
        }
    }

    /// The address that a trace of `instruction` names: none for an
    /// instruction without an operand and for a branch that is not taken.
    pub open spec fn traced_operand(self, instruction: Instruction) -> Option<u16> {
        match instruction.mnemonic {
            Mnemonic::Bcc
            | Mnemonic::Bcs
            | Mnemonic::Beq
            | Mnemonic::Bmi
            | Mnemonic::Bne
            | Mnemonic::Bpl
            | Mnemonic::Bvc
            | Mnemonic::Bvs => if self.branches_on(instruction.mnemonic) {
                Some(self.relative().0)
            } else {
                None
            },
            Mnemonic::Asl | Mnemonic::Lsr | Mnemonic::Rol | Mnemonic::Ror => if instruction.mode
                == Mode::Accumulator {
                None
            } else {
                Some(self.operand_address(instruction.mode, false).0)
            },
            Mnemonic::Adc
            | Mnemonic::And
            | Mnemonic::Bit
            | Mnemonic::Cmp
            | Mnemonic::Cpx
            | Mnemonic::Cpy
            | Mnemonic::Dec
            | Mnemonic::Eor
            | Mnemonic::Inc
            | Mnemonic::Jmp
            | Mnemonic::Jsr
            | Mnemonic::Lda
            | Mnemonic::Ldx
            | Mnemonic::Ldy
            | Mnemonic::Ora
            | Mnemonic::Sbc
            | Mnemonic::Sta
            | Mnemonic::Stx
            | Mnemonic::Sty => Some(self.operand_address(instruction.mode, false).0),
            _ => None,
        }
    }

    /// The opcode at the program counter.
    pub open spec fn next_opcode(self) -> u8 {
        self.bus.peek(self.pc)
    }

    /// Whether the processor can run the next instruction: the opcode at the
    /// program counter is in the opcode table, and the clock has room for
    /// the cycles of one instruction.
    pub open spec fn can_step(self) -> bool {
        decoded(self.next_opcode()) is Some && self.clock + MAX_STEP_CYCLES <= u64::MAX
    }

    /// The processor after the instruction at the program counter: the
    /// opcode is fetched, looked up in the opcode table and carried out.
    pub open spec fn step(self) -> CpuView
        recommends
            self.can_step(),
    {
        let (opcode, fetched) = self.read(self.pc);
        match decoded(opcode) {
            Some(instruction) => fetched.execute(instruction),
            None => fetched,
        }
    }

    /// What a trace says of the instruction at the program counter.
    pub open spec fn trace_of_step(self) -> Trace
        recommends
            self.can_step(),
    {
        let (opcode, fetched) = self.read(self.pc);
        let instruction = decoded(opcode).unwrap();
        Trace {
            registers: self.registers(),
            mnemonic: instruction.mnemonic,
            operand: fetched.traced_operand(instruction),
        }
    }
}

} // verus!
