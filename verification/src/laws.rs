use crate::instruction::{decoded, Family, Instruction};
use crate::model::{low_byte, page_of, stack_address, CpuView, BREAK_VECTOR};
use crate::system::{region_at, Region};
use vstd::prelude::*;

verus! {

/// What a branch costs. One that is not taken takes two cycles. One that is
/// taken takes three, or four where it leads into another page than the one
/// of the instruction behind the branch.
pub proof fn lemma_branch_cycles(cpu: CpuView, branch: Instruction)
    requires
        decoded(cpu.next_opcode()) == Some(branch),
        branch.mnemonic.family() == Family::Branch,
    ensures
        ({
            let fetched = cpu.read(cpu.pc).1;
            let next = cpu.pc.wrapping_add(2);
            let target = fetched.relative().0;
            cpu.step().clock == cpu.clock + if !fetched.branches_on(branch.mnemonic) {
                2nat
            } else if page_of(target) != page_of(next) {
                4nat
            } else {
                3nat
            }
        }),
{
    reveal(CpuView::read);
}

/// A load of the accumulator with the byte behind the opcode: the
/// accumulator becomes that byte, negative becomes its bit 7, zero tells
/// whether it is zero, the program counter moves on by two and the clock by
/// two cycles. Nothing else changes but what the read of the byte does to
/// the bus. The opcode itself is fetched from outside the video registers.
pub proof fn lemma_lda_immediate(cpu: CpuView)
    requires
        cpu.next_opcode() == 0xa9,
        region_at(cpu.pc) != Region::Video,
    ensures
        ({
            let operand = cpu.bus.peek(cpu.pc.wrapping_add(1));
            cpu.step() == (CpuView {
                a: operand,
                negative: operand >= 0x80,
                zero: operand == 0,
                pc: cpu.pc.wrapping_add(2),
                clock: cpu.clock + 2,
                bus: cpu.bus.after_read(cpu.pc.wrapping_add(1)),
                ..cpu
            })
        }),
{
    reveal(CpuView::read);
    reveal(CpuView::operand_address);
    let operand = cpu.bus.peek(cpu.pc.wrapping_add(1));
    assert((operand & 0x80 == 0x80) == (operand >= 0x80)) by (bit_vector);
}

/// An addition of the byte behind the opcode: with `sum` for the
/// accumulator, the byte and the carry added up, the accumulator becomes the
/// low eight bits of `sum`, carry tells whether `sum` is above 255 and
/// overflow whether it is above 127. The opcode itself is fetched from
/// outside the video registers.
pub proof fn lemma_adc_immediate(cpu: CpuView)
    requires
        cpu.next_opcode() == 0x69,
        region_at(cpu.pc) != Region::Video,
    ensures
        ({
            let operand = cpu.bus.peek(cpu.pc.wrapping_add(1));
            let sum = cpu.a + operand + if cpu.carry {
                1int
            } else {
                0int
            };
            cpu.step() == (CpuView {
                a: low_byte(sum),
                carry: sum > 0xff,
                overflow: sum > 127,
                negative: low_byte(sum) >= 0x80,
                zero: low_byte(sum) == 0,
                pc: cpu.pc.wrapping_add(2),
                clock: cpu.clock + 2,
                bus: cpu.bus.after_read(cpu.pc.wrapping_add(1)),
                ..cpu
            })
        }),
{
    reveal(CpuView::read);
    reveal(CpuView::operand_address);
    let operand = cpu.bus.peek(cpu.pc.wrapping_add(1));
    let sum = cpu.a + operand + if cpu.carry {
        1int
    } else {
        0int
    };
    let result = low_byte(sum);
    assert((result & 0x80 == 0x80) == (result >= 0x80)) by (bit_vector);
}

/// A break: the address behind the opcode is pushed, its high byte where
/// the stack pointer points and its low byte one cell below, the stack
/// pointer ends two lower, break and interrupt-disable are set, the program
/// counter becomes the word at the break vector, and the clock moves on by
/// seven cycles. The opcode itself is fetched from outside the video
/// registers.
pub proof fn lemma_brk(cpu: CpuView)
    requires
        cpu.bus.well_formed(),
        cpu.next_opcode() == 0x00,
        region_at(cpu.pc) != Region::Video,
    ensures
        ({
            let pushed = cpu.pc.wrapping_add(1);
            let after = cpu.step();
            &&& after.s == cpu.s.wrapping_sub(2)
            &&& after.bus.peek(stack_address(cpu.s)) == pushed >> 8
            &&& after.bus.peek(stack_address(cpu.s.wrapping_sub(1))) == pushed & 0xff
            &&& after.pc == cpu.bus.read_word(BREAK_VECTOR).0
            &&& after.break_flag
            &&& after.interrupt_disable
            &&& after.clock == cpu.clock + 7
            &&& after.registers() == (crate::model::Registers {
                s: after.s,
                pc: after.pc,
                break_flag: true,
                interrupt_disable: true,
                ..cpu.registers()
            })
        }),
{
    reveal(CpuView::read);
    reveal(CpuView::write);
    reveal(CpuView::read_word);
    let s = cpu.s;
    let below = cpu.s.wrapping_sub(1);
    let high = stack_address(s);
    let low = stack_address(below);
    assert(high == 0x100 + s && low == 0x100 + below);
    let pushed = cpu.pc.wrapping_add(1);
    assert((pushed >> 8) as u8 == pushed >> 8 && (pushed & 0xff) as u8 == pushed & 0xff)
        by (bit_vector);
}

/// The status byte shows each flag in its bit: negative in bit 7, overflow
/// in bit 6, break in bit 4, decimal in bit 3, interrupt-disable in bit 2,
/// zero in bit 1 and carry in bit 0. Bit 5 is always set.
pub proof fn lemma_status_byte(cpu: CpuView)
    ensures
        (cpu.status_byte() & 0x80 == 0x80) == cpu.negative,
        (cpu.status_byte() & 0x40 == 0x40) == cpu.overflow,
        cpu.status_byte() & 0x20 == 0x20,
        (cpu.status_byte() & 0x10 == 0x10) == cpu.break_flag,
        (cpu.status_byte() & 0x08 == 0x08) == cpu.decimal,
        (cpu.status_byte() & 0x04 == 0x04) == cpu.interrupt_disable,
        (cpu.status_byte() & 0x02 == 0x02) == cpu.zero,
        (cpu.status_byte() & 0x01 == 0x01) == cpu.carry,
{
    let n: u8 = if cpu.negative { 0x80 } else { 0 };
    let v: u8 = if cpu.overflow { 0x40 } else { 0 };
    let b: u8 = if cpu.break_flag { 0x10 } else { 0 };
    let d: u8 = if cpu.decimal { 0x08 } else { 0 };
    let i: u8 = if cpu.interrupt_disable { 0x04 } else { 0 };
    let z: u8 = if cpu.zero { 0x02 } else { 0 };
    let c: u8 = if cpu.carry { 0x01 } else { 0 };
    let status = n | v | 0x20 | b | d | i | z | c;
    assert(status == cpu.status_byte());
    assert({
        &&& (status & 0x80 == 0x80) == (n == 0x80)
        &&& (status & 0x40 == 0x40) == (v == 0x40)
        &&& status & 0x20 == 0x20
        &&& (status & 0x10 == 0x10) == (b == 0x10)
        &&& (status & 0x08 == 0x08) == (d == 0x08)
        &&& (status & 0x04 == 0x04) == (i == 0x04)
        &&& (status & 0x02 == 0x02) == (z == 0x02)
        &&& (status & 0x01 == 0x01) == (c == 0x01)
    }) by (bit_vector)
        requires
            status == n | v | 0x20 | b | d | i | z | c,
            n == 0x80 || n == 0,
            v == 0x40 || v == 0,
            b == 0x10 || b == 0,
            d == 0x08 || d == 0,
            i == 0x04 || i == 0,
            z == 0x02 || z == 0,
            c == 0x01 || c == 0,
    ;
}

/// The flags that are pushed are the flags that are pulled: a status byte
/// taken back leaves every flag as it was.
pub proof fn lemma_status_round_trip(cpu: CpuView)
    ensures
        cpu.with_status(cpu.status_byte()) == cpu,
{
    lemma_status_byte(cpu);
}

/// What is pushed is pulled: a pull after a push returns the byte that was
/// pushed and leaves the stack pointer where it was before the push.
pub proof fn lemma_push_then_pull(cpu: CpuView, value: u8)
    requires
        cpu.bus.well_formed(),
    ensures
        cpu.push(value).pull().0 == value,
        cpu.push(value).pull().1.differs_in_bus_only(cpu),
{
    reveal(CpuView::read);
    reveal(CpuView::write);
}

} // verus!
