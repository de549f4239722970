use rusty_nes::{Registers, CPU, PRG_ROM_PAGE_SIZE};

/// An image with one program page, filled with no-operations but for the
/// `segments`, each laid at its address, and the two vectors: the reset
/// vector holds `reset`, the break vector `0x9000`.
fn image(reset: u16, segments: &[(u16, &[u8])]) -> Vec<u8> {
    let mut bytes = vec![0x4e, 0x45, 0x53, 0x1a, 1, 0, 0, 0, 0, 0, 0, 0, 0, 0, 0, 0];
    let mut page = vec![0xeau8; PRG_ROM_PAGE_SIZE];
    for (address, code) in segments {
        let start = (*address as usize) & 0x3fff;
        page[start..start + code.len()].copy_from_slice(code);
    }
    page[0x3ffc] = (reset & 0xff) as u8;
    page[0x3ffd] = (reset >> 8) as u8;
    page[0x3ffe] = 0x00;
    page[0x3fff] = 0x90;
    bytes.extend_from_slice(&page);
    bytes
}

/// A processor about to run `program`, which lies at `0x8000`.
fn boot(program: &[u8]) -> CPU {
    CPU::new(&image(0x8000, &[(0x8000, program)]), false).unwrap()
}

/// A processor about to run `program`, which lies at `origin`.
fn boot_at(origin: u16, program: &[u8]) -> CPU {
    CPU::new(&image(origin, &[(origin, program)]), false).unwrap()
}

/// Runs `count` instructions.
fn run(cpu: &mut CPU, count: usize) {
    for _ in 0..count {
        assert!(cpu.can_run_opcode());
        cpu.run_opcode();
    }
}

/// The registers after `program` has run for `count` instructions.
fn after(program: &[u8], count: usize) -> Registers {
    let mut cpu = boot(program);
    run(&mut cpu, count);
    cpu.registers()
}

// Logical and arithmetic commands ---------------------------------------------------------------
#[test]
fn ora_and_eor() {
    let ora = after(&[0xa9, 0x0f, 0x09, 0xf0], 2);
    assert_eq!(ora.a, 0xff);
    assert!(ora.negative && !ora.zero);
    let and = after(&[0xa9, 0x0f, 0x29, 0xf0], 2);
    assert_eq!(and.a, 0x00);
    assert!(and.zero && !and.negative);
    let eor = after(&[0xa9, 0xff, 0x49, 0x0f], 2);
    assert_eq!(eor.a, 0xf0);
    assert!(eor.negative && !eor.zero);
    let and = after(&[0xa9, 0x3c, 0x29, 0x66], 2);
    assert_eq!(and.a, 0x24);
    assert!(!and.zero && !and.negative);
}

#[test]
fn adc_without_carry() {
    // LDA #$10; CLC; ADC #$20
    let sum = after(&[0xa9, 0x10, 0x18, 0x69, 0x20], 3);
    assert_eq!(sum.a, 0x30);
    assert!(!sum.carry && !sum.overflow && !sum.zero && !sum.negative);
}

#[test]
fn adc_overflow_is_a_sum_above_127() {
    // LDA #$50; CLC; ADC #$50
    let sum = after(&[0xa9, 0x50, 0x18, 0x69, 0x50], 3);
    assert_eq!(sum.a, 0xa0);
    assert!(sum.overflow && sum.negative && !sum.carry && !sum.zero);
    // LDA #$7f; CLC; ADC #$00: 127 is still inside
    let edge = after(&[0xa9, 0x7f, 0x18, 0x69, 0x00], 3);
    assert_eq!(edge.a, 0x7f);
    assert!(!edge.overflow && !edge.carry);
    // LDA #$80; CLC; ADC #$00: 128 is outside
    let over = after(&[0xa9, 0x80, 0x18, 0x69, 0x00], 3);
    assert_eq!(over.a, 0x80);
    assert!(over.overflow && !over.carry && over.negative);
}

#[test]
fn adc_carry_is_a_sum_above_255() {
    // LDA #$ff; CLC; ADC #$01
    let sum = after(&[0xa9, 0xff, 0x18, 0x69, 0x01], 3);
    assert_eq!(sum.a, 0x00);
    assert!(sum.carry && sum.zero && sum.overflow && !sum.negative);
    // LDA #$ff; SEC; ADC #$ff: 511
    let most = after(&[0xa9, 0xff, 0x38, 0x69, 0xff], 3);
    assert_eq!(most.a, 0xff);
    assert!(most.carry && most.overflow && most.negative && !most.zero);
    // LDA #$ff; CLC; ADC #$00: 255 still fits
    let edge = after(&[0xa9, 0xff, 0x18, 0x69, 0x00], 3);
    assert_eq!(edge.a, 0xff);
    assert!(!edge.carry);
}

#[test]
fn sbc_with_carry_set_subtracts_the_operand() {
    // LDA #$05; SEC; SBC #$03
    let difference = after(&[0xa9, 0x05, 0x38, 0xe9, 0x03], 3);
    assert_eq!(difference.a, 0x02);
    assert!(!difference.carry && !difference.overflow && !difference.zero);
    assert!(!difference.negative);
}

#[test]
fn sbc_with_carry_clear_subtracts_one_more() {
    // LDA #$05; CLC; SBC #$03
    let difference = after(&[0xa9, 0x05, 0x18, 0xe9, 0x03], 3);
    assert_eq!(difference.a, 0x01);
    // LDA #$03; CLC; SBC #$02
    let zero = after(&[0xa9, 0x03, 0x18, 0xe9, 0x02], 3);
    assert_eq!(zero.a, 0x00);
    assert!(zero.zero && !zero.carry);
}

#[test]
fn sbc_below_zero_sets_carry() {
    // LDA #$03; SEC; SBC #$05: the difference is -2
    let difference = after(&[0xa9, 0x03, 0x38, 0xe9, 0x05], 3);
    assert_eq!(difference.a, 0xfe);
    assert!(difference.carry && difference.negative && !difference.overflow);
    // LDA #$00; CLC; SBC #$ff: the difference is -256
    let least = after(&[0xa9, 0x00, 0x18, 0xe9, 0xff], 3);
    assert_eq!(least.a, 0x00);
    assert!(least.carry && least.overflow && least.zero && !least.negative);
    // LDA #$00; SEC; SBC #$81: the difference is -129
    let under = after(&[0xa9, 0x00, 0x38, 0xe9, 0x81], 3);
    assert_eq!(under.a, 0x7f);
    assert!(under.carry && under.overflow);
    // LDA #$00; SEC; SBC #$80: the difference is -128
    let edge = after(&[0xa9, 0x00, 0x38, 0xe9, 0x80], 3);
    assert_eq!(edge.a, 0x80);
    assert!(edge.carry && !edge.overflow);
}

#[test]
fn sbc_overflow_is_a_difference_above_127() {
    // LDA #$ff; SEC; SBC #$01
    let difference = after(&[0xa9, 0xff, 0x38, 0xe9, 0x01], 3);
    assert_eq!(difference.a, 0xfe);
    assert!(difference.overflow && !difference.carry && difference.negative);
}

#[test]
fn cmp_sets_negative_zero_and_carry_only() {
    // LDA #$40; CMP #$40
    let equal = after(&[0xa9, 0x40, 0xc9, 0x40], 2);
    assert!(equal.zero && equal.carry && !equal.negative && !equal.overflow);
    assert_eq!(equal.a, 0x40);
    // LDA #$40; CMP #$41
    let smaller = after(&[0xa9, 0x40, 0xc9, 0x41], 2);
    assert!(!smaller.zero && !smaller.carry && smaller.negative);
    // LDA #$90; CMP #$10
    let larger = after(&[0xa9, 0x90, 0xc9, 0x10], 2);
    assert!(!larger.zero && larger.carry && larger.negative);
    // LDA #$50; CMP #$10
    let small = after(&[0xa9, 0x50, 0xc9, 0x10], 2);
    assert!(!small.zero && small.carry && !small.negative);
    // LDA #$00; CMP #$ff: the difference is -255, whose low byte is 1
    let least = after(&[0xa9, 0x00, 0xc9, 0xff], 2);
    assert!(!least.zero && !least.carry && !least.negative);
}

#[test]
fn cmp_leaves_overflow() {
    // LDA #$50; ADC #$50 sets overflow; CMP #$00 leaves it
    let compared = after(&[0xa9, 0x50, 0x69, 0x50, 0xc9, 0x00], 3);
    assert!(compared.overflow);
    assert_eq!(compared.a, 0xa0);
}

#[test]
fn cpx_compares_x_and_cpy_compares_y() {
    // LDX #$10; LDY #$20; CPX #$10
    let x = after(&[0xa2, 0x10, 0xa0, 0x20, 0xe0, 0x10], 3);
    assert!(x.zero && x.carry && !x.negative);
    // LDX #$10; LDY #$20; CPY #$10
    let y = after(&[0xa2, 0x10, 0xa0, 0x20, 0xc0, 0x10], 3);
    assert!(!y.zero && y.carry && !y.negative);
    // LDX #$10; LDY #$20; CPX #$20
    let x = after(&[0xa2, 0x10, 0xa0, 0x20, 0xe0, 0x20], 3);
    assert!(!x.zero && !x.carry && x.negative);
    // LDX #$10; LDY #$20; CPY #$20
    let y = after(&[0xa2, 0x10, 0xa0, 0x20, 0xc0, 0x20], 3);
    assert!(y.zero && y.carry && !y.negative);
    // LDA #$00; LDX #$05; CPX $8000 (the byte 0xa9), from zero page and absolute
    let absolute = after(&[0xa9, 0x00, 0xa2, 0x05, 0xec, 0x00, 0x80], 3);
    assert!(!absolute.carry && !absolute.zero);
    assert_eq!(absolute.pc, 0x8007);
}

#[test]
fn bit_tests_without_changing_the_accumulator() {
    // LDA #$c0; STA $10; LDA #$3f; BIT $10
    let bit = after(&[0xa9, 0xc0, 0x85, 0x10, 0xa9, 0x3f, 0x24, 0x10], 4);
    assert_eq!(bit.a, 0x3f);
    assert!(bit.zero && bit.negative && bit.overflow);
    // LDA #$41; STA $10; BIT $0010
    let bit = after(&[0xa9, 0x41, 0x85, 0x10, 0x2c, 0x10, 0x00], 3);
    assert_eq!(bit.a, 0x41);
    assert!(!bit.zero && !bit.negative && bit.overflow);
    assert_eq!(bit.pc, 0x8007);
    // LDA #$80; STA $10; LDA #$80; BIT $10
    let bit = after(&[0xa9, 0x80, 0x85, 0x10, 0xa9, 0x80, 0x24, 0x10], 4);
    assert!(!bit.zero && bit.negative && !bit.overflow);
}

// Counting --------------------------------------------------------------------------------------
#[test]
fn inc_and_dec_wrap_around() {
    // DEC $10 on a cleared cell
    let mut cpu = boot(&[0xc6, 0x10, 0xe6, 0x10, 0xe6, 0x10]);
    run(&mut cpu, 1);
    assert_eq!(cpu.system().peek(0x0010), 0xff);
    assert!(cpu.registers().negative && !cpu.registers().zero);
    assert_eq!(cpu.clock(), 5);
    run(&mut cpu, 1);
    assert_eq!(cpu.system().peek(0x0010), 0x00);
    assert!(!cpu.registers().negative && cpu.registers().zero);
    run(&mut cpu, 1);
    assert_eq!(cpu.system().peek(0x0010), 0x01);
    assert!(!cpu.registers().negative && !cpu.registers().zero);
    assert!(!cpu.registers().carry && !cpu.registers().overflow);
    assert_eq!(cpu.registers().a, 0);
}

#[test]
fn inc_absolute_x_pays_for_no_page() {
    // LDX #$ff; INC $01ff,X
    let mut cpu = boot(&[0xa2, 0xff, 0xfe, 0xff, 0x01]);
    run(&mut cpu, 2);
    assert_eq!(cpu.system().peek(0x02fe), 0x01);
    assert_eq!(cpu.clock(), 2 + 7);
    assert_eq!(cpu.registers().pc, 0x8005);
}

#[test]
fn index_registers_count_up_and_down() {
    // LDX #$ff; INX
    let inx = after(&[0xa2, 0xff, 0xe8], 2);
    assert_eq!(inx.x, 0x00);
    assert!(inx.zero && !inx.negative);
    // DEX from zero
    let dex = after(&[0xca], 1);
    assert_eq!(dex.x, 0xff);
    assert!(!dex.zero && dex.negative);
    // LDY #$7f; INY
    let iny = after(&[0xa0, 0x7f, 0xc8], 2);
    assert_eq!(iny.y, 0x80);
    assert!(iny.negative && !iny.overflow && !iny.carry);
    // LDY #$01; DEY
    let dey = after(&[0xa0, 0x01, 0x88], 2);
    assert_eq!(dey.y, 0x00);
    assert!(dey.zero);
    assert_eq!(dey.pc, 0x8003);
}

#[test]
fn asl_and_lsr_on_the_accumulator() {
    // LDA #$81; ASL A
    let asl = after(&[0xa9, 0x81, 0x0a], 2);
    assert_eq!(asl.a, 0x02);
    assert!(asl.carry && !asl.negative && !asl.zero);
    assert_eq!(asl.pc, 0x8003);
    // LDA #$40; ASL A
    let asl = after(&[0xa9, 0x40, 0x0a], 2);
    assert_eq!(asl.a, 0x80);
    assert!(!asl.carry && asl.negative);
    // LDA #$01; LSR A
    let lsr = after(&[0xa9, 0x01, 0x4a], 2);
    assert_eq!(lsr.a, 0x00);
    assert!(lsr.carry && lsr.zero && !lsr.negative);
    // LDA #$fe; LSR A
    let lsr = after(&[0xa9, 0xfe, 0x4a], 2);
    assert_eq!(lsr.a, 0x7f);
    assert!(!lsr.carry && !lsr.zero && !lsr.negative);
    // SEC; LDA #$02; ASL A: the carry is not shifted in
    let asl = after(&[0x38, 0xa9, 0x02, 0x0a], 3);
    assert_eq!(asl.a, 0x04);
    assert!(!asl.carry);
}

#[test]
fn rol_and_ror_go_through_the_carry() {
    // SEC; LDA #$40; ROL A
    let rol = after(&[0x38, 0xa9, 0x40, 0x2a], 3);
    assert_eq!(rol.a, 0x81);
    assert!(!rol.carry && rol.negative);
    // CLC; LDA #$80; ROL A
    let rol = after(&[0x18, 0xa9, 0x80, 0x2a], 3);
    assert_eq!(rol.a, 0x00);
    assert!(rol.carry && rol.zero);
    // SEC; LDA #$01; ROR A
    let ror = after(&[0x38, 0xa9, 0x01, 0x6a], 3);
    assert_eq!(ror.a, 0x80);
    assert!(ror.carry && ror.negative && !ror.zero);
    // CLC; LDA #$02; ROR A
    let ror = after(&[0x18, 0xa9, 0x02, 0x6a], 3);
    assert_eq!(ror.a, 0x01);
    assert!(!ror.carry && !ror.negative);
    // SEC; LDA #$ff; ROL A; ROL A
    let twice = after(&[0x38, 0xa9, 0xff, 0x2a, 0x2a], 4);
    assert_eq!(twice.a, 0xff);
    assert!(twice.carry);
}

#[test]
fn shifts_in_memory_leave_the_accumulator() {
    // LDA #$c0; STA $20; ASL $20
    let mut cpu = boot(&[0xa9, 0xc0, 0x85, 0x20, 0x06, 0x20]);
    run(&mut cpu, 3);
    assert_eq!(cpu.system().peek(0x0020), 0x80);
    assert_eq!(cpu.registers().a, 0xc0);
    assert!(cpu.registers().carry && cpu.registers().negative && !cpu.registers().zero);
    assert_eq!(cpu.clock(), 2 + 3 + 5);
    // LDA #$01; STA $0220; LSR $0220
    let mut cpu = boot(&[0xa9, 0x01, 0x8d, 0x20, 0x02, 0x4e, 0x20, 0x02]);
    run(&mut cpu, 3);
    assert_eq!(cpu.system().peek(0x0220), 0x00);
    assert!(cpu.registers().carry && cpu.registers().zero);
    assert_eq!(cpu.clock(), 2 + 4 + 6);
    // SEC; LDA #$02; STA $20; ROR $20
    let mut cpu = boot(&[0x38, 0xa9, 0x02, 0x85, 0x20, 0x66, 0x20]);
    run(&mut cpu, 4);
    assert_eq!(cpu.system().peek(0x0020), 0x81);
    assert!(!cpu.registers().carry && cpu.registers().negative);
    // SEC; LDA #$80; STA $20; LDX #$10; ROL $10,X
    let mut cpu = boot(&[0x38, 0xa9, 0x80, 0x85, 0x20, 0xa2, 0x10, 0x36, 0x10]);
    run(&mut cpu, 5);
    assert_eq!(cpu.system().peek(0x0020), 0x01);
    assert!(cpu.registers().carry && !cpu.registers().negative && !cpu.registers().zero);
    assert_eq!(cpu.registers().a, 0x80);
    assert_eq!(cpu.clock(), 2 + 2 + 3 + 2 + 6);
}

// Move commands ---------------------------------------------------------------------------------
#[test]
fn loads_set_negative_and_zero() {
    let zero = after(&[0xa9, 0x00], 1);
    assert!(zero.zero && !zero.negative);
    let positive = after(&[0xa9, 0x7f], 1);
    assert!(!positive.zero && !positive.negative);
    let x = after(&[0xa2, 0x80], 1);
    assert_eq!(x.x, 0x80);
    assert!(x.negative && !x.zero);
    let y = after(&[0xa0, 0x00], 1);
    assert_eq!(y.y, 0x00);
    assert!(y.zero && !y.negative);
    // LDA #$80; LDY #$01: the last load decides
    let both = after(&[0xa9, 0x80, 0xa0, 0x01], 2);
    assert!(!both.zero && !both.negative);
}

#[test]
fn stores_change_no_flag() {
    // LDA #$00; STA $10; LDX #$80; STX $11; LDY #$01; STY $12
    let mut cpu = boot(&[0xa9, 0x00, 0x85, 0x10, 0xa2, 0x80, 0x86, 0x11, 0xa0, 0x01, 0x84, 0x12]);
    run(&mut cpu, 1);
    let loaded = cpu.registers();
    run(&mut cpu, 1);
    assert_eq!(cpu.registers(), Registers { pc: 0x8004, ..loaded });
    run(&mut cpu, 4);
    assert_eq!(cpu.system().peek(0x0010), 0x00);
    assert_eq!(cpu.system().peek(0x0011), 0x80);
    assert_eq!(cpu.system().peek(0x0012), 0x01);
    assert_eq!(cpu.clock(), 2 + 3 + 2 + 3 + 2 + 3);
}

#[test]
fn zero_page_indexing_stays_in_the_zero_page() {
    // LDA #$11; STA $7f; LDX #$ff; LDA #$00; LDA $80,X
    let mut cpu = boot(&[0xa9, 0x11, 0x85, 0x7f, 0xa2, 0xff, 0xa9, 0x00, 0xb5, 0x80]);
    run(&mut cpu, 5);
    assert_eq!(cpu.registers().a, 0x11);
    assert_eq!(cpu.clock(), 2 + 3 + 2 + 2 + 4);
    // LDA #$22; LDX #$01; STA $ff,X stores to $00
    let mut cpu = boot(&[0xa9, 0x22, 0xa2, 0x01, 0x95, 0xff]);
    run(&mut cpu, 3);
    assert_eq!(cpu.system().peek(0x0000), 0x22);
    assert_eq!(cpu.system().peek(0x0100), 0x00);
}

#[test]
fn zero_page_y_serves_ldx_and_stx() {
    // LDA #$33; STA $42; LDY #$02; LDX $40,Y; STX $50,Y
    let mut cpu = boot(&[0xa9, 0x33, 0x85, 0x42, 0xa0, 0x02, 0xb6, 0x40, 0x96, 0x50]);
    run(&mut cpu, 5);
    assert_eq!(cpu.registers().x, 0x33);
    assert_eq!(cpu.system().peek(0x0052), 0x33);
    assert_eq!(cpu.clock(), 2 + 3 + 2 + 4 + 4);
}

#[test]
fn absolute_reads_the_address_behind_the_opcode() {
    // LDA $8003, where 0x77 lies
    let mut cpu = boot(&[0xad, 0x03, 0x80, 0x77]);
    run(&mut cpu, 1);
    assert_eq!(cpu.registers().a, 0x77);
    assert_eq!(cpu.registers().pc, 0x8003);
    assert_eq!(cpu.clock(), 4);
}

#[test]
fn a_page_crossed_by_indexing_costs_a_read_one_cycle() {
    // LDX #$01; ORA $8000,X
    let mut cpu = boot(&[0xa2, 0x01, 0x1d, 0x00, 0x80]);
    run(&mut cpu, 2);
    assert_eq!(cpu.registers().a, 0x01);
    assert_eq!(cpu.clock(), 2 + 4);
    assert_eq!(cpu.registers().pc, 0x8005);
    // LDX #$ff; ORA $80ff,X reads $81fe, a no-operation
    let mut cpu = boot(&[0xa2, 0xff, 0x1d, 0xff, 0x80]);
    run(&mut cpu, 2);
    assert_eq!(cpu.registers().a, 0xea);
    assert_eq!(cpu.clock(), 2 + 4 + 1);
    // LDY #$ff; EOR $80ff,Y
    let mut cpu = boot(&[0xa0, 0xff, 0x59, 0xff, 0x80]);
    run(&mut cpu, 2);
    assert_eq!(cpu.registers().a, 0xea);
    assert_eq!(cpu.clock(), 2 + 4 + 1);
    // LDY #$01; EOR $80fe,Y stays in the page
    let mut cpu = boot(&[0xa0, 0x01, 0x59, 0xfe, 0x80]);
    run(&mut cpu, 2);
    assert_eq!(cpu.clock(), 2 + 4);
}

#[test]
fn a_page_crossed_by_indexing_costs_a_write_nothing() {
    // LDA #$5a; LDX #$ff; STA $01ff,X
    let mut cpu = boot(&[0xa9, 0x5a, 0xa2, 0xff, 0x9d, 0xff, 0x01]);
    run(&mut cpu, 3);
    assert_eq!(cpu.system().peek(0x02fe), 0x5a);
    assert_eq!(cpu.clock(), 2 + 2 + 5);
    // LDA #$5a; LDY #$ff; STA $01ff,Y
    let mut cpu = boot(&[0xa9, 0x5a, 0xa0, 0xff, 0x99, 0xff, 0x01]);
    run(&mut cpu, 3);
    assert_eq!(cpu.system().peek(0x02fe), 0x5a);
    assert_eq!(cpu.clock(), 2 + 2 + 5);
    assert_eq!(cpu.registers().pc, 0x8007);
}

#[test]
fn indexing_wraps_at_the_end_of_the_address_space() {
    // LDA #$99; STA $0f; LDX #$10; LDA #$00; ORA $ffff,X reads $000f
    let mut cpu = boot(&[0xa9, 0x99, 0x85, 0x0f, 0xa2, 0x10, 0xa9, 0x00, 0x1d, 0xff, 0xff]);
    run(&mut cpu, 5);
    assert_eq!(cpu.registers().a, 0x99);
    assert_eq!(cpu.clock(), 2 + 3 + 2 + 2 + 4 + 1);
}

#[test]
fn indexed_indirect_reads_the_pointer_at_the_indexed_address() {
    // LDA #$02; STA $25; LDA #$99; STA $0200; LDA #$00; LDX #$04; LDA ($20,X)
    let program = [
        0xa9, 0x02, 0x85, 0x25, 0xa9, 0x99, 0x8d, 0x00, 0x02, 0xa9, 0x00, 0xa2, 0x04, 0xa1, 0x20,
    ];
    let mut cpu = boot(&program);
    run(&mut cpu, 6);
    let before = cpu.clock();
    run(&mut cpu, 1);
    assert_eq!(cpu.registers().a, 0x99);
    assert_eq!(cpu.registers().pc, 0x800f);
    assert_eq!(cpu.clock() - before, 6);
}

#[test]
fn indirect_indexed_adds_y_to_the_pointer() {
    // LDA #$ff; STA $30; LDA #$01; STA $31; LDA #$77; STA $0200; LDA #$00; LDY #$01; ORA ($30),Y
    let program = [
        0xa9, 0xff, 0x85, 0x30, 0xa9, 0x01, 0x85, 0x31, 0xa9, 0x77, 0x8d, 0x00, 0x02, 0xa9, 0x00,
        0xa0, 0x01, 0x11, 0x30,
    ];
    let mut cpu = boot(&program);
    run(&mut cpu, 8);
    let before = cpu.clock();
    run(&mut cpu, 1);
    assert_eq!(cpu.registers().a, 0x77);
    // five cycles and one for the page that was crossed
    assert_eq!(cpu.clock() - before, 5 + 1);
    // the store through the same pointer pays for no page
    // LDA #$44; STA ($30),Y
    let mut program = program.to_vec();
    program.extend_from_slice(&[0xa9, 0x44, 0x91, 0x30]);
    let mut cpu = boot(&program);
    run(&mut cpu, 10);
    let before = cpu.clock();
    run(&mut cpu, 1);
    assert_eq!(cpu.system().peek(0x0200), 0x44);
    assert_eq!(cpu.clock() - before, 6);
}

#[test]
fn transfers_copy_and_set_flags() {
    // LDA #$80; TAX
    let tax = after(&[0xa9, 0x80, 0xaa], 2);
    assert_eq!(tax.x, 0x80);
    assert!(tax.negative);
    // LDA #$80; LDX #$00; TXA
    let txa = after(&[0xa9, 0x80, 0xa2, 0x00, 0x8a], 3);
    assert_eq!(txa.a, 0x00);
    assert!(txa.zero && !txa.negative);
    // LDA #$01; TAY
    let tay = after(&[0xa9, 0x01, 0xa8], 2);
    assert_eq!(tay.y, 0x01);
    // LDY #$ff; TYA
    let tya = after(&[0xa0, 0xff, 0x98], 2);
    assert_eq!(tya.a, 0xff);
    assert!(tya.negative);
    // TSX
    let tsx = after(&[0xba], 1);
    assert_eq!(tsx.x, 0xfd);
    assert!(tsx.negative && !tsx.zero);
    assert_eq!(tsx.pc, 0x8001);
}

#[test]
fn txs_changes_no_flag() {
    // LDX #$80; LDA #$00; TXS
    let txs = after(&[0xa2, 0x80, 0xa9, 0x00, 0x9a], 3);
    assert_eq!(txs.s, 0x80);
    assert!(txs.zero && !txs.negative);
    // LDX #$00; LDA #$80; TXS
    let txs = after(&[0xa2, 0x00, 0xa9, 0x80, 0x9a], 3);
    assert_eq!(txs.s, 0x00);
    assert!(!txs.zero && txs.negative);
}

// The stack -------------------------------------------------------------------------------------
#[test]
fn pha_and_pla() {
    // LDA #$42; PHA; LDA #$00; PLA
    let mut cpu = boot(&[0xa9, 0x42, 0x48, 0xa9, 0x00, 0x68]);
    run(&mut cpu, 2);
    assert_eq!(cpu.registers().s, 0xfc);
    assert_eq!(cpu.system().peek(0x01fd), 0x42);
    assert_eq!(cpu.clock(), 2 + 3);
    run(&mut cpu, 2);
    assert_eq!(cpu.registers().s, 0xfd);
    assert_eq!(cpu.registers().a, 0x42);
    assert!(!cpu.registers().zero && !cpu.registers().negative);
    assert_eq!(cpu.clock(), 2 + 3 + 2 + 4);
    assert_eq!(cpu.registers().pc, 0x8006);
}

#[test]
fn pla_sets_negative_and_zero() {
    // LDA #$80; PHA; LDA #$00; PHA; PLA; PLA
    let mut cpu = boot(&[0xa9, 0x80, 0x48, 0xa9, 0x00, 0x48, 0x68, 0x68]);
    run(&mut cpu, 5);
    assert!(cpu.registers().zero && !cpu.registers().negative);
    run(&mut cpu, 1);
    assert_eq!(cpu.registers().a, 0x80);
    assert!(!cpu.registers().zero && cpu.registers().negative);
}

#[test]
fn php_sets_bit_five() {
    let mut cpu = boot(&[0x08]);
    run(&mut cpu, 1);
    // interrupt-disable and the bit that is always set
    assert_eq!(cpu.system().peek(0x01fd), 0x24);
    assert_eq!(cpu.registers().s, 0xfc);
    assert_eq!(cpu.clock(), 3);
    // SEC; SED; LDA #$80; PHP
    let mut cpu = boot(&[0x38, 0xf8, 0xa9, 0x80, 0x08]);
    run(&mut cpu, 4);
    assert_eq!(cpu.system().peek(0x01fd), 0x80 | 0x20 | 0x08 | 0x04 | 0x01);
    // CLI; LDA #$00; PHP
    let mut cpu = boot(&[0x58, 0xa9, 0x00, 0x08]);
    run(&mut cpu, 3);
    assert_eq!(cpu.system().peek(0x01fd), 0x20 | 0x02);
    // LDA #$50; ADC #$50; PHP: negative and overflow
    let mut cpu = boot(&[0xa9, 0x50, 0x69, 0x50, 0x08]);
    run(&mut cpu, 3);
    assert_eq!(cpu.system().peek(0x01fd), 0x80 | 0x40 | 0x20 | 0x04);
}

#[test]
fn php_shows_the_break_flag_in_bit_four() {
    // BRK leads to $9000, where PHP lies
    let bytes = image(0x8000, &[(0x8000, &[0x00]), (0x9000, &[0x08])]);
    let mut cpu = CPU::new(&bytes, false).unwrap();
    run(&mut cpu, 2);
    assert_eq!(cpu.system().peek(0x01fb), 0x20 | 0x10 | 0x04);
    assert_eq!(cpu.registers().s, 0xfa);
}

#[test]
fn plp_takes_six_flags_and_leaves_break() {
    // LDA #$ff; PHA; PLP
    let all = after(&[0xa9, 0xff, 0x48, 0x28], 3);
    assert!(all.negative && all.overflow && all.decimal && all.interrupt_disable);
    assert!(all.zero && all.carry);
    assert!(!all.break_flag);
    assert_eq!(all.s, 0xfd);
    // LDA #$00; PHA; PLP
    let none = after(&[0xa9, 0x00, 0x48, 0x28], 3);
    assert!(!none.negative && !none.overflow && !none.decimal && !none.interrupt_disable);
    assert!(!none.zero && !none.carry && !none.break_flag);
    // LDA #$41; PHA; PLP
    let two = after(&[0xa9, 0x41, 0x48, 0x28], 3);
    assert!(two.overflow && two.carry);
    assert!(!two.negative && !two.decimal && !two.interrupt_disable && !two.zero);
    let mut cpu = boot(&[0xa9, 0x41, 0x48, 0x28]);
    run(&mut cpu, 3);
    assert_eq!(cpu.clock(), 2 + 3 + 4);
}

#[test]
fn the_stack_pointer_wraps() {
    // LDX #$00; TXS; LDA #$77; PHA
    let mut cpu = boot(&[0xa2, 0x00, 0x9a, 0xa9, 0x77, 0x48, 0xa9, 0x00, 0x68]);
    run(&mut cpu, 4);
    assert_eq!(cpu.system().peek(0x0100), 0x77);
    assert_eq!(cpu.registers().s, 0xff);
    // LDA #$00; PLA
    run(&mut cpu, 2);
    assert_eq!(cpu.registers().s, 0x00);
    assert_eq!(cpu.registers().a, 0x77);
}

#[test]
fn a_word_pushed_across_the_wrap_is_pulled_back() {
    // LDX #$00; TXS; JSR $8010, and RTS at $8010
    let bytes = image(0x8000, &[(0x8000, &[0xa2, 0x00, 0x9a, 0x20, 0x10, 0x80]), (0x8010, &[0x60])]);
    let mut cpu = CPU::new(&bytes, false).unwrap();
    run(&mut cpu, 3);
    assert_eq!(cpu.registers().pc, 0x8010);
    assert_eq!(cpu.registers().s, 0xfe);
    assert_eq!(cpu.system().peek(0x0100), 0x80);
    assert_eq!(cpu.system().peek(0x01ff), 0x05);
    run(&mut cpu, 1);
    assert_eq!(cpu.registers().pc, 0x8005);
    assert_eq!(cpu.registers().s, 0x00);
}

// Jump/Flag commands ----------------------------------------------------------------------------
#[test]
fn jsr_pushes_the_address_of_its_last_byte() {
    let bytes = image(0x8000, &[(0x8000, &[0x20, 0x10, 0x80]), (0x8010, &[0x60])]);
    let mut cpu = CPU::new(&bytes, false).unwrap();
    let before = cpu.registers();
    run(&mut cpu, 1);
    assert_eq!(cpu.registers(), Registers { pc: 0x8010, s: 0xfb, ..before });
    assert_eq!(cpu.system().peek(0x01fd), 0x80);
    assert_eq!(cpu.system().peek(0x01fc), 0x02);
    assert_eq!(cpu.clock(), 6);
    // RTS pulls it back
    run(&mut cpu, 1);
    assert_eq!(cpu.registers(), Registers { pc: 0x8002, s: 0xfd, ..before });
    assert_eq!(cpu.clock(), 12);
}

#[test]
fn jmp_changes_the_program_counter_only() {
    let mut cpu = boot(&[0x4c, 0x34, 0x92]);
    let before = cpu.registers();
    run(&mut cpu, 1);
    assert_eq!(cpu.registers(), Registers { pc: 0x9234, ..before });
    assert_eq!(cpu.clock(), 3);
}

#[test]
fn jmp_indirect_reads_its_target_from_memory() {
    // LDA #$78; STA $10; LDA #$56; STA $11; JMP ($0010)
    let mut cpu = boot(&[0xa9, 0x78, 0x85, 0x10, 0xa9, 0x56, 0x85, 0x11, 0x6c, 0x10, 0x00]);
    run(&mut cpu, 5);
    assert_eq!(cpu.registers().pc, 0x5678);
    assert_eq!(cpu.clock(), 2 + 3 + 2 + 3 + 5);
}

#[test]
fn rti_pulls_the_status_and_then_the_program_counter() {
    // LDA #$90; PHA; LDA #$12; PHA; LDA #$c3; PHA; RTI
    let mut cpu = boot(&[0xa9, 0x90, 0x48, 0xa9, 0x12, 0x48, 0xa9, 0xc3, 0x48, 0x40]);
    run(&mut cpu, 6);
    assert_eq!(cpu.registers().s, 0xfa);
    run(&mut cpu, 1);
    let registers = cpu.registers();
    assert_eq!(registers.pc, 0x9012);
    assert_eq!(registers.s, 0xfd);
    assert!(registers.negative && registers.overflow && registers.zero && registers.carry);
    assert!(!registers.decimal && !registers.interrupt_disable && !registers.break_flag);
    assert_eq!(registers.a, 0xc3);
    assert_eq!(cpu.clock(), 2 + 3 + 2 + 3 + 2 + 3 + 6);
}

#[test]
fn rti_gives_back_what_brk_pushed() {
    // BRK leads to $9000, where RTI lies; the byte under the pushed word is the status
    let bytes = image(0x8000, &[(0x8000, &[0xa9, 0x00, 0x48, 0x68, 0x00]), (0x9000, &[0x08, 0x40])]);
    let mut cpu = CPU::new(&bytes, false).unwrap();
    run(&mut cpu, 5);
    assert_eq!(cpu.registers().s, 0xfa);
    run(&mut cpu, 1);
    assert_eq!(cpu.registers().pc, 0x8005);
    assert_eq!(cpu.registers().s, 0xfd);
    assert!(cpu.registers().zero && cpu.registers().interrupt_disable);
}

#[test]
fn flag_instructions_change_one_flag() {
    let power_up = after(&[], 0);
    assert_eq!(after(&[0x38], 1), Registers { carry: true, pc: 0x8001, ..power_up });
    assert_eq!(after(&[0x38, 0x18], 2), Registers { carry: false, pc: 0x8002, ..power_up });
    assert_eq!(after(&[0xf8], 1), Registers { decimal: true, pc: 0x8001, ..power_up });
    assert_eq!(after(&[0xf8, 0xd8], 2), Registers { decimal: false, pc: 0x8002, ..power_up });
    assert_eq!(after(&[0x58], 1), Registers { interrupt_disable: false, pc: 0x8001, ..power_up });
    assert_eq!(
        after(&[0x58, 0x78], 2),
        Registers { interrupt_disable: true, pc: 0x8002, ..power_up }
    );
    let mut cpu = boot(&[0x38, 0x18, 0xf8, 0xd8, 0x58, 0x78, 0xb8]);
    run(&mut cpu, 7);
    assert_eq!(cpu.clock(), 14);
}

#[test]
fn clv_clears_overflow() {
    // LDA #$50; ADC #$50; CLV
    let mut cpu = boot(&[0xa9, 0x50, 0x69, 0x50, 0xb8]);
    run(&mut cpu, 2);
    let set = cpu.registers();
    assert!(set.overflow);
    run(&mut cpu, 1);
    assert_eq!(cpu.registers(), Registers { overflow: false, pc: 0x8005, ..set });
}

#[test]
fn the_decimal_flag_changes_no_sum() {
    // SED; LDA #$09; CLC; ADC #$01
    let sum = after(&[0xf8, 0xa9, 0x09, 0x18, 0x69, 0x01], 4);
    assert_eq!(sum.a, 0x0a);
    assert!(sum.decimal);
}

#[test]
fn nop_moves_on_by_one_byte() {
    let power_up = after(&[], 0);
    for opcode in [0xeau8, 0x04, 0x0c, 0x1a, 0x80, 0x89, 0xfc] {
        let mut cpu = boot(&[opcode, 0xff, 0xff]);
        run(&mut cpu, 1);
        assert_eq!(cpu.registers(), Registers { pc: 0x8001, ..power_up });
        assert_eq!(cpu.clock(), 2);
    }
}

#[test]
fn lda_takes_its_cycles_from_the_table() {
    for (program, cycles, length) in [
        (&[0xa9u8, 0x00, 0x00][..], 2u64, 2u16),
        (&[0xa5, 0x10, 0x00][..], 3, 2),
        (&[0xb5, 0x10, 0x00][..], 4, 2),
        (&[0xad, 0x10, 0x00][..], 4, 3),
        (&[0xbd, 0x10, 0x00][..], 6, 3),
        (&[0xb9, 0x10, 0x00][..], 4, 3),
        (&[0xa1, 0x10, 0x00][..], 6, 2),
        (&[0xb1, 0x10, 0x00][..], 6, 2),
    ] {
        let mut cpu = boot(program);
        run(&mut cpu, 1);
        assert_eq!(cpu.clock(), cycles, "{:02x}", program[0]);
        assert_eq!(cpu.registers().pc, 0x8000 + length, "{:02x}", program[0]);
    }
}

#[test]
fn the_program_counter_wraps_at_the_end_of_the_address_space() {
    // LDA #$nn at $ffff: the operand is the byte at $0000
    let mut bytes = image(0xffff, &[]);
    bytes[16 + 0x3fff] = 0xa9;
    let mut cpu = CPU::new(&bytes, false).unwrap();
    assert_eq!(cpu.registers().pc, 0xffff);
    run(&mut cpu, 1);
    assert_eq!(cpu.registers().a, 0x00);
    assert!(cpu.registers().zero);
    assert_eq!(cpu.registers().pc, 0x0001);
}

#[test]
fn reads_below_the_rom_give_zero() {
    // LDA #$55; LDA $5000
    let read = after(&[0xa9, 0x55, 0xad, 0x00, 0x50], 2);
    assert_eq!(read.a, 0x00);
    assert!(read.zero);
    // LDA #$55; STA $8000; LDA $8000: the ROM is not written
    let kept = after(&[0xa9, 0x55, 0x8d, 0x00, 0x80, 0xad, 0x00, 0x80], 3);
    assert_eq!(kept.a, 0xa9);
}
