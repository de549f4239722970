use rusty_nes::{
    region_of, Region, System, CLOCKS_PER_FRAME_BEFORE_VBLANK, SCRATCH_RAM_SIZE,
};

/// An image with `prg` program pages and no graphics page. Byte `i` of page
/// `p` is `(i + 7 * p) % 253`.
fn image(prg: u8) -> Vec<u8> {
    let mut bytes = vec![0x4e, 0x45, 0x53, 0x1a, prg, 0, 0, 0, 0, 0, 0, 0, 0, 0, 0, 0];
    for p in 0..prg as usize {
        for i in 0..16384usize {
            bytes.push(((i + 7 * p) % 253) as u8);
        }
    }
    bytes
}

fn system(prg: u8) -> System {
    System::new(&image(prg)).unwrap()
}

#[test]
fn every_address_has_one_region() {
    assert_eq!(region_of(0x0000), Region::Ram);
    assert_eq!(region_of(0x1fff), Region::Ram);
    assert_eq!(region_of(0x2000), Region::Video);
    assert_eq!(region_of(0x3fff), Region::Video);
    assert_eq!(region_of(0x4000), Region::Audio);
    assert_eq!(region_of(0x401f), Region::Audio);
    assert_eq!(region_of(0x4020), Region::Cartridge);
    assert_eq!(region_of(0x8000), Region::Cartridge);
    assert_eq!(region_of(0xffff), Region::Cartridge);
}

#[test]
fn ram_is_cleared_at_power_on() {
    let mut system = system(1);
    assert_eq!(SCRATCH_RAM_SIZE, 2048);
    for address in 0..0x2000u16 {
        assert_eq!(system.read_byte(address), 0);
    }
}

#[test]
fn a_byte_written_to_ram_is_read_back() {
    let mut system = system(1);
    for address in [0x0000u16, 0x0001, 0x00ff, 0x0100, 0x01fd, 0x07ff] {
        let value = (address % 200) as u8 + 1;
        system.write_byte(address, value);
        assert_eq!(system.read_byte(address), value);
        assert_eq!(system.peek(address), value);
    }
}

#[test]
fn ram_is_mirrored_four_times() {
    let mut system = system(1);
    for cell in [0x0000u16, 0x0123, 0x07ff] {
        for (n, written) in [cell, cell + 0x0800, cell + 0x1000, cell + 0x1800].iter().enumerate() {
            let value = 0x10 + n as u8;
            system.write_byte(*written, value);
            for read in [cell, cell + 0x0800, cell + 0x1000, cell + 0x1800] {
                assert_eq!(system.read_byte(read), value);
            }
        }
    }
}

#[test]
fn a_write_changes_one_cell_only() {
    let mut system = system(1);
    system.write_byte(0x0200, 0xaa);
    assert_eq!(system.read_byte(0x01ff), 0);
    assert_eq!(system.read_byte(0x0201), 0);
    assert_eq!(system.read_byte(0x0200), 0xaa);
}

#[test]
fn a_word_is_the_low_byte_and_the_high_byte_behind_it() {
    let mut system = system(1);
    system.write_byte(0x0010, 0x34);
    system.write_byte(0x0011, 0x12);
    assert_eq!(system.read_word(0x0010), 0x1234);
    let low = system.read_byte(0x0010) as u16;
    let high = system.read_byte(0x0011) as u16;
    assert_eq!(system.read_word(0x0010), low | (high << 8));
}

#[test]
fn a_word_in_rom_is_two_bytes_of_rom() {
    let mut system = system(2);
    for address in [0x8000u16, 0x9abc, 0xbfff, 0xc000, 0xfffc, 0xfffe] {
        let low = system.read_byte(address) as u16;
        let high = system.read_byte(address + 1) as u16;
        assert_eq!(system.read_word(address), low | (high << 8));
    }
}

#[test]
fn the_word_at_the_last_address_wraps_to_the_first() {
    let mut system = system(1);
    system.write_byte(0x0000, 0x12);
    let low = system.read_byte(0xffff) as u16;
    assert_eq!(low, (0x3fff % 253) as u16);
    assert_eq!(system.read_word(0xffff), low | 0x1200);
}

#[test]
fn a_word_across_the_ram_mirror_border() {
    let mut system = system(1);
    system.write_byte(0x07ff, 0xcd);
    system.write_byte(0x0000, 0xab);
    assert_eq!(system.read_word(0x07ff), 0xabcd);
    assert_eq!(system.read_word(0x1fff), 0x00cd);
}

#[test]
fn a_single_page_is_seen_in_both_halves() {
    let mut system = system(1);
    for k in [0u16, 1, 0x00ff, 0x1234, 0x3ffe, 0x3fff] {
        assert_eq!(system.read_byte(0x8000 + k), system.read_byte(0xc000 + k));
        assert_eq!(system.read_byte(0x8000 + k), (k as usize % 253) as u8);
    }
}

#[test]
fn the_upper_half_is_the_last_page() {
    let mut two = system(2);
    assert_eq!(two.read_byte(0x8000), 0);
    assert_eq!(two.read_byte(0xc000), 7);
    assert_eq!(two.read_byte(0x8005), 5);
    assert_eq!(two.read_byte(0xc005), 12);
    let mut three = system(3);
    assert_eq!(three.read_byte(0x8005), 5);
    assert_eq!(three.read_byte(0xc005), 19);
    assert_eq!(three.read_byte(0xffff), ((0x3fff + 14) % 253) as u8);
}

#[test]
fn rom_is_not_written() {
    let mut system = system(1);
    let before = system.read_byte(0x8123);
    system.write_byte(0x8123, before.wrapping_add(1));
    assert_eq!(system.read_byte(0x8123), before);
    system.write_byte(0xffff, 0);
    assert_eq!(system.read_byte(0xffff), (0x3fff % 253) as u8);
}

#[test]
fn below_the_rom_the_cartridge_reads_zero() {
    let mut system = system(1);
    for address in [0x4020u16, 0x5000, 0x6000, 0x7fff] {
        system.write_byte(address, 0x55);
        assert_eq!(system.read_byte(address), 0);
    }
}

#[test]
fn a_cartridge_without_program_pages_reads_zero() {
    let mut system = System::new(&[0x4e, 0x45, 0x53, 0x1a, 0, 0, 0, 0]).unwrap();
    assert_eq!(system.read_byte(0x8000), 0);
    assert_eq!(system.read_byte(0xc000), 0);
    assert_eq!(system.read_word(0xfffc), 0);
    assert!(system.cart().prg_rom_pages().is_empty());
}

#[test]
fn audio_registers_read_zero() {
    let mut system = system(1);
    for address in [0x4000u16, 0x4015, 0x401f] {
        system.write_byte(address, 0xff);
        assert_eq!(system.read_byte(address), 0);
    }
}

#[test]
fn video_registers_show_the_vblank_flag() {
    let mut system = system(1);
    assert_eq!(system.read_byte(0x2002), 0);
    system.tick(CLOCKS_PER_FRAME_BEFORE_VBLANK + 1);
    assert_eq!(system.peek(0x2002), 0x80);
    assert_eq!(system.peek(0x2002), 0x80);
    assert_eq!(system.read_byte(0x2002), 0x80);
    assert_eq!(system.read_byte(0x2002), 0);
    assert_eq!(system.peek(0x3fff), 0);
}

#[test]
fn writes_to_video_registers_change_nothing() {
    let mut system = system(1);
    system.tick(CLOCKS_PER_FRAME_BEFORE_VBLANK + 1);
    system.write_byte(0x2002, 0);
    system.write_byte(0x2000, 0xff);
    assert_eq!(system.read_byte(0x2000), 0x80);
    assert_eq!(system.read_byte(0x0000), 0);
}

#[test]
fn a_word_among_the_video_registers_reads_the_high_byte_first() {
    let mut system = system(1);
    system.tick(CLOCKS_PER_FRAME_BEFORE_VBLANK + 1);
    assert_eq!(system.read_word(0x2000), 0x8000);
    assert_eq!(system.read_word(0x2000), 0x0000);
    system.tick(1);
    // the low byte is the last byte of RAM, the high byte a video register
    system.write_byte(0x1fff, 0x42);
    assert_eq!(system.read_word(0x1fff), 0x8042);
}

#[test]
fn reads_of_ram_and_rom_leave_the_vblank_flag() {
    let mut system = system(1);
    system.tick(CLOCKS_PER_FRAME_BEFORE_VBLANK + 1);
    system.read_byte(0x0000);
    system.read_byte(0x4000);
    system.read_byte(0x8000);
    system.read_word(0xfffc);
    assert_eq!(system.read_byte(0x2002), 0x80);
}

#[test]
fn the_cartridge_is_the_one_that_was_loaded() {
    let bytes = image(2);
    let system = System::new(&bytes).unwrap();
    assert_eq!(system.cart().prg_rom(), 2);
    assert_eq!(system.cart().prg_rom_pages()[1][..], bytes[16 + 16384..16 + 2 * 16384]);
}
