//! Whole-system behaviour: cartridge parsing, mappers, controllers, and
//! frame-at-a-time emulation.

use nes_emulator::cartridge::mapper::{MappedRead, Mapper, Mapper002};
use nes_emulator::cartridge::{Cartridge, CartridgeError, Mirroring};
use nes_emulator::emulator::Emulator;
use nes_emulator::joypad::{Joypad, JoypadButton};
use nes_emulator::ppu::render::frame::Frame;
use nes_emulator::ppu::render::render;
use nes_emulator::rom::Rom;

fn image_with(prg_banks: u8, chr_banks: u8, flags_6: u8, flags_7: u8) -> Vec<u8> {
    let mut image: Vec<u8> = vec![0x4E, 0x45, 0x53, 0x1A, prg_banks, chr_banks, flags_6, flags_7, 0];
    image.resize(16, 0);
    image.extend_from_slice(&vec![0u8; prg_banks as usize * 16384]);
    image.extend_from_slice(&vec![0u8; chr_banks as usize * 8192]);
    image
}

#[test]
fn cartridge_rejects_short_files() {
    assert!(matches!(Cartridge::new(&[0x4E, 0x45, 0x53]), Err(CartridgeError::TooShort)));
}

#[test]
fn cartridge_rejects_bad_magic() {
    let mut image = image_with(1, 0, 0, 0);
    image[0] = 0x4D;
    assert!(matches!(Cartridge::new(&image), Err(CartridgeError::BadMagic)));
}

#[test]
fn cartridge_rejects_unsupported_mappers() {
    let image = image_with(1, 0, 0x10, 0); // mapper 1
    assert!(matches!(Cartridge::new(&image), Err(CartridgeError::UnsupportedMapper)));
}

#[test]
fn cartridge_rejects_truncated_prg() {
    let mut image = image_with(1, 0, 0, 0);
    image.truncate(16 + 1000);
    assert!(matches!(Cartridge::new(&image), Err(CartridgeError::PrgOutOfBounds)));
}

#[test]
fn cartridge_reads_mirroring_from_the_header() {
    let cart = Cartridge::new(&image_with(1, 0, 0x01, 0)).unwrap();
    assert_eq!(cart.mirroring, Mirroring::Vertical);
    assert_eq!(cart.mirroring(), Mirroring::Vertical);

    let cart = Cartridge::new(&image_with(1, 0, 0x08, 0)).unwrap();
    assert_eq!(cart.mirroring, Mirroring::FourScreen);

    let cart = Cartridge::new(&image_with(1, 0, 0x00, 0)).unwrap();
    assert_eq!(cart.mirroring, Mirroring::Horizontal);
}

#[test]
fn nrom_mirrors_a_single_bank() {
    let mut image = image_with(1, 0, 0, 0);
    image[16] = 0xAB; // PRG offset 0, seen at $8000 and $C000
    let mut cart = Cartridge::new(&image).unwrap();
    assert_eq!(cart.cpu_read(0x8000), 0xAB);
    assert_eq!(cart.cpu_read(0xC000), 0xAB);
}

#[test]
fn nrom_prg_ram_round_trips() {
    let mut cart = Cartridge::new(&image_with(1, 0, 0, 0)).unwrap();
    cart.cpu_write(0x6000, 0x5A);
    assert_eq!(cart.cpu_read(0x6000), 0x5A);
    // Writes to ROM are silently ignored.
    cart.cpu_write(0x8000, 0x77);
    assert_eq!(cart.cpu_read(0x8000), 0x00);
}

#[test]
fn uxrom_banks_switch_on_writes() {
    let mut image = image_with(4, 0, 0x20, 0); // mapper 2 via flags 6 high nibble
    let base = 16;
    image[base] = 0x11; // bank 0, offset 0
    image[base + 16384] = 0x22; // bank 1
    image[base + 3 * 16384] = 0x44; // last bank
    let mut cart = Cartridge::new(&image).unwrap();

    assert_eq!(cart.cpu_read(0x8000), 0x11);
    assert_eq!(cart.cpu_read(0xC000), 0x44, "the last bank is fixed at $C000");
    cart.cpu_write(0x8000, 0x01);
    assert_eq!(cart.cpu_read(0x8000), 0x22);
    cart.cpu_write(0x8000, 0x00);
    assert_eq!(cart.cpu_read(0x8000), 0x11);
}

#[test]
fn uxrom_bank_mask_rounds_to_a_power_of_two() {
    let mapper = Mapper002::new(3 * 16384, 0, Mirroring::Horizontal);
    assert_eq!(mapper.bank_mask, 3);
    let mut mapper = Mapper002::new(8 * 16384, 0, Mirroring::Horizontal);
    assert_eq!(mapper.bank_mask, 7);
    mapper.cpu_write(0x9000, 0xFF);
    match mapper.cpu_read(0x8000) {
        MappedRead::PrgRom(offset) => assert_eq!(offset, 7 * 0x4000),
        _ => panic!("expected a PRG-ROM resolution"),
    }
}

#[test]
fn chr_ram_is_writable_only_without_chr_rom() {
    let mut cart = Cartridge::new(&image_with(1, 0, 0, 0)).unwrap();
    cart.ppu_write(0x0123, 0x99);
    assert_eq!(cart.ppu_read(0x0123), 0x99);

    let mut image = image_with(1, 1, 0, 0);
    image[16 + 16384 + 0x0123] = 0x55;
    let mut cart = Cartridge::new(&image).unwrap();
    assert_eq!(cart.ppu_read(0x0123), 0x55);
    cart.ppu_write(0x0123, 0x99);
    assert_eq!(cart.ppu_read(0x0123), 0x55, "CHR-ROM must ignore writes");
}

#[test]
fn rom_parses_and_rejects() {
    let image = image_with(1, 1, 0x01, 0x40);
    let rom = Rom::new(&image).unwrap();
    assert_eq!(rom.mapper, 0x40);
    assert_eq!(rom.prg_rom.len(), 16384);
    assert_eq!(rom.chr_rom.len(), 8192);
    assert_eq!(rom.screen_mirroring, nes_emulator::rom::Mirroring::Vertical);

    assert!(Rom::new(&[0u8; 4]).is_err());
    let mut bad = image_with(1, 0, 0, 0);
    bad[7] = 0x0C; // iNES 2.0 marker
    assert!(Rom::new(&bad).is_err());
}

#[test]
fn joypad_shifts_buttons_in_order() {
    let mut joypad = Joypad::new();
    joypad.set_button_state(JoypadButton::A, true);
    joypad.set_button_state(JoypadButton::Start, true);

    joypad.write(1);
    joypad.write(0);
    let expected = [1u8, 0, 0, 1, 0, 0, 0, 0];
    for bit in expected {
        assert_eq!(joypad.read(), bit);
    }
    // Past the eighth read the port returns 1.
    assert_eq!(joypad.read(), 1);
    assert_eq!(joypad.read(), 1);
}

#[test]
fn joypad_strobe_rewinds_to_button_a() {
    let mut joypad = Joypad::new();
    joypad.set_button_state(JoypadButton::B, true);
    joypad.write(1);
    assert_eq!(joypad.read(), 0, "strobe held: always button A");
    assert_eq!(joypad.read(), 0);
    joypad.write(0);
    assert_eq!(joypad.read(), 0); // A
    assert_eq!(joypad.read(), 1); // B
}

#[test]
fn run_frame_completes_one_frame() {
    let mut image = image_with(1, 0, 0, 0);
    // Program: JMP $8000 (spin); reset vector at $8000.
    image[16] = 0x4C;
    image[16 + 1] = 0x00;
    image[16 + 2] = 0x80;
    image[16 + 0x3FFC] = 0x00;
    image[16 + 0x3FFD] = 0x80;
    let mut emulator = Emulator::new(Cartridge::new(&image).unwrap());
    emulator.reset();

    let cycles = emulator.run_frame();
    assert_eq!(emulator.cpu.bus.ppu.frame, 1);
    // One frame is 89342 PPU ticks, three per CPU cycle; reset already
    // spent 21 of them.
    assert!(cycles >= (89342 - 21) / 3);
    assert!(cycles <= 89342 / 3 + 600);

    emulator.run_frame();
    assert_eq!(emulator.cpu.bus.ppu.frame, 2);
}

#[test]
fn render_paints_the_backdrop_colour() {
    let mut cart = Cartridge::new(&image_with(1, 0, 0, 0)).unwrap();
    let mut ppu = nes_emulator::ppu::Ppu::new();
    // Backdrop palette entry 0x21 at $3F00.
    ppu.cpu_write(0x2006, 0x3F, &mut cart);
    ppu.cpu_write(0x2006, 0x00, &mut cart);
    ppu.cpu_write(0x2007, 0x21, &mut cart);

    let mut frame = Frame::new();
    render(&ppu, &mut cart, &mut frame);
    // Palette entry $21 is the light blue of the standard palette.
    assert_eq!(frame.data[0], 0x0F);
    assert_eq!(frame.data[1], 0xD7);
    assert_eq!(frame.data[2], 0xFF);
}
