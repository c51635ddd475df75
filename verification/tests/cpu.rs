//! CPU behaviour: loads, stores, flags, stack discipline, cycle counts,
//! and the indirect-JMP page-wrap quirk, run on small synthetic cartridges.

use nes_emulator::cartridge::Cartridge;
use nes_emulator::emulator::Emulator;

/// Builds a one-bank NROM image whose PRG starts with `program` and whose
/// reset vector points at $8000.
fn cart_with_program(program: &[u8]) -> Cartridge {
    let mut image: Vec<u8> = vec![0x4E, 0x45, 0x53, 0x1A, 1, 0, 0, 0, 0];
    image.resize(16, 0);
    let mut prg = vec![0u8; 16384];
    prg[..program.len()].copy_from_slice(program);
    // Reset vector $FFFC/$FFFD maps to the last bytes of the mirrored bank.
    prg[0x3FFC] = 0x00;
    prg[0x3FFD] = 0x80;
    image.extend_from_slice(&prg);
    Cartridge::new(&image).unwrap()
}

fn booted(program: &[u8]) -> Emulator {
    let mut emulator = Emulator::new(cart_with_program(program));
    emulator.reset();
    emulator
}

#[test]
fn lda_immediate_loads_and_sets_flags() {
    let mut emulator = booted(&[0xA9, 0x42]);
    let cycles = emulator.cpu.step();
    assert_eq!(cycles, 2);
    assert_eq!(emulator.cpu.a, 0x42);
    assert_eq!(emulator.cpu.pc, 0x8002);
    assert!(!emulator.cpu.status.zero);
    assert!(!emulator.cpu.status.negative);
}

#[test]
fn lda_immediate_zero_flag() {
    let mut emulator = booted(&[0xA9, 0x00]);
    emulator.cpu.step();
    assert_eq!(emulator.cpu.a, 0x00);
    assert!(emulator.cpu.status.zero);
    assert!(!emulator.cpu.status.negative);
}

#[test]
fn lda_immediate_negative_flag() {
    let mut emulator = booted(&[0xA9, 0x80]);
    emulator.cpu.step();
    assert_eq!(emulator.cpu.a, 0x80);
    assert!(!emulator.cpu.status.zero);
    assert!(emulator.cpu.status.negative);
}

#[test]
fn sta_zero_page_stores() {
    let mut emulator = booted(&[0xA9, 0x42, 0x85, 0x85]);
    emulator.cpu.step();
    emulator.cpu.step();
    assert_eq!(emulator.cpu.bus.read(0x0085), 0x42);
}

#[test]
fn absolute_x_page_cross_adds_a_cycle() {
    // LDA $80F0,X with X = $20 crosses into $8110: 4 + 1 cycles.
    let mut emulator = booted(&[0xA2, 0x20, 0xBD, 0xF0, 0x80]);
    emulator.cpu.step();
    let cycles = emulator.cpu.step();
    assert_eq!(cycles, 5);

    // With X = $01 there is no crossing: 4 cycles.
    let mut emulator = booted(&[0xA2, 0x01, 0xBD, 0xF0, 0x80]);
    emulator.cpu.step();
    let cycles = emulator.cpu.step();
    assert_eq!(cycles, 4);
}

#[test]
fn branch_cycle_accounting() {
    // BNE taken, target in the same page: 2 + 1 cycles.
    let mut emulator = booted(&[0xA9, 0x01, 0xD0, 0x02]);
    emulator.cpu.step();
    let cycles = emulator.cpu.step();
    assert_eq!(cycles, 3);
    assert_eq!(emulator.cpu.pc, 0x8006);

    // BNE not taken: 2 cycles, PC moves past the offset byte.
    let mut emulator = booted(&[0xA9, 0x00, 0xD0, 0x02]);
    emulator.cpu.step();
    let cycles = emulator.cpu.step();
    assert_eq!(cycles, 2);
    assert_eq!(emulator.cpu.pc, 0x8004);

    // BNE taken across a page boundary: 2 + 2 cycles.
    let mut program = vec![0u8; 0x00FA];
    for slot in program.iter_mut() {
        *slot = 0xEA; // NOP sled up to $80FA.
    }
    program.extend_from_slice(&[0xA9, 0x01, 0xD0, 0x7F]); // at $80FA: LDA; BNE +$7F
    let mut emulator = booted(&program);
    emulator.cpu.pc = 0x80FA;
    emulator.cpu.step();
    let cycles = emulator.cpu.step();
    assert_eq!(cycles, 4);
}

#[test]
fn cmp_value_with_itself_sets_carry_and_zero() {
    let mut emulator = booted(&[0xA9, 0x10, 0xC9, 0x10]);
    emulator.cpu.step();
    emulator.cpu.step();
    assert!(emulator.cpu.status.carry);
    assert!(emulator.cpu.status.zero);
    assert!(!emulator.cpu.status.negative);
}

#[test]
fn adc_zero_plus_zero_clears_everything() {
    let mut emulator = booted(&[0x18, 0xA9, 0x00, 0x69, 0x00]);
    emulator.cpu.step();
    emulator.cpu.step();
    emulator.cpu.step();
    assert_eq!(emulator.cpu.a, 0);
    assert!(emulator.cpu.status.zero);
    assert!(!emulator.cpu.status.carry);
    assert!(!emulator.cpu.status.overflow);
    assert!(!emulator.cpu.status.negative);
}

#[test]
fn adc_carry_and_overflow() {
    // $7F + $01 = $80: signed overflow, no carry, negative.
    let mut emulator = booted(&[0x18, 0xA9, 0x7F, 0x69, 0x01]);
    emulator.cpu.step();
    emulator.cpu.step();
    emulator.cpu.step();
    assert_eq!(emulator.cpu.a, 0x80);
    assert!(emulator.cpu.status.overflow);
    assert!(!emulator.cpu.status.carry);
    assert!(emulator.cpu.status.negative);

    // $FF + $01 = $00 with carry out.
    let mut emulator = booted(&[0x18, 0xA9, 0xFF, 0x69, 0x01]);
    emulator.cpu.step();
    emulator.cpu.step();
    emulator.cpu.step();
    assert_eq!(emulator.cpu.a, 0x00);
    assert!(emulator.cpu.status.carry);
    assert!(emulator.cpu.status.zero);
}

#[test]
fn pha_pla_roundtrip_preserves_a() {
    let mut emulator = booted(&[0xA9, 0x37, 0x48, 0xA9, 0x00, 0x68]);
    emulator.cpu.step();
    emulator.cpu.step();
    emulator.cpu.step();
    assert_eq!(emulator.cpu.a, 0x00);
    emulator.cpu.step();
    assert_eq!(emulator.cpu.a, 0x37);
    assert!(!emulator.cpu.status.zero);
}

#[test]
fn php_plp_restores_flags_and_forces_b_and_u() {
    // SEC; PHP; CLC; PLP: carry must come back, and the pushed byte must
    // carry B and U set.
    let mut emulator = booted(&[0x38, 0x08, 0x18, 0x28]);
    emulator.cpu.step();
    emulator.cpu.step();
    let pushed = emulator.cpu.bus.read(0x01FD);
    assert_eq!(pushed & 0x30, 0x30);
    assert_eq!(pushed & 0x01, 0x01);
    emulator.cpu.step();
    assert!(!emulator.cpu.status.carry);
    emulator.cpu.step();
    assert!(emulator.cpu.status.carry);
    assert!(emulator.cpu.status.unused);
    assert!(!emulator.cpu.status.break_command);
}

#[test]
fn status_byte_keeps_u_set_and_b_clear_after_every_step() {
    let mut emulator = booted(&[0xA9, 0x80, 0x48, 0x68, 0xE8, 0xC8, 0x38, 0xF8]);
    for _ in 0..8 {
        emulator.cpu.step();
        let p = emulator.cpu.status.bits();
        assert_eq!(p & 0x20, 0x20);
        assert_eq!(p & 0x10, 0x00);
    }
}

#[test]
fn stack_wraps_within_its_page_and_spares_the_zero_page() {
    // Mark the zero page, point SP at $00, and push: the byte must land at
    // $0100 and SP wrap to $FF.
    let mut emulator = booted(&[0xA2, 0x00, 0x9A, 0xA9, 0x55, 0x48]);
    for address in 0..0x100u16 {
        emulator.cpu.bus.write(address, 0xAA);
    }
    emulator.cpu.step();
    emulator.cpu.step();
    assert_eq!(emulator.cpu.sp, 0x00);
    emulator.cpu.step();
    emulator.cpu.step();
    assert_eq!(emulator.cpu.sp, 0xFF);
    assert_eq!(emulator.cpu.bus.read(0x0100), 0x55);
    for address in 0..0x100u16 {
        assert_eq!(emulator.cpu.bus.read(address), 0xAA);
    }
}

#[test]
fn asl_eight_times_clears_a() {
    let mut emulator = booted(&[0xA9, 0x01, 0x0A, 0x0A, 0x0A, 0x0A, 0x0A, 0x0A, 0x0A, 0x0A]);
    emulator.cpu.step();
    for shifts in 1..=8u32 {
        emulator.cpu.step();
        assert_eq!(emulator.cpu.a, (1u32.checked_shl(shifts).unwrap_or(0) % 256) as u8);
    }
    assert_eq!(emulator.cpu.a, 0);
    assert!(emulator.cpu.status.zero);
}

#[test]
fn indirect_jmp_wraps_within_the_pointer_page() {
    // JMP ($02FF) must fetch the high byte from $0200, not $0300.
    let mut emulator = booted(&[0x6C, 0xFF, 0x02]);
    emulator.cpu.bus.write(0x02FF, 0x34);
    emulator.cpu.bus.write(0x0200, 0x12);
    emulator.cpu.bus.write(0x0300, 0x77);
    let cycles = emulator.cpu.step();
    assert_eq!(cycles, 5);
    assert_eq!(emulator.cpu.pc, 0x1234);
}

#[test]
fn kil_halts_the_processor() {
    let mut emulator = booted(&[0x02]);
    assert!(!emulator.cpu.halted);
    emulator.cpu.step();
    assert!(emulator.cpu.halted);
}

#[test]
fn automation_protocol_reports_clean_run() {
    // The automation convention: the program banks its verdict in $0002 and
    // $0003 and jams; both bytes zero mean a clean run.
    let mut emulator = booted(&[0xA9, 0x00, 0x85, 0x02, 0x85, 0x03, 0x02]);
    let mut steps = 0;
    while !emulator.cpu.halted && steps < 100 {
        emulator.cpu.step();
        steps += 1;
    }
    assert!(emulator.cpu.halted);
    assert_eq!(emulator.cpu.bus.read(0x0002), 0x00);
    assert_eq!(emulator.cpu.bus.read(0x0003), 0x00);
}

#[test]
fn nmi_is_serviced_between_instructions() {
    // NMI vector at $FFFA -> offset $3FFA of the mirrored bank.
    let mut image: Vec<u8> = vec![0x4E, 0x45, 0x53, 0x1A, 1, 0, 0, 0, 0];
    image.resize(16, 0);
    let mut prg = vec![0u8; 16384];
    prg[0] = 0xEA;
    prg[0x3FFA] = 0x00;
    prg[0x3FFB] = 0x90;
    prg[0x3FFC] = 0x00;
    prg[0x3FFD] = 0x80;
    image.extend_from_slice(&prg);
    let mut emulator = Emulator::new(Cartridge::new(&image).unwrap());
    emulator.reset();
    emulator.cpu.bus.trigger_nmi();
    let cycles = emulator.cpu.step();
    assert_eq!(cycles, 7);
    assert_eq!(emulator.cpu.pc, 0x9000);
    assert!(emulator.cpu.status.interrupt_disable);
}

#[test]
fn oam_dma_stalls_the_cpu() {
    // STA $4014 with A = $02 copies page $0200 and stalls 513 or 514 cycles
    // on top of the store's 4.
    let mut emulator = booted(&[0xA9, 0x02, 0x8D, 0x14, 0x40]);
    for i in 0..256u16 {
        emulator.cpu.bus.write(0x0200 + i, i as u8);
    }
    emulator.cpu.step();
    let cycles = emulator.cpu.step();
    assert!(cycles == 4 + 513 || cycles == 4 + 514, "unexpected DMA cost {cycles}");
    // The PPU's OAM now holds the page.
    emulator.cpu.bus.write(0x2003, 0x07);
    assert_eq!(emulator.cpu.bus.read(0x2004), 0x07);
}

#[test]
fn work_ram_mirrors_every_two_kib() {
    let mut emulator = booted(&[0xEA]);
    emulator.cpu.bus.write(0x0042, 0x5A);
    assert_eq!(emulator.cpu.bus.read(0x0842), 0x5A);
    assert_eq!(emulator.cpu.bus.read(0x1042), 0x5A);
    assert_eq!(emulator.cpu.bus.read(0x1842), 0x5A);
}

#[test]
fn unmapped_io_reads_as_open_bus_zero() {
    let mut emulator = booted(&[0xEA]);
    for address in 0x4018..=0x401Fu16 {
        assert_eq!(emulator.cpu.bus.read(address), 0);
    }
    assert_eq!(emulator.cpu.bus.read(0x4000), 0, "write-only APU ports read 0");
    assert_eq!(emulator.cpu.bus.read(0x4014), 0, "the DMA port is write-only");
}
