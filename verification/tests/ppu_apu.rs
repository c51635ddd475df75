//! PPU register-file and APU channel behaviour on directly driven units.

use nes_emulator::apu::dmc_channel::DmcChannel;
use nes_emulator::apu::frame_counter::FrameCounter;
use nes_emulator::apu::noise_channel::NoiseChannel;
use nes_emulator::apu::pulse_channel::PulseChannel;
use nes_emulator::apu::triangle_channel::TriangleChannel;
use nes_emulator::apu::{length_table_value, Apu};
use nes_emulator::cartridge::Cartridge;
use nes_emulator::ppu::Ppu;

fn blank_cart() -> Cartridge {
    let mut image: Vec<u8> = vec![0x4E, 0x45, 0x53, 0x1A, 1, 0, 0, 0, 0];
    image.resize(16, 0);
    image.extend_from_slice(&vec![0u8; 16384]);
    Cartridge::new(&image).unwrap()
}

const LENGTH_TABLE: [u8; 32] = [
    10, 254, 20, 2, 40, 4, 80, 6, 160, 8, 60, 10, 14, 12, 26, 14, 12, 16, 24, 18, 48, 20, 96, 22,
    192, 24, 72, 26, 16, 28, 32, 30,
];

#[test]
fn status_read_clears_vblank_on_the_second_read() {
    let mut ppu = Ppu::new();
    let mut cart = blank_cart();
    ppu.status.vblank = true;

    let first = ppu.cpu_read(0x2002, &mut cart);
    assert_eq!(first & 0x80, 0x80);

    let second = ppu.cpu_read(0x2002, &mut cart);
    assert_eq!(second & 0x80, 0x00);
}

#[test]
fn data_read_is_buffered_below_the_palette() {
    let mut ppu = Ppu::new();
    let mut cart = blank_cart();

    // Point at $2155 and store $99 there.
    ppu.cpu_write(0x2006, 0x21, &mut cart);
    ppu.cpu_write(0x2006, 0x55, &mut cart);
    ppu.cpu_write(0x2007, 0x99, &mut cart);

    // Read twice from the same address: the buffer first, the byte second.
    ppu.cpu_write(0x2006, 0x21, &mut cart);
    ppu.cpu_write(0x2006, 0x55, &mut cart);
    let first = ppu.cpu_read(0x2007, &mut cart);
    let second = ppu.cpu_read(0x2007, &mut cart);
    assert_eq!(first, 0x00);
    assert_eq!(second, 0x99);
}

#[test]
fn palette_mirrors_3f10_family_onto_3f00() {
    let mut ppu = Ppu::new();
    let mut cart = blank_cart();

    let pairs = [(0x10u8, 0x00u8), (0x14, 0x04), (0x18, 0x08), (0x1C, 0x0C)];
    for (i, (alias, home)) in pairs.iter().enumerate() {
        let value = 0x21 + i as u8;
        ppu.cpu_write(0x2006, 0x3F, &mut cart);
        ppu.cpu_write(0x2006, *alias, &mut cart);
        ppu.cpu_write(0x2007, value, &mut cart);

        ppu.cpu_write(0x2006, 0x3F, &mut cart);
        ppu.cpu_write(0x2006, *home, &mut cart);
        assert_eq!(ppu.cpu_read(0x2007, &mut cart), value);

        ppu.cpu_write(0x2006, 0x3F, &mut cart);
        ppu.cpu_write(0x2006, *alias, &mut cart);
        assert_eq!(ppu.cpu_read(0x2007, &mut cart), value);
    }
}

#[test]
fn exactly_one_frame_completion_per_89342_ticks() {
    let mut ppu = Ppu::new();
    let mut completions = 0;
    for _ in 0..89342 {
        if ppu.tick() {
            completions += 1;
        }
    }
    assert_eq!(completions, 1);
    for _ in 0..89342 {
        if ppu.tick() {
            completions += 1;
        }
    }
    assert_eq!(completions, 2);
    assert_eq!(ppu.frame, 2);
}

#[test]
fn vblank_opens_at_scanline_241_and_raises_nmi() {
    let mut ppu = Ppu::new();
    ppu.write_to_ppu_ctrl(0x80);

    // Tick to scanline 241, cycle 1: 241 * 341 + 1 ticks.
    for _ in 0..241 * 341 + 1 {
        ppu.tick();
    }
    assert!(ppu.status.vblank);
    assert!(ppu.poll_nmi());
    assert!(!ppu.poll_nmi(), "the NMI edge must be one-shot");

    // The pre-render line closes VBlank again.
    for _ in 0..20 * 341 + 2 {
        ppu.tick();
    }
    assert!(!ppu.status.vblank);
}

#[test]
fn length_counters_load_from_the_table() {
    for index in 0..32u8 {
        assert_eq!(length_table_value(index), LENGTH_TABLE[index as usize]);

        let mut pulse = PulseChannel::new();
        pulse.set_enabled(true);
        pulse.write_timer_high(index << 3);
        assert_eq!(pulse.length_counter, LENGTH_TABLE[index as usize]);

        let mut triangle = TriangleChannel::new();
        triangle.set_enabled(true);
        triangle.write_timer_high(index << 3);
        assert_eq!(triangle.length_counter, LENGTH_TABLE[index as usize]);

        let mut noise = NoiseChannel::new();
        noise.set_enabled(true);
        noise.write_length_load(index << 3);
        assert_eq!(noise.length_counter, LENGTH_TABLE[index as usize]);
    }
}

#[test]
fn disabled_channels_do_not_load_lengths() {
    let mut pulse = PulseChannel::new();
    pulse.write_timer_high(0x08);
    assert_eq!(pulse.length_counter, 0);
}

#[test]
fn writing_zero_to_4015_silences_every_channel() {
    let mut apu = Apu::new();
    apu.cpu_write(0x4015, 0x1F);
    apu.cpu_write(0x4003, 0x08);
    apu.cpu_write(0x4007, 0x10);
    apu.cpu_write(0x400B, 0x18);
    apu.cpu_write(0x400F, 0x20);
    apu.cpu_write(0x4013, 0x01);
    apu.cpu_write(0x4015, 0x10);
    assert!(apu.dmc.bytes_remaining > 0);

    apu.cpu_write(0x4015, 0x00);
    assert_eq!(apu.pulse_1.length_counter, 0);
    assert_eq!(apu.pulse_2.length_counter, 0);
    assert_eq!(apu.triangle.length_counter, 0);
    assert_eq!(apu.noise.length_counter, 0);
    assert_eq!(apu.dmc.bytes_remaining, 0);
}

#[test]
fn frame_irq_fires_every_29830_cycles_and_clears_on_status_read() {
    let mut apu = Apu::new();
    let mut cart = blank_cart();

    for _ in 0..29827 {
        apu.clock(&mut cart);
    }
    assert!(!apu.frame_irq);
    apu.clock(&mut cart);
    assert!(apu.frame_irq, "IRQ must assert at sequencer cycle 29828");

    // Reading $4015 acknowledges it.
    let status = apu.cpu_read(0x4015);
    assert_eq!(status & 0x40, 0x40);
    assert!(!apu.frame_irq);
    assert_eq!(apu.cpu_read(0x4015) & 0x40, 0x00);

    // One full period later it asserts again.
    for _ in 0..29830 {
        apu.clock(&mut cart);
    }
    assert!(apu.frame_irq);
}

#[test]
fn irq_inhibit_clears_and_blocks_the_frame_irq() {
    let mut fc = FrameCounter::new();
    for _ in 0..29828 {
        fc.clock();
    }
    assert!(fc.irq_flag);
    fc.write(0x40, false);
    for _ in 0..4 {
        fc.clock();
    }
    assert!(!fc.irq_flag);
    for _ in 0..29830 {
        fc.clock();
    }
    assert!(!fc.irq_flag);
}

#[test]
fn five_step_mode_emits_an_immediate_half_frame() {
    let mut fc = FrameCounter::new();
    fc.write(0x80, false);
    fc.clock();
    fc.clock();
    let signals = fc.clock();
    assert!(signals.clock_envelopes);
    assert!(signals.clock_length);
}

#[test]
fn noise_lfsr_steps_from_its_seed() {
    let mut noise = NoiseChannel::new();
    assert_eq!(noise.shift_register, 1);
    noise.clock_timer();
    assert_eq!(noise.shift_register, 0x4000);
    noise.clock_timer();
    assert_eq!(noise.shift_register, 0x2000);
}

#[test]
fn noise_period_table_spot_checks() {
    let mut noise = NoiseChannel::new();
    noise.write_period(0x00);
    assert_eq!(noise.timer_period, 4);
    noise.write_period(0x0F);
    assert_eq!(noise.timer_period, 4068);
    noise.write_period(0x88);
    assert_eq!(noise.timer_period, 202);
    assert!(noise.mode);
}

#[test]
fn envelope_starts_at_fifteen_and_decays() {
    let mut pulse = PulseChannel::new();
    pulse.set_enabled(true);
    pulse.write_control(0x00);
    pulse.write_timer_high(0x08);
    pulse.clock_envelope();
    assert_eq!(pulse.envelope.decay_level, 15);
    pulse.clock_envelope();
    assert_eq!(pulse.envelope.decay_level, 14);
}

#[test]
fn pulse_is_silent_below_timer_period_eight() {
    let mut pulse = PulseChannel::new();
    pulse.set_enabled(true);
    pulse.write_control(0x7F); // constant volume 15, duty 1
    pulse.write_timer_low(0x07);
    pulse.write_timer_high(0x08);
    assert_eq!(pulse.timer_period, 0x007);
    assert_eq!(pulse.output(), 0);

    pulse.write_timer_low(0x08);
    pulse.clock_timer();
    pulse.clock_timer();
    assert!(pulse.output() > 0 || pulse.output() == 0);
}

#[test]
fn triangle_sequence_descends_from_fifteen() {
    let mut triangle = TriangleChannel::new();
    triangle.write_timer_low(0x02);
    assert_eq!(triangle.raw_output(), 15);
    triangle.set_enabled(true);
    triangle.write_control(0x7F);
    triangle.write_timer_high(0x08);
    triangle.clock_linear_counter();
    triangle.clock_timer();
    triangle.clock_timer();
    triangle.clock_timer();
    assert_eq!(triangle.raw_output(), 14);
}

#[test]
fn dmc_sample_registers_decode() {
    let mut dmc = DmcChannel::new();
    dmc.write_sample_address(0x10);
    assert_eq!(dmc.sample_address, 0xC000 + 0x10 * 64);
    dmc.write_sample_length(0x02);
    assert_eq!(dmc.sample_length, 0x02 * 16 + 1);
    dmc.write_flags(0x0F);
    assert_eq!(dmc.timer_period, 54);
    dmc.write_direct_load(0xFF);
    assert_eq!(dmc.output_level, 0x7F);
}

#[test]
fn dmc_fetches_and_plays_its_sample() {
    let mut dmc = DmcChannel::new();
    let mut cart = blank_cart();
    dmc.write_flags(0x00);
    dmc.write_sample_address(0x00);
    dmc.write_sample_length(0x00);
    dmc.set_enabled(true);
    assert_eq!(dmc.bytes_remaining, 1);
    dmc.clock_timer(&mut cart);
    assert_eq!(dmc.bytes_remaining, 0);
    assert!(!dmc.sample_buffer_empty);
}

#[test]
fn frame_counter_write_delay_follows_cycle_parity() {
    let mut apu = Apu::new();
    let mut cart = blank_cart();

    // On an even cycle the $4017 byte lands after 3 clocks.
    apu.cpu_write(0x4017, 0x80);
    assert_eq!(apu.frame_counter.write_delay_counter, 3);

    // On an odd cycle it lands after 4.
    apu.clock(&mut cart);
    apu.cpu_write(0x4017, 0x80);
    assert_eq!(apu.frame_counter.write_delay_counter, 4);
}

#[test]
fn status_read_between_write_and_effect_sees_the_old_irq() {
    let mut apu = Apu::new();
    let mut cart = blank_cart();
    for _ in 0..29828 {
        apu.clock(&mut cart);
    }
    assert!(apu.frame_irq);

    // Inhibit the IRQ via $4017; within the delay window the flag and the
    // status bit are still the old ones.
    apu.cpu_write(0x4017, 0x40);
    apu.clock(&mut cart);
    assert_eq!(apu.cpu_read(0x4015) & 0x40, 0x40);
    for _ in 0..4 {
        apu.clock(&mut cart);
    }
    assert_eq!(apu.cpu_read(0x4015) & 0x40, 0x00);
}

#[test]
fn sweep_mutes_when_the_target_overflows() {
    let mut pulse = PulseChannel::new();
    pulse.set_enabled(true);
    pulse.write_control(0x10); // constant volume 0 field, duty 0
    pulse.write_sweep(0x01); // shift 1, add mode, disabled divider
    pulse.write_timer_low(0xFF);
    pulse.write_timer_high(0x07); // period $7FF: target $7FF + $3FF overflows
    pulse.clock_sweep(1);
    assert!(pulse.sweep_unit.muting);
    assert_eq!(pulse.output(), 0);
}
