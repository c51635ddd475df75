//! The emulator loop: one CPU step drives three PPU ticks and one APU tick
//! per CPU cycle; NMI edges and IRQ levels latch on the bus between
//! instructions.

use vstd::prelude::*;

verus! {

use crate::apu::Apu;
use crate::bus::Bus;
use crate::cartridge::Cartridge;
use crate::cpu::Cpu;
use crate::ppu::Ppu;

pub struct Emulator {
    pub cpu: Cpu,
}

impl Emulator {
    pub open spec fn wf(&self) -> bool {
        self.cpu.wf()
    }

    /// Wires a freshly parsed cartridge to a cold CPU, PPU, and APU.
    pub fn new(cartridge: Cartridge) -> (r: Emulator)
        ensures
            r.wf(),
            r.cpu.bus.cartridge == cartridge,
            r.cpu.a == 0,
            r.cpu.x == 0,
            r.cpu.y == 0,
            r.cpu.sp == 0xFD,
            !r.cpu.halted,
            r.cpu.bus.ppu.scanline == 0,
            r.cpu.bus.ppu.cycle == 0,
            r.cpu.bus.ppu.frame == 0,
            !r.cpu.bus.ppu.fault,
    {
        let ppu = Ppu::new();
        let apu = Apu::new();
        let bus = Bus::new(ppu, apu, cartridge);
        let cpu = Cpu::new(bus);

        Emulator { cpu }
    }

    /// Reset: the CPU loads PC from $FFFC at a cost of 7 cycles, the PPU
    /// advances 21 ticks to match, and the APU 7 clocks.
    pub fn reset(&mut self)
        requires
            old(self).wf(),
        ensures
            final(self).wf(),
            final(self).cpu.a == 0,
            final(self).cpu.x == 0,
            final(self).cpu.y == 0,
            final(self).cpu.sp == 0xFD,
            !final(self).cpu.halted,
            final(self).cpu.status == crate::cpu::StatusFlags::initial_spec(),
            final(self).cpu.cycles == old(self).cpu.cycles.wrapping_add(7),
            final(self).cpu.bus.ppu.pos_spec() == (old(self).cpu.bus.ppu.pos_spec() + 21) % 89342,
            final(self).cpu.bus.apu.cycle == old(self).cpu.bus.apu.cycle.wrapping_add(7),
            final(self).cpu.pc == (old(self).cpu.bus.cartridge.cpu_read_spec(0xFFFC) as u16) | ((
            old(self).cpu.bus.cartridge.cpu_read_spec(0xFFFD) as u16) << 8),
    {
        self.cpu.reset();
        let ghost pos0 = self.cpu.bus.ppu.pos_spec();

        let mut i: u8 = 0;
        while i < 21
            invariant
                self.cpu.wf(),
                self.cpu.a == 0,
                self.cpu.x == 0,
                self.cpu.y == 0,
                self.cpu.sp == 0xFD,
                !self.cpu.halted,
                self.cpu.status == crate::cpu::StatusFlags::initial_spec(),
                self.cpu.cycles == old(self).cpu.cycles.wrapping_add(7),
                self.cpu.bus.apu == old(self).cpu.bus.apu,
                i <= 21,
                self.cpu.bus.ppu.pos_spec() == (pos0 + i) % 89342,
                0 <= pos0 < 89342,
                self.cpu.pc == (old(self).cpu.bus.cartridge.cpu_read_spec(0xFFFC) as u16) | ((old(self).cpu.bus.cartridge.cpu_read_spec(0xFFFD) as u16) << 8),
            decreases 21 - i,
        {
            let _ = self.cpu.bus.ppu.tick();
            proof {
                vstd::arithmetic::div_mod::lemma_small_mod(1nat, 89342nat);
                vstd::arithmetic::div_mod::lemma_add_mod_noop(pos0 + i, 1, 89342);
            }
            i = i + 1;
        }

        let ghost apu0 = self.cpu.bus.apu.cycle;
        let ghost ppu_after = self.cpu.bus.ppu;
        let mut j: u8 = 0;
        while j < 7
            invariant
                self.cpu.wf(),
                self.cpu.a == 0,
                self.cpu.x == 0,
                self.cpu.y == 0,
                self.cpu.sp == 0xFD,
                !self.cpu.halted,
                self.cpu.status == crate::cpu::StatusFlags::initial_spec(),
                self.cpu.cycles == old(self).cpu.cycles.wrapping_add(7),
                self.cpu.bus.ppu == ppu_after,
                ppu_after.pos_spec() == (pos0 + 21) % 89342,
                pos0 == old(self).cpu.bus.ppu.pos_spec(),
                j <= 7,
                self.cpu.bus.apu.cycle == apu0.wrapping_add(j as u64),
                apu0 == old(self).cpu.bus.apu.cycle,
                self.cpu.pc == (old(self).cpu.bus.cartridge.cpu_read_spec(0xFFFC) as u16) | ((old(self).cpu.bus.cartridge.cpu_read_spec(0xFFFD) as u16) << 8),
            decreases 7 - j,
        {
            self.cpu.bus.apu.clock(&mut self.cpu.bus.cartridge);
            j = j + 1;
        }
    }

    /// Runs whole instructions until the PPU reports a completed frame, and
    /// returns how many CPU cycles that took (wrapping on the astronomical
    /// overflow). Each instruction's cycles are paid forward as three PPU
    /// ticks and one APU tick per cycle, with NMI edges and IRQ levels
    /// latched onto the bus as they arise. Exactly one frame completes: the
    /// PPU's frame counter moves forward by one.
    #[verifier::rlimit(100)]
    pub fn run_frame(&mut self) -> (cycles: u64)
        requires
            old(self).wf(),
        ensures
            final(self).wf(),
            final(self).cpu.bus.ppu.frame == old(self).cpu.bus.ppu.frame.wrapping_add(1),
    {
        let mut accumulated_cycles: u64 = 0;
        let ghost frame0 = self.cpu.bus.ppu.frame;

        // Every instruction advances the PPU by at least three ticks, so
        // the frame boundary arrives well within this instruction budget;
        // should a hand-mangled machine state exhaust it anyway, the frame
        // is finished with bare PPU ticks.
        let mut watchdog: u32 = 0;
        loop
            invariant
                self.cpu.wf(),
                watchdog <= 100000,
                self.cpu.bus.ppu.frame == frame0,
                frame0 == old(self).cpu.bus.ppu.frame,
            decreases 100000 - watchdog,
        {
            if watchdog >= 100000 {
                loop
                    invariant
                        self.cpu.wf(),
                        self.cpu.bus.ppu.frame == frame0,
                        frame0 == old(self).cpu.bus.ppu.frame,
                    decreases 89341 - self.cpu.bus.ppu.pos_spec(),
                {
                    proof {
                        let p = self.cpu.bus.ppu;
                        assert(p.scanline * 341 + p.cycle <= 89341 && (p.scanline * 341 + p.cycle
                            == 89341 ==> p.scanline == 261 && p.cycle == 340)) by (nonlinear_arith)
                            requires
                                p.scanline < 262,
                                p.cycle < 341,
                        ;
                        if p.pos_spec() < 89341 {
                            vstd::arithmetic::div_mod::lemma_small_mod(
                                (p.pos_spec() + 1) as nat,
                                89342nat,
                            );
                        }
                    }
                    let done = self.cpu.bus.ppu.tick();
                    if done {
                        proof {
                            assert(self.cpu.bus.ppu.frame == frame0.wrapping_add(1));
                        }
                        return accumulated_cycles;
                    }
                }
            }
            watchdog = watchdog + 1;
            let cpu_cycles = self.cpu.step();
            let ghost pos0 = self.cpu.bus.ppu.pos_spec();
            proof {
                let p = self.cpu.bus.ppu;
                assert(p.scanline * 341 + p.cycle <= 89341) by (nonlinear_arith)
                    requires
                        p.scanline < 262,
                        p.cycle < 341,
                ;
                vstd::arithmetic::div_mod::lemma_small_mod(pos0 as nat, 89342nat);
            }
            accumulated_cycles = accumulated_cycles.wrapping_add(cpu_cycles);

            let mut frame_complete = false;
            let ppu_ticks: u64 = cpu_cycles * 3;
            let mut i: u64 = 0;
            while i < ppu_ticks
                invariant
                    self.cpu.wf(),
                    i <= ppu_ticks,
                    3 <= ppu_ticks <= 3 * 524,
                    0 <= pos0 < 89342,
                    self.cpu.bus.ppu.pos_spec() == (pos0 + i) % 89342,
                    frame_complete == (pos0 + i >= 89342),
                    self.cpu.bus.ppu.frame == if frame_complete {
                        frame0.wrapping_add(1)
                    } else {
                        frame0
                    },
                decreases ppu_ticks - i,
            {
                let ghost p_before = self.cpu.bus.ppu;
                let new_frame = self.cpu.bus.ppu.tick();
                proof {
                    assert(p_before.scanline * 341 + p_before.cycle <= 89341 && (p_before.scanline
                        * 341 + p_before.cycle == 89341 ==> p_before.scanline == 261
                        && p_before.cycle == 340)) by (nonlinear_arith)
                        requires
                            p_before.scanline < 262,
                            p_before.cycle < 341,
                    ;
                    lemma_mod_89342(pos0 + i);
                    lemma_mod_89342(pos0 + i + 1);
                    vstd::arithmetic::div_mod::lemma_small_mod(1nat, 89342nat);
                    vstd::arithmetic::div_mod::lemma_add_mod_noop(pos0 + i, 1, 89342);
                }
                if new_frame {
                    frame_complete = true;
                }

                if self.cpu.bus.ppu.poll_nmi() {
                    self.cpu.bus.trigger_nmi();
                }
                i = i + 1;
            }

            let ghost ppu_after_ticks = self.cpu.bus.ppu;
            let mut j: u64 = 0;
            while j < cpu_cycles
                invariant
                    self.cpu.wf(),
                    self.cpu.bus.ppu == ppu_after_ticks,
                decreases cpu_cycles - j,
            {
                self.cpu.bus.apu.clock(&mut self.cpu.bus.cartridge);

                if self.cpu.bus.apu.irq_pending() {
                    self.cpu.bus.trigger_irq();
                }
                j = j + 1;
            }

            if frame_complete {
                proof {
                    assert(self.cpu.bus.ppu.frame == frame0.wrapping_add(1));
                }
                return accumulated_cycles;
            }
        }
    }
}

/// The frame-grid modulus, written out for sums below twice the period.
proof fn lemma_mod_89342(s: int)
    requires
        0 <= s < 2 * 89342,
    ensures
        s % 89342 == if s >= 89342 {
            s - 89342
        } else {
            s
        },
{
    if s >= 89342 {
        assert(s % 89342 == (s - 89342) % 89342) by (nonlinear_arith)
            requires
                89342 <= s < 2 * 89342,
        ;
        vstd::arithmetic::div_mod::lemma_small_mod((s - 89342) as nat, 89342nat);
    } else {
        vstd::arithmetic::div_mod::lemma_small_mod(s as nat, 89342nat);
    }
}

} // verus!
