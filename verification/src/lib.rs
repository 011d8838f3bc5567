//! Core of a cycle-approximate emulator for the Nintendo Entertainment
//! System: a 6502-derived CPU, a scanline-based picture processing unit,
//! and the address-space bus that ties them to a cartridge.

pub mod apu;
pub mod cpu;
pub mod joypad;
pub mod mapper;
pub mod mbc;
pub mod opcode;
pub mod ppu;
pub mod rom;
pub mod vram;

use vstd::prelude::*;

use crate::cpu::Cpu;
use crate::cpu::CpuError;
use crate::cpu::cpu_tick_rel;
use crate::cpu::tick_ok;
use crate::mbc::Mbc;
use crate::mbc::MbcModel;
use crate::mbc::dma_page_plain;
use crate::mbc::post_dma;
use crate::apu::Apu;
use crate::ppu::Ppu;
use crate::ppu::PpuModel;
use crate::ppu::spec_ppu_tick;
use crate::joypad::Joypad;
use crate::mapper::Mapper;
use crate::rom::Rom;

verus! {

/// Width of the visible frame in pixels.
pub const SCREEN_WIDTH: usize = 256;

/// Height of the visible frame in pixels.
pub const SCREEN_HEIGHT: usize = 240;

/// The most cycles one CPU scheduling step can consume: a 513-cycle OAM
/// DMA stall plus the longest instruction with all extras.
pub const MAX_STEP_CYCLES: u64 = 524;

/// How far apart the CPU and PPU cycle counters may drift under the
/// scheduler: the PPU never runs ahead, and the CPU leads by at most
/// one maximal step.
pub open spec fn cycles_in_sync(cpu_cycle: u64, ppu_cycle: u64) -> bool {
    &&& ppu_cycle <= 3 * cpu_cycle
    &&& 3 * cpu_cycle <= ppu_cycle + 3 * MAX_STEP_CYCLES
}

/// The drift bound in both directions, spelled out: the absolute
/// difference of `3 * cpu.cycle` and `ppu.cycle` never exceeds three
/// times the maximal step.
pub proof fn lemma_cycle_skew_bound(cpu_cycle: u64, ppu_cycle: u64)
    requires
        cycles_in_sync(cpu_cycle, ppu_cycle),
    ensures
        3 * cpu_cycle >= ppu_cycle ==> 3 * cpu_cycle - ppu_cycle <= 3 * MAX_STEP_CYCLES,
        3 * cpu_cycle < ppu_cycle ==> ppu_cycle - 3 * cpu_cycle <= 3 * MAX_STEP_CYCLES,
{
}

/// The bus with any pending OAM DMA request taken off.
pub open spec fn no_dma(mm: MbcModel) -> MbcModel {
    MbcModel { ppu: PpuModel { pending_dma: Option::None, ..mm.ppu }, ..mm }
}

/// What one console step needs of the machine when it is the CPU's
/// turn: a pending DMA reads from a side-effect-free page, and the
/// instruction fetch conditions hold in the state the CPU will see.
pub open spec fn nes_tick_ok(c: Cpu, mm: MbcModel) -> bool {
    3 * c.cycle > mm.ppu.cycle || (match mm.ppu.pending_dma {
        Option::Some(page) => dma_page_plain(page) && tick_ok(c, post_dma(no_dma(mm), page)),
        Option::None => tick_ok(c, mm),
    })
}

/// The console: it owns the CPU and the bus (which owns the PPU, the
/// controller, and the cartridge), and drives whichever is behind.
pub struct Nes {
    pub cpu: Cpu,
    pub mbc: Mbc,
    pub apu: Apu,
}

impl Nes {
    /// A powered-up console with no cartridge: both cycle counters at
    /// zero, so the two clocks start in lockstep.
    pub fn new() -> (r: Nes)
        ensures
            r.cpu == (Cpu { a: 0u8, x: 0u8, y: 0u8, pc: 0x8000u16, s: 0xFFu8, p: 0u8, cycle: 0u64 }),
            r.mbc@.ram == Seq::new(0x800, |i: int| 0u8),
            r.mbc@.ppu.wf(),
            r.mbc@.ppu.cycle == 0,
            r.mbc@.ppu.pending_dma is None,
            cycles_in_sync(r.cpu.cycle, r.mbc@.ppu.cycle),
            r.apu.data@.len() == crate::apu::SAMPLING_RATE,
            r.apu.read_position == 0,
    {
        let mapper = Mapper::new();
        let ppu = Ppu::new(true, true);
        let joypad = Joypad::new();
        let mbc = Mbc::new(mapper, ppu, joypad);
        let cpu = Cpu::new();
        Nes { cpu, mbc, apu: Apu::new() }
    }

    /// Insert a cartridge, copy its CHR into the PPU, and point the CPU
    /// at the cartridge's test entry.
    pub fn set_rom(&mut self, rom: Rom)
        requires
            old(self).mbc@.ppu.wf(),
            old(self).mbc@.ram.len() == 0x800,
            rom@.wf(),
        ensures
            final(self).mbc@.wf(),
            final(self).mbc@.rom == rom@,
            final(self).cpu.pc == crate::rom::spec_initial_pc(rom@),
            final(self).cpu.cycle == old(self).cpu.cycle,
            final(self).mbc@.ppu.cycle == old(self).mbc@.ppu.cycle,
            final(self).mbc@.ram == old(self).mbc@.ram,
            final(self).mbc@.ppu.vram.horizontal == rom@.is_horizontal(),
            final(self).mbc@.ppu.vram.chr_writable == rom@.chr_writable(),
    {
        let horizontal = rom.is_horizontal();
        let chr_writable = rom.chr_page_count() == 0;
        self.mbc.ppu.vram.horizontal = horizontal;
        self.mbc.ppu.vram.chr_writable = chr_writable;
        proof {
            assert(self.mbc@.ppu.fetched_sprites =~= old(self).mbc@.ppu.fetched_sprites);
            assert(self.mbc@.ppu.wf());
        }
        self.mbc.set_rom(rom);
        self.mbc.ppu.setup(&self.mbc.mapper);
        self.cpu.setup(&self.mbc);
    }

    /// Load the CPU's program counter from the reset vector and clear
    /// the PPU's shared write toggle.
    pub fn reset(&mut self)
        requires
            old(self).mbc@.wf(),
        ensures
            final(self).mbc@.wf(),
            final(self).cpu == (Cpu {
                pc: crate::mbc::spec_peek16(old(self).mbc@, 0xFFFC),
                s: 0xFDu8,
                ..old(self).cpu
            }),
            final(self).mbc@ == (MbcModel {
                ppu: PpuModel { write_toggle: false, ..old(self).mbc@.ppu },
                ..old(self).mbc@
            }),
    {
        self.cpu.reset(&mut self.mbc);
    }

    /// One scheduling step: the PPU ticks one dot while it is behind
    /// `3 * cpu.cycle`; otherwise the CPU runs (flushing a pending OAM
    /// DMA first, at a 513-cycle stall). The cycle counters stay in
    /// sync: the drift never exceeds `3 * MAX_STEP_CYCLES`.
    pub fn tick(&mut self) -> (r: Result<(), CpuError>)
        requires
            old(self).mbc@.wf(),
            old(self).cpu.cycle < 0x1000_0000_0000_0000,
            old(self).mbc@.ppu.cycle < 0x1000_0000_0000_0000,
            nes_tick_ok(old(self).cpu, old(self).mbc@),
        ensures
            final(self).mbc@.wf(),
            3 * old(self).cpu.cycle > old(self).mbc@.ppu.cycle ==> {
                &&& r is Ok
                &&& final(self).cpu == old(self).cpu
                &&& final(self).mbc@ == (MbcModel {
                    ppu: spec_ppu_tick(old(self).mbc@.ppu),
                    ..old(self).mbc@
                })
            },
            3 * old(self).cpu.cycle <= old(self).mbc@.ppu.cycle && old(
                self,
            ).mbc@.ppu.pending_dma is None ==> cpu_tick_rel(
                old(self).cpu,
                old(self).mbc@,
                final(self).cpu,
                final(self).mbc@,
                r,
            ),
            3 * old(self).cpu.cycle <= old(self).mbc@.ppu.cycle && old(
                self,
            ).mbc@.ppu.pending_dma is Some ==> cpu_tick_rel(
                Cpu { cycle: (old(self).cpu.cycle + 513) as u64, ..old(self).cpu },
                post_dma(no_dma(old(self).mbc@), old(self).mbc@.ppu.pending_dma->0),
                final(self).cpu,
                final(self).mbc@,
                r,
            ),
            cycles_in_sync(old(self).cpu.cycle, old(self).mbc@.ppu.cycle) ==> cycles_in_sync(
                final(self).cpu.cycle,
                final(self).mbc@.ppu.cycle,
            ),
    {
        let cpu_cycle = self.cpu.cycle();
        let ppu_cycle = self.mbc.ppu.cycle();
        if cpu_cycle * 3 > ppu_cycle {
            self.mbc.ppu.tick();
            Ok(())
        } else {
            self.tick_cpu_turn()
        }
    }

    /// The CPU's half of a scheduling step: flush any pending OAM DMA
    /// (513 cycles), then run one CPU tick; the CPU gains at most
    /// `MAX_STEP_CYCLES` cycles and the PPU stands still.
    #[verifier::rlimit(100)]
    fn tick_cpu_turn(&mut self) -> (r: Result<(), CpuError>)
        requires
            old(self).mbc@.wf(),
            old(self).cpu.cycle < 0x1000_0000_0000_0000,
            3 * old(self).cpu.cycle <= old(self).mbc@.ppu.cycle,
            nes_tick_ok(old(self).cpu, old(self).mbc@),
        ensures
            final(self).mbc@.wf(),
            old(self).mbc@.ppu.pending_dma is None ==> cpu_tick_rel(
                old(self).cpu,
                old(self).mbc@,
                final(self).cpu,
                final(self).mbc@,
                r,
            ),
            old(self).mbc@.ppu.pending_dma is Some ==> cpu_tick_rel(
                Cpu { cycle: (old(self).cpu.cycle + 513) as u64, ..old(self).cpu },
                post_dma(no_dma(old(self).mbc@), old(self).mbc@.ppu.pending_dma->0),
                final(self).cpu,
                final(self).mbc@,
                r,
            ),
            old(self).cpu.cycle <= final(self).cpu.cycle <= old(self).cpu.cycle + MAX_STEP_CYCLES,
            final(self).mbc@.ppu.cycle == old(self).mbc@.ppu.cycle,
    {
        let ghost pre_dma_mm = self.mbc@;
        match self.mbc.ppu.take_pending_dma() {
            Some(page) => {
                self.mbc.run_oam_dma(page);
                self.cpu.cycle = self.cpu.cycle + 513;
            },
            None => {},
        }
        proof {
            if pre_dma_mm.ppu.pending_dma is Some {
                assert(self.mbc@ == post_dma(no_dma(pre_dma_mm), pre_dma_mm.ppu.pending_dma->0));
            } else {
                assert(self.mbc@ =~= pre_dma_mm);
            }
        }
        let ghost mid_cpu = self.cpu;
        let ghost mid_mm = self.mbc@;
        let r = self.cpu.tick(&mut self.mbc);
        proof {
            crate::cpu::lemma_tick_rel_cycle_bound(mid_cpu, mid_mm, self.cpu, self.mbc@, r);
        }
        r
    }

    /// The visible frame size in pixels.
    pub fn screen_size(&self) -> (r: (u32, u32))
        ensures
            r == (256u32, 240u32),
    {
        (256, 240)
    }

    /// Hand the controller the buttons held right now.
    pub fn set_joypad_button_state(&mut self, state: u8)
        ensures
            final(self).cpu == old(self).cpu,
            final(self).mbc@ == (MbcModel { joypad: final(self).mbc@.joypad, ..old(self).mbc@ }),
            final(self).mbc@.joypad == (if old(self).mbc@.joypad.register & 0x01 == 0x01 {
                Joypad { state, counter: 0u8, live: state, ..old(self).mbc@.joypad }
            } else {
                Joypad { live: state, ..old(self).mbc@.joypad }
            }),
    {
        self.mbc.joypad.set_button_state(state);
    }

    /// Whether a frame has completed since the flag was last cleared.
    pub fn screen_rendered(&self) -> (r: bool)
        ensures
            r == self.mbc@.ppu.done_rendered,
    {
        self.mbc.ppu.screen_rendered()
    }

    /// Clear the frame-completed flag; returns whether it was set.
    pub fn reset_screen_rendered(&mut self) -> (r: bool)
        ensures
            r == old(self).mbc@.ppu.done_rendered,
            final(self).mbc@ == (MbcModel {
                ppu: PpuModel { done_rendered: false, ..old(self).mbc@.ppu },
                ..old(self).mbc@
            }),
            final(self).cpu == old(self).cpu,
    {
        let r = self.mbc.ppu.screen_rendered();
        self.mbc.ppu.reset_screen_rendered();
        r
    }

    /// Fill `data` from the APU stub's sample buffer; see
    /// `Apu::render_sound_buffer`.
    pub fn render_sound_buffer(&mut self, data: &mut Vec<u8>)
        requires
            old(self).apu.data@.len() == crate::apu::SAMPLING_RATE,
            old(self).apu.read_position < crate::apu::SAMPLING_RATE,
        ensures
            final(self).apu.data == old(self).apu.data,
            final(self).apu.read_position < crate::apu::SAMPLING_RATE,
            final(self).cpu == old(self).cpu,
            final(self).mbc@ == old(self).mbc@,
            final(data)@.len() == old(data)@.len(),
    {
        self.apu.render_sound_buffer(data);
    }

    /// Convert the current frame to RGBA bytes; see `Ppu::render_image`.
    pub fn render_image(&self, img: &mut Vec<u8>)
        requires
            self.mbc@.ppu.wf(),
            old(img)@.len() == 256 * 240 * 4,
        ensures
            final(img)@.len() == 256 * 240 * 4,
            forall|i: int|
                0 <= i < 256 * 240 ==> #[trigger] crate::ppu::rgb_triple_at(final(img)@, i)
                    == crate::ppu::spec_palette_color(self.mbc@.ppu.frame[i]),
    {
        self.mbc.ppu.render_image(img);
    }
}

} // verus!
