//! Mapper 0 (NROM): routes PRG-window reads to the cartridge and exposes
//! its CHR blob and mirroring mode.

use vstd::prelude::*;

use crate::rom::Rom;
use crate::rom::RomModel;
use crate::rom::bytes_view;
use crate::rom::spec_initial_pc;

verus! {

/// The cartridge slot: holds the loaded image and decodes PRG addresses.
pub struct Mapper {
    pub rom: Rom,
}

impl View for Mapper {
    type V = RomModel;

    open spec fn view(&self) -> RomModel {
        self.rom@
    }
}

impl Mapper {
    /// An empty slot; no cartridge loaded yet.
    pub fn new() -> (r: Mapper)
        ensures
            r@.prg_page_count == 0,
            r@.chr_page_count == 0,
    {
        Mapper { rom: Rom::empty() }
    }

    /// Insert a cartridge.
    pub fn set_rom(&mut self, rom: Rom)
        ensures
            final(self)@ == rom@,
    {
        self.rom = rom;
    }

    /// The byte shown at `addr` in the PRG window `[0, 0x8000)`.
    pub fn read_prg(&self, addr: u16) -> (r: u8)
        requires
            self@.wf(),
            addr < 0x8000,
        ensures
            r == self@.prg_byte(addr),
    {
        self.rom.read_prg(addr)
    }

    /// The cartridge's CHR blob.
    pub fn chr_rom(&self) -> (r: &bytes::Bytes)
        ensures
            bytes_view(*r) == self@.chr,
    {
        self.rom.chr()
    }

    /// Horizontal nametable mirroring.
    pub fn is_horizontal(&self) -> (r: bool)
        ensures
            r == self@.is_horizontal(),
    {
        self.rom.is_horizontal()
    }

    /// Starting program counter used by test images.
    pub fn initial_pc(&self) -> (r: u16)
        requires
            self@.wf(),
        ensures
            r == spec_initial_pc(self@),
    {
        self.rom.initial_pc()
    }
}

} // verus!
