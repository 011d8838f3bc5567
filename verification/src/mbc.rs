//! The memory bus: routes CPU addresses to internal RAM, the PPU
//! register window, the controller ports, and the cartridge PRG window,
//! and performs OAM DMA.

use vstd::prelude::*;

use crate::joypad::Joypad;
use crate::joypad::spec_read_bit;
use crate::joypad::spec_read_next;
use crate::mapper::Mapper;
use crate::ppu::Ppu;
use crate::ppu::PpuModel;
use crate::ppu::ppu_read_next;
use crate::ppu::ppu_read_val;
use crate::ppu::ppu_write_next;
use crate::rom::Rom;
use crate::rom::RomModel;
use crate::rom::spec_initial_pc;

verus! {

/// Mathematical model of the bus and everything behind it.
#[verifier::ext_equal]
pub ghost struct MbcModel {
    pub ram: Seq<u8>,
    pub ppu: PpuModel,
    pub joypad: Joypad,
    pub rom: RomModel,
}

impl MbcModel {
    /// 2 KiB of RAM, a well-formed PPU, and a loaded cartridge.
    pub open spec fn wf(self) -> bool {
        &&& self.ram.len() == 0x800
        &&& self.ppu.wf()
        &&& self.rom.wf()
    }
}

/// Whether a CPU read from `addr` is free of side effects: everything
/// but the PPU register window and the first controller port.
pub open spec fn plain_addr(addr: u16) -> bool {
    addr < 0x2000 || (0x4000 <= addr && addr != 0x4016)
}

/// The PPU register a bus address in `[0x2000, 0x4000)` selects: the
/// eight registers repeat through the window.
pub open spec fn ppu_reg_of(addr: u16) -> u16 {
    (0x2000 + addr % 8) as u16
}

/// The value a CPU read from `addr` returns.
pub open spec fn mbc_read_val(m: MbcModel, addr: u16) -> u8 {
    if addr < 0x2000 {
        m.ram[(addr % 0x800) as int]
    } else if addr < 0x4000 {
        ppu_read_val(m.ppu, ppu_reg_of(addr))
    } else if addr == 0x4016 {
        spec_read_bit(m.joypad)
    } else if addr < 0x8000 {
        0
    } else {
        m.rom.prg_byte((addr - 0x8000) as u16)
    }
}

/// The bus state after a CPU read from `addr`.
pub open spec fn mbc_read_next(m: MbcModel, addr: u16) -> MbcModel {
    if 0x2000 <= addr < 0x4000 {
        MbcModel { ppu: ppu_read_next(m.ppu, ppu_reg_of(addr)), ..m }
    } else if addr == 0x4016 {
        MbcModel { joypad: spec_read_next(m.joypad), ..m }
    } else {
        m
    }
}

/// The bus state after a CPU write of `value` to `addr` below the PRG
/// window: RAM, the PPU registers, the `$4014` DMA port, the controller
/// ports; everything else is ignored.
pub open spec fn mbc_write_next(m: MbcModel, addr: u16, value: u8) -> MbcModel {
    if addr < 0x2000 {
        MbcModel { ram: m.ram.update((addr % 0x800) as int, value), ..m }
    } else if addr < 0x4000 {
        MbcModel { ppu: ppu_write_next(m.ppu, ppu_reg_of(addr), value), ..m }
    } else if addr == 0x4014 {
        MbcModel { ppu: ppu_write_next(m.ppu, 0x4014, value), ..m }
    } else if addr == 0x4016 || addr == 0x4017 {
        MbcModel {
            joypad: (if addr == 0x4016 {
                if value & 0x01 == 0x01 {
                    Joypad { register: value, state: m.joypad.live, counter: 0u8, ..m.joypad }
                } else {
                    Joypad { register: value, ..m.joypad }
                }
            } else {
                m.joypad
            }),
            ..m
        }
    } else {
        m
    }
}

/// The memory bus: internal RAM plus the PPU, the controller, and the
/// cartridge slot it routes to.
pub struct Mbc {
    pub ram: Vec<u8>,
    pub ppu: Ppu,
    pub joypad: Joypad,
    pub mapper: Mapper,
}

impl View for Mbc {
    type V = MbcModel;

    open spec fn view(&self) -> MbcModel {
        MbcModel { ram: self.ram@, ppu: self.ppu@, joypad: self.joypad, rom: self.mapper@ }
    }
}

impl Mbc {
    /// A bus over the given collaborators, with zeroed RAM.
    pub fn new(mapper: Mapper, ppu: Ppu, joypad: Joypad) -> (r: Mbc)
        ensures
            r@.ram == Seq::new(0x800, |i: int| 0u8),
            r@.ppu == ppu@,
            r@.joypad == joypad,
            r@.rom == mapper@,
    {
        let r = Mbc { ram: crate::vram::zero_vec(0x800), ppu, joypad, mapper };
        proof {
            assert(r@.ram =~= Seq::new(0x800, |i: int| 0u8));
        }
        r
    }

    /// Insert a cartridge.
    pub fn set_rom(&mut self, rom: Rom)
        ensures
            final(self)@ == (MbcModel { rom: rom@, ..old(self)@ }),
    {
        self.mapper.set_rom(rom);
    }

    /// Starting program counter used by test images.
    pub fn initial_pc(&self) -> (r: u16)
        requires
            self@.rom.wf(),
        ensures
            r == spec_initial_pc(self@.rom),
    {
        self.mapper.initial_pc()
    }

    /// A CPU read: may change the PPU (`$2002`, `$2007`) or the
    /// controller (`$4016`); never fails.
    pub fn read(&mut self, addr: u16) -> (r: u8)
        requires
            old(self)@.wf(),
        ensures
            final(self)@.wf(),
            r == mbc_read_val(old(self)@, addr),
            final(self)@ == mbc_read_next(old(self)@, addr),
    {
        if addr < 0x2000 {
            self.ram[(addr % 0x800) as usize]
        } else if addr < 0x4000 {
            self.ppu.read(0x2000 + addr % 8)
        } else if addr == 0x4016 || addr == 0x4017 {
            self.joypad.read(addr)
        } else if addr < 0x8000 {
            0
        } else {
            self.mapper.read_prg(addr - 0x8000)
        }
    }

    /// A side-effect-free read, for addresses where reading cannot
    /// change the machine.
    pub fn peek(&self, addr: u16) -> (r: u8)
        requires
            self@.wf(),
            plain_addr(addr),
        ensures
            r == mbc_read_val(self@, addr),
    {
        if addr < 0x2000 {
            self.ram[(addr % 0x800) as usize]
        } else if addr < 0x8000 {
            0
        } else {
            self.mapper.read_prg(addr - 0x8000)
        }
    }

    /// A 16-bit little-endian read: two successive reads.
    pub fn read16(&mut self, addr: u16) -> (r: u16)
        requires
            old(self)@.wf(),
            addr < 0xFFFF,
        ensures
            final(self)@.wf(),
            r == mbc_read_val(old(self)@, addr) + 256 * mbc_read_val(
                mbc_read_next(old(self)@, addr),
                (addr + 1) as u16,
            ),
            final(self)@ == mbc_read_next(mbc_read_next(old(self)@, addr), (addr + 1) as u16),
    {
        let low = self.read(addr) as u16;
        let high = self.read(addr + 1) as u16;
        high * 256 + low
    }

    /// A side-effect-free 16-bit little-endian read.
    pub fn peek16(&self, addr: u16) -> (r: u16)
        requires
            self@.wf(),
            addr < 0xFFFF,
            plain_addr(addr),
            plain_addr((addr + 1) as u16),
        ensures
            r == spec_peek16(self@, addr),
    {
        let low = self.peek(addr) as u16;
        let high = self.peek(addr + 1) as u16;
        high * 256 + low
    }

    /// A CPU write. The PRG window is read-only; stores there are left
    /// out by contract.
    pub fn write(&mut self, addr: u16, value: u8)
        requires
            old(self)@.wf(),
            addr < 0x8000,
        ensures
            final(self)@.wf(),
            final(self)@ == mbc_write_next(old(self)@, addr, value),
    {
        if addr < 0x2000 {
            self.ram[(addr % 0x800) as usize] = value;
        } else if addr < 0x4000 {
            self.ppu.write(0x2000 + addr % 8, value);
        } else if addr == 0x4014 {
            self.ppu.write(0x4014, value);
        } else if addr == 0x4016 || addr == 0x4017 {
            self.joypad.write(addr, value);
        }
    }

    /// Whether VBlank NMIs are enabled.
    pub fn is_enable_nmi(&self) -> (r: bool)
        ensures
            r == (self@.ppu.control & crate::ppu::CTRL_ENABLE_NMI != 0),
    {
        self.ppu.is_enable_nmi()
    }

    /// Poll the NMI line, consuming it when an NMI is to be dispatched.
    pub fn is_raise_nmi(&mut self) -> (r: bool)
        ensures
            r == (old(self)@.ppu.control & crate::ppu::CTRL_ENABLE_NMI != 0
                && old(self)@.ppu.is_raise_nmi),
            final(self)@ == (MbcModel {
                ppu: PpuModel { is_raise_nmi: old(self)@.ppu.is_raise_nmi && !r, ..old(self)@.ppu },
                ..old(self)@
            }),
    {
        self.ppu.is_raise_nmi()
    }

    /// Copy 256 bytes from CPU page `page` into OAM, starting at the
    /// current OAMADDR and wrapping. When every source byte sits in a
    /// side-effect-free page, OAM ends up holding exactly the bus bytes
    /// and nothing else changes.
    pub fn run_oam_dma(&mut self, page: u8)
        requires
            old(self)@.wf(),
        ensures
            final(self)@.wf(),
            dma_page_plain(page) ==> {
                &&& forall|i: int|
                    0 <= i < 256 ==> #[trigger] final(self)@.ppu.oam[(old(self)@.ppu.oam_address
                        + i) % 256] == mbc_read_val(old(self)@, (page * 256 + i) as u16)
                &&& final(self)@ == post_dma(old(self)@, page)
            },
            final(self)@.ram == old(self)@.ram,
            final(self)@.rom == old(self)@.rom,
            final(self)@.ppu.control == old(self)@.ppu.control,
            final(self)@.ppu.is_raise_nmi == old(self)@.ppu.is_raise_nmi,
            final(self)@.ppu.pending_dma == old(self)@.ppu.pending_dma,
            final(self)@.ppu.cycle == old(self)@.ppu.cycle,
            final(self)@.ppu.current_line == old(self)@.ppu.current_line,
            final(self)@.ppu.current_cycle == old(self)@.ppu.current_cycle,
    {
        let start: usize = self.ppu.oam_address as usize;
        let base: u16 = (page as u16) << 8;
        proof {
            assert((page as u16) << 8 == page * 256) by (bit_vector);
        }
        let mut i: usize = 0;
        while i < 256
            invariant
                old(self)@.wf(),
                self@.wf(),
                start == old(self)@.ppu.oam_address,
                base == page * 256,
                i <= 256,
                self@.ram == old(self)@.ram,
                self@.rom == old(self)@.rom,
                self@.ppu.control == old(self)@.ppu.control,
                self@.ppu.is_raise_nmi == old(self)@.ppu.is_raise_nmi,
                self@.ppu.pending_dma == old(self)@.ppu.pending_dma,
                self@.ppu.cycle == old(self)@.ppu.cycle,
                self@.ppu.current_line == old(self)@.ppu.current_line,
                self@.ppu.current_cycle == old(self)@.ppu.current_cycle,
                dma_page_plain(page) ==> {
                    &&& forall|j: int|
                        0 <= j < i ==> #[trigger] self@.ppu.oam[(start + j) % 256] == mbc_read_val(
                            old(self)@,
                            (page * 256 + j) as u16,
                        )
                    &&& self@ == (MbcModel {
                        ppu: PpuModel { oam: self@.ppu.oam, ..old(self)@.ppu },
                        ..old(self)@
                    })
                },
            decreases 256 - i,
        {
            proof {
                if dma_page_plain(page) {
                    assert(plain_addr((base + i) as u16));
                }
            }
            let v = self.read(base + i as u16);
            let idx: usize = (start + i) % 256;
            self.ppu.oam_ram[idx] = v;
            proof {
                if dma_page_plain(page) {
                    assert(self@.ppu.oam =~= self@.ppu.oam);
                    assert(self@ =~= (MbcModel {
                        ppu: PpuModel { oam: self@.ppu.oam, ..old(self)@.ppu },
                        ..old(self)@
                    }));
                    assert forall|j: int| 0 <= j < i + 1 implies #[trigger] self@.ppu.oam[(start
                        + j) % 256] == mbc_read_val(old(self)@, (page * 256 + j) as u16) by {
                        if j < i {
                            assert((start + j) % 256 != (start + i) % 256);
                        }
                    }
                }
            }
            i += 1;
        }
        proof {
            if dma_page_plain(page) {
                assert forall|j: int| 0 <= j < 256 implies #[trigger] self@.ppu.oam[j] == dma_oam(
                    old(self)@,
                    page,
                )[j] by {
                    let i = (j - old(self)@.ppu.oam_address + 256) % 256;
                    assert(0 <= i < 256);
                    assert((old(self)@.ppu.oam_address + i) % 256 == j);
                    assert(self@.ppu.oam[(old(self)@.ppu.oam_address + i) % 256] == mbc_read_val(
                        old(self)@,
                        (page * 256 + i) as u16,
                    ));
                }
                assert(self@.ppu.oam =~= dma_oam(old(self)@, page));
                assert(self@ =~= post_dma(old(self)@, page));
            }
        }
    }
}

/// A 16-bit little-endian value read from two side-effect-free
/// addresses.
pub open spec fn spec_peek16(m: MbcModel, addr: u16) -> u16 {
    (mbc_read_val(m, addr) + 256 * mbc_read_val(m, (addr + 1) as u16)) as u16
}

/// Whether every address of CPU page `page` is side-effect-free to
/// read: RAM pages, and everything from `$4100` up.
pub open spec fn dma_page_plain(page: u8) -> bool {
    page < 0x20 || page >= 0x41
}

/// The OAM contents after a DMA from a side-effect-free page: entry `j`
/// holds the bus byte whose offset within the page is `j` minus the
/// starting OAMADDR, wrapping.
pub open spec fn dma_oam(m: MbcModel, page: u8) -> Seq<u8> {
    Seq::new(
        256,
        |j: int| mbc_read_val(m, (page * 256 + ((j - m.ppu.oam_address + 256) % 256)) as u16),
    )
}

/// The machine after a DMA from a side-effect-free page: only OAM
/// changes.
pub open spec fn post_dma(m: MbcModel, page: u8) -> MbcModel {
    MbcModel { ppu: PpuModel { oam: dma_oam(m, page), ..m.ppu }, ..m }
}


} // verus!
