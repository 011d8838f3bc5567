//! Picture processing unit: registers, OAM, the 341x262 dot grid, tile
//! and sprite fetching, and pixel composition into an indexed frame.

use vstd::prelude::*;

use crate::vram::Vram;
use crate::vram::VramModel;
use crate::vram::buffered_read_next;
use crate::vram::buffered_read_value;
use crate::vram::read_at;
use crate::vram::set_addr_next;
use crate::vram::write_at;
use crate::rom::RomModel;
use crate::mapper::Mapper;

verus! {

/// Dots per scanline.
pub const CYCLE_PER_LINE: i16 = 341;

/// Scanlines per field, the pre-render line included.
pub const SCANLINE_PER_SCREEN: i16 = 262;

/// Visible frame width in pixels.
pub const SCREEN_WIDTH: i32 = 256;

/// Visible frame height in pixels.
pub const SCREEN_HEIGHT: i32 = 240;

/// Control-register bit enabling the NMI at VBlank entry.
pub const CTRL_ENABLE_NMI: u8 = 0x80;

/// Control-register bit selecting 8x16 sprites.
pub const CTRL_SPRITE_SIZE_16: u8 = 0x20;

/// Control-register bit selecting `$1000` as the background pattern base.
pub const CTRL_BG_PATTERN_ADDRESS: u8 = 0x10;

/// Control-register bit selecting `$1000` as the sprite pattern base.
pub const CTRL_SPRITE_PATTERN_ADDRESS: u8 = 0x08;

/// Control-register bit selecting a 32-byte address increment.
pub const CTRL_ADDR_INCREMENT_32: u8 = 0x04;

/// Status bit reporting sprite overflow.
pub const STATUS_SPRITE_OVERFLOW: u8 = 0x20;

/// Status bit reporting a sprite-zero hit.
pub const STATUS_SPRITE_ZERO_HIT: u8 = 0x40;

/// Status bit reporting VBlank.
pub const STATUS_VBLANK: u8 = 0x80;

/// An 8x8 tile image: two 8-byte bitplanes.
pub struct Pattern {
    pub data: Vec<u8>,
}

impl View for Pattern {
    type V = Seq<u8>;

    open spec fn view(&self) -> Seq<u8> {
        self.data@
    }
}

/// The 2-bit colour index of a tile pixel: bit `7-x` of plane 0 gives the
/// low bit, the same bit of plane 1 the high bit.
pub open spec fn spec_color_index(data: Seq<u8>, x: u8, y: u8) -> u8 {
    ((((data[y as int] << x) & 0x80) >> 7) | (((data[8 + y as int] << x) & 0x80) >> 6)) & 0x03
}

impl Pattern {
    /// Wrap 16 bytes of pattern data.
    pub fn new(data: Vec<u8>) -> (r: Pattern)
        ensures
            r@ == data@,
    {
        Pattern { data }
    }

    /// The 2-bit colour index at `(x, y)` within the tile.
    pub fn color_index(&self, x: u8, y: u8) -> (r: u8)
        requires
            self@.len() == 16,
            x < 8,
            y < 8,
        ensures
            r == spec_color_index(self@, x, y),
            r < 4,
    {
        let low = (self.data[y as usize] << x) & 0x80;
        let high = (self.data[8 + y as usize] << x) & 0x80;
        let r = ((low >> 7) | (high >> 6)) & 0x03;
        proof {
            assert(r < 4) by (bit_vector)
                requires
                    r == ((((low >> 7) | (high >> 6)) & 0x03) as u8),
            ;
        }
        r
    }

    /// Tile width in pixels.
    pub fn width(&self) -> (r: u16)
        ensures
            r == 8,
    {
        8
    }

    /// Tile height in pixels.
    pub fn height(&self) -> (r: u16)
        ensures
            r == 8,
    {
        8
    }
}

/// An attribute byte: palette high bits for a 2x2-tile quadrant, and for
/// sprites the palette plus flip flags.
#[derive(Clone, Copy, Debug, PartialEq, Eq, Structural)]
pub struct Attribute {
    pub attribute: u8,
}

/// Palette high bits (already shifted left by 2) that an attribute byte
/// assigns to the tile at coarse coordinates `(tile_x, tile_y)`: the
/// quadrant picks a shift of 0, 2, 4 or 6.
pub open spec fn spec_bg_attr_color(attr: u8, tile_x: u16, tile_y: u16) -> u8 {
    let left = tile_x % 4 < 2;
    let top = tile_y % 4 < 2;
    let bits = if left && top {
        attr & 0x03
    } else if !left && top {
        (attr >> 2) & 0x03
    } else if left && !top {
        (attr >> 4) & 0x03
    } else {
        (attr >> 6) & 0x03
    };
    bits << 2
}

impl Attribute {
    /// Wrap an attribute byte.
    pub fn new(attr: u8) -> (r: Attribute)
        ensures
            r.attribute == attr,
    {
        Attribute { attribute: attr }
    }

    /// Palette high bits for the background tile at coarse coordinates
    /// `(pattern_x, pattern_y)`.
    pub fn table_color_for_background(&self, pattern_x: u16, pattern_y: u16) -> (r: u8)
        ensures
            r == spec_bg_attr_color(self.attribute, pattern_x, pattern_y),
    {
        let attr_table_color = if pattern_x & 0x03 < 2 && pattern_y & 0x03 < 2 {
            self.attribute & 0x03
        } else if !(pattern_x & 0x03 < 2) && pattern_y & 0x03 < 2 {
            (self.attribute >> 2) & 0x03
        } else if pattern_x & 0x03 < 2 && !(pattern_y & 0x03 < 2) {
            (self.attribute >> 4) & 0x03
        } else {
            (self.attribute >> 6) & 0x03
        };
        proof {
            assert(pattern_x & 0x03 == pattern_x % 4) by (bit_vector);
            assert(pattern_y & 0x03 == pattern_y % 4) by (bit_vector);
        }
        attr_table_color << 2
    }

    /// Palette high bits of a sprite: bits 0..2 of its attribute byte.
    pub fn table_color_for_sprite(&self) -> (r: u8)
        ensures
            r == (self.attribute & 0x03) << 2,
    {
        (self.attribute & 0x03) << 2
    }

    /// Sprite horizontal flip (bit 6).
    pub fn is_frip_horizontally(&self) -> (r: bool)
        ensures
            r == (self.attribute & 0x40 != 0),
    {
        (self.attribute & 0x40) != 0
    }

    /// Sprite vertical flip (bit 7).
    pub fn is_frip_vertically(&self) -> (r: bool)
        ensures
            r == (self.attribute & 0x80 != 0),
    {
        (self.attribute & 0x80) != 0
    }
}

/// Model of one fetched sprite.
#[verifier::ext_equal]
pub ghost struct SpriteModel {
    pub y: u16,
    pub x: u16,
    pub oam_index: int,
    pub pattern: Seq<u8>,
    pub attr: u8,
}

/// A sprite fetched for the current scanline.
pub struct Sprite {
    pub y: u16,
    pub x: u16,
    pub oam_index: u8,
    pub pattern: Pattern,
    pub attribute: Attribute,
}

impl View for Sprite {
    type V = SpriteModel;

    open spec fn view(&self) -> SpriteModel {
        SpriteModel {
            y: self.y,
            x: self.x,
            oam_index: self.oam_index as int,
            pattern: self.pattern@,
            attr: self.attribute.attribute,
        }
    }
}

impl Sprite {
    /// Whether the sprite's 8-pixel column range covers dot `x`.
    pub fn in_bounding_x(&self, x: u16) -> (r: bool)
        ensures
            r == sprite_covers_x(self@, x),
    {
        (self.x <= x) && ((x as u32) < (self.x as u32) + 8)
    }

    /// Whether the sprite's row range covers scanline `y`, for the given
    /// sprite height.
    pub fn in_bounding_y(&self, y: u16, height: u16) -> (r: bool)
        requires
            height == 8 || height == 16,
        ensures
            r == (self@.y <= y < self@.y + height),
    {
        (self.y <= y) && ((y as u32) < (self.y as u32) + (height as u32))
    }
}

/// Whether a sprite's 8-pixel column range covers dot `x`.
pub open spec fn sprite_covers_x(s: SpriteModel, x: u16) -> bool {
    s.x <= x < s.x + 8
}

/// The 2-bit colour index a sprite shows at dot `x` of scanline `y`,
/// honouring its flip bits. Only the top 8x8 tile of a sprite is
/// modelled.
pub open spec fn sprite_color_index(s: SpriteModel, x: u16, y: u16) -> u8 {
    let sx0 = (x - s.x) % 8;
    let sy0 = (y - s.y) % 8;
    let sx = if s.attr & 0x40 != 0 {
        (7 - sx0) as u8
    } else {
        sx0 as u8
    };
    let sy = if s.attr & 0x80 != 0 {
        (7 - sy0) as u8
    } else {
        sy0 as u8
    };
    spec_color_index(s.pattern, sx, sy)
}

/// The background tile fetched for the current 8-dot span.
pub struct BackgroundImage {
    pub pattern: Pattern,
    pub attribute: Attribute,
}

/// Model of the fetched background tile.
#[verifier::ext_equal]
pub ghost struct BgModel {
    pub pattern: Seq<u8>,
    pub attr: u8,
}

impl View for BackgroundImage {
    type V = BgModel;

    open spec fn view(&self) -> BgModel {
        BgModel { pattern: self.pattern@, attr: self.attribute.attribute }
    }
}

/// Mathematical model of the whole PPU.
#[verifier::ext_equal]
pub ghost struct PpuModel {
    pub control: u8,
    pub mask: u8,
    pub status: u8,
    pub oam_address: u8,
    pub scroll_x: u8,
    pub scroll_y: u8,
    pub write_toggle: bool,
    pub vram: VramModel,
    pub oam: Seq<u8>,
    pub cycle: u64,
    pub current_line: i16,
    pub current_cycle: i16,
    pub is_raise_nmi: bool,
    pub done_rendered: bool,
    pub frame: Seq<u8>,
    pub fetched_bg: BgModel,
    pub fetched_sprites: Seq<SpriteModel>,
    pub pending_dma: Option<u8>,
}

impl PpuModel {
    /// Sizes, grid bounds, and the unused low status bits held at zero.
    pub open spec fn wf(self) -> bool {
        &&& self.vram.wf()
        &&& self.oam.len() == 0x100
        &&& self.frame.len() == 256 * 240
        &&& self.fetched_bg.pattern.len() == 16
        &&& forall|i: int|
            0 <= i < self.fetched_sprites.len() ==> (#[trigger] self.fetched_sprites[i]).pattern.len() == 16
        &&& 0 <= self.current_cycle < 341
        &&& -1 <= self.current_line < 261
    }

    /// VRAM address increment selected by the control register.
    pub open spec fn vram_increment(self) -> u16 {
        if self.control & CTRL_ADDR_INCREMENT_32 != 0 {
            32
        } else {
            1
        }
    }

    /// Background pattern base selected by the control register.
    pub open spec fn bg_pattern_base(self) -> u16 {
        if self.control & CTRL_BG_PATTERN_ADDRESS != 0 {
            0x1000
        } else {
            0
        }
    }

    /// Sprite pattern base selected by the control register.
    pub open spec fn sprite_pattern_base(self) -> u16 {
        if self.control & CTRL_SPRITE_PATTERN_ADDRESS != 0 {
            0x1000
        } else {
            0
        }
    }

    /// Sprite height selected by the control register.
    pub open spec fn sprite_height(self) -> u16 {
        if self.control & CTRL_SPRITE_SIZE_16 != 0 {
            16
        } else {
            8
        }
    }

    /// Base address of the nametable selected by the control register.
    pub open spec fn name_table_base(self) -> u16 {
        if self.control & 0x03 == 0 {
            0x2000
        } else if self.control & 0x03 == 1 {
            0x2400
        } else if self.control & 0x03 == 2 {
            0x2800
        } else {
            0x2C00
        }
    }
}

/// Value a CPU read from PPU register `addr` returns; write-only
/// registers read as open-bus zero.
pub open spec fn ppu_read_val(p: PpuModel, addr: u16) -> u8 {
    if addr == 0x2002 {
        p.status
    } else if addr == 0x2004 {
        p.oam[p.oam_address as int]
    } else if addr == 0x2007 {
        buffered_read_value(p.vram, p.vram.vaddr)
    } else {
        0
    }
}

/// PPU state after a CPU read from register `addr`: `$2002` clears
/// VBlank and the write toggle; `$2007` refills the buffer and advances
/// the address.
pub open spec fn ppu_read_next(p: PpuModel, addr: u16) -> PpuModel {
    if addr == 0x2002 {
        PpuModel { status: (p.status & 0x7F) as u8, write_toggle: false, ..p }
    } else if addr == 0x2007 {
        PpuModel {
            vram: VramModel {
                vaddr: ((p.vram.vaddr + p.vram_increment()) % 0x4000) as u16,
                ..buffered_read_next(p.vram, p.vram.vaddr)
            },
            ..p
        }
    } else {
        p
    }
}

/// PPU state after a CPU write to register `addr` (`$2000`-`$2007`, or
/// `$4014` which schedules OAM DMA); `$2002` is read-only and the write
/// is dropped.
pub open spec fn ppu_write_next(p: PpuModel, addr: u16, data: u8) -> PpuModel {
    if addr == 0x2000 {
        PpuModel { control: data, ..p }
    } else if addr == 0x2001 {
        PpuModel { mask: data, ..p }
    } else if addr == 0x2003 {
        PpuModel { oam_address: data, ..p }
    } else if addr == 0x2004 {
        PpuModel {
            oam: p.oam.update(p.oam_address as int, data),
            oam_address: ((p.oam_address + 1) % 0x100) as u8,
            ..p
        }
    } else if addr == 0x2005 {
        if !p.write_toggle {
            PpuModel { scroll_x: data, write_toggle: true, ..p }
        } else {
            PpuModel { scroll_y: data, write_toggle: false, ..p }
        }
    } else if addr == 0x2006 {
        PpuModel {
            vram: VramModel {
                vaddr: set_addr_next(p.vram.vaddr, data, !p.write_toggle),
                ..p.vram
            },
            write_toggle: !p.write_toggle,
            ..p
        }
    } else if addr == 0x2007 {
        PpuModel {
            vram: VramModel {
                vaddr: ((p.vram.vaddr + p.vram_increment()) % 0x4000) as u16,
                ..write_at(p.vram, p.vram.vaddr, data)
            },
            ..p
        }
    } else if addr == 0x4014 {
        PpuModel { pending_dma: Some(data), ..p }
    } else {
        p
    }
}

/// The picture processing unit.
pub struct Ppu {
    pub control: u8,
    pub mask: u8,
    pub status: u8,
    pub oam_address: u8,
    pub scroll_x: u8,
    pub scroll_y: u8,
    pub write_toggle: bool,
    pub vram: Vram,
    pub oam_ram: Vec<u8>,
    pub cycle: u64,
    pub current_line: i16,
    pub current_cycle: i16,
    pub is_raise_nmi: bool,
    pub done_rendered: bool,
    pub output_frame: Vec<u8>,
    pub fetched_background: BackgroundImage,
    pub fetched_sprites: Vec<Sprite>,
    pub pending_dma: Option<u8>,
}

impl View for Ppu {
    type V = PpuModel;

    open spec fn view(&self) -> PpuModel {
        PpuModel {
            control: self.control,
            mask: self.mask,
            status: self.status,
            oam_address: self.oam_address,
            scroll_x: self.scroll_x,
            scroll_y: self.scroll_y,
            write_toggle: self.write_toggle,
            vram: self.vram@,
            oam: self.oam_ram@,
            cycle: self.cycle,
            current_line: self.current_line,
            current_cycle: self.current_cycle,
            is_raise_nmi: self.is_raise_nmi,
            done_rendered: self.done_rendered,
            frame: self.output_frame@,
            fetched_bg: self.fetched_background@,
            fetched_sprites: Seq::new(
                self.fetched_sprites@.len(),
                |i: int| self.fetched_sprites@[i]@,
            ),
            pending_dma: self.pending_dma,
        }
    }
}

impl Ppu {
    /// A powered-up PPU for a cartridge with the given mirroring and CHR
    /// writability; the grid starts on the pre-render line.
    pub fn new(is_horizontal: bool, chr_writable: bool) -> (r: Ppu)
        ensures
            r@.wf(),
            r@.control == 0,
            r@.mask == 0,
            r@.status == 0,
            r@.oam_address == 0,
            r@.scroll_x == 0,
            r@.scroll_y == 0,
            r@.write_toggle == false,
            r@.vram.horizontal == is_horizontal,
            r@.vram.chr_writable == chr_writable,
            r@.vram.vaddr == 0,
            r@.oam == Seq::new(0x100, |i: int| 0u8),
            r@.cycle == 0,
            r@.current_line == -1,
            r@.current_cycle == 0,
            r@.is_raise_nmi == false,
            r@.done_rendered == false,
            r@.pending_dma is None,
            r@.frame == Seq::new(256 * 240, |i: int| 0u8),
    {
        let r = Ppu {
            control: 0,
            mask: 0,
            status: 0,
            oam_address: 0,
            scroll_x: 0,
            scroll_y: 0,
            write_toggle: false,
            vram: Vram::new(is_horizontal, chr_writable),
            oam_ram: crate::vram::zero_vec(0x100),
            cycle: 0,
            current_line: -1,
            current_cycle: 0,
            is_raise_nmi: false,
            done_rendered: false,
            output_frame: crate::vram::zero_vec(256 * 240),
            fetched_background: BackgroundImage {
                pattern: Pattern::new(crate::vram::zero_vec(16)),
                attribute: Attribute::new(0),
            },
            fetched_sprites: Vec::new(),
            pending_dma: None,
        };
        proof {
            assert(r@.oam =~= Seq::new(0x100, |i: int| 0u8));
            assert(r@.frame =~= Seq::new(256 * 240, |i: int| 0u8));
            assert(r@.fetched_sprites =~= Seq::<SpriteModel>::empty());
        }
        r
    }

    /// Copy the cartridge's CHR blob into pattern storage.
    pub fn setup(&mut self, mapper: &Mapper)
        requires
            old(self)@.wf(),
        ensures
            final(self)@.wf(),
            final(self)@ == (PpuModel {
                vram: VramModel {
                    pattern: chr_loaded(old(self)@.vram.pattern, mapper@),
                    ..old(self)@.vram
                },
                ..old(self)@
            }),
    {
        let chr = mapper.chr_rom();
        let n = crate::rom::bytes_len(chr);
        let count: usize = if n < 0x2000 {
            n
        } else {
            0x2000
        };
        let mut i: usize = 0;
        while i < count
            invariant
                old(self)@.wf(),
                count <= 0x2000,
                count <= mapper@.chr.len(),
                count == (if mapper@.chr.len() < 0x2000 { mapper@.chr.len() as int } else { 0x2000int }),
                crate::rom::bytes_view(*chr) == mapper@.chr,
                i <= count,
                self.vram.pattern@.len() == 0x2000,
                forall|j: int| 0 <= j < i ==> self.vram.pattern@[j] == mapper@.chr[j],
                forall|j: int| i <= j < 0x2000 ==> self.vram.pattern@[j] == old(self)@.vram.pattern[j],
                *self == (Ppu { vram: Vram { pattern: self.vram.pattern, ..old(self).vram }, ..*old(self) }),
            decreases count - i,
        {
            let b = crate::rom::bytes_get(chr, i);
            self.vram.pattern[i] = b;
            i += 1;
        }
        proof {
            assert(self@.vram.pattern =~= chr_loaded(old(self)@.vram.pattern, mapper@));
            assert(self@ =~= (PpuModel {
                vram: VramModel {
                    pattern: chr_loaded(old(self)@.vram.pattern, mapper@),
                    ..old(self)@.vram
                },
                ..old(self)@
            }));
        }
    }

    /// Dots ticked since power-up.
    pub fn cycle(&self) -> (r: u64)
        ensures
            r == self@.cycle,
    {
        self.cycle
    }

    /// A CPU read from PPU register `addr` (`$2000`-`$2007`).
    pub fn read(&mut self, addr: u16) -> (r: u8)
        requires
            old(self)@.wf(),
            0x2000 <= addr <= 0x2007,
        ensures
            final(self)@.wf(),
            r == ppu_read_val(old(self)@, addr),
            final(self)@ == ppu_read_next(old(self)@, addr),
    {
        if addr == 0x2002 {
            let result = self.status;
            self.status = self.status & 0x7F;
            self.write_toggle = false;
            result
        } else if addr == 0x2004 {
            self.oam_ram[self.oam_address as usize]
        } else if addr == 0x2007 {
            let address = self.vram.get_addr();
            let result = self.vram.read(address);
            let inc = self.nametable_increment_value();
            self.vram.increment_addr(inc);
            result
        } else {
            0
        }
    }

    /// A CPU write to PPU register `addr` (`$2000`-`$2007`) or to the
    /// `$4014` DMA port.
    pub fn write(&mut self, addr: u16, data: u8)
        requires
            old(self)@.wf(),
            0x2000 <= addr <= 0x2007 || addr == 0x4014,
        ensures
            final(self)@.wf(),
            final(self)@ == ppu_write_next(old(self)@, addr, data),
    {
        if addr == 0x2000 {
            self.control = data;
        } else if addr == 0x2001 {
            self.mask = data;
        } else if addr == 0x2003 {
            self.oam_address = data;
        } else if addr == 0x2004 {
            self.oam_ram[self.oam_address as usize] = data;
            self.oam_address = ((self.oam_address as u16 + 1) % 0x100) as u8;
        } else if addr == 0x2005 {
            if !self.write_toggle {
                self.scroll_x = data;
                self.write_toggle = true;
            } else {
                self.scroll_y = data;
                self.write_toggle = false;
            }
        } else if addr == 0x2006 {
            let high = !self.write_toggle;
            proof {
                crate::vram::lemma_set_addr_next_bound(self@.vram.vaddr, data, high);
            }
            self.vram.set_addr(data, high);
            self.write_toggle = high;
        } else if addr == 0x2007 {
            let address = self.vram.get_addr();
            self.vram.write(address, data);
            let inc = self.nametable_increment_value();
            self.vram.increment_addr(inc);
        } else if addr == 0x4014 {
            self.pending_dma = Some(data);
        }
    }

    /// The `$2007` address increment the control register selects.
    pub fn nametable_increment_value(&self) -> (r: u16)
        ensures
            r == self@.vram_increment(),
    {
        if self.control & CTRL_ADDR_INCREMENT_32 != 0 {
            32
        } else {
            1
        }
    }

    /// Whether VBlank NMIs are enabled.
    pub fn is_enable_nmi(&self) -> (r: bool)
        ensures
            r == (self@.control & CTRL_ENABLE_NMI != 0),
    {
        self.control & CTRL_ENABLE_NMI != 0
    }

    /// Poll the NMI line: returns whether an NMI should be dispatched
    /// now, and consumes the pending line when it is.
    pub fn is_raise_nmi(&mut self) -> (r: bool)
        ensures
            r == (old(self)@.control & CTRL_ENABLE_NMI != 0 && old(self)@.is_raise_nmi),
            final(self)@ == (PpuModel { is_raise_nmi: old(self)@.is_raise_nmi && !r, ..old(self)@ }),
    {
        if self.control & CTRL_ENABLE_NMI != 0 && self.is_raise_nmi {
            self.is_raise_nmi = false;
            true
        } else {
            false
        }
    }

    /// Take a scheduled OAM DMA page, if one is pending.
    pub fn take_pending_dma(&mut self) -> (r: Option<u8>)
        ensures
            r == old(self)@.pending_dma,
            final(self)@ == (PpuModel { pending_dma: None, ..old(self)@ }),
    {
        let r = self.pending_dma;
        self.pending_dma = None;
        r
    }

    /// Whether a frame has completed since the flag was last cleared.
    pub fn screen_rendered(&self) -> (r: bool)
        ensures
            r == self@.done_rendered,
    {
        self.done_rendered
    }

    /// Clear the frame-completed flag.
    pub fn reset_screen_rendered(&mut self)
        ensures
            final(self)@ == (PpuModel { done_rendered: false, ..old(self)@ }),
    {
        self.done_rendered = false;
    }
}

/// Nametable byte address for the scrolled point `(x, y)`: the selected
/// base plus one byte per 8x8 tile, 32 tiles per row.
pub open spec fn spec_nt_addr(p: PpuModel, x: u16, y: u16) -> u16 {
    (p.name_table_base() + x / 8 + (y / 8) * 32) as u16
}

/// Attribute byte address for the scrolled point `(x, y)`: one byte per
/// 4x4-tile block, in the 64-byte block after the tile rows.
pub open spec fn spec_attr_addr(p: PpuModel, x: u16, y: u16) -> u16 {
    (p.name_table_base() + x / 32 + (y / 32) * 8 + 0x3C0) as u16
}

/// Scrolled horizontal coordinate of the current dot.
pub open spec fn scrolled_x(p: PpuModel) -> u16 {
    (p.current_cycle + p.scroll_x) as u16
}

/// Scrolled vertical coordinate of the current scanline.
pub open spec fn scrolled_y(p: PpuModel) -> u16 {
    (p.current_line + p.scroll_y) as u16
}

/// Pattern-table address of the background tile covering the scrolled
/// point: the configured base plus 16 bytes per tile index.
pub open spec fn spec_bg_pattern_addr(p: PpuModel) -> u16 {
    (p.bg_pattern_base() + read_at(p.vram, spec_nt_addr(p, scrolled_x(p), scrolled_y(p))) * 16) as u16
}

/// The background tile fetch: 16 pattern bytes and the attribute byte
/// for the scrolled point.
pub open spec fn spec_fetched_bg(p: PpuModel) -> BgModel {
    BgModel {
        pattern: Seq::new(16, |i: int| read_at(p.vram, (spec_bg_pattern_addr(p) + i) as u16)),
        attr: read_at(p.vram, spec_attr_addr(p, scrolled_x(p), scrolled_y(p))),
    }
}

/// Pattern-table address of sprite `i`'s (top) tile.
pub open spec fn spec_sprite_pattern_addr(p: PpuModel, i: int) -> u16 {
    (p.sprite_pattern_base() + p.oam[4 * i + 1] * 16) as u16
}

/// The sprite OAM entry `i` describes: its visual row is the stored
/// byte plus one.
pub open spec fn oam_sprite(p: PpuModel, i: int) -> SpriteModel {
    SpriteModel {
        y: (p.oam[4 * i] + 1) as u16,
        x: p.oam[4 * i + 3] as u16,
        oam_index: i,
        pattern: Seq::new(16, |k: int| read_at(p.vram, (spec_sprite_pattern_addr(p, i) + k) as u16)),
        attr: p.oam[4 * i + 2],
    }
}

/// Whether OAM entry `i` intersects the current scanline, at the sprite
/// height the control register selects.
pub open spec fn sprite_matches_line(p: PpuModel, i: int) -> bool {
    let s = oam_sprite(p, i);
    s.y <= p.current_line < s.y + p.sprite_height()
}

/// How many of the first `n` OAM entries intersect the current scanline.
pub open spec fn match_count(p: PpuModel, n: int) -> int
    decreases n,
{
    if n <= 0 {
        0
    } else {
        match_count(p, n - 1) + if sprite_matches_line(p, n - 1) {
            1int
        } else {
            0int
        }
    }
}

/// The first up-to-eight sprites among the first `n` OAM entries that
/// intersect the current scanline, in OAM order.
pub open spec fn selected_sprites(p: PpuModel, n: int) -> Seq<SpriteModel>
    decreases n,
{
    if n <= 0 {
        Seq::empty()
    } else {
        let rest = selected_sprites(p, n - 1);
        if sprite_matches_line(p, n - 1) && rest.len() < 8 {
            rest.push(oam_sprite(p, n - 1))
        } else {
            rest
        }
    }
}

/// The 2-bit colour index of the background at the current dot.
pub open spec fn bg_pixel_ci(p: PpuModel) -> u8 {
    spec_color_index(
        p.fetched_bg.pattern,
        (scrolled_x(p) % 8) as u8,
        (scrolled_y(p) % 8) as u8,
    )
}

/// Palette entry address the background selects: the backdrop entry
/// `$3F00` for colour index 0, else the attribute quadrant bits or-ed
/// with the colour index.
pub open spec fn bg_palette_entry_addr(p: PpuModel) -> u16 {
    let ci = bg_pixel_ci(p);
    if ci == 0 {
        0x3F00
    } else {
        (0x3F00 + (spec_bg_attr_color(
            p.fetched_bg.attr,
            ((scrolled_x(p) / 8) % 32) as u16,
            ((scrolled_y(p) / 8) % 32) as u16,
        ) | ci)) as u16
    }
}

/// The palette high bits an attribute byte yields are a multiple of 4
/// below 16, whatever the quadrant.
pub proof fn lemma_bg_attr_color_bound(attr: u8, tile_x: u16, tile_y: u16)
    ensures
        spec_bg_attr_color(attr, tile_x, tile_y) < 16,
{
    assert(((attr & 0x03) << 2) < 16 && (((attr >> 2) & 0x03) << 2) < 16 && (((attr >> 4) & 0x03)
        << 2) < 16 && (((attr >> 6) & 0x03) << 2) < 16) by (bit_vector);
}

/// The first fetched sprite, in OAM order from index `i` on, whose
/// column range covers dot `x` and whose pixel there is opaque.
pub open spec fn first_opaque_sprite(sprites: Seq<SpriteModel>, x: u16, y: u16, i: int) -> Option<
    SpriteModel,
>
    decreases sprites.len() - i,
{
    if i < 0 || i >= sprites.len() {
        None
    } else if sprite_covers_x(sprites[i], x) && sprite_color_index(sprites[i], x, y) != 0 {
        Some(sprites[i])
    } else {
        first_opaque_sprite(sprites, x, y, i + 1)
    }
}

/// The palette index written to the frame at the current dot: the first
/// opaque sprite pixel wins, else the background pixel; either way the
/// stored palette entry masked to six bits.
pub open spec fn pixel_value(p: PpuModel) -> u8 {
    let x = p.current_cycle as u16;
    let y = p.current_line as u16;
    match first_opaque_sprite(p.fetched_sprites, x, y, 0) {
        Some(s) => read_at(
            p.vram,
            (0x3F10 + (((s.attr & 0x03) << 2) | sprite_color_index(s, x, y))) as u16,
        ) & 0x3F,
        None => read_at(p.vram, bg_palette_entry_addr(p)) & 0x3F,
    }
}

/// Sprite-zero hit at the current dot: some fetched copy of OAM entry 0
/// shows an opaque pixel where the background is opaque too, away from
/// column 255.
pub open spec fn sprite_zero_hit(p: PpuModel) -> bool {
    let x = p.current_cycle as u16;
    let y = p.current_line as u16;
    &&& exists|i: int|
        0 <= i < p.fetched_sprites.len() && (#[trigger] p.fetched_sprites[i]).oam_index == 0
            && sprite_covers_x(p.fetched_sprites[i], x) && sprite_color_index(
            p.fetched_sprites[i],
            x,
            y,
        ) != 0
    &&& bg_pixel_ci(p) != 0
    &&& p.current_cycle != 255
}

/// The PPU after the status and NMI events a dot-1 position triggers:
/// VBlank entry at line 241, NMI line drop and frame completion at line
/// 260, flag clearing on the pre-render line.
pub open spec fn spec_events(p: PpuModel) -> PpuModel {
    if p.current_cycle == 1 {
        let p1 = if p.current_line == 241 {
            PpuModel { status: p.status | STATUS_VBLANK, is_raise_nmi: true, ..p }
        } else {
            p
        };
        let p2 = if p.current_line == 260 {
            PpuModel { is_raise_nmi: false, done_rendered: true, ..p1 }
        } else {
            p1
        };
        if p.current_line == -1 {
            PpuModel { status: p2.status & 0x1F, ..p2 }
        } else {
            p2
        }
    } else {
        p
    }
}

/// The PPU after one pixel is composed into the frame, with the
/// sprite-zero status bit possibly raised.
pub open spec fn spec_pixel_step(p: PpuModel) -> PpuModel {
    PpuModel {
        frame: p.frame.update(p.current_cycle + p.current_line * 256, pixel_value(p)),
        status: if sprite_zero_hit(p) {
            p.status | STATUS_SPRITE_ZERO_HIT
        } else {
            p.status
        },
        ..p
    }
}

/// The PPU after the rendering work of one visible dot: a background
/// tile fetch every 8 dots, sprite evaluation at dot 0 (raising the
/// overflow bit when more than eight sprites match), then the pixel.
pub open spec fn spec_render_dot(p: PpuModel) -> PpuModel {
    if 0 <= p.current_line < 240 && 0 <= p.current_cycle < 256 {
        let pa = if p.current_cycle % 8 == 0 {
            PpuModel { fetched_bg: spec_fetched_bg(p), ..p }
        } else {
            p
        };
        let pb = if pa.current_cycle == 0 {
            PpuModel {
                fetched_sprites: selected_sprites(pa, 64),
                status: if match_count(pa, 64) > 8 {
                    pa.status | STATUS_SPRITE_OVERFLOW
                } else {
                    pa.status
                },
                ..pa
            }
        } else {
            pa
        };
        spec_pixel_step(pb)
    } else {
        p
    }
}

/// OAMADDR is held at zero during the sprite-fetch dots 257..=320 of
/// every rendering line, the pre-render line included.
pub open spec fn spec_oam_hold(p: PpuModel) -> PpuModel {
    if -1 <= p.current_line < 240 && 257 <= p.current_cycle <= 320 {
        PpuModel { oam_address: 0u8, ..p }
    } else {
        p
    }
}

/// The grid advance: the dot counter, then the line counter, wrap; the
/// dot cycle count grows by one.
pub open spec fn spec_advance(p: PpuModel) -> PpuModel {
    let cyc: u64 = if p.cycle == u64::MAX {
        0u64
    } else {
        (p.cycle + 1) as u64
    };
    if p.current_cycle + 1 == 341 {
        if p.current_line + 1 == 261 {
            PpuModel { cycle: cyc, current_cycle: 0i16, current_line: -1i16, ..p }
        } else {
            PpuModel {
                cycle: cyc,
                current_cycle: 0i16,
                current_line: (p.current_line + 1) as i16,
                ..p
            }
        }
    } else {
        PpuModel { cycle: cyc, current_cycle: (p.current_cycle + 1) as i16, ..p }
    }
}

/// One dot of PPU work: events, rendering, the OAMADDR hold, and the
/// grid advance.
pub open spec fn spec_ppu_tick(p: PpuModel) -> PpuModel {
    spec_advance(spec_oam_hold(spec_render_dot(spec_events(p))))
}

impl Ppu {
    /// Base address of the nametable the control register selects.
    pub fn name_table_addr(&self) -> (r: u16)
        ensures
            r == self@.name_table_base(),
    {
        let sel = self.control & 0x03;
        if sel == 0 {
            0x2000
        } else if sel == 1 {
            0x2400
        } else if sel == 2 {
            0x2800
        } else {
            0x2C00
        }
    }

    /// Nametable byte address for the scrolled point `(x, y)`.
    pub fn name_table_addr_from_point(&self, x: u16, y: u16) -> (r: u16)
        requires
            x <= 510,
            y <= 500,
        ensures
            r == spec_nt_addr(self@, x, y),
            0x2000 <= r < 0x3F00,
    {
        self.name_table_addr() + x / 8 + (y / 8) * 32
    }

    /// Attribute byte address for the scrolled point `(x, y)`.
    pub fn attribute_addr_from_point(&self, x: u16, y: u16) -> (r: u16)
        requires
            x <= 510,
            y <= 500,
        ensures
            r == spec_attr_addr(self@, x, y),
            0x2000 <= r < 0x3F00,
    {
        self.name_table_addr() + x / 32 + (y / 32) * 8 + 0x3C0
    }

    /// The scrolled coordinates of the current dot.
    pub fn current_point(&self) -> (r: (u16, u16))
        requires
            0 <= self@.current_cycle < 256,
            0 <= self@.current_line < 240,
        ensures
            r.0 == scrolled_x(self@),
            r.1 == scrolled_y(self@),
            r.0 <= 510,
            r.1 <= 500,
    {
        (
            self.current_cycle as u16 + self.scroll_x as u16,
            self.current_line as u16 + self.scroll_y as u16,
        )
    }

    /// Fetch the background tile covering the current scrolled point.
    fn fetch_background_image(&mut self)
        requires
            old(self)@.wf(),
            0 <= old(self)@.current_line < 240,
            0 <= old(self)@.current_cycle < 256,
        ensures
            final(self)@.wf(),
            final(self)@ == (PpuModel { fetched_bg: spec_fetched_bg(old(self)@), ..old(self)@ }),
    {
        let (x, y) = self.current_point();
        let nametable_addr = self.name_table_addr_from_point(x, y);
        let pattern_index = self.vram.read_internal(nametable_addr);
        let base: u16 = if self.control & CTRL_BG_PATTERN_ADDRESS != 0 {
            0x1000
        } else {
            0
        };
        let pattern_addr: u16 = base + (pattern_index as u16) * 16;
        let attribute_addr = self.attribute_addr_from_point(x, y);
        let attribute = self.vram.read_internal(attribute_addr);
        let mut pattern: Vec<u8> = Vec::new();
        let mut i: usize = 0;
        while i < 16
            invariant
                old(self)@.wf(),
                *self == *old(self),
                pattern_addr == spec_bg_pattern_addr(old(self)@),
                pattern_addr <= 0x1FF0,
                i <= 16,
                pattern@.len() == i,
                forall|j: int|
                    0 <= j < i ==> pattern@[j] == read_at(
                        old(self)@.vram,
                        (pattern_addr + j) as u16,
                    ),
            decreases 16 - i,
        {
            pattern.push(self.vram.read_internal(pattern_addr + i as u16));
            i += 1;
        }
        self.fetched_background = BackgroundImage {
            pattern: Pattern::new(pattern),
            attribute: Attribute::new(attribute),
        };
        proof {
            assert(self@.fetched_bg.pattern =~= spec_fetched_bg(old(self)@).pattern);
            assert(self@.fetched_bg =~= spec_fetched_bg(old(self)@));
            assert(self@ =~= (PpuModel { fetched_bg: spec_fetched_bg(old(self)@), ..old(self)@ }));
        }
    }

    /// Build the sprite OAM entry `sprite_index` describes, its top tile
    /// fetched from pattern storage.
    fn fetch_sprite(&self, sprite_index: usize) -> (r: Sprite)
        requires
            self@.wf(),
            sprite_index < 64,
        ensures
            r@ == oam_sprite(self@, sprite_index as int),
            r@.pattern.len() == 16,
    {
        let start = sprite_index * 4;
        let tile = self.oam_ram[start + 1];
        let base: u16 = if self.control & CTRL_SPRITE_PATTERN_ADDRESS != 0 {
            0x1000
        } else {
            0
        };
        let head_address: u16 = base + (tile as u16) * 16;
        let mut pattern: Vec<u8> = Vec::new();
        let mut i: usize = 0;
        while i < 16
            invariant
                self@.wf(),
                head_address == spec_sprite_pattern_addr(self@, sprite_index as int),
                head_address <= 0x1FF0,
                i <= 16,
                pattern@.len() == i,
                forall|j: int|
                    0 <= j < i ==> pattern@[j] == read_at(self@.vram, (head_address + j) as u16),
            decreases 16 - i,
        {
            pattern.push(self.vram.read_internal(head_address + i as u16));
            i += 1;
        }
        let r = Sprite {
            y: self.oam_ram[start] as u16 + 1,
            x: self.oam_ram[start + 3] as u16,
            oam_index: sprite_index as u8,
            pattern: Pattern::new(pattern),
            attribute: Attribute::new(self.oam_ram[start + 2]),
        };
        proof {
            assert(r@.pattern =~= oam_sprite(self@, sprite_index as int).pattern);
            assert(r@ =~= oam_sprite(self@, sprite_index as int));
        }
        r
    }

    /// Sprite height the control register selects.
    pub fn sprite_height(&self) -> (r: u16)
        ensures
            r == self@.sprite_height(),
    {
        if self.control & CTRL_SPRITE_SIZE_16 != 0 {
            16
        } else {
            8
        }
    }

    /// Evaluate sprites for the current scanline: keep the first eight
    /// whose rows intersect it, and raise the overflow bit when more
    /// match.
    fn fetch_sprites(&mut self)
        requires
            old(self)@.wf(),
            0 <= old(self)@.current_line < 240,
        ensures
            final(self)@.wf(),
            final(self)@ == (PpuModel {
                fetched_sprites: selected_sprites(old(self)@, 64),
                status: if match_count(old(self)@, 64) > 8 {
                    old(self)@.status | STATUS_SPRITE_OVERFLOW
                } else {
                    old(self)@.status
                },
                ..old(self)@
            }),
    {
        let height = self.sprite_height();
        let mut out: Vec<Sprite> = Vec::new();
        let mut matched: u8 = 0;
        let mut sprite_index: usize = 0;
        while sprite_index < 64
            invariant
                old(self)@.wf(),
                0 <= old(self)@.current_line < 240,
                *self == *old(self),
                height == old(self)@.sprite_height(),
                sprite_index <= 64,
                matched == match_count(old(self)@, sprite_index as int),
                matched <= sprite_index,
                out@.len() == (if matched < 8 {
                    matched as int
                } else {
                    8int
                }),
                Seq::new(out@.len(), |i: int| out@[i]@) =~= selected_sprites(
                    old(self)@,
                    sprite_index as int,
                ),
                forall|i: int| 0 <= i < out@.len() ==> (#[trigger] out@[i])@.pattern.len() == 16,
            decreases 64 - sprite_index,
        {
            let y0 = self.oam_ram[sprite_index * 4];
            let sprite_y: u16 = y0 as u16 + 1;
            let line = self.current_line as u16;
            let is_match = sprite_y <= line && (line as u32) < sprite_y as u32 + height as u32;
            proof {
                assert(line == old(self)@.current_line);
                assert(sprite_y == oam_sprite(old(self)@, sprite_index as int).y);
                assert(is_match == sprite_matches_line(old(self)@, sprite_index as int));
                assert(match_count(old(self)@, sprite_index + 1) == match_count(
                    old(self)@,
                    sprite_index as int,
                ) + (if sprite_matches_line(old(self)@, sprite_index as int) {
                    1int
                } else {
                    0int
                }));
            }
            if is_match {
                if matched < 8 {
                    let sprite = self.fetch_sprite(sprite_index);
                    out.push(sprite);
                    proof {
                        assert(Seq::new(out@.len(), |i: int| out@[i]@) =~= selected_sprites(
                            old(self)@,
                            sprite_index + 1,
                        ));
                    }
                } else {
                    proof {
                        assert(selected_sprites(old(self)@, sprite_index + 1)
                            =~= selected_sprites(old(self)@, sprite_index as int));
                    }
                }
                matched = matched + 1;
            } else {
                proof {
                    assert(selected_sprites(old(self)@, sprite_index + 1) =~= selected_sprites(
                        old(self)@,
                        sprite_index as int,
                    ));
                }
            }
            sprite_index += 1;
        }
        self.fetched_sprites = out;
        if matched > 8 {
            self.status = self.status | STATUS_SPRITE_OVERFLOW;
        }
        proof {
            assert(self@ =~= (PpuModel {
                fetched_sprites: selected_sprites(old(self)@, 64),
                status: if match_count(old(self)@, 64) > 8 {
                    old(self)@.status | STATUS_SPRITE_OVERFLOW
                } else {
                    old(self)@.status
                },
                ..old(self)@
            }));
        }
    }

    /// Write one palette index into the frame at `(x, y)`.
    pub fn put_pixel(&mut self, palette_index: u8, x: u16, y: u16)
        requires
            old(self)@.wf(),
            x < 256,
            y < 240,
        ensures
            final(self)@.wf(),
            final(self)@ == (PpuModel {
                frame: old(self)@.frame.update(x + y * 256, palette_index),
                ..old(self)@
            }),
    {
        let idx: usize = x as usize + y as usize * 256;
        self.output_frame[idx] = palette_index;
    }

    /// Compose the pixel at the current dot: the first opaque fetched
    /// sprite pixel wins over the background, and a sprite-zero overlap
    /// raises the status bit.
    fn process_pixel(&mut self)
        requires
            old(self)@.wf(),
            0 <= old(self)@.current_line < 240,
            0 <= old(self)@.current_cycle < 256,
        ensures
            final(self)@.wf(),
            final(self)@ == spec_pixel_step(old(self)@),
    {
        let (sx, sy) = self.current_point();
        let x = self.current_cycle as u16;
        let y = self.current_line as u16;

        // background pixel
        let bg_ci = self.fetched_background.pattern.color_index(
            (sx % 8) as u8,
            (sy % 8) as u8,
        );
        let bg_addr: u16 = if bg_ci == 0 {
            0x3F00
        } else {
            let attr_color = self.fetched_background.attribute.table_color_for_background(
                (sx / 8) % 32,
                (sy / 8) % 32,
            );
            proof {
                lemma_bg_attr_color_bound(
                    self@.fetched_bg.attr,
                    ((scrolled_x(self@) / 8) % 32) as u16,
                    ((scrolled_y(self@) / 8) % 32) as u16,
                );
                let ac = attr_color;
                let ci = bg_ci;
                assert((ac | ci) < 16) by (bit_vector)
                    requires
                        ac < 16,
                        ci < 4,
                ;
            }
            0x3F00 + ((attr_color | bg_ci) as u16)
        };

        // first opaque sprite pixel, and any opaque sprite-zero pixel
        let mut chosen: Option<u16> = None;
        let ghost mut chosen_model: Option<SpriteModel> = None;
        let mut zero_opaque = false;
        let mut i: usize = 0;
        let n = self.fetched_sprites.len();
        while i < n
            invariant
                old(self)@.wf(),
                0 <= old(self)@.current_line < 240,
                0 <= old(self)@.current_cycle < 256,
                *self == *old(self),
                n == self@.fetched_sprites.len(),
                i <= n,
                x == self@.current_cycle as u16,
                y == self@.current_line as u16,
                x == self@.current_cycle,
                y == self@.current_line,
                chosen_model is Some ==> chosen_model == first_opaque_sprite(
                    self@.fetched_sprites,
                    x,
                    y,
                    0,
                ),
                chosen_model is None ==> first_opaque_sprite(self@.fetched_sprites, x, y, 0)
                    == first_opaque_sprite(self@.fetched_sprites, x, y, i as int),
                chosen_model is None <==> chosen is None,
                chosen_model is Some ==> {
                    let s = chosen_model->0;
                    chosen == Some(
                        (0x3F10 + (((s.attr & 0x03) << 2) | sprite_color_index(s, x, y))) as u16,
                    ) && 0x3F10 <= chosen->0 < 0x3F20
                },
                zero_opaque == exists|j: int|
                    0 <= j < i && (#[trigger] self@.fetched_sprites[j]).oam_index == 0
                        && sprite_covers_x(self@.fetched_sprites[j], x) && sprite_color_index(
                        self@.fetched_sprites[j],
                        x,
                        y,
                    ) != 0,
            decreases n - i,
        {
            let covers = self.fetched_sprites[i].in_bounding_x(x);
            if covers {
                let s = &self.fetched_sprites[i];
                let mut px: u16 = (x - s.x) % 8;
                let mut py: u16 = (y.wrapping_sub(s.y)) % 8;
                if s.attribute.is_frip_horizontally() {
                    px = 7 - px;
                }
                if s.attribute.is_frip_vertically() {
                    py = 7 - py;
                }
                let ci = s.pattern.color_index(px as u8, py as u8);
                proof {
                    let sm = self@.fetched_sprites[i as int];
                    vstd::arithmetic::div_mod::lemma_mod_mod(y - sm.y, 8, 8192);
                    assert(8 * 8192 == 0x10000);
                    assert(ci == sprite_color_index(sm, x, y));
                }
                if ci != 0 {
                    if chosen.is_none() {
                        let attr_color = s.attribute.table_color_for_sprite();
                        chosen = Some(0x3F10 + ((attr_color | ci) as u16));
                        proof {
                            let sm = self@.fetched_sprites[i as int];
                            let ac = sm.attr;
                            let cc = ci;
                            assert((((ac & 0x03) << 2) | cc) < 16) by (bit_vector)
                                requires
                                    cc < 4,
                            ;
                            chosen_model = Some(sm);
                            assert(first_opaque_sprite(self@.fetched_sprites, x, y, i as int)
                                == Some(sm));
                        }
                    }
                    if self.fetched_sprites[i].oam_index == 0 {
                        zero_opaque = true;
                    }
                }
            }
            proof {
                let sm = self@.fetched_sprites[i as int];
                if !(sprite_covers_x(sm, x) && sprite_color_index(sm, x, y) != 0) {
                    assert(first_opaque_sprite(self@.fetched_sprites, x, y, i as int)
                        == first_opaque_sprite(self@.fetched_sprites, x, y, i + 1));
                }
            }
            i += 1;
        }

        let value: u8;
        let hit: bool;
        match chosen {
            Some(addr) => {
                value = self.vram.read_internal(addr) & 0x3F;
                hit = zero_opaque && bg_ci != 0 && x != 255;
            },
            None => {
                value = self.vram.read_internal(bg_addr) & 0x3F;
                hit = zero_opaque && bg_ci != 0 && x != 255;
            },
        }
        if hit {
            self.status = self.status | STATUS_SPRITE_ZERO_HIT;
        }
        self.put_pixel(value, x, y);
        proof {
            assert(self@ =~= spec_pixel_step(old(self)@));
        }
    }

    /// Advance the dot and line counters by one dot.
    fn update_cycle(&mut self)
        requires
            old(self)@.wf(),
        ensures
            final(self)@.wf(),
            final(self)@ == spec_advance(old(self)@),
    {
        self.cycle = self.cycle.wrapping_add(1);
        self.current_cycle += 1;
        if self.current_cycle == CYCLE_PER_LINE {
            self.current_cycle = 0;
            self.current_line += 1;
            if self.current_line == SCANLINE_PER_SCREEN - 1 {
                self.current_line = -1;
            }
        }
    }

    /// Advance the PPU by exactly one dot: status and NMI events at dot
    /// 1, a pixel composed on visible dots, the OAMADDR hold, and the
    /// grid advance. The dot and line counters stay inside
    /// `[0, 341) x [-1, 261)`.
    pub fn tick(&mut self)
        requires
            old(self)@.wf(),
        ensures
            final(self)@.wf(),
            final(self)@ == spec_ppu_tick(old(self)@),
            0 <= final(self)@.current_cycle < 341,
            -1 <= final(self)@.current_line < 261,
            final(self)@.cycle == (if old(self)@.cycle == u64::MAX {
                0u64
            } else {
                (old(self)@.cycle + 1) as u64
            }),
    {
        // dot-1 events
        if self.current_cycle == 1 {
            if self.current_line == 241 {
                self.status = self.status | STATUS_VBLANK;
                self.is_raise_nmi = true;
            }
            if self.current_line == 260 {
                self.is_raise_nmi = false;
                self.done_rendered = true;
            }
            if self.current_line == -1 {
                self.status = self.status & 0x1F;
            }
        }
        // rendering
        if 0 <= self.current_line && self.current_line < 240 && 0 <= self.current_cycle
            && self.current_cycle < 256 {
            if self.current_cycle % 8 == 0 {
                self.fetch_background_image();
            }
            if self.current_cycle == 0 {
                self.fetch_sprites();
            }
            self.process_pixel();
        }
        // OAMADDR hold during sprite-fetch dots
        if -1 <= self.current_line && self.current_line < 240 && 257 <= self.current_cycle
            && self.current_cycle <= 320 {
            self.oam_address = 0;
        }
        self.update_cycle();
    }
}

/// Pattern storage after the cartridge CHR blob is copied over its
/// start.
pub open spec fn chr_loaded(pattern: Seq<u8>, rom: RomModel) -> Seq<u8> {
    Seq::new(
        0x2000,
        |i: int|
            if i < rom.chr.len() && i < 0x2000 {
                rom.chr[i]
            } else {
                pattern[i]
            },
    )
}



/// The fixed 64-entry NES colour table, as the byte triple (stored in
/// blue, green, red order) for a 6-bit palette index.
pub open spec fn spec_palette_color(idx: u8) -> (u8, u8, u8) {
    if idx & 0x3F == 0 {
        (0x7Cu8, 0x7Cu8, 0x7Cu8)
    } else if idx & 0x3F == 1 {
        (0xFCu8, 0x00u8, 0x00u8)
    } else if idx & 0x3F == 2 {
        (0xBCu8, 0x00u8, 0x00u8)
    } else if idx & 0x3F == 3 {
        (0xBCu8, 0x28u8, 0x44u8)
    } else if idx & 0x3F == 4 {
        (0x84u8, 0x00u8, 0x94u8)
    } else if idx & 0x3F == 5 {
        (0x20u8, 0x00u8, 0xA8u8)
    } else if idx & 0x3F == 6 {
        (0x00u8, 0x10u8, 0xA8u8)
    } else if idx & 0x3F == 7 {
        (0x00u8, 0x14u8, 0x88u8)
    } else if idx & 0x3F == 8 {
        (0x00u8, 0x30u8, 0x50u8)
    } else if idx & 0x3F == 9 {
        (0x00u8, 0x78u8, 0x00u8)
    } else if idx & 0x3F == 10 {
        (0x00u8, 0x68u8, 0x00u8)
    } else if idx & 0x3F == 11 {
        (0x00u8, 0x58u8, 0x00u8)
    } else if idx & 0x3F == 12 {
        (0x58u8, 0x40u8, 0x00u8)
    } else if idx & 0x3F == 13 {
        (0x00u8, 0x00u8, 0x00u8)
    } else if idx & 0x3F == 14 {
        (0x00u8, 0x00u8, 0x00u8)
    } else if idx & 0x3F == 15 {
        (0x00u8, 0x00u8, 0x00u8)
    } else if idx & 0x3F == 16 {
        (0xBCu8, 0xBCu8, 0xBCu8)
    } else if idx & 0x3F == 17 {
        (0xF8u8, 0x78u8, 0x00u8)
    } else if idx & 0x3F == 18 {
        (0xF8u8, 0x58u8, 0x00u8)
    } else if idx & 0x3F == 19 {
        (0xFCu8, 0x44u8, 0x68u8)
    } else if idx & 0x3F == 20 {
        (0xCCu8, 0x00u8, 0xD8u8)
    } else if idx & 0x3F == 21 {
        (0x58u8, 0x00u8, 0xE4u8)
    } else if idx & 0x3F == 22 {
        (0x00u8, 0x38u8, 0xF8u8)
    } else if idx & 0x3F == 23 {
        (0x10u8, 0x5Cu8, 0xE4u8)
    } else if idx & 0x3F == 24 {
        (0x00u8, 0x7Cu8, 0xACu8)
    } else if idx & 0x3F == 25 {
        (0x00u8, 0xB8u8, 0x00u8)
    } else if idx & 0x3F == 26 {
        (0x00u8, 0xA8u8, 0x00u8)
    } else if idx & 0x3F == 27 {
        (0x44u8, 0xA8u8, 0x00u8)
    } else if idx & 0x3F == 28 {
        (0x88u8, 0x88u8, 0x00u8)
    } else if idx & 0x3F == 29 {
        (0x00u8, 0x00u8, 0x00u8)
    } else if idx & 0x3F == 30 {
        (0x00u8, 0x00u8, 0x00u8)
    } else if idx & 0x3F == 31 {
        (0x00u8, 0x00u8, 0x00u8)
    } else if idx & 0x3F == 32 {
        (0xF8u8, 0xF8u8, 0xF8u8)
    } else if idx & 0x3F == 33 {
        (0xFCu8, 0xBCu8, 0x3Cu8)
    } else if idx & 0x3F == 34 {
        (0xFCu8, 0x88u8, 0x68u8)
    } else if idx & 0x3F == 35 {
        (0xF8u8, 0x78u8, 0x98u8)
    } else if idx & 0x3F == 36 {
        (0xF8u8, 0x78u8, 0xF8u8)
    } else if idx & 0x3F == 37 {
        (0x98u8, 0x58u8, 0xF8u8)
    } else if idx & 0x3F == 38 {
        (0x58u8, 0x78u8, 0xF8u8)
    } else if idx & 0x3F == 39 {
        (0x44u8, 0xA0u8, 0xFCu8)
    } else if idx & 0x3F == 40 {
        (0x00u8, 0xB8u8, 0xF8u8)
    } else if idx & 0x3F == 41 {
        (0x18u8, 0xF8u8, 0xB8u8)
    } else if idx & 0x3F == 42 {
        (0x54u8, 0xD8u8, 0x58u8)
    } else if idx & 0x3F == 43 {
        (0x98u8, 0xF8u8, 0x58u8)
    } else if idx & 0x3F == 44 {
        (0xD8u8, 0xE8u8, 0x00u8)
    } else if idx & 0x3F == 45 {
        (0x78u8, 0x78u8, 0x78u8)
    } else if idx & 0x3F == 46 {
        (0x00u8, 0x00u8, 0x00u8)
    } else if idx & 0x3F == 47 {
        (0x00u8, 0x00u8, 0x00u8)
    } else if idx & 0x3F == 48 {
        (0xFCu8, 0xFCu8, 0xFCu8)
    } else if idx & 0x3F == 49 {
        (0xFCu8, 0xE4u8, 0xA4u8)
    } else if idx & 0x3F == 50 {
        (0xF8u8, 0xB8u8, 0xB8u8)
    } else if idx & 0x3F == 51 {
        (0xF8u8, 0xB8u8, 0xD8u8)
    } else if idx & 0x3F == 52 {
        (0xF8u8, 0xB8u8, 0xF8u8)
    } else if idx & 0x3F == 53 {
        (0xC0u8, 0xA4u8, 0xF8u8)
    } else if idx & 0x3F == 54 {
        (0xB0u8, 0xD0u8, 0xF0u8)
    } else if idx & 0x3F == 55 {
        (0xA8u8, 0xE0u8, 0xFCu8)
    } else if idx & 0x3F == 56 {
        (0x78u8, 0xD8u8, 0xF8u8)
    } else if idx & 0x3F == 57 {
        (0x78u8, 0xF8u8, 0xD8u8)
    } else if idx & 0x3F == 58 {
        (0xB8u8, 0xF8u8, 0xB8u8)
    } else if idx & 0x3F == 59 {
        (0xD8u8, 0xF8u8, 0xB8u8)
    } else if idx & 0x3F == 60 {
        (0xFCu8, 0xFCu8, 0x00u8)
    } else if idx & 0x3F == 61 {
        (0xF8u8, 0xD8u8, 0xF8u8)
    } else if idx & 0x3F == 62 {
        (0x00u8, 0x00u8, 0x00u8)
    } else {
        (0x00u8, 0x00u8, 0x00u8)
    }
}

/// The colour triple stored for one pixel of an RGBA image.
pub open spec fn rgb_triple_at(img: Seq<u8>, i: int) -> (u8, u8, u8) {
    (img[4 * i], img[4 * i + 1], img[4 * i + 2])
}

/// Look up the fixed NES colour table.
#[verifier::rlimit(100)]
pub fn palette_color(idx: u8) -> (r: (u8, u8, u8))
    ensures
        r == spec_palette_color(idx),
{
    match idx & 0x3F {
            0 => (0x7Cu8, 0x7Cu8, 0x7Cu8),
            1 => (0xFCu8, 0x00u8, 0x00u8),
            2 => (0xBCu8, 0x00u8, 0x00u8),
            3 => (0xBCu8, 0x28u8, 0x44u8),
            4 => (0x84u8, 0x00u8, 0x94u8),
            5 => (0x20u8, 0x00u8, 0xA8u8),
            6 => (0x00u8, 0x10u8, 0xA8u8),
            7 => (0x00u8, 0x14u8, 0x88u8),
            8 => (0x00u8, 0x30u8, 0x50u8),
            9 => (0x00u8, 0x78u8, 0x00u8),
            10 => (0x00u8, 0x68u8, 0x00u8),
            11 => (0x00u8, 0x58u8, 0x00u8),
            12 => (0x58u8, 0x40u8, 0x00u8),
            13 => (0x00u8, 0x00u8, 0x00u8),
            14 => (0x00u8, 0x00u8, 0x00u8),
            15 => (0x00u8, 0x00u8, 0x00u8),
            16 => (0xBCu8, 0xBCu8, 0xBCu8),
            17 => (0xF8u8, 0x78u8, 0x00u8),
            18 => (0xF8u8, 0x58u8, 0x00u8),
            19 => (0xFCu8, 0x44u8, 0x68u8),
            20 => (0xCCu8, 0x00u8, 0xD8u8),
            21 => (0x58u8, 0x00u8, 0xE4u8),
            22 => (0x00u8, 0x38u8, 0xF8u8),
            23 => (0x10u8, 0x5Cu8, 0xE4u8),
            24 => (0x00u8, 0x7Cu8, 0xACu8),
            25 => (0x00u8, 0xB8u8, 0x00u8),
            26 => (0x00u8, 0xA8u8, 0x00u8),
            27 => (0x44u8, 0xA8u8, 0x00u8),
            28 => (0x88u8, 0x88u8, 0x00u8),
            29 => (0x00u8, 0x00u8, 0x00u8),
            30 => (0x00u8, 0x00u8, 0x00u8),
            31 => (0x00u8, 0x00u8, 0x00u8),
            32 => (0xF8u8, 0xF8u8, 0xF8u8),
            33 => (0xFCu8, 0xBCu8, 0x3Cu8),
            34 => (0xFCu8, 0x88u8, 0x68u8),
            35 => (0xF8u8, 0x78u8, 0x98u8),
            36 => (0xF8u8, 0x78u8, 0xF8u8),
            37 => (0x98u8, 0x58u8, 0xF8u8),
            38 => (0x58u8, 0x78u8, 0xF8u8),
            39 => (0x44u8, 0xA0u8, 0xFCu8),
            40 => (0x00u8, 0xB8u8, 0xF8u8),
            41 => (0x18u8, 0xF8u8, 0xB8u8),
            42 => (0x54u8, 0xD8u8, 0x58u8),
            43 => (0x98u8, 0xF8u8, 0x58u8),
            44 => (0xD8u8, 0xE8u8, 0x00u8),
            45 => (0x78u8, 0x78u8, 0x78u8),
            46 => (0x00u8, 0x00u8, 0x00u8),
            47 => (0x00u8, 0x00u8, 0x00u8),
            48 => (0xFCu8, 0xFCu8, 0xFCu8),
            49 => (0xFCu8, 0xE4u8, 0xA4u8),
            50 => (0xF8u8, 0xB8u8, 0xB8u8),
            51 => (0xF8u8, 0xB8u8, 0xD8u8),
            52 => (0xF8u8, 0xB8u8, 0xF8u8),
            53 => (0xC0u8, 0xA4u8, 0xF8u8),
            54 => (0xB0u8, 0xD0u8, 0xF0u8),
            55 => (0xA8u8, 0xE0u8, 0xFCu8),
            56 => (0x78u8, 0xD8u8, 0xF8u8),
            57 => (0x78u8, 0xF8u8, 0xD8u8),
            58 => (0xB8u8, 0xF8u8, 0xB8u8),
            59 => (0xD8u8, 0xF8u8, 0xB8u8),
            60 => (0xFCu8, 0xFCu8, 0x00u8),
            61 => (0xF8u8, 0xD8u8, 0xF8u8),
            62 => (0x00u8, 0x00u8, 0x00u8),
            _ => (0x00u8, 0x00u8, 0x00u8),
    }
}

impl Ppu {
    /// Convert the frame to RGBA bytes: each palette index becomes its
    /// colour triple from the fixed NES table, the fourth byte of each
    /// pixel left as it was.
    pub fn render_image(&self, img: &mut Vec<u8>)
        requires
            self@.wf(),
            old(img)@.len() == 256 * 240 * 4,
        ensures
            final(img)@.len() == 256 * 240 * 4,
            forall|i: int|
                0 <= i < 256 * 240 ==> #[trigger] rgb_triple_at(final(img)@, i)
                    == spec_palette_color(self@.frame[i]),
    {
        let mut i: usize = 0;
        while i < 256 * 240
            invariant
                self@.wf(),
                img@.len() == 256 * 240 * 4,
                i <= 256 * 240,
                forall|j: int|
                    0 <= j < i ==> #[trigger] rgb_triple_at(img@, j) == spec_palette_color(
                        self@.frame[j],
                    ),
            decreases 256 * 240 - i,
        {
            let ghost img0 = img@;
            let (b, g, r) = palette_color(self.output_frame[i]);
            img[4 * i] = b;
            img[4 * i + 1] = g;
            img[4 * i + 2] = r;
            proof {
                assert(rgb_triple_at(img@, i as int) == (b, g, r));
                assert forall|j: int| 0 <= j < i implies #[trigger] rgb_triple_at(img@, j)
                    == spec_palette_color(self@.frame[j]) by {
                    assert(rgb_triple_at(img0, j) == spec_palette_color(self@.frame[j]));
                    assert(img@[4 * j] == img0[4 * j]);
                    assert(img@[4 * j + 1] == img0[4 * j + 1]);
                    assert(img@[4 * j + 2] == img0[4 * j + 2]);
                }
            }
            i += 1;
        }
    }
}


/// Storing through a 14-bit address reads back from the same address.
pub proof fn lemma_vram_read_after_write(m: VramModel, addr: u16, data: u8)
    requires
        m.wf(),
        addr < 0x4000,
        addr < 0x2000 ==> m.chr_writable,
    ensures
        read_at(write_at(m, addr, data), addr) == data,
{
}

/// Writing an address in two halves with the toggle clear leaves
/// exactly that address in the register and the toggle clear again.
pub proof fn lemma_set_addr_pair(p: PpuModel, hi: u8, lo: u8)
    requires
        !p.write_toggle,
    ensures
        ppu_write_next(ppu_write_next(p, 0x2006, hi), 0x2006, lo) == (PpuModel {
            vram: VramModel {
                vaddr: set_addr_next(set_addr_next(p.vram.vaddr, hi, true), lo, false),
                ..p.vram
            },
            write_toggle: false,
            ..p
        }),
{
    assert(ppu_write_next(ppu_write_next(p, 0x2006, hi), 0x2006, lo) =~= (PpuModel {
        vram: VramModel {
            vaddr: set_addr_next(set_addr_next(p.vram.vaddr, hi, true), lo, false),
            ..p.vram
        },
        write_toggle: false,
        ..p
    }));
}

/// The address a `$2006` pair write leaves does not depend on the
/// address register's prior value.
pub proof fn lemma_set_addr_pair_independent(v1: u16, v2: u16, hi: u8, lo: u8)
    ensures
        set_addr_next(set_addr_next(v1, hi, true), lo, false) == set_addr_next(
            set_addr_next(v2, hi, true),
            lo,
            false,
        ),
{
    assert((((((hi & 0x3F) as u16) << 8) | (v1 & 0x00FF)) & 0x3F00) | (lo as u16) == (((((hi
        & 0x3F) as u16) << 8) | (v2 & 0x00FF)) & 0x3F00) | (lo as u16)) by (bit_vector);
}

/// The `$2006`/`$2007` round trip: with the write toggle clear, writing
/// an address in two halves and storing a byte through `$2007`, then
/// writing the same address again, makes the first `$2007` read return
/// the stale buffer and the second return the byte just stored. The
/// address, and the address the port steps to, must lie below the
/// palette region, and pattern storage must be CHR-RAM for a pattern
/// address.
#[verifier::rlimit(100)]
#[verifier::spinoff_prover]
pub proof fn lemma_addr_data_round_trip(p: PpuModel, hi: u8, lo: u8, data: u8)
    requires
        p.vram.wf(),
        !p.write_toggle,
        ({
            let a = set_addr_next(set_addr_next(p.vram.vaddr, hi, true), lo, false);
            &&& a < 0x3F00
            &&& (a + p.vram_increment()) % 0x4000 < 0x3F00
            &&& (a < 0x2000 ==> p.vram.chr_writable)
        }),
    ensures
        ({
            let a = set_addr_next(set_addr_next(p.vram.vaddr, hi, true), lo, false);
            let p1 = ppu_write_next(ppu_write_next(p, 0x2006, hi), 0x2006, lo);
            let p2 = ppu_write_next(p1, 0x2007, data);
            let p3 = ppu_write_next(ppu_write_next(p2, 0x2006, hi), 0x2006, lo);
            let first = ppu_read_val(p3, 0x2007);
            let p4 = ppu_read_next(p3, 0x2007);
            let second = ppu_read_val(p4, 0x2007);
            &&& first == p.vram.read_buffer
            &&& second == data
        }),
{
    let a = set_addr_next(set_addr_next(p.vram.vaddr, hi, true), lo, false);
    crate::vram::lemma_set_addr_next_bound(p.vram.vaddr, hi, true);
    lemma_set_addr_pair(p, hi, lo);
    let p1 = ppu_write_next(ppu_write_next(p, 0x2006, hi), 0x2006, lo);
    let p2 = ppu_write_next(p1, 0x2007, data);
    assert(p2.vram == VramModel {
        vaddr: ((a + p.vram_increment()) % 0x4000) as u16,
        ..write_at(p1.vram, a, data)
    });
    assert(!p2.write_toggle && p2.vram.read_buffer == p.vram.read_buffer);
    lemma_set_addr_pair(p2, hi, lo);
    let p3 = ppu_write_next(ppu_write_next(p2, 0x2006, hi), 0x2006, lo);
    assert(p3.vram.vaddr == a) by {
        lemma_set_addr_pair_independent(p.vram.vaddr, p2.vram.vaddr, hi, lo);
    }
    assert(read_at(p3.vram, a) == data) by {
        lemma_vram_read_after_write(p1.vram, a, data);
        assert(p3.vram == VramModel { vaddr: a, ..p2.vram });
    }
    let p4 = ppu_read_next(p3, 0x2007);
    assert(p4.vram.read_buffer == read_at(p3.vram, a));
    assert(p4.vram.vaddr == ((a + p3.vram_increment()) % 0x4000) as u16);
    assert(p3.vram_increment() == p.vram_increment());
    assert(ppu_read_val(p4, 0x2007) == buffered_read_value(p4.vram, p4.vram.vaddr));
}
} // verus!
