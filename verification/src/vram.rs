//! PPU address space: two physical nametables multiplexed into four
//! logical ones by the cartridge's mirroring mode, a 32-byte palette with
//! four aliased entries, pattern storage, and the buffered `$2007` port.

use vstd::prelude::*;

verus! {

/// Mathematical model of the PPU address space.
#[verifier::ext_equal]
pub ghost struct VramModel {
    pub pattern: Seq<u8>,
    pub name_table0: Seq<u8>,
    pub name_table1: Seq<u8>,
    pub palette: Seq<u8>,
    pub horizontal: bool,
    pub chr_writable: bool,
    pub vaddr: u16,
    pub read_buffer: u8,
}

impl VramModel {
    /// Table sizes and the address register staying inside the 14-bit
    /// space.
    pub open spec fn wf(self) -> bool {
        &&& self.pattern.len() == 0x2000
        &&& self.name_table0.len() == 0x400
        &&& self.name_table1.len() == 0x400
        &&& self.palette.len() == 0x20
        &&& self.vaddr < 0x4000
    }
}

/// Which physical nametable backs logical table `logical` (0..4) under
/// the given mirroring: horizontal routes 0,1,2,3 to 0,0,1,1; vertical
/// routes them to 0,1,0,1.
pub open spec fn nt_phys(horizontal: bool, logical: int) -> int {
    if horizontal {
        logical / 2
    } else {
        logical % 2
    }
}

/// Logical nametable selected by an address in `[0x2000, 0x3F00)`.
pub open spec fn nt_logical(addr: u16) -> int {
    (((addr - 0x2000) % 0x1000) / 0x400) as int
}

/// Offset within a nametable of an address in `[0x2000, 0x3F00)`.
pub open spec fn nt_offset(addr: u16) -> int {
    ((addr - 0x2000) % 0x400) as int
}

/// Palette index addressed by a palette-region address: the region
/// repeats every 32 bytes, and entries $10/$14/$18/$1C alias $00/$04/
/// $08/$0C.
pub open spec fn palette_norm(addr: u16) -> int {
    let a = addr % 0x20;
    if a % 4 == 0 {
        (a % 0x10) as int
    } else {
        a as int
    }
}

/// The byte stored at a 14-bit PPU address.
pub open spec fn read_at(m: VramModel, addr: u16) -> u8 {
    if addr < 0x2000 {
        m.pattern[addr as int]
    } else if addr < 0x3F00 {
        if nt_phys(m.horizontal, nt_logical(addr)) == 0 {
            m.name_table0[nt_offset(addr)]
        } else {
            m.name_table1[nt_offset(addr)]
        }
    } else {
        m.palette[palette_norm(addr)]
    }
}

/// The address space after storing `data` at a 14-bit PPU address.
/// Pattern bytes only change when the cartridge declares CHR-RAM.
pub open spec fn write_at(m: VramModel, addr: u16, data: u8) -> VramModel {
    if addr < 0x2000 {
        if m.chr_writable {
            VramModel { pattern: m.pattern.update(addr as int, data), ..m }
        } else {
            m
        }
    } else if addr < 0x3F00 {
        if nt_phys(m.horizontal, nt_logical(addr)) == 0 {
            VramModel { name_table0: m.name_table0.update(nt_offset(addr), data), ..m }
        } else {
            VramModel { name_table1: m.name_table1.update(nt_offset(addr), data), ..m }
        }
    } else {
        VramModel { palette: m.palette.update(palette_norm(addr), data), ..m }
    }
}

/// Palette contents at power-up.
pub open spec fn initial_palette_seq() -> Seq<u8> {
    seq![
        0x09u8, 0x01, 0x00, 0x01, 0x00, 0x02, 0x02, 0x0D, 0x08, 0x10, 0x08, 0x24, 0x00, 0x00,
        0x04, 0x2C, 0x09, 0x01, 0x34, 0x03, 0x00, 0x04, 0x00, 0x14, 0x08, 0x3A, 0x00, 0x02,
        0x00, 0x20, 0x2C, 0x08,
    ]
}

/// The PPU address space and its `$2006`/`$2007` access state.
pub struct Vram {
    pub pattern: Vec<u8>,
    pub name_table0: Vec<u8>,
    pub name_table1: Vec<u8>,
    pub palette: Vec<u8>,
    pub horizontal: bool,
    pub chr_writable: bool,
    pub vaddr: u16,
    pub read_buffer: u8,
}

impl View for Vram {
    type V = VramModel;

    open spec fn view(&self) -> VramModel {
        VramModel {
            pattern: self.pattern@,
            name_table0: self.name_table0@,
            name_table1: self.name_table1@,
            palette: self.palette@,
            horizontal: self.horizontal,
            chr_writable: self.chr_writable,
            vaddr: self.vaddr,
            read_buffer: self.read_buffer,
        }
    }
}

/// A zero-filled byte vector of the requested length.
pub(crate) fn zero_vec(n: usize) -> (r: Vec<u8>)
    ensures
        r@.len() == n,
        forall|i: int| 0 <= i < n ==> r@[i] == 0u8,
{
    let mut out: Vec<u8> = Vec::new();
    let mut i: usize = 0;
    while i < n
        invariant
            i <= n,
            out@.len() == i,
            forall|j: int| 0 <= j < i ==> out@[j] == 0u8,
        decreases n - i,
    {
        out.push(0u8);
        i += 1;
    }
    out
}

/// The power-up palette as a vector.
fn initial_palette() -> (r: Vec<u8>)
    ensures
        r@ == initial_palette_seq(),
{
    let v: Vec<u8> = vec![
        0x09u8, 0x01, 0x00, 0x01, 0x00, 0x02, 0x02, 0x0D, 0x08, 0x10, 0x08, 0x24, 0x00, 0x00,
        0x04, 0x2C, 0x09, 0x01, 0x34, 0x03, 0x00, 0x04, 0x00, 0x14, 0x08, 0x3A, 0x00, 0x02,
        0x00, 0x20, 0x2C, 0x08,
    ];
    proof {
        assert(v@ =~= initial_palette_seq());
    }
    v
}

impl Vram {
    /// Fresh address space: zeroed pattern and nametables, the power-up
    /// palette, and the address register at 0.
    pub fn new(is_horizontal: bool, chr_writable: bool) -> (r: Vram)
        ensures
            r@.wf(),
            r@.pattern == Seq::new(0x2000, |i: int| 0u8),
            r@.name_table0 == Seq::new(0x400, |i: int| 0u8),
            r@.name_table1 == Seq::new(0x400, |i: int| 0u8),
            r@.palette == initial_palette_seq(),
            r@.horizontal == is_horizontal,
            r@.chr_writable == chr_writable,
            r@.vaddr == 0,
            r@.read_buffer == 0,
    {
        let r = Vram {
            pattern: zero_vec(0x2000),
            name_table0: zero_vec(0x400),
            name_table1: zero_vec(0x400),
            palette: initial_palette(),
            horizontal: is_horizontal,
            chr_writable,
            vaddr: 0,
            read_buffer: 0,
        };
        proof {
            assert(r@.pattern =~= Seq::new(0x2000, |i: int| 0u8));
            assert(r@.name_table0 =~= Seq::new(0x400, |i: int| 0u8));
            assert(r@.name_table1 =~= Seq::new(0x400, |i: int| 0u8));
        }
        r
    }

    /// Read a byte of the address space directly, without the `$2007`
    /// buffer.
    pub fn read_internal(&self, addr: u16) -> (r: u8)
        requires
            self@.wf(),
            addr < 0x4000,
        ensures
            r == read_at(self@, addr),
    {
        if addr < 0x2000 {
            self.pattern[addr as usize]
        } else if addr < 0x3F00 {
            let logical: u16 = ((addr - 0x2000) % 0x1000) / 0x400;
            let offset: usize = ((addr - 0x2000) % 0x400) as usize;
            let phys: u16 = if self.horizontal {
                logical / 2
            } else {
                logical % 2
            };
            if phys == 0 {
                self.name_table0[offset]
            } else {
                self.name_table1[offset]
            }
        } else {
            let a: u16 = addr % 0x20;
            let idx: usize = if a % 4 == 0 {
                (a % 0x10) as usize
            } else {
                a as usize
            };
            self.palette[idx]
        }
    }

    /// Store a byte into the address space directly.
    pub fn write(&mut self, addr: u16, data: u8)
        requires
            old(self)@.wf(),
            addr < 0x4000,
        ensures
            final(self)@ == write_at(old(self)@, addr, data),
    {
        if addr < 0x2000 {
            if self.chr_writable {
                self.pattern[addr as usize] = data;
            }
        } else if addr < 0x3F00 {
            let logical: u16 = ((addr - 0x2000) % 0x1000) / 0x400;
            let offset: usize = ((addr - 0x2000) % 0x400) as usize;
            let phys: u16 = if self.horizontal {
                logical / 2
            } else {
                logical % 2
            };
            if phys == 0 {
                self.name_table0[offset] = data;
            } else {
                self.name_table1[offset] = data;
            }
        } else {
            let a: u16 = addr % 0x20;
            let idx: usize = if a % 4 == 0 {
                (a % 0x10) as usize
            } else {
                a as usize
            };
            self.palette[idx] = data;
        }
    }

    /// A `$2007` read: non-palette addresses return the stale buffer and
    /// refill it from the given address; palette addresses return the
    /// stored entry directly while the buffer refills from the nametable
    /// image one page below.
    pub fn read_with_buffer(&mut self, addr: u16) -> (r: u8)
        requires
            old(self)@.wf(),
            addr < 0x4000,
        ensures
            r == buffered_read_value(old(self)@, addr),
            final(self)@ == buffered_read_next(old(self)@, addr),
    {
        if addr < 0x3F00 {
            let result = self.read_buffer;
            self.read_buffer = self.read_internal(addr);
            result
        } else {
            self.read_buffer = self.read_internal(addr - 0x1000);
            self.read_internal(addr)
        }
    }

    /// A `$2007` read; see `read_with_buffer`.
    pub fn read(&mut self, addr: u16) -> (r: u8)
        requires
            old(self)@.wf(),
            addr < 0x4000,
        ensures
            r == buffered_read_value(old(self)@, addr),
            final(self)@ == buffered_read_next(old(self)@, addr),
    {
        self.read_with_buffer(addr)
    }

    /// The current 14-bit address register.
    pub fn get_addr(&self) -> (r: u16)
        ensures
            r == self@.vaddr,
    {
        self.vaddr
    }

    /// A `$2006` write: the first byte of a pair sets the high six bits,
    /// the second the low byte.
    pub fn set_addr(&mut self, half_addr: u8, high: bool)
        ensures
            final(self)@ == (VramModel { vaddr: set_addr_next(old(self)@.vaddr, half_addr, high), ..old(self)@ }),
    {
        if high {
            self.vaddr = (((half_addr & 0x3F) as u16) << 8) | (self.vaddr & 0x00FF);
        } else {
            self.vaddr = (self.vaddr & 0x3F00) | (half_addr as u16);
        }
    }

    /// Reset the address register.
    pub fn clear_addr(&mut self)
        ensures
            final(self)@ == (VramModel { vaddr: 0u16, ..old(self)@ }),
    {
        self.vaddr = 0;
    }

    /// Advance the address register after a `$2007` access, wrapping
    /// within the 14-bit space.
    pub fn increment_addr(&mut self, value: u16)
        requires
            value <= 32,
        ensures
            final(self)@ == (VramModel { vaddr: ((old(self)@.vaddr + value) % 0x4000) as u16, ..old(self)@ }),
    {
        self.vaddr = (self.vaddr % 0x4000 + value) % 0x4000;
    }
}

/// The value a `$2006` pair write leaves in the address register.
pub open spec fn set_addr_next(vaddr: u16, half_addr: u8, high: bool) -> u16 {
    if high {
        ((((half_addr & 0x3F) as u16) << 8) | (vaddr & 0x00FF)) as u16
    } else {
        ((vaddr & 0x3F00) | (half_addr as u16)) as u16
    }
}

/// A `$2006` pair write always leaves the address register inside the
/// 14-bit space.
pub proof fn lemma_set_addr_next_bound(vaddr: u16, half_addr: u8, high: bool)
    ensures
        set_addr_next(vaddr, half_addr, high) < 0x4000,
{
    if high {
        assert(((((half_addr & 0x3F) as u16) << 8) | (vaddr & 0x00FF)) < 0x4000) by (bit_vector);
    } else {
        assert((((vaddr & 0x3F00) | (half_addr as u16))) < 0x4000) by (bit_vector);
    }
}

/// The value a `$2007` read returns.
pub open spec fn buffered_read_value(m: VramModel, addr: u16) -> u8 {
    if addr < 0x3F00 {
        m.read_buffer
    } else {
        read_at(m, addr)
    }
}

/// The address space state after a `$2007` read refills the buffer.
pub open spec fn buffered_read_next(m: VramModel, addr: u16) -> VramModel {
    if addr < 0x3F00 {
        VramModel { read_buffer: read_at(m, addr), ..m }
    } else {
        VramModel { read_buffer: read_at(m, (addr - 0x1000) as u16), ..m }
    }
}

/// Palette aliasing: a store through `$3F10`/`$3F14`/`$3F18`/`$3F1C`
/// lands on the entry that `$3F00`/`$3F04`/`$3F08`/`$3F0C` reads, and the
/// other way round.
pub proof fn lemma_palette_mirror(m: VramModel, alias: u16, data: u8)
    requires
        m.wf(),
        alias == 0x3F10 || alias == 0x3F14 || alias == 0x3F18 || alias == 0x3F1C,
    ensures
        read_at(write_at(m, alias, data), (alias - 0x10) as u16) == data,
        read_at(write_at(m, (alias - 0x10) as u16, data), alias) == data,
        read_at(m, alias) == read_at(m, (alias - 0x10) as u16),
{
}

/// Nametable mirroring: under horizontal mirroring the first and second
/// logical nametables show the same bytes.
pub proof fn lemma_nametable_mirror(m: VramModel, k: u16)
    requires
        m.wf(),
        m.horizontal,
        k < 0x400,
    ensures
        read_at(m, (0x2000 + k) as u16) == read_at(m, (0x2400 + k) as u16),
{
    assert(nt_logical((0x2000 + k) as u16) == 0);
    assert(nt_logical((0x2400 + k) as u16) == 1);
    assert(nt_offset((0x2000 + k) as u16) == k);
    assert(nt_offset((0x2400 + k) as u16) == k);
}

} // verus!
