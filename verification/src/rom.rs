//! Cartridge images in the iNES format: header validation, PRG/CHR
//! extraction, and the mapper-0 PRG address decoding.
//!
//! PRG and CHR blobs are kept in `bytes::Bytes` handles, as immutable,
//! cheaply shareable byte storage.

use vstd::prelude::*;

verus! {

/// Contents of a `bytes::Bytes` handle, as a sequence of bytes.
pub uninterp spec fn bytes_view(b: bytes::Bytes) -> Seq<u8>;

#[verifier::external_type_specification]
#[verifier::external_body]
pub struct ExBytes(bytes::Bytes);

/// Relies on `bytes::Bytes::from(Vec<u8>)`: the handle holds exactly the
/// vector's bytes.
#[verifier::external_body]
pub fn bytes_from_vec(v: Vec<u8>) -> (b: bytes::Bytes)
    ensures
        bytes_view(b) == v@,
{
    bytes::Bytes::from(v)
}

/// Relies on `bytes::Bytes::len`: the number of bytes the handle holds.
#[verifier::external_body]
pub fn bytes_len(b: &bytes::Bytes) -> (n: usize)
    ensures
        n == bytes_view(*b).len(),
{
    b.len()
}

/// Relies on `bytes::Bytes`'s `Deref` to `[u8]`: indexing reads the held
/// bytes.
#[verifier::external_body]
pub fn bytes_get(b: &bytes::Bytes, i: usize) -> (r: u8)
    requires
        i < bytes_view(*b).len(),
    ensures
        r == bytes_view(*b)[i as int],
{
    b[i]
}

/// Size of one PRG-ROM page, in bytes.
pub const PRG_BLOCK_SIZE: usize = 0x4000;

/// Size of one CHR-ROM page, in bytes.
pub const CHR_BLOCK_SIZE: usize = 0x2000;

/// Why an iNES image was rejected.
#[derive(Clone, Copy, Debug, PartialEq, Eq, Structural)]
pub enum LoadError {
    /// The four magic bytes `N E S \x1A` are absent.
    BadMagic,
    /// The image is shorter than its header promises.
    Truncated,
    /// The mapper is not NROM with one or two PRG pages.
    UnsupportedMapper,
}

/// Mathematical model of a cartridge.
#[verifier::ext_equal]
pub ghost struct RomModel {
    pub prg: Seq<u8>,
    pub chr: Seq<u8>,
    pub prg_page_count: u8,
    pub chr_page_count: u8,
    pub flags6: u8,
    pub flags7: u8,
}

impl RomModel {
    /// Mapper id: low nibble from flags6 bits 4..8, high nibble from
    /// flags7 bits 4..8.
    pub open spec fn mapper_no(self) -> u16 {
        ((self.flags6 >> 4) | (self.flags7 & 0xF0)) as u16
    }

    /// Horizontal mirroring when flags6 bit 0 is clear.
    pub open spec fn is_horizontal(self) -> bool {
        self.flags6 & 0x01 == 0
    }

    /// CHR is RAM (writable) when the cartridge declares zero CHR pages.
    pub open spec fn chr_writable(self) -> bool {
        self.chr_page_count == 0
    }

    /// A loaded NROM cartridge: blob sizes match the page counts and the
    /// PRG window is one or two pages.
    pub open spec fn wf(self) -> bool {
        &&& self.prg.len() == PRG_BLOCK_SIZE * self.prg_page_count
        &&& self.chr.len() == CHR_BLOCK_SIZE * self.chr_page_count
        &&& (self.prg_page_count == 1 || self.prg_page_count == 2)
        &&& self.mapper_no() == 0
    }

    /// The byte the PRG window shows at `addr` (already reduced to
    /// `[0, 0x8000)`): a single page is mirrored across both banks.
    pub open spec fn prg_byte(self, addr: u16) -> u8 {
        if self.prg_page_count == 1 {
            self.prg[(addr % 0x4000) as int]
        } else {
            self.prg[addr as int]
        }
    }
}

/// An immutable cartridge: iNES header fields plus the PRG and CHR blobs.
pub struct Rom {
    pub prg: bytes::Bytes,
    pub chr: bytes::Bytes,
    pub prg_page_count: u8,
    pub chr_page_count: u8,
    pub flags6: u8,
    pub flags7: u8,
}

impl View for Rom {
    type V = RomModel;

    open spec fn view(&self) -> RomModel {
        RomModel {
            prg: bytes_view(self.prg),
            chr: bytes_view(self.chr),
            prg_page_count: self.prg_page_count,
            chr_page_count: self.chr_page_count,
            flags6: self.flags6,
            flags7: self.flags7,
        }
    }
}

/// Whether a byte slice carries a parsable NROM image: long enough for the
/// header, magic valid, mapper 0 with one or two PRG pages, and long
/// enough for the trainer, PRG and CHR blobs it announces.
pub open spec fn parsable(data: Seq<u8>) -> bool {
    &&& data.len() >= 16
    &&& magic_ok(data)
    &&& mapper_of(data) == 0
    &&& (data[4] == 1 || data[4] == 2)
    &&& data.len() >= payload_offset(data) + PRG_BLOCK_SIZE * data[4] + CHR_BLOCK_SIZE * data[5]
}

/// The four iNES magic bytes.
pub open spec fn magic_ok(data: Seq<u8>) -> bool {
    &&& data[0] == 0x4E
    &&& data[1] == 0x45
    &&& data[2] == 0x53
    &&& data[3] == 0x1A
}

/// Mapper id announced by a header.
pub open spec fn mapper_of(data: Seq<u8>) -> u16 {
    ((data[6] >> 4) | (data[7] & 0xF0)) as u16
}

/// Offset of the PRG blob: the header, plus a 512-byte trainer when
/// flags6 bit 2 is set.
pub open spec fn payload_offset(data: Seq<u8>) -> int {
    if data[6] & 0x04 != 0 {
        528int
    } else {
        16int
    }
}

impl Rom {
    /// A placeholder cartridge with no pages; not well formed, only a
    /// stand-in until a real image is loaded.
    pub fn empty() -> (r: Rom)
        ensures
            r@.prg.len() == 0,
            r@.chr.len() == 0,
            r@.prg_page_count == 0,
            r@.chr_page_count == 0,
    {
        Rom {
            prg: bytes_from_vec(Vec::new()),
            chr: bytes_from_vec(Vec::new()),
            prg_page_count: 0,
            chr_page_count: 0,
            flags6: 0,
            flags7: 0,
        }
    }

    /// Parse an iNES image held in memory. Returns a cartridge exactly
    /// when the image is a complete NROM image, and says why otherwise.
    pub fn parse(data: &Vec<u8>) -> (r: Result<Rom, LoadError>)
        ensures
            r is Ok <==> parsable(data@),
            r is Ok ==> {
                let rom = r->Ok_0;
                &&& rom@.wf()
                &&& rom@.prg_page_count == data@[4]
                &&& rom@.chr_page_count == data@[5]
                &&& rom@.flags6 == data@[6]
                &&& rom@.flags7 == data@[7]
                &&& rom@.prg == data@.subrange(
                    payload_offset(data@),
                    payload_offset(data@) + PRG_BLOCK_SIZE * data@[4],
                )
                &&& rom@.chr == data@.subrange(
                    payload_offset(data@) + PRG_BLOCK_SIZE * data@[4],
                    payload_offset(data@) + PRG_BLOCK_SIZE * data@[4] + CHR_BLOCK_SIZE * data@[5],
                )
            },
            r is Err ==> r->Err_0 == spec_parse_error(data@),
    {
        if data.len() < 16 {
            return Err(LoadError::Truncated);
        }
        if !(data[0] == 0x4E && data[1] == 0x45 && data[2] == 0x53 && data[3] == 0x1A) {
            return Err(LoadError::BadMagic);
        }
        let flags6 = data[6];
        let flags7 = data[7];
        let mapper: u16 = ((flags6 >> 4) | (flags7 & 0xF0)) as u16;
        let prg_page_count = data[4];
        let chr_page_count = data[5];
        if mapper != 0 || !(prg_page_count == 1 || prg_page_count == 2) {
            return Err(LoadError::UnsupportedMapper);
        }
        let offset: usize = if flags6 & 0x04 != 0 { 16 + 512 } else { 16 };
        let prg_size: usize = PRG_BLOCK_SIZE * prg_page_count as usize;
        let chr_size: usize = CHR_BLOCK_SIZE * chr_page_count as usize;
        if data.len() < offset + prg_size + chr_size {
            return Err(LoadError::Truncated);
        }
        let prg = copy_range(data, offset, prg_size);
        let chr = copy_range(data, offset + prg_size, chr_size);
        Ok(Rom {
            prg: bytes_from_vec(prg),
            chr: bytes_from_vec(chr),
            prg_page_count,
            chr_page_count,
            flags6,
            flags7,
        })
    }

    /// The byte the mapper-0 PRG window shows at `addr` in `[0, 0x8000)`.
    pub fn read_prg(&self, addr: u16) -> (r: u8)
        requires
            self@.wf(),
            addr < 0x8000,
        ensures
            r == self@.prg_byte(addr),
    {
        if self.prg_page_count == 1 {
            bytes_get(&self.prg, (addr % 0x4000) as usize)
        } else {
            bytes_get(&self.prg, addr as usize)
        }
    }

    /// The CHR blob.
    pub fn chr(&self) -> (r: &bytes::Bytes)
        ensures
            bytes_view(*r) == self@.chr,
    {
        &self.chr
    }

    /// Length of the CHR blob in bytes.
    pub fn chr_len(&self) -> (n: usize)
        ensures
            n == self@.chr.len(),
    {
        bytes_len(&self.chr)
    }

    /// One byte of the CHR blob.
    pub fn chr_byte(&self, i: usize) -> (r: u8)
        requires
            i < self@.chr.len(),
        ensures
            r == self@.chr[i as int],
    {
        bytes_get(&self.chr, i)
    }

    /// Number of PRG pages.
    pub fn prg_page_count(&self) -> (r: u8)
        ensures
            r == self@.prg_page_count,
    {
        self.prg_page_count
    }

    /// Number of CHR pages.
    pub fn chr_page_count(&self) -> (r: u8)
        ensures
            r == self@.chr_page_count,
    {
        self.chr_page_count
    }

    /// Starting program counter used by test images: `$C000` when a
    /// single PRG page is mirrored there, or when both pages are
    /// identical; `$8000` otherwise.
    pub fn initial_pc(&self) -> (r: u16)
        requires
            self@.wf(),
        ensures
            r == spec_initial_pc(self@),
    {
        if self.prg_page_count == 1 {
            0xC000
        } else if self.banks_equal() {
            0xC000
        } else {
            0x8000
        }
    }

    /// Whether the two PRG banks of a two-page cartridge hold the same
    /// bytes.
    fn banks_equal(&self) -> (r: bool)
        requires
            self@.wf(),
            self@.prg_page_count == 2,
        ensures
            r == (self@.prg.subrange(0, 0x4000) =~= self@.prg.subrange(0x4000, 0x8000)),
    {
        let mut i: usize = 0;
        while i < PRG_BLOCK_SIZE
            invariant
                self@.wf(),
                self@.prg_page_count == 2,
                i <= PRG_BLOCK_SIZE,
                forall|j: int| 0 <= j < i ==> self@.prg[j] == #[trigger] self@.prg[j + 0x4000],
            decreases PRG_BLOCK_SIZE - i,
        {
            if bytes_get(&self.prg, i) != bytes_get(&self.prg, i + PRG_BLOCK_SIZE) {
                assert(self@.prg.subrange(0, 0x4000)[i as int] != self@.prg.subrange(
                    0x4000,
                    0x8000,
                )[i as int]);
                return false;
            }
            i += 1;
        }
        assert forall|j: int| 0 <= j < 0x4000 implies self@.prg.subrange(0, 0x4000)[j]
            == self@.prg.subrange(0x4000, 0x8000)[j] by {
            assert(self@.prg[j] == self@.prg[j + 0x4000]);
        }
        true
    }

    /// Horizontal nametable mirroring (flags6 bit 0 clear).
    pub fn is_horizontal(&self) -> (r: bool)
        ensures
            r == self@.is_horizontal(),
    {
        self.flags6 & 0x01 == 0
    }

    /// Whether a 512-byte trainer preceded the PRG blob.
    pub fn has_trainer(&self) -> (r: bool)
        ensures
            r == (self@.flags6 & 0x04 != 0),
    {
        self.flags6 & 0x04 != 0
    }
}

/// Program counter `initial_pc` returns for a well-formed cartridge.
pub open spec fn spec_initial_pc(m: RomModel) -> u16 {
    if m.prg_page_count == 1 {
        0xC000
    } else if m.prg.subrange(0, 0x4000) =~= m.prg.subrange(0x4000, 0x8000) {
        0xC000
    } else {
        0x8000
    }
}

/// The error `parse` reports for an unparsable image.
pub open spec fn spec_parse_error(data: Seq<u8>) -> LoadError {
    if data.len() < 16 {
        LoadError::Truncated
    } else if !magic_ok(data) {
        LoadError::BadMagic
    } else if mapper_of(data) != 0 || !(data[4] == 1 || data[4] == 2) {
        LoadError::UnsupportedMapper
    } else {
        LoadError::Truncated
    }
}

/// Copy `len` bytes of `data` starting at `start` into a fresh vector.
fn copy_range(data: &Vec<u8>, start: usize, len: usize) -> (r: Vec<u8>)
    requires
        start + len <= data@.len(),
    ensures
        r@ == data@.subrange(start as int, start + len),
{
    let n: usize = data.len();
    let mut out: Vec<u8> = Vec::new();
    let mut i: usize = 0;
    while i < len
        invariant
            start + len <= n == data@.len(),
            i <= len,
            out@ =~= data@.subrange(start as int, start + i),
        decreases len - i,
    {
        out.push(data[start + i]);
        assert(out@ =~= data@.subrange(start as int, start + i + 1));
        i += 1;
    }
    out
}

} // verus!
