use nes_core::rom::CHR_BLOCK_SIZE;
use nes_core::rom::LoadError;
use nes_core::rom::PRG_BLOCK_SIZE;
use nes_core::rom::Rom;

fn header(prg_pages: u8, chr_pages: u8, flags6: u8, flags7: u8) -> Vec<u8> {
    let mut data = vec![0x4E, 0x45, 0x53, 0x1A, prg_pages, chr_pages, flags6, flags7];
    data.extend_from_slice(&[0u8; 8]);
    data
}

#[test]
fn parse_accepts_minimal_image() {
    let mut data = header(1, 0, 0, 0);
    data.extend_from_slice(&vec![0xABu8; PRG_BLOCK_SIZE]);
    let rom = Rom::parse(&data).expect("parses");
    assert_eq!(rom.prg_page_count(), 1);
    assert_eq!(rom.chr_page_count(), 0);
    assert_eq!(rom.chr_len(), 0);
    assert!(rom.is_horizontal());
    assert!(!rom.has_trainer());
    assert_eq!(rom.read_prg(0x0000), 0xAB);
    // One page mirrors across both banks.
    assert_eq!(rom.read_prg(0x4000), 0xAB);
}

#[test]
fn parse_rejects_bad_magic() {
    let mut data = header(1, 0, 0, 0);
    data[0] = 0x4D;
    data.extend_from_slice(&vec![0u8; PRG_BLOCK_SIZE]);
    assert_eq!(Rom::parse(&data).err(), Some(LoadError::BadMagic));
}

#[test]
fn parse_rejects_short_header() {
    let data = vec![0x4E, 0x45, 0x53];
    assert_eq!(Rom::parse(&data).err(), Some(LoadError::Truncated));
}

#[test]
fn parse_rejects_truncated_payload() {
    let mut data = header(2, 1, 0, 0);
    data.extend_from_slice(&vec![0u8; PRG_BLOCK_SIZE]);
    assert_eq!(Rom::parse(&data).err(), Some(LoadError::Truncated));
}

#[test]
fn parse_rejects_other_mappers() {
    let mut data = header(1, 0, 0x10, 0);
    data.extend_from_slice(&vec![0u8; PRG_BLOCK_SIZE]);
    assert_eq!(Rom::parse(&data).err(), Some(LoadError::UnsupportedMapper));
    let mut data2 = header(3, 0, 0, 0);
    data2.extend_from_slice(&vec![0u8; 3 * PRG_BLOCK_SIZE]);
    assert_eq!(Rom::parse(&data2).err(), Some(LoadError::UnsupportedMapper));
}

#[test]
fn parse_skips_trainer() {
    let mut data = header(1, 0, 0x04, 0);
    data.extend_from_slice(&vec![0x11u8; 512]);
    data.extend_from_slice(&vec![0x77u8; PRG_BLOCK_SIZE]);
    let rom = Rom::parse(&data).expect("parses");
    assert!(rom.has_trainer());
    assert_eq!(rom.read_prg(0), 0x77);
}

#[test]
fn mirroring_flag_follows_bit_zero() {
    let mut data = header(1, 0, 0x01, 0);
    data.extend_from_slice(&vec![0u8; PRG_BLOCK_SIZE]);
    let rom = Rom::parse(&data).expect("parses");
    assert!(!rom.is_horizontal(), "bit 0 set selects vertical mirroring");
}

#[test]
fn chr_bytes_are_extracted() {
    let mut data = header(1, 1, 0, 0);
    data.extend_from_slice(&vec![0u8; PRG_BLOCK_SIZE]);
    let mut chr = vec![0u8; CHR_BLOCK_SIZE];
    chr[0] = 0xDE;
    chr[CHR_BLOCK_SIZE - 1] = 0xAD;
    data.extend_from_slice(&chr);
    let rom = Rom::parse(&data).expect("parses");
    assert_eq!(rom.chr_len(), CHR_BLOCK_SIZE);
    assert_eq!(rom.chr_byte(0), 0xDE);
    assert_eq!(rom.chr_byte(CHR_BLOCK_SIZE - 1), 0xAD);
}

#[test]
fn initial_pc_depends_on_banks() {
    // One page: $C000.
    let mut one = header(1, 0, 0, 0);
    one.extend_from_slice(&vec![0u8; PRG_BLOCK_SIZE]);
    assert_eq!(Rom::parse(&one).unwrap().initial_pc(), 0xC000);
    // Two identical pages: $C000.
    let mut same = header(2, 0, 0, 0);
    same.extend_from_slice(&vec![0x55u8; 2 * PRG_BLOCK_SIZE]);
    assert_eq!(Rom::parse(&same).unwrap().initial_pc(), 0xC000);
    // Two different pages: $8000.
    let mut diff = header(2, 0, 0, 0);
    diff.extend_from_slice(&vec![0x55u8; PRG_BLOCK_SIZE]);
    diff.extend_from_slice(&vec![0x66u8; PRG_BLOCK_SIZE]);
    assert_eq!(Rom::parse(&diff).unwrap().initial_pc(), 0x8000);
}

#[test]
fn two_page_images_map_the_full_window() {
    let mut data = header(2, 0, 0, 0);
    data.extend_from_slice(&vec![0x01u8; PRG_BLOCK_SIZE]);
    data.extend_from_slice(&vec![0x02u8; PRG_BLOCK_SIZE]);
    let rom = Rom::parse(&data).expect("parses");
    assert_eq!(rom.read_prg(0x0000), 0x01);
    assert_eq!(rom.read_prg(0x3FFF), 0x01);
    assert_eq!(rom.read_prg(0x4000), 0x02);
    assert_eq!(rom.read_prg(0x7FFF), 0x02);
}

#[test]
fn apu_stub_hands_out_silence() {
    let mut apu = nes_core::apu::Apu::new();
    apu.write(0x4000, 0x3F);
    apu.tick();
    let mut sound = vec![0xFFu8; 32];
    apu.render_sound_buffer(&mut sound);
    assert!(sound.iter().all(|b| *b == 0));
}
