use nes_core::ppu::Ppu;
use nes_core::ppu::STATUS_SPRITE_ZERO_HIT;
use nes_core::ppu::STATUS_VBLANK;
use nes_core::vram::Vram;

const DOTS_PER_FIELD: u64 = 341 * 262;

#[test]
fn grid_stays_in_bounds() {
    let mut ppu = Ppu::new(true, true);
    for _ in 0..(341 * 4 + 17) {
        ppu.tick();
        assert!(0 <= ppu.current_cycle && ppu.current_cycle < 341);
        assert!(-1 <= ppu.current_line && ppu.current_line < 261);
    }
}

#[test]
fn one_field_has_one_vblank() {
    let mut ppu = Ppu::new(true, true);
    assert_eq!(ppu.current_line, -1);
    assert_eq!(ppu.current_cycle, 0);
    let mut sets: u32 = 0;
    let mut clears: u32 = 0;
    for _ in 0..DOTS_PER_FIELD {
        let at_set_point = ppu.current_line == 241 && ppu.current_cycle == 1;
        let at_clear_point = ppu.current_line == -1 && ppu.current_cycle == 1;
        ppu.tick();
        if at_set_point {
            assert_ne!(ppu.status & STATUS_VBLANK, 0);
            sets += 1;
        }
        if at_clear_point {
            assert_eq!(ppu.status & STATUS_VBLANK, 0);
            clears += 1;
        }
    }
    assert_eq!(sets, 1, "VBlank set exactly once per field");
    assert_eq!(clears, 1, "VBlank cleared exactly once per field");
    assert_eq!(ppu.current_line, -1);
    assert_eq!(ppu.current_cycle, 0);
    assert_eq!(ppu.cycle, DOTS_PER_FIELD);
}

#[test]
fn vblank_sets_at_line_241_dot_1() {
    let mut ppu = Ppu::new(true, true);
    // Advance to line 241, dot 1: pre-render line + 242 lines of 341
    // dots, plus two dots.
    while !(ppu.current_line == 241 && ppu.current_cycle == 1) {
        assert_eq!(ppu.status & STATUS_VBLANK, 0);
        ppu.tick();
    }
    ppu.tick();
    assert_ne!(ppu.status & STATUS_VBLANK, 0);
    assert!(ppu.is_raise_nmi, "the NMI line rises with VBlank");
}

#[test]
fn palette_mirror_via_registers() {
    // Write $2006 <- $3F, $2006 <- $10, $2007 <- $2A; the entry read
    // back at $3F00 is $2A.
    let mut ppu = Ppu::new(true, true);
    ppu.write(0x2006, 0x3F);
    ppu.write(0x2006, 0x10);
    ppu.write(0x2007, 0x2A);
    assert_eq!(ppu.vram.read_internal(0x3F00), 0x2A);
    assert_eq!(ppu.vram.read_internal(0x3F10), 0x2A);
}

#[test]
fn palette_mirror_direct() {
    let mut vram = Vram::new(true, true);
    vram.write(0x3F14, 0x19);
    assert_eq!(vram.read_internal(0x3F04), 0x19);
    vram.write(0x3F08, 0x2B);
    assert_eq!(vram.read_internal(0x3F18), 0x2B);
    // Non-aliased entries stay independent.
    vram.write(0x3F01, 0x11);
    vram.write(0x3F11, 0x22);
    assert_eq!(vram.read_internal(0x3F01), 0x11);
    assert_eq!(vram.read_internal(0x3F11), 0x22);
}

#[test]
fn nametable_mirroring_horizontal() {
    let mut vram = Vram::new(true, true);
    for k in [0u16, 1, 0x1FF, 0x3FF] {
        vram.write(0x2000 + k, 0x5A);
        assert_eq!(vram.read_internal(0x2400 + k), 0x5A);
    }
    // The second pair is backed by the other physical table.
    vram.write(0x2800, 0x77);
    assert_eq!(vram.read_internal(0x2C00), 0x77);
    assert_ne!(vram.read_internal(0x2000), 0x77);
}

#[test]
fn nametable_mirroring_vertical() {
    let mut vram = Vram::new(false, true);
    vram.write(0x2000, 0x33);
    assert_eq!(vram.read_internal(0x2800), 0x33);
    vram.write(0x2400, 0x44);
    assert_eq!(vram.read_internal(0x2C00), 0x44);
    assert_ne!(vram.read_internal(0x2000), 0x44);
}

#[test]
fn data_port_read_is_buffered() {
    // Store $77 at $2345 through the port, re-set the address, then
    // read twice: the first read returns the stale buffer, the second
    // the stored byte.
    let mut ppu = Ppu::new(true, true);
    ppu.write(0x2006, 0x23);
    ppu.write(0x2006, 0x45);
    ppu.write(0x2007, 0x77);
    ppu.write(0x2006, 0x23);
    ppu.write(0x2006, 0x45);
    let first = ppu.read(0x2007);
    let second = ppu.read(0x2007);
    assert_eq!(first, 0, "stale buffer from power-up");
    assert_eq!(second, 0x77);
}

#[test]
fn status_read_clears_vblank_and_toggle() {
    let mut ppu = Ppu::new(true, true);
    ppu.status = STATUS_VBLANK;
    ppu.write(0x2005, 7);
    assert!(ppu.write_toggle);
    let v = ppu.read(0x2002);
    assert_eq!(v & STATUS_VBLANK, STATUS_VBLANK);
    assert_eq!(ppu.status & STATUS_VBLANK, 0);
    assert!(!ppu.write_toggle);
}

#[test]
fn oam_data_port_increments_address() {
    let mut ppu = Ppu::new(true, true);
    ppu.write(0x2003, 0xFE);
    ppu.write(0x2004, 0xAA);
    ppu.write(0x2004, 0xBB);
    assert_eq!(ppu.oam_ram[0xFE], 0xAA);
    assert_eq!(ppu.oam_ram[0xFF], 0xBB);
    assert_eq!(ppu.oam_address, 0x00);
    ppu.write(0x2003, 0xFE);
    assert_eq!(ppu.read(0x2004), 0xAA);
}

#[test]
fn address_increment_follows_control() {
    let mut ppu = Ppu::new(true, true);
    ppu.write(0x2000, 0x04);
    ppu.write(0x2006, 0x20);
    ppu.write(0x2006, 0x00);
    ppu.write(0x2007, 1);
    assert_eq!(ppu.vram.get_addr(), 0x2020);
}

#[test]
fn sprite_zero_hit_in_first_visible_lines() {
    let mut ppu = Ppu::new(true, true);
    // Make tile 0 fully opaque in CHR-RAM: plane 0 all ones.
    for i in 0..8 {
        ppu.vram.write(i, 0xFF);
    }
    // All nametable entries are tile 0, so the background is opaque
    // everywhere; give it a non-zero palette entry.
    ppu.vram.write(0x3F01, 0x21);
    ppu.vram.write(0x3F11, 0x15);
    // Sprite 0 at (x=8, y=0): row byte 0 shows from line 1 on.
    ppu.oam_ram[0] = 0;
    ppu.oam_ram[1] = 0;
    ppu.oam_ram[2] = 0;
    ppu.oam_ram[3] = 8;
    // Show background and sprites.
    ppu.write(0x2001, 0x18);
    assert_eq!(ppu.status & STATUS_SPRITE_ZERO_HIT, 0);
    // Run the pre-render line and the first two visible lines.
    for _ in 0..(341 * 3) {
        ppu.tick();
    }
    assert_ne!(ppu.status & STATUS_SPRITE_ZERO_HIT, 0, "hit within first visible lines");
    // The bit stays set until the next pre-render line clears it.
    while !(ppu.current_line == -1 && ppu.current_cycle == 1) {
        assert_ne!(ppu.status & STATUS_SPRITE_ZERO_HIT, 0);
        ppu.tick();
    }
    ppu.tick();
    assert_eq!(ppu.status & STATUS_SPRITE_ZERO_HIT, 0, "cleared on the pre-render line");
}

#[test]
fn sprite_overflow_when_more_than_eight_match() {
    let mut ppu = Ppu::new(true, true);
    // Nine sprites all covering line 0..8.
    for i in 0..9 {
        ppu.oam_ram[i * 4] = 0;
        ppu.oam_ram[i * 4 + 3] = (i * 8) as u8;
    }
    // Advance past dot 0 of line 1, the first line the sprites cover.
    for _ in 0..(341 * 2 + 2) {
        ppu.tick();
    }
    assert_ne!(ppu.status & 0x20, 0, "sprite overflow set");
    assert_eq!(ppu.fetched_sprites.len(), 8);
}

#[test]
fn frame_pixels_use_backdrop_when_transparent() {
    let mut ppu = Ppu::new(true, true);
    // Backdrop entry: write a recognisable colour index.
    ppu.vram.write(0x3F00, 0x2C);
    // One full visible line.
    for _ in 0..(341 * 2) {
        ppu.tick();
    }
    assert_eq!(ppu.output_frame[0], 0x2C);
}

#[test]
fn render_image_applies_fixed_palette() {
    let ppu = Ppu::new(true, true);
    let mut img = vec![0u8; 256 * 240 * 4];
    ppu.render_image(&mut img);
    // Palette index 0 maps to the grey triple of the fixed table.
    assert_eq!(img[0], 0x7C);
    assert_eq!(img[1], 0x7C);
    assert_eq!(img[2], 0x7C);
    assert_eq!(img[3], 0x00);
}
