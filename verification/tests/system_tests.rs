use nes_core::MAX_STEP_CYCLES;
use nes_core::Nes;
use nes_core::joypad::BUTTON_A;
use nes_core::joypad::BUTTON_START;
use nes_core::joypad::Joypad;
use nes_core::rom::Rom;

/// Build a one-page NROM image whose PRG starts with `program` at
/// `$8000` (padded with NOPs) and whose reset vector points at `$8000`.
fn build_image(program: &[u8]) -> Vec<u8> {
    let mut data = vec![0x4E, 0x45, 0x53, 0x1A, 1, 0, 0, 0];
    data.extend_from_slice(&[0u8; 8]);
    let mut prg = vec![0xEAu8; 0x4000];
    prg[..program.len()].copy_from_slice(program);
    prg[0x3FFC] = 0x00;
    prg[0x3FFD] = 0x80;
    data.extend_from_slice(&prg);
    data
}

fn boot(program: &[u8]) -> Nes {
    let image = build_image(program);
    let rom = Rom::parse(&image).expect("image parses");
    let mut nes = Nes::new();
    nes.set_rom(rom);
    nes.reset();
    nes
}

#[test]
fn scheduler_keeps_clocks_in_sync() {
    // JMP $8000: a tight loop the scheduler can run forever.
    let mut nes = boot(&[0x4C, 0x00, 0x80]);
    for _ in 0..200_000u32 {
        nes.tick().expect("no halt");
        let cpu3 = nes.cpu.cycle * 3;
        let ppu = nes.mbc.ppu.cycle;
        let skew = if cpu3 >= ppu { cpu3 - ppu } else { ppu - cpu3 };
        assert!(skew <= 3 * MAX_STEP_CYCLES, "skew {} too large", skew);
    }
    assert!(nes.cpu.cycle > 0);
    assert!(nes.mbc.ppu.cycle > 0);
}

#[test]
fn oam_dma_copies_a_ram_page() {
    let mut nes = boot(&[0x4C, 0x00, 0x80]);
    for i in 0..256u16 {
        nes.mbc.write(0x0200 + i, (i as u8).wrapping_mul(3).wrapping_add(7));
    }
    nes.mbc.write(0x2003, 0x05);
    nes.mbc.run_oam_dma(0x02);
    for i in 0..256usize {
        let expected = nes.mbc.read(0x0200 + i as u16);
        assert_eq!(nes.mbc.ppu.oam_ram[(0x05 + i) % 256], expected, "entry {}", i);
    }
}

#[test]
fn dma_write_schedules_and_scheduler_stalls_cpu() {
    // STA $4014 with A holding the page, then spin.
    let mut nes = boot(&[0xA9, 0x02, 0x8D, 0x14, 0x40, 0x4C, 0x05, 0x80]);
    for i in 0..256u16 {
        nes.mbc.write(0x0200 + i, i as u8);
    }
    // Run CPU steps directly until the DMA gets scheduled.
    nes.cpu.tick(&mut nes.mbc).unwrap();
    nes.cpu.tick(&mut nes.mbc).unwrap();
    assert_eq!(nes.mbc.ppu.pending_dma, Some(0x02));
    let before = nes.cpu.cycle;
    // The next console step with the CPU's turn flushes the DMA and
    // stalls the CPU 513 cycles on top of the instruction.
    while nes.cpu.cycle * 3 > nes.mbc.ppu.cycle {
        nes.tick().unwrap();
    }
    nes.tick().unwrap();
    assert_eq!(nes.mbc.ppu.pending_dma, None);
    assert!(nes.cpu.cycle >= before + 513);
    assert_eq!(nes.mbc.ppu.oam_ram[0], 0);
    assert_eq!(nes.mbc.ppu.oam_ram[255], 255);
}

#[test]
fn nmi_dispatches_through_vector_once() {
    // NMI handler at $8100 loops; main program spins at $8000.
    let mut program = vec![0x4C, 0x00, 0x80];
    program.resize(0x100, 0xEA);
    program.extend_from_slice(&[0x4C, 0x00, 0x81]);
    let mut image = build_image(&program);
    // NMI vector at $FFFA -> $8100; enable-NMI via $2000 is done below.
    image[16 + 0x3FFA] = 0x00;
    image[16 + 0x3FFB] = 0x81;
    let rom = Rom::parse(&image).expect("image parses");
    let mut nes = Nes::new();
    nes.set_rom(rom);
    nes.reset();
    nes.mbc.write(0x2000, 0x80);
    // Run past one VBlank entry.
    let mut in_handler = false;
    for _ in 0..400_000u32 {
        nes.tick().expect("no halt");
        if (0x8100..0x8110).contains(&nes.cpu.pc) {
            in_handler = true;
            break;
        }
    }
    assert!(in_handler, "the NMI moved the program counter to the handler");
    // The interrupt-disable flag is set on entry.
    assert_ne!(nes.cpu.p & 0x04, 0);
}

#[test]
fn joypad_shifts_out_buttons() {
    let mut nes = boot(&[0x4C, 0x00, 0x80]);
    // Latch on, report buttons, latch off, then read the bits out.
    nes.mbc.write(0x4016, 1);
    nes.set_joypad_button_state(BUTTON_A | BUTTON_START);
    nes.mbc.write(0x4016, 0);
    let mut bits = [0u8; 8];
    for i in 0..8 {
        bits[i] = nes.mbc.read(0x4016) & 1;
    }
    assert_eq!(bits, [1, 0, 0, 1, 0, 0, 0, 0]);
    // The counter saturates: further reads keep returning bit 7.
    assert_eq!(nes.mbc.read(0x4016), 0);
}

#[test]
fn joypad_state_machine_direct() {
    let mut pad = Joypad::new();
    pad.write(0x4016, 1);
    pad.set_button_state(0xA5);
    assert_eq!(pad.read_state(), 1);
    assert_eq!(pad.read_state(), 0);
    assert_eq!(pad.read_state(), 1);
    // A write without the latch bit does not reload the register.
    pad.write(0x4016, 0);
    pad.set_button_state(0xFF);
    assert_eq!(pad.read_state(), 0);
    assert_eq!(pad.read(0x4017), 0);
}

#[test]
fn apu_ports_are_ignored_and_open_bus_reads_zero() {
    let mut nes = boot(&[0x4C, 0x00, 0x80]);
    nes.mbc.write(0x4000, 0x55);
    nes.mbc.write(0x4015, 0x55);
    assert_eq!(nes.mbc.read(0x4000), 0);
    assert_eq!(nes.mbc.read(0x4015), 0);
    assert_eq!(nes.mbc.read(0x4018), 0);
    assert_eq!(nes.mbc.read(0x5000), 0);
    assert_eq!(nes.mbc.read(0x6000), 0);
}

#[test]
fn ram_is_mirrored_every_2k() {
    let mut nes = boot(&[0x4C, 0x00, 0x80]);
    nes.mbc.write(0x0001, 0x42);
    assert_eq!(nes.mbc.read(0x0801), 0x42);
    assert_eq!(nes.mbc.read(0x1001), 0x42);
    assert_eq!(nes.mbc.read(0x1801), 0x42);
}

#[test]
fn ppu_registers_are_mirrored_through_the_window() {
    let mut nes = boot(&[0x4C, 0x00, 0x80]);
    // $2008 aliases $2000, $3FF9 aliases $2001, and status reads via
    // $200A alias $2002.
    nes.mbc.write(0x2008, 0x04);
    assert_eq!(nes.mbc.ppu.control, 0x04);
    nes.mbc.write(0x3FF9, 0x18);
    assert_eq!(nes.mbc.ppu.mask, 0x18);
    nes.mbc.ppu.status = 0x80;
    assert_eq!(nes.mbc.read(0x200A) & 0x80, 0x80);
    assert_eq!(nes.mbc.ppu.status & 0x80, 0);
}

#[test]
fn screen_rendered_flag_rises_once_per_field() {
    let mut nes = boot(&[0x4C, 0x00, 0x80]);
    assert!(!nes.screen_rendered());
    let mut guard = 0u32;
    while !nes.screen_rendered() {
        nes.tick().unwrap();
        guard += 1;
        assert!(guard < 200_000, "frame flag must rise within one field");
    }
    assert!(nes.reset_screen_rendered());
    assert!(!nes.screen_rendered());
    assert_eq!(nes.screen_size(), (256, 240));
}
