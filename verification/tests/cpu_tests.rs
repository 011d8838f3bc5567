use nes_core::Nes;
use nes_core::cpu::CpuError;
use nes_core::cpu::FLAG_CRY;
use nes_core::cpu::FLAG_NEG;
use nes_core::cpu::FLAG_OVF;
use nes_core::cpu::FLAG_ZER;
use nes_core::opcode::AddressMode;
use nes_core::opcode::OpType;
use nes_core::opcode::decode;
use nes_core::opcode::is_kil;
use nes_core::rom::Rom;

/// Build a one-page NROM image whose PRG starts with `program` at
/// `$8000` (padded with NOPs) and whose reset vector points at `$8000`.
fn build_image(program: &[u8]) -> Vec<u8> {
    let mut data = vec![0x4E, 0x45, 0x53, 0x1A, 1, 0, 0, 0];
    data.extend_from_slice(&[0u8; 8]);
    let mut prg = vec![0xEAu8; 0x4000];
    prg[..program.len()].copy_from_slice(program);
    prg[0x3FFC] = 0x00;
    prg[0x3FFD] = 0x80;
    data.extend_from_slice(&prg);
    data
}

fn boot(program: &[u8]) -> Nes {
    let image = build_image(program);
    let rom = Rom::parse(&image).expect("image parses");
    let mut nes = Nes::new();
    nes.set_rom(rom);
    nes.reset();
    nes
}

fn step(nes: &mut Nes, n: usize) {
    for _ in 0..n {
        nes.cpu.tick(&mut nes.mbc).expect("no halt");
    }
}

#[test]
fn arithmetic_program_stores_sum() {
    // LDA #$05; STA $00; LDA #$03; CLC; ADC $00; STA $01; BRK
    let mut nes = boot(&[0xA9, 0x05, 0x85, 0x00, 0xA9, 0x03, 0x18, 0x65, 0x00, 0x85, 0x01, 0x00]);
    step(&mut nes, 7);
    assert_eq!(nes.mbc.ram[1], 0x08);
    assert_eq!(nes.cpu.p & FLAG_CRY, 0);
    assert_eq!(nes.cpu.p & FLAG_ZER, 0);
    assert_eq!(nes.cpu.p & FLAG_NEG, 0);
    assert_eq!(nes.cpu.p & FLAG_OVF, 0);
}

#[test]
fn stack_push_pull_round_trip() {
    // LDX #$FF; TXS; PHA; PLA, with A preloaded to $42.
    let mut nes = boot(&[0xA2, 0xFF, 0x9A, 0x48, 0x68]);
    nes.cpu.a = 0x42;
    step(&mut nes, 4);
    assert_eq!(nes.cpu.a, 0x42);
    assert_eq!(nes.cpu.s, 0xFF);
    assert_eq!(nes.mbc.read(0x01FF), 0x42);
}

#[test]
fn jsr_rts_resumes_after_call() {
    // $8000: JSR $8010 ... $8010: RTS
    let mut program = vec![0x20, 0x10, 0x80];
    program.resize(0x10, 0xEA);
    program.push(0x60);
    let mut nes = boot(&program);
    step(&mut nes, 1);
    assert_eq!(nes.cpu.pc, 0x8010);
    step(&mut nes, 1);
    assert_eq!(nes.cpu.pc, 0x8003);
}

#[test]
fn php_plp_restores_flags_but_not_b() {
    // SEC; PHP; CLC; PLP: PLP restores carry from the pushed byte.
    let mut nes = boot(&[0x38, 0x08, 0x18, 0x28]);
    step(&mut nes, 4);
    assert_ne!(nes.cpu.p & FLAG_CRY, 0, "carry restored by PLP");
    assert_eq!(nes.cpu.p & 0x10, 0, "B stays clear in the live flag byte");
    assert_ne!(nes.cpu.p & 0x20, 0, "U forced to 1");
    // The pushed byte itself carries B and U set.
    assert_eq!(nes.mbc.read(0x01FD) & 0x30, 0x30);
}

#[test]
fn kil_opcode_halts_with_error() {
    let mut nes = boot(&[0x02]);
    let r = nes.cpu.tick(&mut nes.mbc);
    assert_eq!(r, Err(CpuError::Kil { pc: 0x8000, opcode: 0x02 }));
    assert_eq!(nes.cpu.pc, 0x8000);
}

#[test]
fn base_cycle_costs_accumulate() {
    // LDA #$05 (2) ; STA $00 (3) ; BRK (7)
    let mut nes = boot(&[0xA9, 0x05, 0x85, 0x00, 0x00]);
    step(&mut nes, 1);
    assert_eq!(nes.cpu.cycle, 2);
    step(&mut nes, 1);
    assert_eq!(nes.cpu.cycle, 5);
    step(&mut nes, 1);
    assert_eq!(nes.cpu.cycle, 12);
}

#[test]
fn page_cross_read_costs_extra_cycle() {
    // LDX #$01; LDA $80FF,X -> crosses into $8100: 2 + 4 + 1 cycles.
    let mut nes = boot(&[0xA2, 0x01, 0xBD, 0xFF, 0x80]);
    step(&mut nes, 2);
    assert_eq!(nes.cpu.cycle, 2 + 5);
    // Same read without crossing costs the base 4.
    let mut nes2 = boot(&[0xA2, 0x01, 0xBD, 0x00, 0x80]);
    step(&mut nes2, 2);
    assert_eq!(nes2.cpu.cycle, 2 + 4);
}

#[test]
fn taken_branch_costs_extra_cycle() {
    // CLC; BCC +2 (taken, same page): 2 + 2 + 1.
    let mut nes = boot(&[0x18, 0x90, 0x02, 0xEA, 0xEA]);
    step(&mut nes, 2);
    assert_eq!(nes.cpu.cycle, 5);
    assert_eq!(nes.cpu.pc, 0x8005);
    // SEC; BCC (not taken): 2 + 2.
    let mut nes2 = boot(&[0x38, 0x90, 0x02]);
    step(&mut nes2, 2);
    assert_eq!(nes2.cpu.cycle, 4);
    assert_eq!(nes2.cpu.pc, 0x8003);
}

#[test]
fn decode_table_entries() {
    let lda_imm = decode(0xA9);
    assert_eq!(lda_imm.mode, AddressMode::Immedt);
    assert_eq!(lda_imm.op, OpType::LDA);
    assert_eq!(lda_imm.cycles, 2);
    assert_eq!(lda_imm.page_cycle, 0);
    let jmp_ind = decode(0x6C);
    assert_eq!(jmp_ind.mode, AddressMode::Indrct);
    assert_eq!(jmp_ind.op, OpType::JMP);
    assert_eq!(jmp_ind.cycles, 5);
    let lda_absx = decode(0xBD);
    assert_eq!(lda_absx.mode, AddressMode::AbIdxX);
    assert_eq!(lda_absx.page_cycle, 1);
    assert!(is_kil(0x02));
    assert!(is_kil(0xF2));
    assert!(!is_kil(0xA9));
}

#[test]
fn jmp_indirect_page_boundary_quirk() {
    // Pointer at $02FF: low byte from $02FF, high byte from $0200 (not $0300).
    // LDA #$34; STA $02FF; LDA #$12; STA $0200; JMP ($02FF)
    let mut nes = boot(&[
        0xA9, 0x34, 0x8D, 0xFF, 0x02, 0xA9, 0x12, 0x8D, 0x00, 0x02, 0x6C, 0xFF, 0x02,
    ]);
    step(&mut nes, 5);
    assert_eq!(nes.cpu.pc, 0x1234);
}

#[test]
fn sbc_sets_borrow_and_overflow() {
    // SEC; LDA #$50; SBC #$F0 -> A = $60, C clear (borrow), V clear.
    let mut nes = boot(&[0x38, 0xA9, 0x50, 0xE9, 0xF0]);
    step(&mut nes, 3);
    assert_eq!(nes.cpu.a, 0x60);
    assert_eq!(nes.cpu.p & FLAG_CRY, 0);
    assert_eq!(nes.cpu.p & FLAG_OVF, 0);
    // SEC; LDA #$50; SBC #$B0 -> A = $A0, signed overflow set.
    let mut nes2 = boot(&[0x38, 0xA9, 0x50, 0xE9, 0xB0]);
    step(&mut nes2, 3);
    assert_eq!(nes2.cpu.a, 0xA0);
    assert_ne!(nes2.cpu.p & FLAG_OVF, 0);
}

#[test]
fn adc_signed_overflow() {
    // CLC; LDA #$50; ADC #$50 -> A = $A0, V set, C clear, N set.
    let mut nes = boot(&[0x18, 0xA9, 0x50, 0x69, 0x50]);
    step(&mut nes, 3);
    assert_eq!(nes.cpu.a, 0xA0);
    assert_ne!(nes.cpu.p & FLAG_OVF, 0);
    assert_eq!(nes.cpu.p & FLAG_CRY, 0);
    assert_ne!(nes.cpu.p & FLAG_NEG, 0);
}

#[test]
fn indexed_zero_page_wraps() {
    // LDA #$77; STA $0005; LDX #$06; LDA $FF,X -> wraps to $05.
    let mut nes = boot(&[0xA9, 0x77, 0x85, 0x05, 0xA2, 0x06, 0xB5, 0xFF]);
    step(&mut nes, 4);
    assert_eq!(nes.cpu.a, 0x77);
}

#[test]
fn rmw_shifts_update_memory_and_carry() {
    // LDA #$81; STA $10; ASL $10 -> $02 with carry set.
    let mut nes = boot(&[0xA9, 0x81, 0x85, 0x10, 0x06, 0x10]);
    step(&mut nes, 3);
    assert_eq!(nes.mbc.ram[0x10], 0x02);
    assert_ne!(nes.cpu.p & FLAG_CRY, 0);
    // LSR $10 -> $01, carry clear.
    let mut nes2 = boot(&[0xA9, 0x02, 0x85, 0x10, 0x46, 0x10]);
    step(&mut nes2, 3);
    assert_eq!(nes2.mbc.ram[0x10], 0x01);
    assert_eq!(nes2.cpu.p & FLAG_CRY, 0);
}

#[test]
fn rotate_through_carry() {
    // SEC; LDA #$80; ROL A -> A = $01, carry set from bit 7.
    let mut nes = boot(&[0x38, 0xA9, 0x80, 0x2A]);
    step(&mut nes, 3);
    assert_eq!(nes.cpu.a, 0x01);
    assert_ne!(nes.cpu.p & FLAG_CRY, 0);
    // SEC; LDA #$01; ROR A -> A = $80, carry set from bit 0.
    let mut nes2 = boot(&[0x38, 0xA9, 0x01, 0x6A]);
    step(&mut nes2, 3);
    assert_eq!(nes2.cpu.a, 0x80);
    assert_ne!(nes2.cpu.p & FLAG_CRY, 0);
}

#[test]
fn bit_copies_operand_top_bits() {
    // LDA #$C0; STA $20; LDA #$00; BIT $20 -> Z set, N set, V set.
    let mut nes = boot(&[0xA9, 0xC0, 0x85, 0x20, 0xA9, 0x00, 0x24, 0x20]);
    step(&mut nes, 4);
    assert_ne!(nes.cpu.p & FLAG_ZER, 0);
    assert_ne!(nes.cpu.p & FLAG_NEG, 0);
    assert_ne!(nes.cpu.p & FLAG_OVF, 0);
}

#[test]
fn compare_sets_carry_and_zero() {
    // LDA #$30; CMP #$30 -> Z and C set; CMP #$40 -> both clear, N set.
    let mut nes = boot(&[0xA9, 0x30, 0xC9, 0x30, 0xC9, 0x40]);
    step(&mut nes, 2);
    assert_ne!(nes.cpu.p & FLAG_ZER, 0);
    assert_ne!(nes.cpu.p & FLAG_CRY, 0);
    step(&mut nes, 1);
    assert_eq!(nes.cpu.p & FLAG_ZER, 0);
    assert_eq!(nes.cpu.p & FLAG_CRY, 0);
    assert_ne!(nes.cpu.p & FLAG_NEG, 0);
}

#[test]
fn increments_and_decrements_wrap() {
    // LDX #$FF; INX -> X = 0 with Z; LDY #$00; DEY -> Y = $FF with N.
    let mut nes = boot(&[0xA2, 0xFF, 0xE8, 0xA0, 0x00, 0x88]);
    step(&mut nes, 2);
    assert_eq!(nes.cpu.x, 0);
    assert_ne!(nes.cpu.p & FLAG_ZER, 0);
    step(&mut nes, 2);
    assert_eq!(nes.cpu.y, 0xFF);
    assert_ne!(nes.cpu.p & FLAG_NEG, 0);
}

#[test]
fn brk_pushes_and_vectors_through_fffe() {
    // IRQ vector -> $8030; BRK at $8000.
    let mut program = vec![0x00u8];
    program.resize(0x30, 0xEA);
    program.push(0xEA);
    let image = {
        let mut data = vec![0x4E, 0x45, 0x53, 0x1A, 1, 0, 0, 0];
        data.extend_from_slice(&[0u8; 8]);
        let mut prg = vec![0xEAu8; 0x4000];
        prg[..program.len()].copy_from_slice(&program);
        prg[0x3FFC] = 0x00;
        prg[0x3FFD] = 0x80;
        prg[0x3FFE] = 0x30;
        prg[0x3FFF] = 0x80;
        data.extend_from_slice(&prg);
        data
    };
    let rom = Rom::parse(&image).expect("image parses");
    let mut nes = Nes::new();
    nes.set_rom(rom);
    nes.reset();
    step(&mut nes, 1);
    assert_eq!(nes.cpu.pc, 0x8030);
    assert_ne!(nes.cpu.p & 0x04, 0, "I set on BRK entry");
    // The pushed return address is two past the opcode, the pushed
    // flag byte carries B and U.
    assert_eq!(nes.mbc.read(0x01FD), 0x80);
    assert_eq!(nes.mbc.read(0x01FC), 0x02);
    assert_eq!(nes.mbc.read(0x01FB) & 0x30, 0x30);
}

#[test]
fn rti_restores_flags_and_pc() {
    // SEC; PHP-like frame by hand: push $80, $40 (return $8040), push
    // flags $31, then RTI.
    let mut nes = boot(&[
        0xA9, 0x80, 0x48, 0xA9, 0x40, 0x48, 0xA9, 0x31, 0x48, 0x40,
    ]);
    step(&mut nes, 7);
    assert_eq!(nes.cpu.pc, 0x8040);
    // B discarded, U forced: $31 becomes $21.
    assert_eq!(nes.cpu.p, 0x21);
}

#[test]
fn indirect_indexed_reads_through_zero_page() {
    // Pointer at $10 -> $0234; LDY #$04; LDA ($10),Y reads $0238.
    let mut nes = boot(&[
        0xA9, 0x34, 0x85, 0x10, 0xA9, 0x02, 0x85, 0x11, 0xA9, 0x5A, 0x8D, 0x38, 0x02, 0xA0,
        0x04, 0xB1, 0x10,
    ]);
    step(&mut nes, 6);
    assert_eq!(nes.cpu.a, 0x5A);
}

#[test]
fn indexed_indirect_reads_through_zero_page() {
    // X = 4; pointer at ($0C + 4) = $10 -> $0234; LDA ($0C,X).
    let mut nes = boot(&[
        0xA9, 0x34, 0x85, 0x10, 0xA9, 0x02, 0x85, 0x11, 0xA9, 0x77, 0x8D, 0x34, 0x02, 0xA2,
        0x04, 0xA1, 0x0C,
    ]);
    step(&mut nes, 6);
    assert_eq!(nes.cpu.a, 0x77);
}

#[test]
fn unofficial_opcodes_behave_as_nop() {
    // $04 is tabulated as a zero-page NOP: two bytes, three cycles,
    // and no register effect.
    let mut nes = boot(&[0x04, 0x00, 0xA9, 0x09]);
    step(&mut nes, 1);
    assert_eq!(nes.cpu.pc, 0x8002);
    assert_eq!(nes.cpu.cycle, 3);
    step(&mut nes, 1);
    assert_eq!(nes.cpu.a, 0x09);
    assert_eq!(nes.cpu.pc, 0x8004);
}
