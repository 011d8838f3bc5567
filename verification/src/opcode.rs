//! The 6502 decode table: every opcode maps to an addressing mode, an
//! operation, a base cycle cost, and the extra cycle a page crossing
//! adds. Opcodes outside the official set behave as NOP here, except
//! the KIL group, which halts.

use vstd::prelude::*;

verus! {

/// An addressing mode of the 6502.
#[derive(Clone, Copy, Debug, PartialEq, Eq, Structural)]
pub enum AddressMode {
    /// Immediate: `#value`.
    Immedt,
    /// Implied: no operand.
    Implid,
    /// Accumulator: no operand.
    Accumu,
    /// Relative: signed 8-bit offset, used by branches.
    Relatv,
    /// Zero page: 8-bit address.
    ZeroPg,
    /// Zero page indexed with X.
    ZPIdxX,
    /// Zero page indexed with Y.
    ZPIdxY,
    /// Absolute: 16-bit address.
    Absolu,
    /// Absolute indexed with X.
    AbIdxX,
    /// Absolute indexed with Y.
    AbIdxY,
    /// Indirect: used only by JMP, with the page-boundary wrap quirk.
    Indrct,
    /// Indexed indirect: `(zp + X)`.
    IdxInd,
    /// Indirect indexed: `(zp) + Y`.
    IndIdx,
}

/// An operation of the official 6502 instruction set.
#[derive(Clone, Copy, Debug, PartialEq, Eq, Structural)]
pub enum OpType {
    ADC, AND, ASL,
    BCC, BCS, BEQ, BIT, BMI, BNE, BPL, BRK, BVC, BVS,
    CLC, CLD, CLI, CLV, CMP, CPX, CPY, DEC, DEX, DEY,
    EOR, INC, INX, INY,
    JMP, JSR,
    LDA, LDX, LDY, LSR,
    NOP,
    ORA,
    PHA, PHP, PLA, PLP,
    ROL, ROR, RTI, RTS,
    SBC, SEC, SED, SEI, STA, STX, STY,
    TAX, TAY, TSX, TXA, TXS, TYA,
}

/// One decode-table entry.
#[derive(Clone, Copy, Debug, PartialEq, Eq, Structural)]
pub struct Instr {
    pub mode: AddressMode,
    pub op: OpType,
    pub cycles: u8,
    pub page_cycle: u8,
}

/// Whether `op` is one of the KIL/JAM opcodes, which halt the CPU.
pub open spec fn spec_is_kil(op: u8) -> bool {
    op == 0x02 || op == 0x12 || op == 0x22 || op == 0x32 || op == 0x42 || op == 0x52 || op == 0x62 || op == 0x72 || op == 0x92 || op == 0xB2 || op == 0xD2 || op == 0xF2
}

/// Whether `op` is one of the KIL/JAM opcodes.
pub fn is_kil(op: u8) -> (r: bool)
    ensures
        r == spec_is_kil(op),
{
    op == 0x02 || op == 0x12 || op == 0x22 || op == 0x32 || op == 0x42 || op == 0x52 || op == 0x62 || op == 0x72 || op == 0x92 || op == 0xB2 || op == 0xD2 || op == 0xF2
}

/// The decode-table entry for an opcode.
#[verifier::opaque]
pub open spec fn spec_decode(op: u8) -> Instr {
    if op == 0x00 {
        Instr { mode: AddressMode::Implid, op: OpType::BRK, cycles: 7, page_cycle: 0 }
    } else if op == 0x01 {
        Instr { mode: AddressMode::IdxInd, op: OpType::ORA, cycles: 6, page_cycle: 0 }
    } else if op == 0x02 {
        Instr { mode: AddressMode::Immedt, op: OpType::NOP, cycles: 2, page_cycle: 0 }
    } else if op == 0x03 {
        Instr { mode: AddressMode::IdxInd, op: OpType::NOP, cycles: 8, page_cycle: 0 }
    } else if op == 0x04 {
        Instr { mode: AddressMode::ZeroPg, op: OpType::NOP, cycles: 3, page_cycle: 0 }
    } else if op == 0x05 {
        Instr { mode: AddressMode::ZeroPg, op: OpType::ORA, cycles: 3, page_cycle: 0 }
    } else if op == 0x06 {
        Instr { mode: AddressMode::ZeroPg, op: OpType::ASL, cycles: 5, page_cycle: 0 }
    } else if op == 0x07 {
        Instr { mode: AddressMode::ZeroPg, op: OpType::NOP, cycles: 5, page_cycle: 0 }
    } else if op == 0x08 {
        Instr { mode: AddressMode::Implid, op: OpType::PHP, cycles: 3, page_cycle: 0 }
    } else if op == 0x09 {
        Instr { mode: AddressMode::Immedt, op: OpType::ORA, cycles: 2, page_cycle: 0 }
    } else if op == 0x0A {
        Instr { mode: AddressMode::Accumu, op: OpType::ASL, cycles: 2, page_cycle: 0 }
    } else if op == 0x0B {
        Instr { mode: AddressMode::Immedt, op: OpType::NOP, cycles: 2, page_cycle: 0 }
    } else if op == 0x0C {
        Instr { mode: AddressMode::Absolu, op: OpType::NOP, cycles: 4, page_cycle: 0 }
    } else if op == 0x0D {
        Instr { mode: AddressMode::Absolu, op: OpType::ORA, cycles: 4, page_cycle: 0 }
    } else if op == 0x0E {
        Instr { mode: AddressMode::Absolu, op: OpType::ASL, cycles: 6, page_cycle: 0 }
    } else if op == 0x0F {
        Instr { mode: AddressMode::Absolu, op: OpType::NOP, cycles: 6, page_cycle: 0 }
    } else if op == 0x10 {
        Instr { mode: AddressMode::Relatv, op: OpType::BPL, cycles: 2, page_cycle: 1 }
    } else if op == 0x11 {
        Instr { mode: AddressMode::IndIdx, op: OpType::ORA, cycles: 5, page_cycle: 1 }
    } else if op == 0x12 {
        Instr { mode: AddressMode::Immedt, op: OpType::NOP, cycles: 2, page_cycle: 0 }
    } else if op == 0x13 {
        Instr { mode: AddressMode::IndIdx, op: OpType::NOP, cycles: 8, page_cycle: 0 }
    } else if op == 0x14 {
        Instr { mode: AddressMode::ZPIdxX, op: OpType::NOP, cycles: 4, page_cycle: 0 }
    } else if op == 0x15 {
        Instr { mode: AddressMode::ZPIdxX, op: OpType::ORA, cycles: 4, page_cycle: 0 }
    } else if op == 0x16 {
        Instr { mode: AddressMode::ZPIdxX, op: OpType::ASL, cycles: 6, page_cycle: 0 }
    } else if op == 0x17 {
        Instr { mode: AddressMode::ZPIdxX, op: OpType::NOP, cycles: 6, page_cycle: 0 }
    } else if op == 0x18 {
        Instr { mode: AddressMode::Implid, op: OpType::CLC, cycles: 2, page_cycle: 0 }
    } else if op == 0x19 {
        Instr { mode: AddressMode::AbIdxY, op: OpType::ORA, cycles: 4, page_cycle: 1 }
    } else if op == 0x1A {
        Instr { mode: AddressMode::Immedt, op: OpType::NOP, cycles: 2, page_cycle: 0 }
    } else if op == 0x1B {
        Instr { mode: AddressMode::AbIdxY, op: OpType::NOP, cycles: 7, page_cycle: 0 }
    } else if op == 0x1C {
        Instr { mode: AddressMode::AbIdxX, op: OpType::NOP, cycles: 4, page_cycle: 1 }
    } else if op == 0x1D {
        Instr { mode: AddressMode::AbIdxX, op: OpType::ORA, cycles: 4, page_cycle: 1 }
    } else if op == 0x1E {
        Instr { mode: AddressMode::AbIdxX, op: OpType::ASL, cycles: 7, page_cycle: 0 }
    } else if op == 0x1F {
        Instr { mode: AddressMode::AbIdxX, op: OpType::NOP, cycles: 7, page_cycle: 0 }
    } else if op == 0x20 {
        Instr { mode: AddressMode::Absolu, op: OpType::JSR, cycles: 6, page_cycle: 0 }
    } else if op == 0x21 {
        Instr { mode: AddressMode::IdxInd, op: OpType::AND, cycles: 6, page_cycle: 0 }
    } else if op == 0x22 {
        Instr { mode: AddressMode::Immedt, op: OpType::NOP, cycles: 2, page_cycle: 0 }
    } else if op == 0x23 {
        Instr { mode: AddressMode::IdxInd, op: OpType::NOP, cycles: 8, page_cycle: 0 }
    } else if op == 0x24 {
        Instr { mode: AddressMode::ZeroPg, op: OpType::BIT, cycles: 3, page_cycle: 0 }
    } else if op == 0x25 {
        Instr { mode: AddressMode::ZeroPg, op: OpType::AND, cycles: 3, page_cycle: 0 }
    } else if op == 0x26 {
        Instr { mode: AddressMode::ZeroPg, op: OpType::ROL, cycles: 5, page_cycle: 0 }
    } else if op == 0x27 {
        Instr { mode: AddressMode::ZeroPg, op: OpType::NOP, cycles: 5, page_cycle: 0 }
    } else if op == 0x28 {
        Instr { mode: AddressMode::Implid, op: OpType::PLP, cycles: 4, page_cycle: 0 }
    } else if op == 0x29 {
        Instr { mode: AddressMode::Immedt, op: OpType::AND, cycles: 2, page_cycle: 0 }
    } else if op == 0x2A {
        Instr { mode: AddressMode::Accumu, op: OpType::ROL, cycles: 2, page_cycle: 0 }
    } else if op == 0x2B {
        Instr { mode: AddressMode::Immedt, op: OpType::NOP, cycles: 2, page_cycle: 0 }
    } else if op == 0x2C {
        Instr { mode: AddressMode::Absolu, op: OpType::BIT, cycles: 4, page_cycle: 0 }
    } else if op == 0x2D {
        Instr { mode: AddressMode::Absolu, op: OpType::AND, cycles: 4, page_cycle: 0 }
    } else if op == 0x2E {
        Instr { mode: AddressMode::Absolu, op: OpType::ROL, cycles: 6, page_cycle: 0 }
    } else if op == 0x2F {
        Instr { mode: AddressMode::Absolu, op: OpType::NOP, cycles: 6, page_cycle: 0 }
    } else if op == 0x30 {
        Instr { mode: AddressMode::Relatv, op: OpType::BMI, cycles: 2, page_cycle: 1 }
    } else if op == 0x31 {
        Instr { mode: AddressMode::IndIdx, op: OpType::AND, cycles: 5, page_cycle: 1 }
    } else if op == 0x32 {
        Instr { mode: AddressMode::Immedt, op: OpType::NOP, cycles: 2, page_cycle: 0 }
    } else if op == 0x33 {
        Instr { mode: AddressMode::IndIdx, op: OpType::NOP, cycles: 8, page_cycle: 0 }
    } else if op == 0x34 {
        Instr { mode: AddressMode::ZPIdxX, op: OpType::NOP, cycles: 4, page_cycle: 0 }
    } else if op == 0x35 {
        Instr { mode: AddressMode::ZPIdxX, op: OpType::AND, cycles: 4, page_cycle: 0 }
    } else if op == 0x36 {
        Instr { mode: AddressMode::ZPIdxX, op: OpType::ROL, cycles: 6, page_cycle: 0 }
    } else if op == 0x37 {
        Instr { mode: AddressMode::ZPIdxX, op: OpType::NOP, cycles: 6, page_cycle: 0 }
    } else if op == 0x38 {
        Instr { mode: AddressMode::Implid, op: OpType::SEC, cycles: 2, page_cycle: 0 }
    } else if op == 0x39 {
        Instr { mode: AddressMode::AbIdxY, op: OpType::AND, cycles: 4, page_cycle: 1 }
    } else if op == 0x3A {
        Instr { mode: AddressMode::Immedt, op: OpType::NOP, cycles: 2, page_cycle: 0 }
    } else if op == 0x3B {
        Instr { mode: AddressMode::AbIdxY, op: OpType::NOP, cycles: 7, page_cycle: 0 }
    } else if op == 0x3C {
        Instr { mode: AddressMode::AbIdxX, op: OpType::NOP, cycles: 4, page_cycle: 1 }
    } else if op == 0x3D {
        Instr { mode: AddressMode::AbIdxX, op: OpType::AND, cycles: 4, page_cycle: 1 }
    } else if op == 0x3E {
        Instr { mode: AddressMode::AbIdxX, op: OpType::ROL, cycles: 7, page_cycle: 0 }
    } else if op == 0x3F {
        Instr { mode: AddressMode::AbIdxX, op: OpType::NOP, cycles: 7, page_cycle: 0 }
    } else if op == 0x40 {
        Instr { mode: AddressMode::Implid, op: OpType::RTI, cycles: 6, page_cycle: 0 }
    } else if op == 0x41 {
        Instr { mode: AddressMode::IdxInd, op: OpType::EOR, cycles: 6, page_cycle: 0 }
    } else if op == 0x42 {
        Instr { mode: AddressMode::Immedt, op: OpType::NOP, cycles: 2, page_cycle: 0 }
    } else if op == 0x43 {
        Instr { mode: AddressMode::IdxInd, op: OpType::NOP, cycles: 8, page_cycle: 0 }
    } else if op == 0x44 {
        Instr { mode: AddressMode::ZeroPg, op: OpType::NOP, cycles: 3, page_cycle: 0 }
    } else if op == 0x45 {
        Instr { mode: AddressMode::ZeroPg, op: OpType::EOR, cycles: 3, page_cycle: 0 }
    } else if op == 0x46 {
        Instr { mode: AddressMode::ZeroPg, op: OpType::LSR, cycles: 5, page_cycle: 0 }
    } else if op == 0x47 {
        Instr { mode: AddressMode::ZeroPg, op: OpType::NOP, cycles: 5, page_cycle: 0 }
    } else if op == 0x48 {
        Instr { mode: AddressMode::Implid, op: OpType::PHA, cycles: 3, page_cycle: 0 }
    } else if op == 0x49 {
        Instr { mode: AddressMode::Immedt, op: OpType::EOR, cycles: 2, page_cycle: 0 }
    } else if op == 0x4A {
        Instr { mode: AddressMode::Accumu, op: OpType::LSR, cycles: 2, page_cycle: 0 }
    } else if op == 0x4B {
        Instr { mode: AddressMode::Immedt, op: OpType::NOP, cycles: 2, page_cycle: 0 }
    } else if op == 0x4C {
        Instr { mode: AddressMode::Absolu, op: OpType::JMP, cycles: 3, page_cycle: 0 }
    } else if op == 0x4D {
        Instr { mode: AddressMode::Absolu, op: OpType::EOR, cycles: 4, page_cycle: 0 }
    } else if op == 0x4E {
        Instr { mode: AddressMode::Absolu, op: OpType::LSR, cycles: 6, page_cycle: 0 }
    } else if op == 0x4F {
        Instr { mode: AddressMode::Absolu, op: OpType::NOP, cycles: 6, page_cycle: 0 }
    } else if op == 0x50 {
        Instr { mode: AddressMode::Relatv, op: OpType::BVC, cycles: 2, page_cycle: 1 }
    } else if op == 0x51 {
        Instr { mode: AddressMode::IndIdx, op: OpType::EOR, cycles: 5, page_cycle: 1 }
    } else if op == 0x52 {
        Instr { mode: AddressMode::Immedt, op: OpType::NOP, cycles: 2, page_cycle: 0 }
    } else if op == 0x53 {
        Instr { mode: AddressMode::IndIdx, op: OpType::NOP, cycles: 8, page_cycle: 0 }
    } else if op == 0x54 {
        Instr { mode: AddressMode::ZPIdxX, op: OpType::NOP, cycles: 4, page_cycle: 0 }
    } else if op == 0x55 {
        Instr { mode: AddressMode::ZPIdxX, op: OpType::EOR, cycles: 4, page_cycle: 0 }
    } else if op == 0x56 {
        Instr { mode: AddressMode::ZPIdxX, op: OpType::LSR, cycles: 6, page_cycle: 0 }
    } else if op == 0x57 {
        Instr { mode: AddressMode::ZPIdxX, op: OpType::NOP, cycles: 6, page_cycle: 0 }
    } else if op == 0x58 {
        Instr { mode: AddressMode::Implid, op: OpType::CLI, cycles: 2, page_cycle: 0 }
    } else if op == 0x59 {
        Instr { mode: AddressMode::AbIdxY, op: OpType::EOR, cycles: 4, page_cycle: 1 }
    } else if op == 0x5A {
        Instr { mode: AddressMode::Immedt, op: OpType::NOP, cycles: 2, page_cycle: 0 }
    } else if op == 0x5B {
        Instr { mode: AddressMode::AbIdxY, op: OpType::NOP, cycles: 7, page_cycle: 0 }
    } else if op == 0x5C {
        Instr { mode: AddressMode::AbIdxX, op: OpType::NOP, cycles: 4, page_cycle: 1 }
    } else if op == 0x5D {
        Instr { mode: AddressMode::AbIdxX, op: OpType::EOR, cycles: 4, page_cycle: 1 }
    } else if op == 0x5E {
        Instr { mode: AddressMode::AbIdxX, op: OpType::LSR, cycles: 7, page_cycle: 0 }
    } else if op == 0x5F {
        Instr { mode: AddressMode::AbIdxX, op: OpType::NOP, cycles: 7, page_cycle: 0 }
    } else if op == 0x60 {
        Instr { mode: AddressMode::Implid, op: OpType::RTS, cycles: 6, page_cycle: 0 }
    } else if op == 0x61 {
        Instr { mode: AddressMode::IdxInd, op: OpType::ADC, cycles: 6, page_cycle: 0 }
    } else if op == 0x62 {
        Instr { mode: AddressMode::Immedt, op: OpType::NOP, cycles: 2, page_cycle: 0 }
    } else if op == 0x63 {
        Instr { mode: AddressMode::IdxInd, op: OpType::NOP, cycles: 8, page_cycle: 0 }
    } else if op == 0x64 {
        Instr { mode: AddressMode::ZeroPg, op: OpType::NOP, cycles: 3, page_cycle: 0 }
    } else if op == 0x65 {
        Instr { mode: AddressMode::ZeroPg, op: OpType::ADC, cycles: 3, page_cycle: 0 }
    } else if op == 0x66 {
        Instr { mode: AddressMode::ZeroPg, op: OpType::ROR, cycles: 5, page_cycle: 0 }
    } else if op == 0x67 {
        Instr { mode: AddressMode::ZeroPg, op: OpType::NOP, cycles: 5, page_cycle: 0 }
    } else if op == 0x68 {
        Instr { mode: AddressMode::Implid, op: OpType::PLA, cycles: 4, page_cycle: 0 }
    } else if op == 0x69 {
        Instr { mode: AddressMode::Immedt, op: OpType::ADC, cycles: 2, page_cycle: 0 }
    } else if op == 0x6A {
        Instr { mode: AddressMode::Accumu, op: OpType::ROR, cycles: 2, page_cycle: 0 }
    } else if op == 0x6B {
        Instr { mode: AddressMode::Immedt, op: OpType::NOP, cycles: 2, page_cycle: 0 }
    } else if op == 0x6C {
        Instr { mode: AddressMode::Indrct, op: OpType::JMP, cycles: 5, page_cycle: 0 }
    } else if op == 0x6D {
        Instr { mode: AddressMode::Absolu, op: OpType::ADC, cycles: 4, page_cycle: 0 }
    } else if op == 0x6E {
        Instr { mode: AddressMode::Absolu, op: OpType::ROR, cycles: 6, page_cycle: 0 }
    } else if op == 0x6F {
        Instr { mode: AddressMode::Absolu, op: OpType::NOP, cycles: 6, page_cycle: 0 }
    } else if op == 0x70 {
        Instr { mode: AddressMode::Relatv, op: OpType::BVS, cycles: 2, page_cycle: 1 }
    } else if op == 0x71 {
        Instr { mode: AddressMode::IndIdx, op: OpType::ADC, cycles: 5, page_cycle: 1 }
    } else if op == 0x72 {
        Instr { mode: AddressMode::Immedt, op: OpType::NOP, cycles: 2, page_cycle: 0 }
    } else if op == 0x73 {
        Instr { mode: AddressMode::IndIdx, op: OpType::NOP, cycles: 8, page_cycle: 0 }
    } else if op == 0x74 {
        Instr { mode: AddressMode::ZPIdxX, op: OpType::NOP, cycles: 4, page_cycle: 0 }
    } else if op == 0x75 {
        Instr { mode: AddressMode::ZPIdxX, op: OpType::ADC, cycles: 4, page_cycle: 0 }
    } else if op == 0x76 {
        Instr { mode: AddressMode::ZPIdxX, op: OpType::ROR, cycles: 6, page_cycle: 0 }
    } else if op == 0x77 {
        Instr { mode: AddressMode::ZPIdxX, op: OpType::NOP, cycles: 6, page_cycle: 0 }
    } else if op == 0x78 {
        Instr { mode: AddressMode::Implid, op: OpType::SEI, cycles: 2, page_cycle: 0 }
    } else if op == 0x79 {
        Instr { mode: AddressMode::AbIdxY, op: OpType::ADC, cycles: 4, page_cycle: 1 }
    } else if op == 0x7A {
        Instr { mode: AddressMode::Immedt, op: OpType::NOP, cycles: 2, page_cycle: 0 }
    } else if op == 0x7B {
        Instr { mode: AddressMode::AbIdxY, op: OpType::NOP, cycles: 7, page_cycle: 0 }
    } else if op == 0x7C {
        Instr { mode: AddressMode::AbIdxX, op: OpType::NOP, cycles: 4, page_cycle: 1 }
    } else if op == 0x7D {
        Instr { mode: AddressMode::AbIdxX, op: OpType::ADC, cycles: 4, page_cycle: 1 }
    } else if op == 0x7E {
        Instr { mode: AddressMode::AbIdxX, op: OpType::ROR, cycles: 7, page_cycle: 0 }
    } else if op == 0x7F {
        Instr { mode: AddressMode::AbIdxX, op: OpType::NOP, cycles: 7, page_cycle: 0 }
    } else if op == 0x80 {
        Instr { mode: AddressMode::Immedt, op: OpType::NOP, cycles: 2, page_cycle: 0 }
    } else if op == 0x81 {
        Instr { mode: AddressMode::IdxInd, op: OpType::STA, cycles: 6, page_cycle: 0 }
    } else if op == 0x82 {
        Instr { mode: AddressMode::Immedt, op: OpType::NOP, cycles: 2, page_cycle: 0 }
    } else if op == 0x83 {
        Instr { mode: AddressMode::IdxInd, op: OpType::NOP, cycles: 6, page_cycle: 0 }
    } else if op == 0x84 {
        Instr { mode: AddressMode::ZeroPg, op: OpType::STY, cycles: 3, page_cycle: 0 }
    } else if op == 0x85 {
        Instr { mode: AddressMode::ZeroPg, op: OpType::STA, cycles: 3, page_cycle: 0 }
    } else if op == 0x86 {
        Instr { mode: AddressMode::ZeroPg, op: OpType::STX, cycles: 3, page_cycle: 0 }
    } else if op == 0x87 {
        Instr { mode: AddressMode::ZeroPg, op: OpType::NOP, cycles: 3, page_cycle: 0 }
    } else if op == 0x88 {
        Instr { mode: AddressMode::Implid, op: OpType::DEY, cycles: 2, page_cycle: 0 }
    } else if op == 0x89 {
        Instr { mode: AddressMode::Immedt, op: OpType::NOP, cycles: 2, page_cycle: 0 }
    } else if op == 0x8A {
        Instr { mode: AddressMode::Implid, op: OpType::TXA, cycles: 2, page_cycle: 0 }
    } else if op == 0x8B {
        Instr { mode: AddressMode::Immedt, op: OpType::NOP, cycles: 2, page_cycle: 0 }
    } else if op == 0x8C {
        Instr { mode: AddressMode::Absolu, op: OpType::STY, cycles: 4, page_cycle: 0 }
    } else if op == 0x8D {
        Instr { mode: AddressMode::Absolu, op: OpType::STA, cycles: 4, page_cycle: 0 }
    } else if op == 0x8E {
        Instr { mode: AddressMode::Absolu, op: OpType::STX, cycles: 4, page_cycle: 0 }
    } else if op == 0x8F {
        Instr { mode: AddressMode::Absolu, op: OpType::NOP, cycles: 4, page_cycle: 0 }
    } else if op == 0x90 {
        Instr { mode: AddressMode::Relatv, op: OpType::BCC, cycles: 2, page_cycle: 1 }
    } else if op == 0x91 {
        Instr { mode: AddressMode::IndIdx, op: OpType::STA, cycles: 6, page_cycle: 0 }
    } else if op == 0x92 {
        Instr { mode: AddressMode::Immedt, op: OpType::NOP, cycles: 2, page_cycle: 0 }
    } else if op == 0x93 {
        Instr { mode: AddressMode::IndIdx, op: OpType::NOP, cycles: 6, page_cycle: 0 }
    } else if op == 0x94 {
        Instr { mode: AddressMode::ZPIdxX, op: OpType::STY, cycles: 4, page_cycle: 0 }
    } else if op == 0x95 {
        Instr { mode: AddressMode::ZPIdxX, op: OpType::STA, cycles: 4, page_cycle: 0 }
    } else if op == 0x96 {
        Instr { mode: AddressMode::ZPIdxY, op: OpType::STX, cycles: 4, page_cycle: 0 }
    } else if op == 0x97 {
        Instr { mode: AddressMode::ZPIdxY, op: OpType::NOP, cycles: 4, page_cycle: 0 }
    } else if op == 0x98 {
        Instr { mode: AddressMode::Implid, op: OpType::TYA, cycles: 2, page_cycle: 0 }
    } else if op == 0x99 {
        Instr { mode: AddressMode::AbIdxY, op: OpType::STA, cycles: 5, page_cycle: 0 }
    } else if op == 0x9A {
        Instr { mode: AddressMode::Implid, op: OpType::TXS, cycles: 2, page_cycle: 0 }
    } else if op == 0x9B {
        Instr { mode: AddressMode::Immedt, op: OpType::NOP, cycles: 5, page_cycle: 0 }
    } else if op == 0x9C {
        Instr { mode: AddressMode::AbIdxX, op: OpType::NOP, cycles: 5, page_cycle: 0 }
    } else if op == 0x9D {
        Instr { mode: AddressMode::AbIdxX, op: OpType::STA, cycles: 5, page_cycle: 0 }
    } else if op == 0x9E {
        Instr { mode: AddressMode::AbIdxY, op: OpType::NOP, cycles: 5, page_cycle: 0 }
    } else if op == 0x9F {
        Instr { mode: AddressMode::AbIdxY, op: OpType::NOP, cycles: 5, page_cycle: 0 }
    } else if op == 0xA0 {
        Instr { mode: AddressMode::Immedt, op: OpType::LDY, cycles: 2, page_cycle: 0 }
    } else if op == 0xA1 {
        Instr { mode: AddressMode::IdxInd, op: OpType::LDA, cycles: 6, page_cycle: 0 }
    } else if op == 0xA2 {
        Instr { mode: AddressMode::Immedt, op: OpType::LDX, cycles: 2, page_cycle: 0 }
    } else if op == 0xA3 {
        Instr { mode: AddressMode::IdxInd, op: OpType::NOP, cycles: 6, page_cycle: 0 }
    } else if op == 0xA4 {
        Instr { mode: AddressMode::ZeroPg, op: OpType::LDY, cycles: 3, page_cycle: 0 }
    } else if op == 0xA5 {
        Instr { mode: AddressMode::ZeroPg, op: OpType::LDA, cycles: 3, page_cycle: 0 }
    } else if op == 0xA6 {
        Instr { mode: AddressMode::ZeroPg, op: OpType::LDX, cycles: 3, page_cycle: 0 }
    } else if op == 0xA7 {
        Instr { mode: AddressMode::ZeroPg, op: OpType::NOP, cycles: 3, page_cycle: 0 }
    } else if op == 0xA8 {
        Instr { mode: AddressMode::Implid, op: OpType::TAY, cycles: 2, page_cycle: 0 }
    } else if op == 0xA9 {
        Instr { mode: AddressMode::Immedt, op: OpType::LDA, cycles: 2, page_cycle: 0 }
    } else if op == 0xAA {
        Instr { mode: AddressMode::Implid, op: OpType::TAX, cycles: 2, page_cycle: 0 }
    } else if op == 0xAB {
        Instr { mode: AddressMode::Immedt, op: OpType::NOP, cycles: 2, page_cycle: 0 }
    } else if op == 0xAC {
        Instr { mode: AddressMode::Absolu, op: OpType::LDY, cycles: 4, page_cycle: 0 }
    } else if op == 0xAD {
        Instr { mode: AddressMode::Absolu, op: OpType::LDA, cycles: 4, page_cycle: 0 }
    } else if op == 0xAE {
        Instr { mode: AddressMode::Absolu, op: OpType::LDX, cycles: 4, page_cycle: 0 }
    } else if op == 0xAF {
        Instr { mode: AddressMode::Absolu, op: OpType::NOP, cycles: 4, page_cycle: 0 }
    } else if op == 0xB0 {
        Instr { mode: AddressMode::Relatv, op: OpType::BCS, cycles: 2, page_cycle: 1 }
    } else if op == 0xB1 {
        Instr { mode: AddressMode::IndIdx, op: OpType::LDA, cycles: 5, page_cycle: 1 }
    } else if op == 0xB2 {
        Instr { mode: AddressMode::Immedt, op: OpType::NOP, cycles: 2, page_cycle: 0 }
    } else if op == 0xB3 {
        Instr { mode: AddressMode::IndIdx, op: OpType::NOP, cycles: 5, page_cycle: 1 }
    } else if op == 0xB4 {
        Instr { mode: AddressMode::ZPIdxX, op: OpType::LDY, cycles: 4, page_cycle: 0 }
    } else if op == 0xB5 {
        Instr { mode: AddressMode::ZPIdxX, op: OpType::LDA, cycles: 4, page_cycle: 0 }
    } else if op == 0xB6 {
        Instr { mode: AddressMode::ZPIdxY, op: OpType::LDX, cycles: 4, page_cycle: 0 }
    } else if op == 0xB7 {
        Instr { mode: AddressMode::ZPIdxY, op: OpType::NOP, cycles: 4, page_cycle: 0 }
    } else if op == 0xB8 {
        Instr { mode: AddressMode::Implid, op: OpType::CLV, cycles: 2, page_cycle: 0 }
    } else if op == 0xB9 {
        Instr { mode: AddressMode::AbIdxY, op: OpType::LDA, cycles: 4, page_cycle: 1 }
    } else if op == 0xBA {
        Instr { mode: AddressMode::Implid, op: OpType::TSX, cycles: 2, page_cycle: 0 }
    } else if op == 0xBB {
        Instr { mode: AddressMode::AbIdxY, op: OpType::NOP, cycles: 4, page_cycle: 1 }
    } else if op == 0xBC {
        Instr { mode: AddressMode::AbIdxX, op: OpType::LDY, cycles: 4, page_cycle: 1 }
    } else if op == 0xBD {
        Instr { mode: AddressMode::AbIdxX, op: OpType::LDA, cycles: 4, page_cycle: 1 }
    } else if op == 0xBE {
        Instr { mode: AddressMode::AbIdxY, op: OpType::LDX, cycles: 4, page_cycle: 1 }
    } else if op == 0xBF {
        Instr { mode: AddressMode::AbIdxY, op: OpType::NOP, cycles: 4, page_cycle: 1 }
    } else if op == 0xC0 {
        Instr { mode: AddressMode::Immedt, op: OpType::CPY, cycles: 2, page_cycle: 0 }
    } else if op == 0xC1 {
        Instr { mode: AddressMode::IdxInd, op: OpType::CMP, cycles: 6, page_cycle: 0 }
    } else if op == 0xC2 {
        Instr { mode: AddressMode::Immedt, op: OpType::NOP, cycles: 2, page_cycle: 0 }
    } else if op == 0xC3 {
        Instr { mode: AddressMode::IdxInd, op: OpType::NOP, cycles: 8, page_cycle: 0 }
    } else if op == 0xC4 {
        Instr { mode: AddressMode::ZeroPg, op: OpType::CPY, cycles: 3, page_cycle: 0 }
    } else if op == 0xC5 {
        Instr { mode: AddressMode::ZeroPg, op: OpType::CMP, cycles: 3, page_cycle: 0 }
    } else if op == 0xC6 {
        Instr { mode: AddressMode::ZeroPg, op: OpType::DEC, cycles: 5, page_cycle: 0 }
    } else if op == 0xC7 {
        Instr { mode: AddressMode::ZeroPg, op: OpType::NOP, cycles: 5, page_cycle: 0 }
    } else if op == 0xC8 {
        Instr { mode: AddressMode::Implid, op: OpType::INY, cycles: 2, page_cycle: 0 }
    } else if op == 0xC9 {
        Instr { mode: AddressMode::Immedt, op: OpType::CMP, cycles: 2, page_cycle: 0 }
    } else if op == 0xCA {
        Instr { mode: AddressMode::Implid, op: OpType::DEX, cycles: 2, page_cycle: 0 }
    } else if op == 0xCB {
        Instr { mode: AddressMode::Immedt, op: OpType::NOP, cycles: 2, page_cycle: 0 }
    } else if op == 0xCC {
        Instr { mode: AddressMode::Absolu, op: OpType::CPY, cycles: 4, page_cycle: 0 }
    } else if op == 0xCD {
        Instr { mode: AddressMode::Absolu, op: OpType::CMP, cycles: 4, page_cycle: 0 }
    } else if op == 0xCE {
        Instr { mode: AddressMode::Absolu, op: OpType::DEC, cycles: 6, page_cycle: 0 }
    } else if op == 0xCF {
        Instr { mode: AddressMode::Absolu, op: OpType::NOP, cycles: 6, page_cycle: 0 }
    } else if op == 0xD0 {
        Instr { mode: AddressMode::Relatv, op: OpType::BNE, cycles: 2, page_cycle: 1 }
    } else if op == 0xD1 {
        Instr { mode: AddressMode::IndIdx, op: OpType::CMP, cycles: 5, page_cycle: 1 }
    } else if op == 0xD2 {
        Instr { mode: AddressMode::Immedt, op: OpType::NOP, cycles: 2, page_cycle: 0 }
    } else if op == 0xD3 {
        Instr { mode: AddressMode::IndIdx, op: OpType::NOP, cycles: 8, page_cycle: 0 }
    } else if op == 0xD4 {
        Instr { mode: AddressMode::ZPIdxX, op: OpType::NOP, cycles: 4, page_cycle: 0 }
    } else if op == 0xD5 {
        Instr { mode: AddressMode::ZPIdxX, op: OpType::CMP, cycles: 4, page_cycle: 0 }
    } else if op == 0xD6 {
        Instr { mode: AddressMode::ZPIdxX, op: OpType::DEC, cycles: 6, page_cycle: 0 }
    } else if op == 0xD7 {
        Instr { mode: AddressMode::ZPIdxX, op: OpType::NOP, cycles: 6, page_cycle: 0 }
    } else if op == 0xD8 {
        Instr { mode: AddressMode::Implid, op: OpType::CLD, cycles: 2, page_cycle: 0 }
    } else if op == 0xD9 {
        Instr { mode: AddressMode::AbIdxY, op: OpType::CMP, cycles: 4, page_cycle: 1 }
    } else if op == 0xDA {
        Instr { mode: AddressMode::Immedt, op: OpType::NOP, cycles: 2, page_cycle: 0 }
    } else if op == 0xDB {
        Instr { mode: AddressMode::AbIdxY, op: OpType::NOP, cycles: 7, page_cycle: 0 }
    } else if op == 0xDC {
        Instr { mode: AddressMode::AbIdxX, op: OpType::NOP, cycles: 4, page_cycle: 1 }
    } else if op == 0xDD {
        Instr { mode: AddressMode::AbIdxX, op: OpType::CMP, cycles: 4, page_cycle: 1 }
    } else if op == 0xDE {
        Instr { mode: AddressMode::AbIdxX, op: OpType::DEC, cycles: 7, page_cycle: 0 }
    } else if op == 0xDF {
        Instr { mode: AddressMode::AbIdxX, op: OpType::NOP, cycles: 7, page_cycle: 0 }
    } else if op == 0xE0 {
        Instr { mode: AddressMode::Immedt, op: OpType::CPX, cycles: 2, page_cycle: 0 }
    } else if op == 0xE1 {
        Instr { mode: AddressMode::IdxInd, op: OpType::SBC, cycles: 6, page_cycle: 0 }
    } else if op == 0xE2 {
        Instr { mode: AddressMode::Immedt, op: OpType::NOP, cycles: 2, page_cycle: 0 }
    } else if op == 0xE3 {
        Instr { mode: AddressMode::IdxInd, op: OpType::NOP, cycles: 8, page_cycle: 0 }
    } else if op == 0xE4 {
        Instr { mode: AddressMode::ZeroPg, op: OpType::CPX, cycles: 3, page_cycle: 0 }
    } else if op == 0xE5 {
        Instr { mode: AddressMode::ZeroPg, op: OpType::SBC, cycles: 3, page_cycle: 0 }
    } else if op == 0xE6 {
        Instr { mode: AddressMode::ZeroPg, op: OpType::INC, cycles: 5, page_cycle: 0 }
    } else if op == 0xE7 {
        Instr { mode: AddressMode::ZeroPg, op: OpType::NOP, cycles: 5, page_cycle: 0 }
    } else if op == 0xE8 {
        Instr { mode: AddressMode::Implid, op: OpType::INX, cycles: 2, page_cycle: 0 }
    } else if op == 0xE9 {
        Instr { mode: AddressMode::Immedt, op: OpType::SBC, cycles: 2, page_cycle: 0 }
    } else if op == 0xEA {
        Instr { mode: AddressMode::Implid, op: OpType::NOP, cycles: 2, page_cycle: 0 }
    } else if op == 0xEB {
        Instr { mode: AddressMode::Immedt, op: OpType::SBC, cycles: 2, page_cycle: 0 }
    } else if op == 0xEC {
        Instr { mode: AddressMode::Absolu, op: OpType::CPX, cycles: 4, page_cycle: 0 }
    } else if op == 0xED {
        Instr { mode: AddressMode::Absolu, op: OpType::SBC, cycles: 4, page_cycle: 0 }
    } else if op == 0xEE {
        Instr { mode: AddressMode::Absolu, op: OpType::INC, cycles: 6, page_cycle: 0 }
    } else if op == 0xEF {
        Instr { mode: AddressMode::Absolu, op: OpType::NOP, cycles: 6, page_cycle: 0 }
    } else if op == 0xF0 {
        Instr { mode: AddressMode::Relatv, op: OpType::BEQ, cycles: 2, page_cycle: 1 }
    } else if op == 0xF1 {
        Instr { mode: AddressMode::IndIdx, op: OpType::SBC, cycles: 5, page_cycle: 1 }
    } else if op == 0xF2 {
        Instr { mode: AddressMode::Immedt, op: OpType::NOP, cycles: 2, page_cycle: 0 }
    } else if op == 0xF3 {
        Instr { mode: AddressMode::IndIdx, op: OpType::NOP, cycles: 8, page_cycle: 0 }
    } else if op == 0xF4 {
        Instr { mode: AddressMode::ZPIdxX, op: OpType::NOP, cycles: 4, page_cycle: 0 }
    } else if op == 0xF5 {
        Instr { mode: AddressMode::ZPIdxX, op: OpType::SBC, cycles: 4, page_cycle: 0 }
    } else if op == 0xF6 {
        Instr { mode: AddressMode::ZPIdxX, op: OpType::INC, cycles: 6, page_cycle: 0 }
    } else if op == 0xF7 {
        Instr { mode: AddressMode::ZPIdxX, op: OpType::NOP, cycles: 6, page_cycle: 0 }
    } else if op == 0xF8 {
        Instr { mode: AddressMode::Implid, op: OpType::SED, cycles: 2, page_cycle: 0 }
    } else if op == 0xF9 {
        Instr { mode: AddressMode::AbIdxY, op: OpType::SBC, cycles: 4, page_cycle: 1 }
    } else if op == 0xFA {
        Instr { mode: AddressMode::Immedt, op: OpType::NOP, cycles: 2, page_cycle: 0 }
    } else if op == 0xFB {
        Instr { mode: AddressMode::AbIdxY, op: OpType::NOP, cycles: 7, page_cycle: 0 }
    } else if op == 0xFC {
        Instr { mode: AddressMode::AbIdxX, op: OpType::NOP, cycles: 4, page_cycle: 1 }
    } else if op == 0xFD {
        Instr { mode: AddressMode::AbIdxX, op: OpType::SBC, cycles: 4, page_cycle: 1 }
    } else if op == 0xFE {
        Instr { mode: AddressMode::AbIdxX, op: OpType::INC, cycles: 7, page_cycle: 0 }
    } else if op == 0xFF {
        Instr { mode: AddressMode::AbIdxX, op: OpType::NOP, cycles: 7, page_cycle: 0 }
    } else {
        Instr { mode: AddressMode::Implid, op: OpType::NOP, cycles: 2, page_cycle: 0 }
    }
}

/// Decode an opcode into its table entry.
#[verifier::rlimit(100)]
pub fn decode(op: u8) -> (r: Instr)
    ensures
        r == spec_decode(op),
{
    proof {
        reveal(spec_decode);
    }
    match op {
            0x00 => Instr { mode: AddressMode::Implid, op: OpType::BRK, cycles: 7, page_cycle: 0 },
            0x01 => Instr { mode: AddressMode::IdxInd, op: OpType::ORA, cycles: 6, page_cycle: 0 },
            0x02 => Instr { mode: AddressMode::Immedt, op: OpType::NOP, cycles: 2, page_cycle: 0 },
            0x03 => Instr { mode: AddressMode::IdxInd, op: OpType::NOP, cycles: 8, page_cycle: 0 },
            0x04 => Instr { mode: AddressMode::ZeroPg, op: OpType::NOP, cycles: 3, page_cycle: 0 },
            0x05 => Instr { mode: AddressMode::ZeroPg, op: OpType::ORA, cycles: 3, page_cycle: 0 },
            0x06 => Instr { mode: AddressMode::ZeroPg, op: OpType::ASL, cycles: 5, page_cycle: 0 },
            0x07 => Instr { mode: AddressMode::ZeroPg, op: OpType::NOP, cycles: 5, page_cycle: 0 },
            0x08 => Instr { mode: AddressMode::Implid, op: OpType::PHP, cycles: 3, page_cycle: 0 },
            0x09 => Instr { mode: AddressMode::Immedt, op: OpType::ORA, cycles: 2, page_cycle: 0 },
            0x0A => Instr { mode: AddressMode::Accumu, op: OpType::ASL, cycles: 2, page_cycle: 0 },
            0x0B => Instr { mode: AddressMode::Immedt, op: OpType::NOP, cycles: 2, page_cycle: 0 },
            0x0C => Instr { mode: AddressMode::Absolu, op: OpType::NOP, cycles: 4, page_cycle: 0 },
            0x0D => Instr { mode: AddressMode::Absolu, op: OpType::ORA, cycles: 4, page_cycle: 0 },
            0x0E => Instr { mode: AddressMode::Absolu, op: OpType::ASL, cycles: 6, page_cycle: 0 },
            0x0F => Instr { mode: AddressMode::Absolu, op: OpType::NOP, cycles: 6, page_cycle: 0 },
            0x10 => Instr { mode: AddressMode::Relatv, op: OpType::BPL, cycles: 2, page_cycle: 1 },
            0x11 => Instr { mode: AddressMode::IndIdx, op: OpType::ORA, cycles: 5, page_cycle: 1 },
            0x12 => Instr { mode: AddressMode::Immedt, op: OpType::NOP, cycles: 2, page_cycle: 0 },
            0x13 => Instr { mode: AddressMode::IndIdx, op: OpType::NOP, cycles: 8, page_cycle: 0 },
            0x14 => Instr { mode: AddressMode::ZPIdxX, op: OpType::NOP, cycles: 4, page_cycle: 0 },
            0x15 => Instr { mode: AddressMode::ZPIdxX, op: OpType::ORA, cycles: 4, page_cycle: 0 },
            0x16 => Instr { mode: AddressMode::ZPIdxX, op: OpType::ASL, cycles: 6, page_cycle: 0 },
            0x17 => Instr { mode: AddressMode::ZPIdxX, op: OpType::NOP, cycles: 6, page_cycle: 0 },
            0x18 => Instr { mode: AddressMode::Implid, op: OpType::CLC, cycles: 2, page_cycle: 0 },
            0x19 => Instr { mode: AddressMode::AbIdxY, op: OpType::ORA, cycles: 4, page_cycle: 1 },
            0x1A => Instr { mode: AddressMode::Immedt, op: OpType::NOP, cycles: 2, page_cycle: 0 },
            0x1B => Instr { mode: AddressMode::AbIdxY, op: OpType::NOP, cycles: 7, page_cycle: 0 },
            0x1C => Instr { mode: AddressMode::AbIdxX, op: OpType::NOP, cycles: 4, page_cycle: 1 },
            0x1D => Instr { mode: AddressMode::AbIdxX, op: OpType::ORA, cycles: 4, page_cycle: 1 },
            0x1E => Instr { mode: AddressMode::AbIdxX, op: OpType::ASL, cycles: 7, page_cycle: 0 },
            0x1F => Instr { mode: AddressMode::AbIdxX, op: OpType::NOP, cycles: 7, page_cycle: 0 },
            0x20 => Instr { mode: AddressMode::Absolu, op: OpType::JSR, cycles: 6, page_cycle: 0 },
            0x21 => Instr { mode: AddressMode::IdxInd, op: OpType::AND, cycles: 6, page_cycle: 0 },
            0x22 => Instr { mode: AddressMode::Immedt, op: OpType::NOP, cycles: 2, page_cycle: 0 },
            0x23 => Instr { mode: AddressMode::IdxInd, op: OpType::NOP, cycles: 8, page_cycle: 0 },
            0x24 => Instr { mode: AddressMode::ZeroPg, op: OpType::BIT, cycles: 3, page_cycle: 0 },
            0x25 => Instr { mode: AddressMode::ZeroPg, op: OpType::AND, cycles: 3, page_cycle: 0 },
            0x26 => Instr { mode: AddressMode::ZeroPg, op: OpType::ROL, cycles: 5, page_cycle: 0 },
            0x27 => Instr { mode: AddressMode::ZeroPg, op: OpType::NOP, cycles: 5, page_cycle: 0 },
            0x28 => Instr { mode: AddressMode::Implid, op: OpType::PLP, cycles: 4, page_cycle: 0 },
            0x29 => Instr { mode: AddressMode::Immedt, op: OpType::AND, cycles: 2, page_cycle: 0 },
            0x2A => Instr { mode: AddressMode::Accumu, op: OpType::ROL, cycles: 2, page_cycle: 0 },
            0x2B => Instr { mode: AddressMode::Immedt, op: OpType::NOP, cycles: 2, page_cycle: 0 },
            0x2C => Instr { mode: AddressMode::Absolu, op: OpType::BIT, cycles: 4, page_cycle: 0 },
            0x2D => Instr { mode: AddressMode::Absolu, op: OpType::AND, cycles: 4, page_cycle: 0 },
            0x2E => Instr { mode: AddressMode::Absolu, op: OpType::ROL, cycles: 6, page_cycle: 0 },
            0x2F => Instr { mode: AddressMode::Absolu, op: OpType::NOP, cycles: 6, page_cycle: 0 },
            0x30 => Instr { mode: AddressMode::Relatv, op: OpType::BMI, cycles: 2, page_cycle: 1 },
            0x31 => Instr { mode: AddressMode::IndIdx, op: OpType::AND, cycles: 5, page_cycle: 1 },
            0x32 => Instr { mode: AddressMode::Immedt, op: OpType::NOP, cycles: 2, page_cycle: 0 },
            0x33 => Instr { mode: AddressMode::IndIdx, op: OpType::NOP, cycles: 8, page_cycle: 0 },
            0x34 => Instr { mode: AddressMode::ZPIdxX, op: OpType::NOP, cycles: 4, page_cycle: 0 },
            0x35 => Instr { mode: AddressMode::ZPIdxX, op: OpType::AND, cycles: 4, page_cycle: 0 },
            0x36 => Instr { mode: AddressMode::ZPIdxX, op: OpType::ROL, cycles: 6, page_cycle: 0 },
            0x37 => Instr { mode: AddressMode::ZPIdxX, op: OpType::NOP, cycles: 6, page_cycle: 0 },
            0x38 => Instr { mode: AddressMode::Implid, op: OpType::SEC, cycles: 2, page_cycle: 0 },
            0x39 => Instr { mode: AddressMode::AbIdxY, op: OpType::AND, cycles: 4, page_cycle: 1 },
            0x3A => Instr { mode: AddressMode::Immedt, op: OpType::NOP, cycles: 2, page_cycle: 0 },
            0x3B => Instr { mode: AddressMode::AbIdxY, op: OpType::NOP, cycles: 7, page_cycle: 0 },
            0x3C => Instr { mode: AddressMode::AbIdxX, op: OpType::NOP, cycles: 4, page_cycle: 1 },
            0x3D => Instr { mode: AddressMode::AbIdxX, op: OpType::AND, cycles: 4, page_cycle: 1 },
            0x3E => Instr { mode: AddressMode::AbIdxX, op: OpType::ROL, cycles: 7, page_cycle: 0 },
            0x3F => Instr { mode: AddressMode::AbIdxX, op: OpType::NOP, cycles: 7, page_cycle: 0 },
            0x40 => Instr { mode: AddressMode::Implid, op: OpType::RTI, cycles: 6, page_cycle: 0 },
            0x41 => Instr { mode: AddressMode::IdxInd, op: OpType::EOR, cycles: 6, page_cycle: 0 },
            0x42 => Instr { mode: AddressMode::Immedt, op: OpType::NOP, cycles: 2, page_cycle: 0 },
            0x43 => Instr { mode: AddressMode::IdxInd, op: OpType::NOP, cycles: 8, page_cycle: 0 },
            0x44 => Instr { mode: AddressMode::ZeroPg, op: OpType::NOP, cycles: 3, page_cycle: 0 },
            0x45 => Instr { mode: AddressMode::ZeroPg, op: OpType::EOR, cycles: 3, page_cycle: 0 },
            0x46 => Instr { mode: AddressMode::ZeroPg, op: OpType::LSR, cycles: 5, page_cycle: 0 },
            0x47 => Instr { mode: AddressMode::ZeroPg, op: OpType::NOP, cycles: 5, page_cycle: 0 },
            0x48 => Instr { mode: AddressMode::Implid, op: OpType::PHA, cycles: 3, page_cycle: 0 },
            0x49 => Instr { mode: AddressMode::Immedt, op: OpType::EOR, cycles: 2, page_cycle: 0 },
            0x4A => Instr { mode: AddressMode::Accumu, op: OpType::LSR, cycles: 2, page_cycle: 0 },
            0x4B => Instr { mode: AddressMode::Immedt, op: OpType::NOP, cycles: 2, page_cycle: 0 },
            0x4C => Instr { mode: AddressMode::Absolu, op: OpType::JMP, cycles: 3, page_cycle: 0 },
            0x4D => Instr { mode: AddressMode::Absolu, op: OpType::EOR, cycles: 4, page_cycle: 0 },
            0x4E => Instr { mode: AddressMode::Absolu, op: OpType::LSR, cycles: 6, page_cycle: 0 },
            0x4F => Instr { mode: AddressMode::Absolu, op: OpType::NOP, cycles: 6, page_cycle: 0 },
            0x50 => Instr { mode: AddressMode::Relatv, op: OpType::BVC, cycles: 2, page_cycle: 1 },
            0x51 => Instr { mode: AddressMode::IndIdx, op: OpType::EOR, cycles: 5, page_cycle: 1 },
            0x52 => Instr { mode: AddressMode::Immedt, op: OpType::NOP, cycles: 2, page_cycle: 0 },
            0x53 => Instr { mode: AddressMode::IndIdx, op: OpType::NOP, cycles: 8, page_cycle: 0 },
            0x54 => Instr { mode: AddressMode::ZPIdxX, op: OpType::NOP, cycles: 4, page_cycle: 0 },
            0x55 => Instr { mode: AddressMode::ZPIdxX, op: OpType::EOR, cycles: 4, page_cycle: 0 },
            0x56 => Instr { mode: AddressMode::ZPIdxX, op: OpType::LSR, cycles: 6, page_cycle: 0 },
            0x57 => Instr { mode: AddressMode::ZPIdxX, op: OpType::NOP, cycles: 6, page_cycle: 0 },
            0x58 => Instr { mode: AddressMode::Implid, op: OpType::CLI, cycles: 2, page_cycle: 0 },
            0x59 => Instr { mode: AddressMode::AbIdxY, op: OpType::EOR, cycles: 4, page_cycle: 1 },
            0x5A => Instr { mode: AddressMode::Immedt, op: OpType::NOP, cycles: 2, page_cycle: 0 },
            0x5B => Instr { mode: AddressMode::AbIdxY, op: OpType::NOP, cycles: 7, page_cycle: 0 },
            0x5C => Instr { mode: AddressMode::AbIdxX, op: OpType::NOP, cycles: 4, page_cycle: 1 },
            0x5D => Instr { mode: AddressMode::AbIdxX, op: OpType::EOR, cycles: 4, page_cycle: 1 },
            0x5E => Instr { mode: AddressMode::AbIdxX, op: OpType::LSR, cycles: 7, page_cycle: 0 },
            0x5F => Instr { mode: AddressMode::AbIdxX, op: OpType::NOP, cycles: 7, page_cycle: 0 },
            0x60 => Instr { mode: AddressMode::Implid, op: OpType::RTS, cycles: 6, page_cycle: 0 },
            0x61 => Instr { mode: AddressMode::IdxInd, op: OpType::ADC, cycles: 6, page_cycle: 0 },
            0x62 => Instr { mode: AddressMode::Immedt, op: OpType::NOP, cycles: 2, page_cycle: 0 },
            0x63 => Instr { mode: AddressMode::IdxInd, op: OpType::NOP, cycles: 8, page_cycle: 0 },
            0x64 => Instr { mode: AddressMode::ZeroPg, op: OpType::NOP, cycles: 3, page_cycle: 0 },
            0x65 => Instr { mode: AddressMode::ZeroPg, op: OpType::ADC, cycles: 3, page_cycle: 0 },
            0x66 => Instr { mode: AddressMode::ZeroPg, op: OpType::ROR, cycles: 5, page_cycle: 0 },
            0x67 => Instr { mode: AddressMode::ZeroPg, op: OpType::NOP, cycles: 5, page_cycle: 0 },
            0x68 => Instr { mode: AddressMode::Implid, op: OpType::PLA, cycles: 4, page_cycle: 0 },
            0x69 => Instr { mode: AddressMode::Immedt, op: OpType::ADC, cycles: 2, page_cycle: 0 },
            0x6A => Instr { mode: AddressMode::Accumu, op: OpType::ROR, cycles: 2, page_cycle: 0 },
            0x6B => Instr { mode: AddressMode::Immedt, op: OpType::NOP, cycles: 2, page_cycle: 0 },
            0x6C => Instr { mode: AddressMode::Indrct, op: OpType::JMP, cycles: 5, page_cycle: 0 },
            0x6D => Instr { mode: AddressMode::Absolu, op: OpType::ADC, cycles: 4, page_cycle: 0 },
            0x6E => Instr { mode: AddressMode::Absolu, op: OpType::ROR, cycles: 6, page_cycle: 0 },
            0x6F => Instr { mode: AddressMode::Absolu, op: OpType::NOP, cycles: 6, page_cycle: 0 },
            0x70 => Instr { mode: AddressMode::Relatv, op: OpType::BVS, cycles: 2, page_cycle: 1 },
            0x71 => Instr { mode: AddressMode::IndIdx, op: OpType::ADC, cycles: 5, page_cycle: 1 },
            0x72 => Instr { mode: AddressMode::Immedt, op: OpType::NOP, cycles: 2, page_cycle: 0 },
            0x73 => Instr { mode: AddressMode::IndIdx, op: OpType::NOP, cycles: 8, page_cycle: 0 },
            0x74 => Instr { mode: AddressMode::ZPIdxX, op: OpType::NOP, cycles: 4, page_cycle: 0 },
            0x75 => Instr { mode: AddressMode::ZPIdxX, op: OpType::ADC, cycles: 4, page_cycle: 0 },
            0x76 => Instr { mode: AddressMode::ZPIdxX, op: OpType::ROR, cycles: 6, page_cycle: 0 },
            0x77 => Instr { mode: AddressMode::ZPIdxX, op: OpType::NOP, cycles: 6, page_cycle: 0 },
            0x78 => Instr { mode: AddressMode::Implid, op: OpType::SEI, cycles: 2, page_cycle: 0 },
            0x79 => Instr { mode: AddressMode::AbIdxY, op: OpType::ADC, cycles: 4, page_cycle: 1 },
            0x7A => Instr { mode: AddressMode::Immedt, op: OpType::NOP, cycles: 2, page_cycle: 0 },
            0x7B => Instr { mode: AddressMode::AbIdxY, op: OpType::NOP, cycles: 7, page_cycle: 0 },
            0x7C => Instr { mode: AddressMode::AbIdxX, op: OpType::NOP, cycles: 4, page_cycle: 1 },
            0x7D => Instr { mode: AddressMode::AbIdxX, op: OpType::ADC, cycles: 4, page_cycle: 1 },
            0x7E => Instr { mode: AddressMode::AbIdxX, op: OpType::ROR, cycles: 7, page_cycle: 0 },
            0x7F => Instr { mode: AddressMode::AbIdxX, op: OpType::NOP, cycles: 7, page_cycle: 0 },
            0x80 => Instr { mode: AddressMode::Immedt, op: OpType::NOP, cycles: 2, page_cycle: 0 },
            0x81 => Instr { mode: AddressMode::IdxInd, op: OpType::STA, cycles: 6, page_cycle: 0 },
            0x82 => Instr { mode: AddressMode::Immedt, op: OpType::NOP, cycles: 2, page_cycle: 0 },
            0x83 => Instr { mode: AddressMode::IdxInd, op: OpType::NOP, cycles: 6, page_cycle: 0 },
            0x84 => Instr { mode: AddressMode::ZeroPg, op: OpType::STY, cycles: 3, page_cycle: 0 },
            0x85 => Instr { mode: AddressMode::ZeroPg, op: OpType::STA, cycles: 3, page_cycle: 0 },
            0x86 => Instr { mode: AddressMode::ZeroPg, op: OpType::STX, cycles: 3, page_cycle: 0 },
            0x87 => Instr { mode: AddressMode::ZeroPg, op: OpType::NOP, cycles: 3, page_cycle: 0 },
            0x88 => Instr { mode: AddressMode::Implid, op: OpType::DEY, cycles: 2, page_cycle: 0 },
            0x89 => Instr { mode: AddressMode::Immedt, op: OpType::NOP, cycles: 2, page_cycle: 0 },
            0x8A => Instr { mode: AddressMode::Implid, op: OpType::TXA, cycles: 2, page_cycle: 0 },
            0x8B => Instr { mode: AddressMode::Immedt, op: OpType::NOP, cycles: 2, page_cycle: 0 },
            0x8C => Instr { mode: AddressMode::Absolu, op: OpType::STY, cycles: 4, page_cycle: 0 },
            0x8D => Instr { mode: AddressMode::Absolu, op: OpType::STA, cycles: 4, page_cycle: 0 },
            0x8E => Instr { mode: AddressMode::Absolu, op: OpType::STX, cycles: 4, page_cycle: 0 },
            0x8F => Instr { mode: AddressMode::Absolu, op: OpType::NOP, cycles: 4, page_cycle: 0 },
            0x90 => Instr { mode: AddressMode::Relatv, op: OpType::BCC, cycles: 2, page_cycle: 1 },
            0x91 => Instr { mode: AddressMode::IndIdx, op: OpType::STA, cycles: 6, page_cycle: 0 },
            0x92 => Instr { mode: AddressMode::Immedt, op: OpType::NOP, cycles: 2, page_cycle: 0 },
            0x93 => Instr { mode: AddressMode::IndIdx, op: OpType::NOP, cycles: 6, page_cycle: 0 },
            0x94 => Instr { mode: AddressMode::ZPIdxX, op: OpType::STY, cycles: 4, page_cycle: 0 },
            0x95 => Instr { mode: AddressMode::ZPIdxX, op: OpType::STA, cycles: 4, page_cycle: 0 },
            0x96 => Instr { mode: AddressMode::ZPIdxY, op: OpType::STX, cycles: 4, page_cycle: 0 },
            0x97 => Instr { mode: AddressMode::ZPIdxY, op: OpType::NOP, cycles: 4, page_cycle: 0 },
            0x98 => Instr { mode: AddressMode::Implid, op: OpType::TYA, cycles: 2, page_cycle: 0 },
            0x99 => Instr { mode: AddressMode::AbIdxY, op: OpType::STA, cycles: 5, page_cycle: 0 },
            0x9A => Instr { mode: AddressMode::Implid, op: OpType::TXS, cycles: 2, page_cycle: 0 },
            0x9B => Instr { mode: AddressMode::Immedt, op: OpType::NOP, cycles: 5, page_cycle: 0 },
            0x9C => Instr { mode: AddressMode::AbIdxX, op: OpType::NOP, cycles: 5, page_cycle: 0 },
            0x9D => Instr { mode: AddressMode::AbIdxX, op: OpType::STA, cycles: 5, page_cycle: 0 },
            0x9E => Instr { mode: AddressMode::AbIdxY, op: OpType::NOP, cycles: 5, page_cycle: 0 },
            0x9F => Instr { mode: AddressMode::AbIdxY, op: OpType::NOP, cycles: 5, page_cycle: 0 },
            0xA0 => Instr { mode: AddressMode::Immedt, op: OpType::LDY, cycles: 2, page_cycle: 0 },
            0xA1 => Instr { mode: AddressMode::IdxInd, op: OpType::LDA, cycles: 6, page_cycle: 0 },
            0xA2 => Instr { mode: AddressMode::Immedt, op: OpType::LDX, cycles: 2, page_cycle: 0 },
            0xA3 => Instr { mode: AddressMode::IdxInd, op: OpType::NOP, cycles: 6, page_cycle: 0 },
            0xA4 => Instr { mode: AddressMode::ZeroPg, op: OpType::LDY, cycles: 3, page_cycle: 0 },
            0xA5 => Instr { mode: AddressMode::ZeroPg, op: OpType::LDA, cycles: 3, page_cycle: 0 },
            0xA6 => Instr { mode: AddressMode::ZeroPg, op: OpType::LDX, cycles: 3, page_cycle: 0 },
            0xA7 => Instr { mode: AddressMode::ZeroPg, op: OpType::NOP, cycles: 3, page_cycle: 0 },
            0xA8 => Instr { mode: AddressMode::Implid, op: OpType::TAY, cycles: 2, page_cycle: 0 },
            0xA9 => Instr { mode: AddressMode::Immedt, op: OpType::LDA, cycles: 2, page_cycle: 0 },
            0xAA => Instr { mode: AddressMode::Implid, op: OpType::TAX, cycles: 2, page_cycle: 0 },
            0xAB => Instr { mode: AddressMode::Immedt, op: OpType::NOP, cycles: 2, page_cycle: 0 },
            0xAC => Instr { mode: AddressMode::Absolu, op: OpType::LDY, cycles: 4, page_cycle: 0 },
            0xAD => Instr { mode: AddressMode::Absolu, op: OpType::LDA, cycles: 4, page_cycle: 0 },
            0xAE => Instr { mode: AddressMode::Absolu, op: OpType::LDX, cycles: 4, page_cycle: 0 },
            0xAF => Instr { mode: AddressMode::Absolu, op: OpType::NOP, cycles: 4, page_cycle: 0 },
            0xB0 => Instr { mode: AddressMode::Relatv, op: OpType::BCS, cycles: 2, page_cycle: 1 },
            0xB1 => Instr { mode: AddressMode::IndIdx, op: OpType::LDA, cycles: 5, page_cycle: 1 },
            0xB2 => Instr { mode: AddressMode::Immedt, op: OpType::NOP, cycles: 2, page_cycle: 0 },
            0xB3 => Instr { mode: AddressMode::IndIdx, op: OpType::NOP, cycles: 5, page_cycle: 1 },
            0xB4 => Instr { mode: AddressMode::ZPIdxX, op: OpType::LDY, cycles: 4, page_cycle: 0 },
            0xB5 => Instr { mode: AddressMode::ZPIdxX, op: OpType::LDA, cycles: 4, page_cycle: 0 },
            0xB6 => Instr { mode: AddressMode::ZPIdxY, op: OpType::LDX, cycles: 4, page_cycle: 0 },
            0xB7 => Instr { mode: AddressMode::ZPIdxY, op: OpType::NOP, cycles: 4, page_cycle: 0 },
            0xB8 => Instr { mode: AddressMode::Implid, op: OpType::CLV, cycles: 2, page_cycle: 0 },
            0xB9 => Instr { mode: AddressMode::AbIdxY, op: OpType::LDA, cycles: 4, page_cycle: 1 },
            0xBA => Instr { mode: AddressMode::Implid, op: OpType::TSX, cycles: 2, page_cycle: 0 },
            0xBB => Instr { mode: AddressMode::AbIdxY, op: OpType::NOP, cycles: 4, page_cycle: 1 },
            0xBC => Instr { mode: AddressMode::AbIdxX, op: OpType::LDY, cycles: 4, page_cycle: 1 },
            0xBD => Instr { mode: AddressMode::AbIdxX, op: OpType::LDA, cycles: 4, page_cycle: 1 },
            0xBE => Instr { mode: AddressMode::AbIdxY, op: OpType::LDX, cycles: 4, page_cycle: 1 },
            0xBF => Instr { mode: AddressMode::AbIdxY, op: OpType::NOP, cycles: 4, page_cycle: 1 },
            0xC0 => Instr { mode: AddressMode::Immedt, op: OpType::CPY, cycles: 2, page_cycle: 0 },
            0xC1 => Instr { mode: AddressMode::IdxInd, op: OpType::CMP, cycles: 6, page_cycle: 0 },
            0xC2 => Instr { mode: AddressMode::Immedt, op: OpType::NOP, cycles: 2, page_cycle: 0 },
            0xC3 => Instr { mode: AddressMode::IdxInd, op: OpType::NOP, cycles: 8, page_cycle: 0 },
            0xC4 => Instr { mode: AddressMode::ZeroPg, op: OpType::CPY, cycles: 3, page_cycle: 0 },
            0xC5 => Instr { mode: AddressMode::ZeroPg, op: OpType::CMP, cycles: 3, page_cycle: 0 },
            0xC6 => Instr { mode: AddressMode::ZeroPg, op: OpType::DEC, cycles: 5, page_cycle: 0 },
            0xC7 => Instr { mode: AddressMode::ZeroPg, op: OpType::NOP, cycles: 5, page_cycle: 0 },
            0xC8 => Instr { mode: AddressMode::Implid, op: OpType::INY, cycles: 2, page_cycle: 0 },
            0xC9 => Instr { mode: AddressMode::Immedt, op: OpType::CMP, cycles: 2, page_cycle: 0 },
            0xCA => Instr { mode: AddressMode::Implid, op: OpType::DEX, cycles: 2, page_cycle: 0 },
            0xCB => Instr { mode: AddressMode::Immedt, op: OpType::NOP, cycles: 2, page_cycle: 0 },
            0xCC => Instr { mode: AddressMode::Absolu, op: OpType::CPY, cycles: 4, page_cycle: 0 },
            0xCD => Instr { mode: AddressMode::Absolu, op: OpType::CMP, cycles: 4, page_cycle: 0 },
            0xCE => Instr { mode: AddressMode::Absolu, op: OpType::DEC, cycles: 6, page_cycle: 0 },
            0xCF => Instr { mode: AddressMode::Absolu, op: OpType::NOP, cycles: 6, page_cycle: 0 },
            0xD0 => Instr { mode: AddressMode::Relatv, op: OpType::BNE, cycles: 2, page_cycle: 1 },
            0xD1 => Instr { mode: AddressMode::IndIdx, op: OpType::CMP, cycles: 5, page_cycle: 1 },
            0xD2 => Instr { mode: AddressMode::Immedt, op: OpType::NOP, cycles: 2, page_cycle: 0 },
            0xD3 => Instr { mode: AddressMode::IndIdx, op: OpType::NOP, cycles: 8, page_cycle: 0 },
            0xD4 => Instr { mode: AddressMode::ZPIdxX, op: OpType::NOP, cycles: 4, page_cycle: 0 },
            0xD5 => Instr { mode: AddressMode::ZPIdxX, op: OpType::CMP, cycles: 4, page_cycle: 0 },
            0xD6 => Instr { mode: AddressMode::ZPIdxX, op: OpType::DEC, cycles: 6, page_cycle: 0 },
            0xD7 => Instr { mode: AddressMode::ZPIdxX, op: OpType::NOP, cycles: 6, page_cycle: 0 },
            0xD8 => Instr { mode: AddressMode::Implid, op: OpType::CLD, cycles: 2, page_cycle: 0 },
            0xD9 => Instr { mode: AddressMode::AbIdxY, op: OpType::CMP, cycles: 4, page_cycle: 1 },
            0xDA => Instr { mode: AddressMode::Immedt, op: OpType::NOP, cycles: 2, page_cycle: 0 },
            0xDB => Instr { mode: AddressMode::AbIdxY, op: OpType::NOP, cycles: 7, page_cycle: 0 },
            0xDC => Instr { mode: AddressMode::AbIdxX, op: OpType::NOP, cycles: 4, page_cycle: 1 },
            0xDD => Instr { mode: AddressMode::AbIdxX, op: OpType::CMP, cycles: 4, page_cycle: 1 },
            0xDE => Instr { mode: AddressMode::AbIdxX, op: OpType::DEC, cycles: 7, page_cycle: 0 },
            0xDF => Instr { mode: AddressMode::AbIdxX, op: OpType::NOP, cycles: 7, page_cycle: 0 },
            0xE0 => Instr { mode: AddressMode::Immedt, op: OpType::CPX, cycles: 2, page_cycle: 0 },
            0xE1 => Instr { mode: AddressMode::IdxInd, op: OpType::SBC, cycles: 6, page_cycle: 0 },
            0xE2 => Instr { mode: AddressMode::Immedt, op: OpType::NOP, cycles: 2, page_cycle: 0 },
            0xE3 => Instr { mode: AddressMode::IdxInd, op: OpType::NOP, cycles: 8, page_cycle: 0 },
            0xE4 => Instr { mode: AddressMode::ZeroPg, op: OpType::CPX, cycles: 3, page_cycle: 0 },
            0xE5 => Instr { mode: AddressMode::ZeroPg, op: OpType::SBC, cycles: 3, page_cycle: 0 },
            0xE6 => Instr { mode: AddressMode::ZeroPg, op: OpType::INC, cycles: 5, page_cycle: 0 },
            0xE7 => Instr { mode: AddressMode::ZeroPg, op: OpType::NOP, cycles: 5, page_cycle: 0 },
            0xE8 => Instr { mode: AddressMode::Implid, op: OpType::INX, cycles: 2, page_cycle: 0 },
            0xE9 => Instr { mode: AddressMode::Immedt, op: OpType::SBC, cycles: 2, page_cycle: 0 },
            0xEA => Instr { mode: AddressMode::Implid, op: OpType::NOP, cycles: 2, page_cycle: 0 },
            0xEB => Instr { mode: AddressMode::Immedt, op: OpType::SBC, cycles: 2, page_cycle: 0 },
            0xEC => Instr { mode: AddressMode::Absolu, op: OpType::CPX, cycles: 4, page_cycle: 0 },
            0xED => Instr { mode: AddressMode::Absolu, op: OpType::SBC, cycles: 4, page_cycle: 0 },
            0xEE => Instr { mode: AddressMode::Absolu, op: OpType::INC, cycles: 6, page_cycle: 0 },
            0xEF => Instr { mode: AddressMode::Absolu, op: OpType::NOP, cycles: 6, page_cycle: 0 },
            0xF0 => Instr { mode: AddressMode::Relatv, op: OpType::BEQ, cycles: 2, page_cycle: 1 },
            0xF1 => Instr { mode: AddressMode::IndIdx, op: OpType::SBC, cycles: 5, page_cycle: 1 },
            0xF2 => Instr { mode: AddressMode::Immedt, op: OpType::NOP, cycles: 2, page_cycle: 0 },
            0xF3 => Instr { mode: AddressMode::IndIdx, op: OpType::NOP, cycles: 8, page_cycle: 0 },
            0xF4 => Instr { mode: AddressMode::ZPIdxX, op: OpType::NOP, cycles: 4, page_cycle: 0 },
            0xF5 => Instr { mode: AddressMode::ZPIdxX, op: OpType::SBC, cycles: 4, page_cycle: 0 },
            0xF6 => Instr { mode: AddressMode::ZPIdxX, op: OpType::INC, cycles: 6, page_cycle: 0 },
            0xF7 => Instr { mode: AddressMode::ZPIdxX, op: OpType::NOP, cycles: 6, page_cycle: 0 },
            0xF8 => Instr { mode: AddressMode::Implid, op: OpType::SED, cycles: 2, page_cycle: 0 },
            0xF9 => Instr { mode: AddressMode::AbIdxY, op: OpType::SBC, cycles: 4, page_cycle: 1 },
            0xFA => Instr { mode: AddressMode::Immedt, op: OpType::NOP, cycles: 2, page_cycle: 0 },
            0xFB => Instr { mode: AddressMode::AbIdxY, op: OpType::NOP, cycles: 7, page_cycle: 0 },
            0xFC => Instr { mode: AddressMode::AbIdxX, op: OpType::NOP, cycles: 4, page_cycle: 1 },
            0xFD => Instr { mode: AddressMode::AbIdxX, op: OpType::SBC, cycles: 4, page_cycle: 1 },
            0xFE => Instr { mode: AddressMode::AbIdxX, op: OpType::INC, cycles: 7, page_cycle: 0 },
            _ => Instr { mode: AddressMode::AbIdxX, op: OpType::NOP, cycles: 7, page_cycle: 0 },
    }
}

} // verus!
