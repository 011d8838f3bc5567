//! The 6502 interpreter: registers, flags, addressing, the instruction
//! actions, interrupt dispatch, and the cycle accounting.

use vstd::prelude::*;

use crate::mbc::Mbc;
use crate::mbc::MbcModel;
use crate::mbc::mbc_read_next;
use crate::mbc::mbc_read_val;
use crate::mbc::mbc_write_next;
use crate::mbc::plain_addr;
use crate::mbc::spec_peek16;
use crate::opcode::AddressMode;
use crate::opcode::OpType;
use crate::opcode::decode;
use crate::opcode::is_kil;
use crate::opcode::spec_decode;
use crate::opcode::spec_is_kil;
use crate::rom::spec_initial_pc;

verus! {

/// Carry flag bit.
pub const FLAG_CRY: u8 = 0x01;

/// Zero flag bit.
pub const FLAG_ZER: u8 = 0x02;

/// Interrupt-disable flag bit.
pub const FLAG_IRQ: u8 = 0x04;

/// Decimal flag bit; ignored by arithmetic on this CPU.
pub const FLAG_DEC: u8 = 0x08;

/// Break flag bit; only observable on pushed flag bytes.
pub const FLAG_BRK: u8 = 0x10;

/// Unused flag bit; pushed as 1.
pub const FLAG_RSV: u8 = 0x20;

/// Overflow flag bit.
pub const FLAG_OVF: u8 = 0x40;

/// Negative flag bit.
pub const FLAG_NEG: u8 = 0x80;

/// The CPU registers and cycle counter.
#[derive(Clone, Copy, Debug, PartialEq, Eq, Structural)]
pub struct Cpu {
    pub a: u8,
    pub x: u8,
    pub y: u8,
    pub pc: u16,
    pub s: u8,
    pub p: u8,
    pub cycle: u64,
}

/// The flag byte with `flag` forced to `value`.
pub open spec fn spec_set_flag(p: u8, flag: u8, value: bool) -> u8 {
    if value {
        p | flag
    } else {
        p & !flag
    }
}

/// Whether `flag` is set in `p`.
pub open spec fn flag_set(p: u8, flag: u8) -> bool {
    p & flag != 0
}

/// The flag byte with N and Z updated for a result byte.
pub open spec fn spec_nz(p: u8, v: u8) -> u8 {
    spec_set_flag(spec_set_flag(p, FLAG_ZER, v == 0), FLAG_NEG, v & 0x80 != 0)
}

/// A resolved operand: nothing, the accumulator, an immediate byte, or
/// a memory location (with its operand length and whether indexing
/// crossed a page).
#[derive(Clone, Copy, Debug, PartialEq, Eq, Structural)]
pub enum Operand {
    Implicit,
    Accumulator,
    Immediate { value: u8 },
    Memory { addr: u16, length: u16, crossed: bool },
}

/// Operand bytes the instruction occupies after the opcode.
pub open spec fn op_length(m: Operand) -> u16 {
    match m {
        Operand::Implicit => 0,
        Operand::Accumulator => 0,
        Operand::Immediate { .. } => 1,
        Operand::Memory { length, .. } => length,
    }
}

/// The value an operand read yields.
pub open spec fn op_value(m: Operand, c: Cpu, mm: MbcModel) -> u8 {
    match m {
        Operand::Implicit => 0,
        Operand::Accumulator => c.a,
        Operand::Immediate { value } => value,
        Operand::Memory { addr, .. } => mbc_read_val(mm, addr),
    }
}

/// The bus after an operand read.
pub open spec fn op_read_next(m: Operand, mm: MbcModel) -> MbcModel {
    match m {
        Operand::Memory { addr, .. } => mbc_read_next(mm, addr),
        _ => mm,
    }
}

/// The machine after an operand write of `v`.
pub open spec fn spec_operand_write(m: Operand, c: Cpu, mm: MbcModel, v: u8) -> (Cpu, MbcModel) {
    match m {
        Operand::Accumulator => (Cpu { a: v, ..c }, mm),
        Operand::Memory { addr, .. } => (c, mbc_write_next(mm, addr, v)),
        _ => (c, mm),
    }
}

/// Whether an operand may be stored through without a fault: the
/// accumulator, or a memory location below the read-only PRG window.
pub open spec fn op_writable(m: Operand) -> bool {
    match m {
        Operand::Accumulator => true,
        Operand::Memory { addr, .. } => addr < 0x8000,
        _ => true,
    }
}

/// The CPU with its program counter moved past the operand bytes.
pub open spec fn advance_pc(c: Cpu, len: u16) -> Cpu {
    Cpu { pc: ((c.pc + len) % 0x10000) as u16, ..c }
}

/// The address the JMP-indirect page-boundary quirk reads the high
/// pointer byte from: the increment wraps within the pointer's page.
pub open spec fn bug_next(ptr: u16) -> u16 {
    ((ptr / 256) * 256 + (ptr % 256 + 1) % 256) as u16
}

/// A 16-bit pointer read from the zero page, the second byte wrapping
/// within the zero page.
pub open spec fn zp_peek16(mm: MbcModel, zp: u16) -> u16 {
    (mbc_read_val(mm, (zp % 256) as u16) + 256 * mbc_read_val(mm, ((zp + 1) % 256) as u16)) as u16
}

/// The operand an addressing mode resolves to, before the instruction
/// acts.
pub open spec fn spec_resolve(mode: AddressMode, c: Cpu, mm: MbcModel) -> Operand {
    match mode {
        AddressMode::Implid => Operand::Implicit,
        AddressMode::Accumu => Operand::Accumulator,
        AddressMode::Immedt => Operand::Immediate { value: mbc_read_val(mm, c.pc) },
        AddressMode::Relatv => Operand::Immediate { value: mbc_read_val(mm, c.pc) },
        AddressMode::ZeroPg => Operand::Memory {
            addr: mbc_read_val(mm, c.pc) as u16,
            length: 1,
            crossed: false,
        },
        AddressMode::ZPIdxX => Operand::Memory {
            addr: ((mbc_read_val(mm, c.pc) + c.x) % 256) as u16,
            length: 1,
            crossed: false,
        },
        AddressMode::ZPIdxY => Operand::Memory {
            addr: ((mbc_read_val(mm, c.pc) + c.y) % 256) as u16,
            length: 1,
            crossed: false,
        },
        AddressMode::Absolu => Operand::Memory {
            addr: spec_peek16(mm, c.pc),
            length: 2,
            crossed: false,
        },
        AddressMode::AbIdxX => {
            let base = spec_peek16(mm, c.pc);
            Operand::Memory {
                addr: ((base + c.x) % 0x10000) as u16,
                length: 2,
                crossed: base % 256 + c.x >= 256,
            }
        },
        AddressMode::AbIdxY => {
            let base = spec_peek16(mm, c.pc);
            Operand::Memory {
                addr: ((base + c.y) % 0x10000) as u16,
                length: 2,
                crossed: base % 256 + c.y >= 256,
            }
        },
        AddressMode::Indrct => Operand::Memory {
            addr: (mbc_read_val(mm, spec_peek16(mm, c.pc)) + 256 * mbc_read_val(
                mm,
                bug_next(spec_peek16(mm, c.pc)),
            )) as u16,
            length: 2,
            crossed: false,
        },
        AddressMode::IdxInd => Operand::Memory {
            addr: zp_peek16(mm, ((mbc_read_val(mm, c.pc) + c.x) % 256) as u16),
            length: 1,
            crossed: false,
        },
        AddressMode::IndIdx => {
            let base = zp_peek16(mm, mbc_read_val(mm, c.pc) as u16);
            Operand::Memory {
                addr: ((base + c.y) % 0x10000) as u16,
                length: 1,
                crossed: base % 256 + c.y >= 256,
            }
        },
    }
}

/// What operand resolution needs of the machine: the operand bytes, and
/// any pointer bytes, sit at side-effect-free addresses, and two-byte
/// operands do not straddle the top of the address space.
pub open spec fn resolve_ok(mode: AddressMode, c: Cpu, mm: MbcModel) -> bool {
    match mode {
        AddressMode::Implid => true,
        AddressMode::Accumu => true,
        AddressMode::Immedt => plain_addr(c.pc),
        AddressMode::Relatv => plain_addr(c.pc),
        AddressMode::ZeroPg => plain_addr(c.pc),
        AddressMode::ZPIdxX => plain_addr(c.pc),
        AddressMode::ZPIdxY => plain_addr(c.pc),
        AddressMode::Absolu => plain_addr(c.pc) && c.pc < 0xFFFF && plain_addr((c.pc + 1) as u16),
        AddressMode::AbIdxX => plain_addr(c.pc) && c.pc < 0xFFFF && plain_addr((c.pc + 1) as u16),
        AddressMode::AbIdxY => plain_addr(c.pc) && c.pc < 0xFFFF && plain_addr((c.pc + 1) as u16),
        AddressMode::Indrct => plain_addr(c.pc) && c.pc < 0xFFFF && plain_addr((c.pc + 1) as u16)
            && plain_addr(spec_peek16(mm, c.pc)) && plain_addr(bug_next(spec_peek16(mm, c.pc))),
        AddressMode::IdxInd => plain_addr(c.pc),
        AddressMode::IndIdx => plain_addr(c.pc),
    }
}

/// The stack pointer after a push.
pub open spec fn s_dec(s: u8) -> u8 {
    ((s + 255) % 256) as u8
}

/// The stack pointer after a pop.
pub open spec fn s_inc(s: u8) -> u8 {
    ((s + 1) % 256) as u8
}

/// The machine after pushing one byte: the byte lands at `$0100 + S`
/// and S decrements, wrapping within the stack page.
pub open spec fn spec_push(c: Cpu, mm: MbcModel, v: u8) -> (Cpu, MbcModel) {
    (Cpu { s: s_dec(c.s), ..c }, mbc_write_next(mm, (0x100 + c.s) as u16, v))
}

/// The machine after pushing a 16-bit value, high byte first.
pub open spec fn spec_push16(c: Cpu, mm: MbcModel, v: u16) -> (Cpu, MbcModel) {
    let (c1, m1) = spec_push(c, mm, (v / 256) as u8);
    spec_push(c1, m1, (v % 256) as u8)
}

/// The byte a pop reads: S increments first, wrapping within the stack
/// page.
pub open spec fn spec_pop_val(c: Cpu, mm: MbcModel) -> u8 {
    mbc_read_val(mm, (0x100 + s_inc(c.s)) as u16)
}

/// The CPU after one pop.
pub open spec fn spec_pop_cpu(c: Cpu) -> Cpu {
    Cpu { s: s_inc(c.s), ..c }
}

/// The 16-bit value two pops yield, low byte first.
pub open spec fn spec_pop16_val(c: Cpu, mm: MbcModel) -> u16 {
    (spec_pop_val(c, mm) + 256 * spec_pop_val(spec_pop_cpu(c), mm)) as u16
}

/// The CPU after two pops.
pub open spec fn spec_pop16_cpu(c: Cpu) -> Cpu {
    spec_pop_cpu(spec_pop_cpu(c))
}

/// ADC: add the operand and the carry into A; set N, Z, C, and signed
/// overflow V.
pub open spec fn spec_adc(c: Cpu, v: u8) -> Cpu {
    let cin: int = if flag_set(c.p, FLAG_CRY) {
        1
    } else {
        0
    };
    let sum = c.a + v + cin;
    let r = (sum % 256) as u8;
    let p1 = spec_nz(c.p, r);
    let p2 = spec_set_flag(p1, FLAG_CRY, sum > 255);
    let p3 = spec_set_flag(p2, FLAG_OVF, (c.a ^ v) & 0x80 == 0 && (c.a ^ r) & 0x80 == 0x80);
    Cpu { a: r, p: p3, ..c }
}

/// SBC: subtract the operand and the borrow from A; set N, Z, C (no
/// borrow), and signed overflow V.
pub open spec fn spec_sbc(c: Cpu, v: u8) -> Cpu {
    let bin: int = if flag_set(c.p, FLAG_CRY) {
        0
    } else {
        1
    };
    let diff = c.a - v - bin;
    let r = (diff % 256) as u8;
    let p1 = spec_nz(c.p, r);
    let p2 = spec_set_flag(p1, FLAG_CRY, diff >= 0);
    let p3 = spec_set_flag(p2, FLAG_OVF, (c.a ^ v) & 0x80 != 0 && (c.a ^ r) & 0x80 == 0x80);
    Cpu { a: r, p: p3, ..c }
}

/// A compare: C when the register is not below the operand; N and Z
/// from the difference byte.
pub open spec fn spec_compare(c: Cpu, reg: u8, v: u8) -> Cpu {
    let r = ((reg - v) % 256) as u8;
    let p1 = spec_set_flag(c.p, FLAG_CRY, reg >= v);
    Cpu { p: spec_nz(p1, r), ..c }
}

/// A branch: when taken the signed offset is added to the address of
/// the next instruction, else the program counter just moves past the
/// offset byte.
pub open spec fn spec_branch(c: Cpu, cond: bool, off: u8) -> Cpu {
    if cond {
        Cpu { pc: branch_target(c.pc, off), ..c }
    } else {
        advance_pc(c, 1)
    }
}

/// The branch target: the program counter past the offset byte plus the
/// sign-extended offset, wrapping in the address space.
pub open spec fn branch_target(pc: u16, off: u8) -> u16 {
    let delta: int = if off >= 0x80 {
        off - 256
    } else {
        off as int
    };
    ((pc + 1 + delta + 0x10000) % 0x10000) as u16
}

/// Whether an operation is a branch.
pub open spec fn is_branch(t: OpType) -> bool {
    t == OpType::BCC || t == OpType::BCS || t == OpType::BEQ || t == OpType::BMI || t == OpType::BNE
        || t == OpType::BPL || t == OpType::BVC || t == OpType::BVS
}

/// Whether a branch's condition holds in flag byte `p`.
pub open spec fn spec_branch_cond(t: OpType, p: u8) -> bool {
    match t {
        OpType::BCC => !flag_set(p, FLAG_CRY),
        OpType::BCS => flag_set(p, FLAG_CRY),
        OpType::BEQ => flag_set(p, FLAG_ZER),
        OpType::BMI => flag_set(p, FLAG_NEG),
        OpType::BNE => !flag_set(p, FLAG_ZER),
        OpType::BPL => !flag_set(p, FLAG_NEG),
        OpType::BVC => !flag_set(p, FLAG_OVF),
        OpType::BVS => flag_set(p, FLAG_OVF),
        _ => false,
    }
}

/// The immediate byte an operand carries.
pub open spec fn imm_of(m: Operand) -> u8 {
    match m {
        Operand::Immediate { value } => value,
        _ => 0,
    }
}

/// The memory address an operand names.
pub open spec fn op_addr(m: Operand) -> u16 {
    match m {
        Operand::Memory { addr, .. } => addr,
        _ => 0,
    }
}

/// The flag byte PHP and BRK push: B and U forced to 1.
pub open spec fn spec_php_byte(p: u8) -> u8 {
    p | FLAG_BRK | FLAG_RSV
}

/// The flag byte an interrupt pushes: B clear, U forced to 1.
pub open spec fn spec_irq_byte(p: u8) -> u8 {
    (p & !FLAG_BRK) | FLAG_RSV
}

/// The flag byte PLP and RTI restore: the stored B is discarded and U
/// forced to 1.
pub open spec fn spec_plp_byte(v: u8) -> u8 {
    (v & !FLAG_BRK) | FLAG_RSV
}

/// JSR: push the address of the instruction's last byte, then jump.
pub open spec fn spec_jsr(c: Cpu, mm: MbcModel, target: u16) -> (Cpu, MbcModel) {
    let ret = ((c.pc + 1) % 0x10000) as u16;
    let (c1, m1) = spec_push16(c, mm, ret);
    (Cpu { pc: target, ..c1 }, m1)
}

/// RTS: pop the return address and resume one byte past it.
pub open spec fn spec_rts(c: Cpu, mm: MbcModel) -> Cpu {
    let ret = spec_pop16_val(c, mm);
    Cpu { pc: ((ret + 1) % 0x10000) as u16, ..spec_pop16_cpu(c) }
}

/// RTI: pop the flag byte (B discarded, U forced), then the program
/// counter, unmodified.
pub open spec fn spec_rti(c: Cpu, mm: MbcModel) -> Cpu {
    let p = spec_plp_byte(spec_pop_val(c, mm));
    let c1 = spec_pop_cpu(c);
    let ret = spec_pop16_val(c1, mm);
    Cpu { p, pc: ret, ..spec_pop16_cpu(c1) }
}

/// BRK: push the address two past the opcode and the flag byte with B
/// set, set I, and jump through the IRQ vector.
pub open spec fn spec_brk(c: Cpu, mm: MbcModel) -> (Cpu, MbcModel) {
    let ret = ((c.pc + 1) % 0x10000) as u16;
    let (c1, m1) = spec_push16(c, mm, ret);
    let (c2, m2) = spec_push(c1, m1, spec_php_byte(c.p));
    let c3 = Cpu { p: spec_set_flag(c.p, FLAG_IRQ, true), pc: spec_peek16(m2, 0xFFFE), ..c2 };
    (c3, m2)
}

/// NMI entry: push the current program counter and the flag byte with B
/// clear, set I, and jump through the NMI vector.
pub open spec fn spec_nmi(c: Cpu, mm: MbcModel) -> (Cpu, MbcModel) {
    let (c1, m1) = spec_push16(c, mm, c.pc);
    let (c2, m2) = spec_push(c1, m1, spec_irq_byte(c.p));
    let c3 = Cpu { p: spec_set_flag(c.p, FLAG_IRQ, true), pc: spec_peek16(m2, 0xFFFA), ..c2 };
    (c3, m2)
}

/// ASL: shift left; C takes bit 7.
pub open spec fn spec_shift_asl(c: Cpu, v: u8) -> (Cpu, u8) {
    let r = v << 1u8;
    let p1 = spec_set_flag(c.p, FLAG_CRY, v & 0x80 != 0);
    (Cpu { p: spec_nz(p1, r), ..c }, r)
}

/// LSR: shift right; C takes bit 0.
pub open spec fn spec_shift_lsr(c: Cpu, v: u8) -> (Cpu, u8) {
    let r = v >> 1u8;
    let p1 = spec_set_flag(c.p, FLAG_CRY, v & 0x01 != 0);
    (Cpu { p: spec_nz(p1, r), ..c }, r)
}

/// ROL: rotate left through the carry.
pub open spec fn spec_shift_rol(c: Cpu, v: u8) -> (Cpu, u8) {
    let r = (v << 1u8) | (if flag_set(c.p, FLAG_CRY) {
        1u8
    } else {
        0u8
    });
    let p1 = spec_set_flag(c.p, FLAG_CRY, v & 0x80 != 0);
    (Cpu { p: spec_nz(p1, r), ..c }, r)
}

/// ROR: rotate right through the carry.
pub open spec fn spec_shift_ror(c: Cpu, v: u8) -> (Cpu, u8) {
    let r = (v >> 1u8) | (if flag_set(c.p, FLAG_CRY) {
        0x80u8
    } else {
        0u8
    });
    let p1 = spec_set_flag(c.p, FLAG_CRY, v & 0x01 != 0);
    (Cpu { p: spec_nz(p1, r), ..c }, r)
}

/// LDA/LDX/LDY: a load into a register, with N and Z.
pub open spec fn spec_apply_load(m: Operand, c: Cpu, mm: MbcModel, which: int) -> (Cpu, MbcModel) {
    let v = op_value(m, c, mm);
    let c1 = if which == 0 {
        Cpu { a: v, p: spec_nz(c.p, v), ..c }
    } else if which == 1 {
        Cpu { x: v, p: spec_nz(c.p, v), ..c }
    } else {
        Cpu { y: v, p: spec_nz(c.p, v), ..c }
    };
    (advance_pc(c1, op_length(m)), op_read_next(m, mm))
}

/// STA/STX/STY: a store through the operand.
pub open spec fn spec_apply_store(m: Operand, c: Cpu, mm: MbcModel, v: u8) -> (Cpu, MbcModel) {
    let (c1, m1) = spec_operand_write(m, c, mm, v);
    (advance_pc(c1, op_length(m)), m1)
}

/// A bitwise operation into A, with N and Z.
pub open spec fn spec_apply_bitop(m: Operand, c: Cpu, mm: MbcModel, which: int) -> (Cpu, MbcModel) {
    let v = op_value(m, c, mm);
    let r = if which == 0 {
        c.a & v
    } else if which == 1 {
        (c.a | v) as u8
    } else {
        c.a ^ v
    };
    (advance_pc(Cpu { a: r, p: spec_nz(c.p, r), ..c }, op_length(m)), op_read_next(m, mm))
}

/// BIT: Z from the masked accumulator, N and V copied from the operand.
pub open spec fn spec_apply_bit(m: Operand, c: Cpu, mm: MbcModel) -> (Cpu, MbcModel) {
    let v = op_value(m, c, mm);
    let p1 = spec_set_flag(c.p, FLAG_ZER, c.a & v == 0);
    let p2 = spec_set_flag(p1, FLAG_NEG, v & 0x80 != 0);
    let p3 = spec_set_flag(p2, FLAG_OVF, v & 0x40 != 0);
    (advance_pc(Cpu { p: p3, ..c }, op_length(m)), op_read_next(m, mm))
}

/// A read-modify-write through the operand: the flag byte comes from
/// the shift or step, the result is stored back.
pub open spec fn spec_apply_rmw(m: Operand, c: Cpu, mm: MbcModel, c1: Cpu, r: u8) -> (
    Cpu,
    MbcModel,
) {
    let (c2, m2) = spec_operand_write(m, c1, op_read_next(m, mm), r);
    (advance_pc(c2, op_length(m)), m2)
}

/// INX/DEX: X stepped to `r`, with N and Z.
pub open spec fn spec_apply_step_x(c: Cpu, mm: MbcModel, len: u16, r: u8) -> (Cpu, MbcModel) {
    (advance_pc(Cpu { x: r, p: spec_nz(c.p, r), ..c }, len), mm)
}

/// INY/DEY: Y stepped to `r`, with N and Z.
pub open spec fn spec_apply_step_y(c: Cpu, mm: MbcModel, len: u16, r: u8) -> (Cpu, MbcModel) {
    (advance_pc(Cpu { y: r, p: spec_nz(c.p, r), ..c }, len), mm)
}

/// PHA/PHP: push a byte and move past the (empty) operand.
pub open spec fn spec_apply_push(m: Operand, c: Cpu, mm: MbcModel, v: u8) -> (Cpu, MbcModel) {
    let (c1, m1) = spec_push(c, mm, v);
    (advance_pc(c1, op_length(m)), m1)
}

/// PLA: pop into A, with N and Z.
pub open spec fn spec_apply_pla(m: Operand, c: Cpu, mm: MbcModel) -> (Cpu, MbcModel) {
    let r = spec_pop_val(c, mm);
    (advance_pc(Cpu { a: r, p: spec_nz(c.p, r), ..spec_pop_cpu(c) }, op_length(m)), mm)
}

/// PLP: pop into the flag byte, discarding B and forcing U.
pub open spec fn spec_apply_plp(m: Operand, c: Cpu, mm: MbcModel) -> (Cpu, MbcModel) {
    let r = spec_plp_byte(spec_pop_val(c, mm));
    (advance_pc(Cpu { p: r, ..spec_pop_cpu(c) }, op_length(m)), mm)
}

/// The machine after one instruction action (cycle accounting aside).
pub open spec fn spec_apply_op(t: OpType, m: Operand, c: Cpu, mm: MbcModel) -> (Cpu, MbcModel) {
    let v = op_value(m, c, mm);
    let mm1 = op_read_next(m, mm);
    let len = op_length(m);
    match t {
        OpType::LDA => spec_apply_load(m, c, mm, 0),
        OpType::LDX => spec_apply_load(m, c, mm, 1),
        OpType::LDY => spec_apply_load(m, c, mm, 2),
        OpType::STA => spec_apply_store(m, c, mm, c.a),
        OpType::STX => spec_apply_store(m, c, mm, c.x),
        OpType::STY => spec_apply_store(m, c, mm, c.y),
        OpType::TAX => (advance_pc(Cpu { x: c.a, p: spec_nz(c.p, c.a), ..c }, len), mm),
        OpType::TAY => (advance_pc(Cpu { y: c.a, p: spec_nz(c.p, c.a), ..c }, len), mm),
        OpType::TSX => (advance_pc(Cpu { x: c.s, p: spec_nz(c.p, c.s), ..c }, len), mm),
        OpType::TXA => (advance_pc(Cpu { a: c.x, p: spec_nz(c.p, c.x), ..c }, len), mm),
        OpType::TXS => (advance_pc(Cpu { s: c.x, ..c }, len), mm),
        OpType::TYA => (advance_pc(Cpu { a: c.y, p: spec_nz(c.p, c.y), ..c }, len), mm),
        OpType::ADC => (advance_pc(spec_adc(c, v), len), mm1),
        OpType::SBC => (advance_pc(spec_sbc(c, v), len), mm1),
        OpType::AND => spec_apply_bitop(m, c, mm, 0),
        OpType::ORA => spec_apply_bitop(m, c, mm, 1),
        OpType::EOR => spec_apply_bitop(m, c, mm, 2),
        OpType::BIT => spec_apply_bit(m, c, mm),
        OpType::CMP => (advance_pc(spec_compare(c, c.a, v), len), mm1),
        OpType::CPX => (advance_pc(spec_compare(c, c.x, v), len), mm1),
        OpType::CPY => (advance_pc(spec_compare(c, c.y, v), len), mm1),
        OpType::ASL => spec_apply_rmw(m, c, mm, spec_shift_asl(c, v).0, spec_shift_asl(c, v).1),
        OpType::LSR => spec_apply_rmw(m, c, mm, spec_shift_lsr(c, v).0, spec_shift_lsr(c, v).1),
        OpType::ROL => spec_apply_rmw(m, c, mm, spec_shift_rol(c, v).0, spec_shift_rol(c, v).1),
        OpType::ROR => spec_apply_rmw(m, c, mm, spec_shift_ror(c, v).0, spec_shift_ror(c, v).1),
        OpType::INC => spec_apply_rmw(
            m,
            c,
            mm,
            Cpu { p: spec_nz(c.p, ((v + 1) % 256) as u8), ..c },
            ((v + 1) % 256) as u8,
        ),
        OpType::DEC => spec_apply_rmw(
            m,
            c,
            mm,
            Cpu { p: spec_nz(c.p, ((v + 255) % 256) as u8), ..c },
            ((v + 255) % 256) as u8,
        ),
        OpType::INX => spec_apply_step_x(c, mm, len, ((c.x + 1) % 256) as u8),
        OpType::INY => spec_apply_step_y(c, mm, len, ((c.y + 1) % 256) as u8),
        OpType::DEX => spec_apply_step_x(c, mm, len, ((c.x + 255) % 256) as u8),
        OpType::DEY => spec_apply_step_y(c, mm, len, ((c.y + 255) % 256) as u8),
        OpType::CLC => (advance_pc(Cpu { p: spec_set_flag(c.p, FLAG_CRY, false), ..c }, len), mm),
        OpType::SEC => (advance_pc(Cpu { p: spec_set_flag(c.p, FLAG_CRY, true), ..c }, len), mm),
        OpType::CLI => (advance_pc(Cpu { p: spec_set_flag(c.p, FLAG_IRQ, false), ..c }, len), mm),
        OpType::SEI => (advance_pc(Cpu { p: spec_set_flag(c.p, FLAG_IRQ, true), ..c }, len), mm),
        OpType::CLV => (advance_pc(Cpu { p: spec_set_flag(c.p, FLAG_OVF, false), ..c }, len), mm),
        OpType::CLD => (advance_pc(Cpu { p: spec_set_flag(c.p, FLAG_DEC, false), ..c }, len), mm),
        OpType::SED => (advance_pc(Cpu { p: spec_set_flag(c.p, FLAG_DEC, true), ..c }, len), mm),
        OpType::NOP => (advance_pc(c, len), mm),
        OpType::JMP => (Cpu { pc: op_addr(m), ..c }, mm),
        OpType::JSR => spec_jsr(c, mm, op_addr(m)),
        OpType::RTS => (spec_rts(c, mm), mm),
        OpType::RTI => (spec_rti(c, mm), mm),
        OpType::BRK => spec_brk(c, mm),
        OpType::PHA => spec_apply_push(m, c, mm, c.a),
        OpType::PHP => spec_apply_push(m, c, mm, spec_php_byte(c.p)),
        OpType::PLA => spec_apply_pla(m, c, mm),
        OpType::PLP => spec_apply_plp(m, c, mm),
        OpType::BCC => (spec_branch(c, spec_branch_cond(t, c.p), imm_of(m)), mm),
        OpType::BCS => (spec_branch(c, spec_branch_cond(t, c.p), imm_of(m)), mm),
        OpType::BEQ => (spec_branch(c, spec_branch_cond(t, c.p), imm_of(m)), mm),
        OpType::BMI => (spec_branch(c, spec_branch_cond(t, c.p), imm_of(m)), mm),
        OpType::BNE => (spec_branch(c, spec_branch_cond(t, c.p), imm_of(m)), mm),
        OpType::BPL => (spec_branch(c, spec_branch_cond(t, c.p), imm_of(m)), mm),
        OpType::BVC => (spec_branch(c, spec_branch_cond(t, c.p), imm_of(m)), mm),
        OpType::BVS => (spec_branch(c, spec_branch_cond(t, c.p), imm_of(m)), mm),
    }
}

impl Cpu {
    /// A powered-up CPU.
    pub fn new() -> (r: Cpu)
        ensures
            r == (Cpu { a: 0u8, x: 0u8, y: 0u8, pc: 0x8000u16, s: 0xFFu8, p: 0u8, cycle: 0u64 }),
    {
        Cpu { a: 0, x: 0, y: 0, pc: 0x8000, s: 0xFF, p: 0, cycle: 0 }
    }

    /// Point the program counter at the cartridge's test entry and clear
    /// the flags.
    pub fn setup(&mut self, mbc: &Mbc)
        requires
            mbc@.rom.wf(),
        ensures
            *final(self) == (Cpu { pc: spec_initial_pc(mbc@.rom), p: 0u8, ..*old(self) }),
    {
        self.p = 0;
        self.pc = mbc.initial_pc();
    }

    /// Load the program counter from the reset vector, set the stack
    /// pointer to `$FD`, and clear the PPU's shared write toggle.
    pub fn reset(&mut self, mbc: &mut Mbc)
        requires
            old(mbc)@.wf(),
        ensures
            final(mbc)@.wf(),
            *final(self) == (Cpu {
                pc: spec_peek16(old(mbc)@, 0xFFFC),
                s: 0xFDu8,
                ..*old(self)
            }),
            final(mbc)@ == (MbcModel {
                ppu: crate::ppu::PpuModel { write_toggle: false, ..old(mbc)@.ppu },
                ..old(mbc)@
            }),
    {
        self.pc = mbc.peek16(0xFFFC);
        self.s = 0xFD;
        mbc.ppu.write_toggle = false;
        proof {
            assert(mbc@ =~= (MbcModel {
                ppu: crate::ppu::PpuModel { write_toggle: false, ..old(mbc)@.ppu },
                ..old(mbc)@
            }));
        }
    }

    /// Cycles executed since power-up.
    pub fn cycle(&self) -> (r: u64)
        ensures
            r == self.cycle,
    {
        self.cycle
    }

    /// Whether `flag` is set.
    pub fn get_flag(&self, flag: u8) -> (r: bool)
        ensures
            r == flag_set(self.p, flag),
    {
        (self.p & flag) != 0
    }

    /// Force `flag` to `value`.
    pub fn set_flag(&mut self, flag: u8, value: bool)
        ensures
            *final(self) == (Cpu { p: spec_set_flag(old(self).p, flag, value), ..*old(self) }),
    {
        if value {
            self.p = self.p | flag;
        } else {
            self.p = self.p & !flag;
        }
    }

    /// Set N from bit 7 of a result byte.
    pub fn set_negative_flag(&mut self, value: u8)
        ensures
            *final(self) == (Cpu {
                p: spec_set_flag(old(self).p, FLAG_NEG, value & 0x80 != 0),
                ..*old(self)
            }),
    {
        self.set_flag(FLAG_NEG, (value & 0x80) != 0);
    }

    /// Set Z from a result byte being zero.
    pub fn set_zero_flag(&mut self, value: u8)
        ensures
            *final(self) == (Cpu {
                p: spec_set_flag(old(self).p, FLAG_ZER, value == 0),
                ..*old(self)
            }),
    {
        self.set_flag(FLAG_ZER, value == 0);
    }

    /// Set N and Z from a result byte.
    fn set_nz(&mut self, value: u8)
        ensures
            *final(self) == (Cpu { p: spec_nz(old(self).p, value), ..*old(self) }),
    {
        self.set_zero_flag(value);
        self.set_negative_flag(value);
    }

    /// Move the program counter past the operand bytes.
    fn advance(&mut self, len: u16)
        ensures
            *final(self) == advance_pc(*old(self), len),
    {
        self.pc = ((self.pc as u32 + len as u32) % 0x10000) as u16;
    }

    /// Resolve an addressing mode to an operand.
    fn resolve(&self, mbc: &Mbc, mode: AddressMode) -> (m: Operand)
        requires
            mbc@.wf(),
            resolve_ok(mode, *self, mbc@),
        ensures
            m == spec_resolve(mode, *self, mbc@),
    {
        match mode {
            AddressMode::Implid => self.implicit(),
            AddressMode::Accumu => self.accumurator(),
            AddressMode::Immedt => self.immediate(mbc),
            AddressMode::Relatv => self.immediate(mbc),
            AddressMode::ZeroPg => self.zeropage(mbc),
            AddressMode::ZPIdxX => self.zeropagex(mbc),
            AddressMode::ZPIdxY => self.zeropagey(mbc),
            AddressMode::Absolu => self.absolute(mbc),
            AddressMode::AbIdxX => self.absolutex(mbc),
            AddressMode::AbIdxY => self.absolutey(mbc),
            AddressMode::Indrct => self.indirect(mbc),
            AddressMode::IdxInd => self.indirectx(mbc),
            AddressMode::IndIdx => self.indirecty(mbc),
        }
    }

    /// No operand.
    pub fn implicit(&self) -> (m: Operand)
        ensures
            m == Operand::Implicit,
    {
        Operand::Implicit
    }

    /// The accumulator as operand.
    pub fn accumurator(&self) -> (m: Operand)
        ensures
            m == Operand::Accumulator,
    {
        Operand::Accumulator
    }

    /// The byte after the opcode as an immediate value.
    pub fn immediate(&self, mbc: &Mbc) -> (m: Operand)
        requires
            mbc@.wf(),
            plain_addr(self.pc),
        ensures
            m == spec_resolve(AddressMode::Immedt, *self, mbc@),
    {
        Operand::Immediate { value: mbc.peek(self.pc) }
    }

    /// Zero-page addressing.
    pub fn zeropage(&self, mbc: &Mbc) -> (m: Operand)
        requires
            mbc@.wf(),
            plain_addr(self.pc),
        ensures
            m == spec_resolve(AddressMode::ZeroPg, *self, mbc@),
    {
        Operand::Memory { addr: mbc.peek(self.pc) as u16, length: 1, crossed: false }
    }

    /// Zero-page addressing indexed with X, wrapping within the page.
    pub fn zeropagex(&self, mbc: &Mbc) -> (m: Operand)
        requires
            mbc@.wf(),
            plain_addr(self.pc),
        ensures
            m == spec_resolve(AddressMode::ZPIdxX, *self, mbc@),
    {
        let operand = mbc.peek(self.pc);
        let addr = ((operand as u16 + self.x as u16) % 256) as u16;
        Operand::Memory { addr, length: 1, crossed: false }
    }

    /// Zero-page addressing indexed with Y, wrapping within the page.
    pub fn zeropagey(&self, mbc: &Mbc) -> (m: Operand)
        requires
            mbc@.wf(),
            plain_addr(self.pc),
        ensures
            m == spec_resolve(AddressMode::ZPIdxY, *self, mbc@),
    {
        let operand = mbc.peek(self.pc);
        let addr = ((operand as u16 + self.y as u16) % 256) as u16;
        Operand::Memory { addr, length: 1, crossed: false }
    }

    /// Absolute addressing.
    pub fn absolute(&self, mbc: &Mbc) -> (m: Operand)
        requires
            mbc@.wf(),
            resolve_ok(AddressMode::Absolu, *self, mbc@),
        ensures
            m == spec_resolve(AddressMode::Absolu, *self, mbc@),
    {
        Operand::Memory { addr: mbc.peek16(self.pc), length: 2, crossed: false }
    }

    /// Absolute addressing indexed with X; notes a page crossing.
    pub fn absolutex(&self, mbc: &Mbc) -> (m: Operand)
        requires
            mbc@.wf(),
            resolve_ok(AddressMode::AbIdxX, *self, mbc@),
        ensures
            m == spec_resolve(AddressMode::AbIdxX, *self, mbc@),
    {
        let base = mbc.peek16(self.pc);
        let addr = ((base as u32 + self.x as u32) % 0x10000) as u16;
        Operand::Memory { addr, length: 2, crossed: base % 256 + self.x as u16 >= 256 }
    }

    /// Absolute addressing indexed with Y; notes a page crossing.
    pub fn absolutey(&self, mbc: &Mbc) -> (m: Operand)
        requires
            mbc@.wf(),
            resolve_ok(AddressMode::AbIdxY, *self, mbc@),
        ensures
            m == spec_resolve(AddressMode::AbIdxY, *self, mbc@),
    {
        let base = mbc.peek16(self.pc);
        let addr = ((base as u32 + self.y as u32) % 0x10000) as u16;
        Operand::Memory { addr, length: 2, crossed: base % 256 + self.y as u16 >= 256 }
    }

    /// Indirect addressing, used by JMP, reproducing the hardware's
    /// page-boundary wrap when the pointer ends in `$FF`.
    pub fn indirect(&self, mbc: &Mbc) -> (m: Operand)
        requires
            mbc@.wf(),
            resolve_ok(AddressMode::Indrct, *self, mbc@),
        ensures
            m == spec_resolve(AddressMode::Indrct, *self, mbc@),
    {
        let ptr = mbc.peek16(self.pc);
        let low = mbc.peek(ptr) as u16;
        let high_addr = (ptr / 256) * 256 + (ptr % 256 + 1) % 256;
        let high = mbc.peek(high_addr) as u16;
        Operand::Memory { addr: high * 256 + low, length: 2, crossed: false }
    }

    /// Indexed-indirect addressing: the pointer sits at `(zp + X)` with
    /// both bytes read inside the zero page.
    #[verifier::rlimit(60)]
    pub fn indirectx(&self, mbc: &Mbc) -> (m: Operand)
        requires
            mbc@.wf(),
            plain_addr(self.pc),
        ensures
            m == spec_resolve(AddressMode::IdxInd, *self, mbc@),
    {
        let operand = mbc.peek(self.pc) as u16;
        let zp = (operand + self.x as u16) % 256;
        let low = mbc.peek(zp) as u16;
        let high = mbc.peek((zp + 1) % 256) as u16;
        Operand::Memory { addr: high * 256 + low, length: 1, crossed: false }
    }

    /// Indirect-indexed addressing: a zero-page pointer plus Y, noting a
    /// page crossing.
    #[verifier::rlimit(100)]
    pub fn indirecty(&self, mbc: &Mbc) -> (m: Operand)
        requires
            mbc@.wf(),
            plain_addr(self.pc),
        ensures
            m == spec_resolve(AddressMode::IndIdx, *self, mbc@),
    {
        let zp = mbc.peek(self.pc) as u16;
        let low = mbc.peek(zp) as u16;
        let high = mbc.peek((zp + 1) % 256) as u16;
        let base = high * 256 + low;
        proof {
            assert(zp % 256 == zp);
            assert(base == zp_peek16(mbc@, zp));
        }
        let addr = ((base as u32 + self.y as u32) % 0x10000) as u16;
        Operand::Memory { addr, length: 1, crossed: base % 256 + self.y as u16 >= 256 }
    }

    /// Read through an operand; a memory operand may change the PPU or
    /// controller as any bus read does.
    fn operand_read(&self, mbc: &mut Mbc, m: Operand) -> (r: u8)
        requires
            old(mbc)@.wf(),
        ensures
            final(mbc)@.wf(),
            r == op_value(m, *self, old(mbc)@),
            final(mbc)@ == op_read_next(m, old(mbc)@),
    {
        match m {
            Operand::Implicit => 0,
            Operand::Accumulator => self.a,
            Operand::Immediate { value } => value,
            Operand::Memory { addr, .. } => mbc.read(addr),
        }
    }

    /// Write through an operand.
    fn operand_write(&mut self, mbc: &mut Mbc, m: Operand, v: u8)
        requires
            old(mbc)@.wf(),
            op_writable(m),
        ensures
            final(mbc)@.wf(),
            (*final(self), final(mbc)@) == spec_operand_write(m, *old(self), old(mbc)@, v),
    {
        match m {
            Operand::Accumulator => {
                self.a = v;
            },
            Operand::Memory { addr, .. } => {
                mbc.write(addr, v);
            },
            _ => {},
        }
    }
}


/// Whether an operation stores through its operand.
pub open spec fn op_needs_write(t: OpType) -> bool {
    t == OpType::STA || t == OpType::STX || t == OpType::STY || t == OpType::ASL || t
        == OpType::LSR || t == OpType::ROL || t == OpType::ROR || t == OpType::INC || t
        == OpType::DEC
}

/// Whether operand resolution crossed a page.
pub open spec fn op_crossed(m: Operand) -> bool {
    match m {
        Operand::Memory { crossed, .. } => crossed,
        _ => false,
    }
}

/// The cycles one instruction costs: the tabulated base, the page-cross
/// extra for the indexed read modes, and the taken and page-change
/// extras for branches.
pub open spec fn spec_instr_cycles(c: Cpu, mm: MbcModel, opcode: u8) -> int {
    let d = spec_decode(opcode);
    let m = spec_resolve(d.mode, c, mm);
    d.cycles + (if d.page_cycle != 0 && op_crossed(m) {
        d.page_cycle as int
    } else {
        0int
    }) + (if is_branch(d.op) && spec_branch_cond(d.op, c.p) {
        let target = branch_target(c.pc, imm_of(m));
        let fall = (c.pc + 1) % 0x10000;
        1 + (if target / 256 != fall / 256 {
            1int
        } else {
            0int
        })
    } else {
        0int
    })
}

/// The machine after one decoded instruction, cycle counter included.
pub open spec fn spec_step(c: Cpu, mm: MbcModel, opcode: u8) -> (Cpu, MbcModel) {
    let d = spec_decode(opcode);
    let m = spec_resolve(d.mode, c, mm);
    let (c1, m1) = spec_apply_op(d.op, m, c, mm);
    (
        Cpu {
            cycle: vstd::wrapping::u64_specs::wrapping_add(
                c.cycle,
                spec_instr_cycles(c, mm, opcode) as u64,
            ),
            ..c1
        },
        m1,
    )
}

/// Whether an enabled NMI is waiting to be dispatched.
pub open spec fn nmi_pending(mm: MbcModel) -> bool {
    mm.ppu.control & crate::ppu::CTRL_ENABLE_NMI != 0 && mm.ppu.is_raise_nmi
}

/// What one CPU tick needs of the machine: when no NMI is dispatched,
/// the opcode fetch is side-effect-free, and (KIL aside) the operand
/// can be resolved and any store stays off the read-only PRG window.
pub open spec fn tick_ok(c: Cpu, mm: MbcModel) -> bool {
    nmi_pending(mm) || {
        let opcode = mbc_read_val(mm, c.pc);
        plain_addr(c.pc) && (spec_is_kil(opcode) || {
            let c1 = Cpu { pc: ((c.pc + 1) % 0x10000) as u16, ..c };
            let d = spec_decode(opcode);
            resolve_ok(d.mode, c1, mm) && (op_needs_write(d.op) ==> op_writable(
                spec_resolve(d.mode, c1, mm),
            ))
        })
    }
}

/// What one CPU step does: an NMI dispatch (7 cycles), a halt on a KIL
/// opcode, or one decoded instruction with its exact cycle cost.
#[verifier::opaque]
pub open spec fn cpu_tick_rel(
    c0: Cpu,
    m0: MbcModel,
    c1: Cpu,
    m1: MbcModel,
    r: Result<(), CpuError>,
) -> bool {
    if nmi_pending(m0) {
        let mm0 = MbcModel {
            ppu: crate::ppu::PpuModel { is_raise_nmi: false, ..m0.ppu },
            ..m0
        };
        let (cn, mn) = spec_nmi(c0, mm0);
        &&& r is Ok
        &&& c1 == Cpu { cycle: vstd::wrapping::u64_specs::wrapping_add(c0.cycle, 7), ..cn }
        &&& m1 == mn
    } else {
        let opcode = mbc_read_val(m0, c0.pc);
        if spec_is_kil(opcode) {
            &&& r == Result::<(), CpuError>::Err(CpuError::Kil { pc: c0.pc, opcode })
            &&& c1 == c0
            &&& m1 == m0
        } else {
            let ca = Cpu { pc: ((c0.pc + 1) % 0x10000) as u16, ..c0 };
            &&& r is Ok
            &&& (c1, m1) == spec_step(ca, m0, opcode)
        }
    }
}

/// A fatal CPU condition.
#[derive(Clone, Copy, Debug, PartialEq, Eq, Structural)]
pub enum CpuError {
    /// A KIL/JAM opcode was fetched; the machine would halt here.
    Kil { pc: u16, opcode: u8 },
}

impl Cpu {
    /// Push one byte onto the stack page.
    fn push(&mut self, mbc: &mut Mbc, data: u8)
        requires
            old(mbc)@.wf(),
        ensures
            final(mbc)@.wf(),
            (*final(self), final(mbc)@) == spec_push(*old(self), old(mbc)@, data),
    {
        let addr: u16 = 0x0100 + self.s as u16;
        mbc.write(addr, data);
        self.s = ((self.s as u16 + 255) % 256) as u8;
    }

    /// Push a 16-bit value, high byte first.
    fn push16(&mut self, mbc: &mut Mbc, data: u16)
        requires
            old(mbc)@.wf(),
        ensures
            final(mbc)@.wf(),
            (*final(self), final(mbc)@) == spec_push16(*old(self), old(mbc)@, data),
    {
        self.push(mbc, (data / 256) as u8);
        self.push(mbc, (data % 256) as u8);
    }

    /// Pop one byte from the stack page.
    fn pop(&mut self, mbc: &Mbc) -> (r: u8)
        requires
            mbc@.wf(),
        ensures
            *final(self) == spec_pop_cpu(*old(self)),
            r == spec_pop_val(*old(self), mbc@),
    {
        self.s = ((self.s as u16 + 1) % 256) as u8;
        mbc.peek(0x0100 + self.s as u16)
    }

    /// Pop a 16-bit value, low byte first.
    fn pop16(&mut self, mbc: &Mbc) -> (r: u16)
        requires
            mbc@.wf(),
        ensures
            *final(self) == spec_pop16_cpu(*old(self)),
            r == spec_pop16_val(*old(self), mbc@),
    {
        let low = self.pop(mbc) as u16;
        let high = self.pop(mbc) as u16;
        high * 256 + low
    }

    /// Dispatch an NMI: push the program counter and flags, set I, and
    /// jump through the `$FFFA` vector.
    fn do_irq(&mut self, mbc: &mut Mbc)
        requires
            old(mbc)@.wf(),
        ensures
            final(mbc)@.wf(),
            (*final(self), final(mbc)@) == spec_nmi(*old(self), old(mbc)@),
    {
        let pc = self.pc;
        self.push16(mbc, pc);
        let pb = (self.p & !FLAG_BRK) | FLAG_RSV;
        self.push(mbc, pb);
        self.set_flag(FLAG_IRQ, true);
        self.pc = mbc.peek16(0xFFFA);
    }

    /// The exec twin of `op_length`.
    fn operand_length(&self, m: Operand) -> (r: u16)
        ensures
            r == op_length(m),
    {
        match m {
            Operand::Implicit => 0,
            Operand::Accumulator => 0,
            Operand::Immediate { .. } => 1,
            Operand::Memory { length, .. } => length,
        }
    }

    /// The immediate byte of a branch operand.
    fn operand_imm(&self, m: Operand) -> (r: u8)
        ensures
            r == imm_of(m),
    {
        match m {
            Operand::Immediate { value } => value,
            _ => 0,
        }
    }

    /// The memory address an operand names.
    fn operand_addr(&self, m: Operand) -> (r: u16)
        ensures
            r == op_addr(m),
    {
        match m {
            Operand::Memory { addr, .. } => addr,
            _ => 0,
        }
    }

    /// BRK: software interrupt through `$FFFE`.
    fn brk(&mut self, mbc: &mut Mbc, m: Operand)
        requires
            old(mbc)@.wf(),
        ensures
            final(mbc)@.wf(),
            (*final(self), final(mbc)@) == spec_apply_op(OpType::BRK, m, *old(self), old(mbc)@),
    {
        let ret = ((self.pc as u32 + 1) % 0x10000) as u16;
        self.push16(mbc, ret);
        let pb = self.p | FLAG_BRK | FLAG_RSV;
        self.push(mbc, pb);
        self.set_flag(FLAG_IRQ, true);
        self.pc = mbc.peek16(0xFFFE);
    }

    /// NOP: move past the operand.
    fn nop(&mut self, mbc: &mut Mbc, m: Operand)
        requires
            old(mbc)@.wf(),
        ensures
            final(mbc)@.wf(),
            (*final(self), final(mbc)@) == spec_apply_op(OpType::NOP, m, *old(self), old(mbc)@),
    {
        let len = self.operand_length(m);
        self.advance(len);
    }

    /// CLC: clear carry.
    fn clc(&mut self, mbc: &mut Mbc, m: Operand)
        requires
            old(mbc)@.wf(),
        ensures
            final(mbc)@.wf(),
            (*final(self), final(mbc)@) == spec_apply_op(OpType::CLC, m, *old(self), old(mbc)@),
    {
        self.set_flag(FLAG_CRY, false);
        let len = self.operand_length(m);
        self.advance(len);
    }

    /// SEC: set carry.
    fn sec(&mut self, mbc: &mut Mbc, m: Operand)
        requires
            old(mbc)@.wf(),
        ensures
            final(mbc)@.wf(),
            (*final(self), final(mbc)@) == spec_apply_op(OpType::SEC, m, *old(self), old(mbc)@),
    {
        self.set_flag(FLAG_CRY, true);
        let len = self.operand_length(m);
        self.advance(len);
    }

    /// CLI: clear the interrupt-disable flag.
    fn cli(&mut self, mbc: &mut Mbc, m: Operand)
        requires
            old(mbc)@.wf(),
        ensures
            final(mbc)@.wf(),
            (*final(self), final(mbc)@) == spec_apply_op(OpType::CLI, m, *old(self), old(mbc)@),
    {
        self.set_flag(FLAG_IRQ, false);
        let len = self.operand_length(m);
        self.advance(len);
    }

    /// SEI: set the interrupt-disable flag.
    fn sei(&mut self, mbc: &mut Mbc, m: Operand)
        requires
            old(mbc)@.wf(),
        ensures
            final(mbc)@.wf(),
            (*final(self), final(mbc)@) == spec_apply_op(OpType::SEI, m, *old(self), old(mbc)@),
    {
        self.set_flag(FLAG_IRQ, true);
        let len = self.operand_length(m);
        self.advance(len);
    }

    /// CLV: clear overflow.
    fn clv(&mut self, mbc: &mut Mbc, m: Operand)
        requires
            old(mbc)@.wf(),
        ensures
            final(mbc)@.wf(),
            (*final(self), final(mbc)@) == spec_apply_op(OpType::CLV, m, *old(self), old(mbc)@),
    {
        self.set_flag(FLAG_OVF, false);
        let len = self.operand_length(m);
        self.advance(len);
    }

    /// CLD: clear the decimal flag.
    fn cld(&mut self, mbc: &mut Mbc, m: Operand)
        requires
            old(mbc)@.wf(),
        ensures
            final(mbc)@.wf(),
            (*final(self), final(mbc)@) == spec_apply_op(OpType::CLD, m, *old(self), old(mbc)@),
    {
        self.set_flag(FLAG_DEC, false);
        let len = self.operand_length(m);
        self.advance(len);
    }

    /// SED: set the decimal flag (arithmetic still ignores it).
    fn sed(&mut self, mbc: &mut Mbc, m: Operand)
        requires
            old(mbc)@.wf(),
        ensures
            final(mbc)@.wf(),
            (*final(self), final(mbc)@) == spec_apply_op(OpType::SED, m, *old(self), old(mbc)@),
    {
        self.set_flag(FLAG_DEC, true);
        let len = self.operand_length(m);
        self.advance(len);
    }

    /// JMP: jump to the operand address.
    fn jmp(&mut self, mbc: &mut Mbc, m: Operand)
        requires
            old(mbc)@.wf(),
        ensures
            final(mbc)@.wf(),
            (*final(self), final(mbc)@) == spec_apply_op(OpType::JMP, m, *old(self), old(mbc)@),
    {
        self.pc = self.operand_addr(m);
    }

    /// JSR: push the address of the instruction's last byte and jump.
    fn jsr(&mut self, mbc: &mut Mbc, m: Operand)
        requires
            old(mbc)@.wf(),
        ensures
            final(mbc)@.wf(),
            (*final(self), final(mbc)@) == spec_apply_op(OpType::JSR, m, *old(self), old(mbc)@),
    {
        let ret = ((self.pc as u32 + 1) % 0x10000) as u16;
        self.push16(mbc, ret);
        self.pc = self.operand_addr(m);
    }

    /// RTS: pop the return address and resume one byte past it.
    fn rts(&mut self, mbc: &mut Mbc, m: Operand)
        requires
            old(mbc)@.wf(),
        ensures
            final(mbc)@.wf(),
            (*final(self), final(mbc)@) == spec_apply_op(OpType::RTS, m, *old(self), old(mbc)@),
    {
        let ret = self.pop16(mbc);
        self.pc = ((ret as u32 + 1) % 0x10000) as u16;
    }

    /// RTI: pop the flags (B discarded, U forced), then the program
    /// counter.
    fn rti(&mut self, mbc: &mut Mbc, m: Operand)
        requires
            old(mbc)@.wf(),
        ensures
            final(mbc)@.wf(),
            (*final(self), final(mbc)@) == spec_apply_op(OpType::RTI, m, *old(self), old(mbc)@),
    {
        let v = self.pop(mbc);
        self.p = (v & !FLAG_BRK) | FLAG_RSV;
        let ret = self.pop16(mbc);
        self.pc = ret;
    }

    /// STA: store the accumulator.
    fn sta(&mut self, mbc: &mut Mbc, m: Operand)
        requires
            old(mbc)@.wf(),
            op_writable(m),
        ensures
            final(mbc)@.wf(),
            (*final(self), final(mbc)@) == spec_apply_op(OpType::STA, m, *old(self), old(mbc)@),
    {
        let a = self.a;
        self.operand_write(mbc, m, a);
        let len = self.operand_length(m);
        self.advance(len);
    }

    /// STX: store X.
    fn stx(&mut self, mbc: &mut Mbc, m: Operand)
        requires
            old(mbc)@.wf(),
            op_writable(m),
        ensures
            final(mbc)@.wf(),
            (*final(self), final(mbc)@) == spec_apply_op(OpType::STX, m, *old(self), old(mbc)@),
    {
        let x = self.x;
        self.operand_write(mbc, m, x);
        let len = self.operand_length(m);
        self.advance(len);
    }

    /// STY: store Y.
    fn sty(&mut self, mbc: &mut Mbc, m: Operand)
        requires
            old(mbc)@.wf(),
            op_writable(m),
        ensures
            final(mbc)@.wf(),
            (*final(self), final(mbc)@) == spec_apply_op(OpType::STY, m, *old(self), old(mbc)@),
    {
        let y = self.y;
        self.operand_write(mbc, m, y);
        let len = self.operand_length(m);
        self.advance(len);
    }

    /// LDA: load the accumulator; set N and Z.
    fn lda(&mut self, mbc: &mut Mbc, m: Operand)
        requires
            old(mbc)@.wf(),
        ensures
            final(mbc)@.wf(),
            (*final(self), final(mbc)@) == spec_apply_op(OpType::LDA, m, *old(self), old(mbc)@),
    {
        let v = self.operand_read(mbc, m);
        self.a = v;
        self.set_nz(v);
        let len = self.operand_length(m);
        self.advance(len);
    }

    /// LDX: load X; set N and Z.
    fn ldx(&mut self, mbc: &mut Mbc, m: Operand)
        requires
            old(mbc)@.wf(),
        ensures
            final(mbc)@.wf(),
            (*final(self), final(mbc)@) == spec_apply_op(OpType::LDX, m, *old(self), old(mbc)@),
    {
        let v = self.operand_read(mbc, m);
        self.x = v;
        self.set_nz(v);
        let len = self.operand_length(m);
        self.advance(len);
    }

    /// LDY: load Y; set N and Z.
    fn ldy(&mut self, mbc: &mut Mbc, m: Operand)
        requires
            old(mbc)@.wf(),
        ensures
            final(mbc)@.wf(),
            (*final(self), final(mbc)@) == spec_apply_op(OpType::LDY, m, *old(self), old(mbc)@),
    {
        let v = self.operand_read(mbc, m);
        self.y = v;
        self.set_nz(v);
        let len = self.operand_length(m);
        self.advance(len);
    }

    /// TAX: copy A to X; set N and Z.
    fn tax(&mut self, mbc: &mut Mbc, m: Operand)
        requires
            old(mbc)@.wf(),
        ensures
            final(mbc)@.wf(),
            (*final(self), final(mbc)@) == spec_apply_op(OpType::TAX, m, *old(self), old(mbc)@),
    {
        let v = self.a;
        self.x = v;
        self.set_nz(v);
        let len = self.operand_length(m);
        self.advance(len);
    }

    /// TAY: copy A to Y; set N and Z.
    fn tay(&mut self, mbc: &mut Mbc, m: Operand)
        requires
            old(mbc)@.wf(),
        ensures
            final(mbc)@.wf(),
            (*final(self), final(mbc)@) == spec_apply_op(OpType::TAY, m, *old(self), old(mbc)@),
    {
        let v = self.a;
        self.y = v;
        self.set_nz(v);
        let len = self.operand_length(m);
        self.advance(len);
    }

    /// TSX: copy S to X; set N and Z.
    fn tsx(&mut self, mbc: &mut Mbc, m: Operand)
        requires
            old(mbc)@.wf(),
        ensures
            final(mbc)@.wf(),
            (*final(self), final(mbc)@) == spec_apply_op(OpType::TSX, m, *old(self), old(mbc)@),
    {
        let v = self.s;
        self.x = v;
        self.set_nz(v);
        let len = self.operand_length(m);
        self.advance(len);
    }

    /// TXA: copy X to A; set N and Z.
    fn txa(&mut self, mbc: &mut Mbc, m: Operand)
        requires
            old(mbc)@.wf(),
        ensures
            final(mbc)@.wf(),
            (*final(self), final(mbc)@) == spec_apply_op(OpType::TXA, m, *old(self), old(mbc)@),
    {
        let v = self.x;
        self.a = v;
        self.set_nz(v);
        let len = self.operand_length(m);
        self.advance(len);
    }

    /// TXS: copy X to S; no flags.
    fn txs(&mut self, mbc: &mut Mbc, m: Operand)
        requires
            old(mbc)@.wf(),
        ensures
            final(mbc)@.wf(),
            (*final(self), final(mbc)@) == spec_apply_op(OpType::TXS, m, *old(self), old(mbc)@),
    {
        self.s = self.x;
        let len = self.operand_length(m);
        self.advance(len);
    }

    /// TYA: copy Y to A; set N and Z.
    fn tya(&mut self, mbc: &mut Mbc, m: Operand)
        requires
            old(mbc)@.wf(),
        ensures
            final(mbc)@.wf(),
            (*final(self), final(mbc)@) == spec_apply_op(OpType::TYA, m, *old(self), old(mbc)@),
    {
        let v = self.y;
        self.a = v;
        self.set_nz(v);
        let len = self.operand_length(m);
        self.advance(len);
    }

    /// ADC: add with carry; set N, Z, C, V.
    fn adc(&mut self, mbc: &mut Mbc, m: Operand)
        requires
            old(mbc)@.wf(),
        ensures
            final(mbc)@.wf(),
            (*final(self), final(mbc)@) == spec_apply_op(OpType::ADC, m, *old(self), old(mbc)@),
    {
        let v = self.operand_read(mbc, m);
        self.adc_core(v);
        let len = self.operand_length(m);
        self.advance(len);
    }

    /// The arithmetic of ADC, on a value already read.
    #[verifier::rlimit(100)]
    fn adc_core(&mut self, v: u8)
        ensures
            *final(self) == spec_adc(*old(self), v),
    {
        let cin: u16 = if self.get_flag(FLAG_CRY) {
            1
        } else {
            0
        };
        let sum: u16 = self.a as u16 + v as u16 + cin;
        let r: u8 = (sum % 256) as u8;
        let a_old = self.a;
        self.a = r;
        self.set_nz(r);
        self.set_flag(FLAG_CRY, sum > 255);
        self.set_flag(FLAG_OVF, (a_old ^ v) & 0x80 == 0 && (a_old ^ r) & 0x80 == 0x80);
    }

    /// SBC: subtract with borrow; set N, Z, C, V.
    fn sbc(&mut self, mbc: &mut Mbc, m: Operand)
        requires
            old(mbc)@.wf(),
        ensures
            final(mbc)@.wf(),
            (*final(self), final(mbc)@) == spec_apply_op(OpType::SBC, m, *old(self), old(mbc)@),
    {
        let v = self.operand_read(mbc, m);
        self.sbc_core(v);
        let len = self.operand_length(m);
        self.advance(len);
    }

    /// The arithmetic of SBC, on a value already read.
    #[verifier::rlimit(100)]
    fn sbc_core(&mut self, v: u8)
        ensures
            *final(self) == spec_sbc(*old(self), v),
    {
        let bin: u16 = if self.get_flag(FLAG_CRY) {
            0
        } else {
            1
        };
        let diff_n: u16 = (256 + self.a as u16) - v as u16 - bin;
        let r: u8 = (diff_n % 256) as u8;
        proof {
            vstd::arithmetic::div_mod::lemma_mod_multiples_vanish(1, old(self).a - v - (if flag_set(old(self).p, FLAG_CRY) { 0int } else { 1int }), 256);
        }
        let a_old = self.a;
        self.a = r;
        self.set_nz(r);
        self.set_flag(FLAG_CRY, diff_n >= 256);
        self.set_flag(FLAG_OVF, (a_old ^ v) & 0x80 != 0 && (a_old ^ r) & 0x80 == 0x80);
    }

    /// AND: bitwise and into A; set N and Z.
    fn and(&mut self, mbc: &mut Mbc, m: Operand)
        requires
            old(mbc)@.wf(),
        ensures
            final(mbc)@.wf(),
            (*final(self), final(mbc)@) == spec_apply_op(OpType::AND, m, *old(self), old(mbc)@),
    {
        let v = self.operand_read(mbc, m);
        let r = self.a & v;
        self.a = r;
        self.set_nz(r);
        let len = self.operand_length(m);
        self.advance(len);
    }

    /// ORA: bitwise or into A; set N and Z.
    fn ora(&mut self, mbc: &mut Mbc, m: Operand)
        requires
            old(mbc)@.wf(),
        ensures
            final(mbc)@.wf(),
            (*final(self), final(mbc)@) == spec_apply_op(OpType::ORA, m, *old(self), old(mbc)@),
    {
        let v = self.operand_read(mbc, m);
        let r = self.a | v;
        self.a = r;
        self.set_nz(r);
        let len = self.operand_length(m);
        self.advance(len);
    }

    /// EOR: bitwise exclusive-or into A; set N and Z.
    fn eor(&mut self, mbc: &mut Mbc, m: Operand)
        requires
            old(mbc)@.wf(),
        ensures
            final(mbc)@.wf(),
            (*final(self), final(mbc)@) == spec_apply_op(OpType::EOR, m, *old(self), old(mbc)@),
    {
        let v = self.operand_read(mbc, m);
        let r = self.a ^ v;
        self.a = r;
        self.set_nz(r);
        let len = self.operand_length(m);
        self.advance(len);
    }

    /// BIT: test A against the operand; Z from the and, N and V copied
    /// from the operand's top bits.
    fn bit(&mut self, mbc: &mut Mbc, m: Operand)
        requires
            old(mbc)@.wf(),
        ensures
            final(mbc)@.wf(),
            (*final(self), final(mbc)@) == spec_apply_op(OpType::BIT, m, *old(self), old(mbc)@),
    {
        let v = self.operand_read(mbc, m);
        let z = self.a & v == 0;
        self.set_flag(FLAG_ZER, z);
        self.set_negative_flag(v);
        self.set_flag(FLAG_OVF, v & 0x40 != 0);
        let len = self.operand_length(m);
        self.advance(len);
    }

    /// CMP: compare A with the operand.
    fn cmp(&mut self, mbc: &mut Mbc, m: Operand)
        requires
            old(mbc)@.wf(),
        ensures
            final(mbc)@.wf(),
            (*final(self), final(mbc)@) == spec_apply_op(OpType::CMP, m, *old(self), old(mbc)@),
    {
        let v = self.operand_read(mbc, m);
        let reg = self.a;
        self.compare(reg, v);
        let len = self.operand_length(m);
        self.advance(len);
    }

    /// CPX: compare X with the operand.
    fn cpx(&mut self, mbc: &mut Mbc, m: Operand)
        requires
            old(mbc)@.wf(),
        ensures
            final(mbc)@.wf(),
            (*final(self), final(mbc)@) == spec_apply_op(OpType::CPX, m, *old(self), old(mbc)@),
    {
        let v = self.operand_read(mbc, m);
        let reg = self.x;
        self.compare(reg, v);
        let len = self.operand_length(m);
        self.advance(len);
    }

    /// CPY: compare Y with the operand.
    fn cpy(&mut self, mbc: &mut Mbc, m: Operand)
        requires
            old(mbc)@.wf(),
        ensures
            final(mbc)@.wf(),
            (*final(self), final(mbc)@) == spec_apply_op(OpType::CPY, m, *old(self), old(mbc)@),
    {
        let v = self.operand_read(mbc, m);
        let reg = self.y;
        self.compare(reg, v);
        let len = self.operand_length(m);
        self.advance(len);
    }

    /// The shared compare: C when the register is not below the value,
    /// N and Z from the difference byte.
    fn compare(&mut self, reg: u8, v: u8)
        ensures
            *final(self) == spec_compare(*old(self), reg, v),
    {
        let diff_n: u16 = (256 + reg as u16) - v as u16;
        let r: u8 = (diff_n % 256) as u8;
        self.set_flag(FLAG_CRY, reg >= v);
        self.set_nz(r);
    }

    /// ASL: arithmetic shift left; C takes bit 7.
    fn asl(&mut self, mbc: &mut Mbc, m: Operand)
        requires
            old(mbc)@.wf(),
            op_writable(m),
        ensures
            final(mbc)@.wf(),
            (*final(self), final(mbc)@) == spec_apply_op(OpType::ASL, m, *old(self), old(mbc)@),
    {
        let v = self.operand_read(mbc, m);
        let r = v << 1u8;
        self.set_flag(FLAG_CRY, v & 0x80 != 0);
        self.set_nz(r);
        self.operand_write(mbc, m, r);
        let len = self.operand_length(m);
        self.advance(len);
    }

    /// LSR: logical shift right; C takes bit 0.
    fn lsr(&mut self, mbc: &mut Mbc, m: Operand)
        requires
            old(mbc)@.wf(),
            op_writable(m),
        ensures
            final(mbc)@.wf(),
            (*final(self), final(mbc)@) == spec_apply_op(OpType::LSR, m, *old(self), old(mbc)@),
    {
        let v = self.operand_read(mbc, m);
        let r = v >> 1u8;
        self.set_flag(FLAG_CRY, v & 0x01 != 0);
        self.set_nz(r);
        self.operand_write(mbc, m, r);
        let len = self.operand_length(m);
        self.advance(len);
    }

    /// ROL: rotate left through the carry.
    fn rol(&mut self, mbc: &mut Mbc, m: Operand)
        requires
            old(mbc)@.wf(),
            op_writable(m),
        ensures
            final(mbc)@.wf(),
            (*final(self), final(mbc)@) == spec_apply_op(OpType::ROL, m, *old(self), old(mbc)@),
    {
        let v = self.operand_read(mbc, m);
        let cin: u8 = if self.get_flag(FLAG_CRY) {
            1
        } else {
            0
        };
        let r = (v << 1u8) | cin;
        self.set_flag(FLAG_CRY, v & 0x80 != 0);
        self.set_nz(r);
        self.operand_write(mbc, m, r);
        let len = self.operand_length(m);
        self.advance(len);
    }

    /// ROR: rotate right through the carry.
    fn ror(&mut self, mbc: &mut Mbc, m: Operand)
        requires
            old(mbc)@.wf(),
            op_writable(m),
        ensures
            final(mbc)@.wf(),
            (*final(self), final(mbc)@) == spec_apply_op(OpType::ROR, m, *old(self), old(mbc)@),
    {
        let v = self.operand_read(mbc, m);
        let cin: u8 = if self.get_flag(FLAG_CRY) {
            0x80
        } else {
            0
        };
        let r = (v >> 1u8) | cin;
        self.set_flag(FLAG_CRY, v & 0x01 != 0);
        self.set_nz(r);
        self.operand_write(mbc, m, r);
        let len = self.operand_length(m);
        self.advance(len);
    }

    /// INC: increment the operand in place; set N and Z.
    fn inc(&mut self, mbc: &mut Mbc, m: Operand)
        requires
            old(mbc)@.wf(),
            op_writable(m),
        ensures
            final(mbc)@.wf(),
            (*final(self), final(mbc)@) == spec_apply_op(OpType::INC, m, *old(self), old(mbc)@),
    {
        let v = self.operand_read(mbc, m);
        let r: u8 = ((v as u16 + 1) % 256) as u8;
        self.set_nz(r);
        self.operand_write(mbc, m, r);
        let len = self.operand_length(m);
        self.advance(len);
    }

    /// DEC: decrement the operand in place; set N and Z.
    fn dec(&mut self, mbc: &mut Mbc, m: Operand)
        requires
            old(mbc)@.wf(),
            op_writable(m),
        ensures
            final(mbc)@.wf(),
            (*final(self), final(mbc)@) == spec_apply_op(OpType::DEC, m, *old(self), old(mbc)@),
    {
        let v = self.operand_read(mbc, m);
        let r: u8 = ((v as u16 + 255) % 256) as u8;
        self.set_nz(r);
        self.operand_write(mbc, m, r);
        let len = self.operand_length(m);
        self.advance(len);
    }

    /// INX: increment X; set N and Z.
    fn inx(&mut self, mbc: &mut Mbc, m: Operand)
        requires
            old(mbc)@.wf(),
        ensures
            final(mbc)@.wf(),
            (*final(self), final(mbc)@) == spec_apply_op(OpType::INX, m, *old(self), old(mbc)@),
    {
        let r: u8 = ((self.x as u16 + 1) % 256) as u8;
        self.x = r;
        self.set_nz(r);
        let len = self.operand_length(m);
        self.advance(len);
    }

    /// INY: increment Y; set N and Z.
    fn iny(&mut self, mbc: &mut Mbc, m: Operand)
        requires
            old(mbc)@.wf(),
        ensures
            final(mbc)@.wf(),
            (*final(self), final(mbc)@) == spec_apply_op(OpType::INY, m, *old(self), old(mbc)@),
    {
        let r: u8 = ((self.y as u16 + 1) % 256) as u8;
        self.y = r;
        self.set_nz(r);
        let len = self.operand_length(m);
        self.advance(len);
    }

    /// DEX: decrement X; set N and Z.
    fn dex(&mut self, mbc: &mut Mbc, m: Operand)
        requires
            old(mbc)@.wf(),
        ensures
            final(mbc)@.wf(),
            (*final(self), final(mbc)@) == spec_apply_op(OpType::DEX, m, *old(self), old(mbc)@),
    {
        let r: u8 = ((self.x as u16 + 255) % 256) as u8;
        self.x = r;
        self.set_nz(r);
        let len = self.operand_length(m);
        self.advance(len);
    }

    /// DEY: decrement Y; set N and Z.
    fn dey(&mut self, mbc: &mut Mbc, m: Operand)
        requires
            old(mbc)@.wf(),
        ensures
            final(mbc)@.wf(),
            (*final(self), final(mbc)@) == spec_apply_op(OpType::DEY, m, *old(self), old(mbc)@),
    {
        let r: u8 = ((self.y as u16 + 255) % 256) as u8;
        self.y = r;
        self.set_nz(r);
        let len = self.operand_length(m);
        self.advance(len);
    }

    /// PHA: push the accumulator; no flags.
    fn pha(&mut self, mbc: &mut Mbc, m: Operand)
        requires
            old(mbc)@.wf(),
        ensures
            final(mbc)@.wf(),
            (*final(self), final(mbc)@) == spec_apply_op(OpType::PHA, m, *old(self), old(mbc)@),
    {
        let a = self.a;
        self.push(mbc, a);
        let len = self.operand_length(m);
        self.advance(len);
    }

    /// PHP: push the flag byte with B and U forced to 1.
    fn php(&mut self, mbc: &mut Mbc, m: Operand)
        requires
            old(mbc)@.wf(),
        ensures
            final(mbc)@.wf(),
            (*final(self), final(mbc)@) == spec_apply_op(OpType::PHP, m, *old(self), old(mbc)@),
    {
        let pb = self.p | FLAG_BRK | FLAG_RSV;
        self.push(mbc, pb);
        let len = self.operand_length(m);
        self.advance(len);
    }

    /// PLA: pop into the accumulator; set N and Z.
    fn pla(&mut self, mbc: &mut Mbc, m: Operand)
        requires
            old(mbc)@.wf(),
        ensures
            final(mbc)@.wf(),
            (*final(self), final(mbc)@) == spec_apply_op(OpType::PLA, m, *old(self), old(mbc)@),
    {
        let r = self.pop(mbc);
        self.a = r;
        self.set_nz(r);
        let len = self.operand_length(m);
        self.advance(len);
    }

    /// PLP: pop into the flag byte, discarding the stored B and forcing
    /// U.
    fn plp(&mut self, mbc: &mut Mbc, m: Operand)
        requires
            old(mbc)@.wf(),
        ensures
            final(mbc)@.wf(),
            (*final(self), final(mbc)@) == spec_apply_op(OpType::PLP, m, *old(self), old(mbc)@),
    {
        let v = self.pop(mbc);
        self.p = (v & !FLAG_BRK) | FLAG_RSV;
        let len = self.operand_length(m);
        self.advance(len);
    }

    /// The shared branch step; returns whether the branch was taken.
    fn do_branch(&mut self, cond: bool, m: Operand) -> (taken: bool)
        ensures
            *final(self) == spec_branch(*old(self), cond, imm_of(m)),
            taken == cond,
    {
        if cond {
            let off = self.operand_imm(m);
            let bias: u32 = if off >= 0x80 {
                0xFF00
            } else {
                0
            };
            self.pc = ((self.pc as u32 + 1 + off as u32 + bias) % 0x10000) as u16;
            proof {
                let c = *old(self);
                let offi = imm_of(m);
                let delta: int = if offi >= 0x80 {
                    offi - 256
                } else {
                    offi as int
                };
                vstd::arithmetic::div_mod::lemma_mod_multiples_vanish(
                    1,
                    c.pc + 1 + delta,
                    0x10000,
                );
            }
            true
        } else {
            self.advance(1);
            false
        }
    }

    /// BCC: branch when carry is clear.
    fn bcc(&mut self, mbc: &mut Mbc, m: Operand) -> (taken: bool)
        requires
            old(mbc)@.wf(),
        ensures
            final(mbc)@.wf(),
            (*final(self), final(mbc)@) == spec_apply_op(OpType::BCC, m, *old(self), old(mbc)@),
            taken == spec_branch_cond(OpType::BCC, old(self).p),
    {
        let cond = !self.get_flag(FLAG_CRY);
        self.do_branch(cond, m)
    }

    /// BCS: branch when carry is set.
    fn bcs(&mut self, mbc: &mut Mbc, m: Operand) -> (taken: bool)
        requires
            old(mbc)@.wf(),
        ensures
            final(mbc)@.wf(),
            (*final(self), final(mbc)@) == spec_apply_op(OpType::BCS, m, *old(self), old(mbc)@),
            taken == spec_branch_cond(OpType::BCS, old(self).p),
    {
        let cond = self.get_flag(FLAG_CRY);
        self.do_branch(cond, m)
    }

    /// BEQ: branch when the zero flag is set.
    fn beq(&mut self, mbc: &mut Mbc, m: Operand) -> (taken: bool)
        requires
            old(mbc)@.wf(),
        ensures
            final(mbc)@.wf(),
            (*final(self), final(mbc)@) == spec_apply_op(OpType::BEQ, m, *old(self), old(mbc)@),
            taken == spec_branch_cond(OpType::BEQ, old(self).p),
    {
        let cond = self.get_flag(FLAG_ZER);
        self.do_branch(cond, m)
    }

    /// BMI: branch when negative.
    fn bmi(&mut self, mbc: &mut Mbc, m: Operand) -> (taken: bool)
        requires
            old(mbc)@.wf(),
        ensures
            final(mbc)@.wf(),
            (*final(self), final(mbc)@) == spec_apply_op(OpType::BMI, m, *old(self), old(mbc)@),
            taken == spec_branch_cond(OpType::BMI, old(self).p),
    {
        let cond = self.get_flag(FLAG_NEG);
        self.do_branch(cond, m)
    }

    /// BNE: branch when the zero flag is clear.
    fn bne(&mut self, mbc: &mut Mbc, m: Operand) -> (taken: bool)
        requires
            old(mbc)@.wf(),
        ensures
            final(mbc)@.wf(),
            (*final(self), final(mbc)@) == spec_apply_op(OpType::BNE, m, *old(self), old(mbc)@),
            taken == spec_branch_cond(OpType::BNE, old(self).p),
    {
        let cond = !self.get_flag(FLAG_ZER);
        self.do_branch(cond, m)
    }

    /// BPL: branch when not negative.
    fn bpl(&mut self, mbc: &mut Mbc, m: Operand) -> (taken: bool)
        requires
            old(mbc)@.wf(),
        ensures
            final(mbc)@.wf(),
            (*final(self), final(mbc)@) == spec_apply_op(OpType::BPL, m, *old(self), old(mbc)@),
            taken == spec_branch_cond(OpType::BPL, old(self).p),
    {
        let cond = !self.get_flag(FLAG_NEG);
        self.do_branch(cond, m)
    }

    /// BVC: branch when overflow is clear.
    fn bvc(&mut self, mbc: &mut Mbc, m: Operand) -> (taken: bool)
        requires
            old(mbc)@.wf(),
        ensures
            final(mbc)@.wf(),
            (*final(self), final(mbc)@) == spec_apply_op(OpType::BVC, m, *old(self), old(mbc)@),
            taken == spec_branch_cond(OpType::BVC, old(self).p),
    {
        let cond = !self.get_flag(FLAG_OVF);
        self.do_branch(cond, m)
    }

    /// BVS: branch when overflow is set.
    fn bvs(&mut self, mbc: &mut Mbc, m: Operand) -> (taken: bool)
        requires
            old(mbc)@.wf(),
        ensures
            final(mbc)@.wf(),
            (*final(self), final(mbc)@) == spec_apply_op(OpType::BVS, m, *old(self), old(mbc)@),
            taken == spec_branch_cond(OpType::BVS, old(self).p),
    {
        let cond = self.get_flag(FLAG_OVF);
        self.do_branch(cond, m)
    }

    /// Run one decoded operation; returns whether a branch was taken.
    fn execute(&mut self, mbc: &mut Mbc, t: OpType, m: Operand) -> (taken: bool)
        requires
            old(mbc)@.wf(),
            op_needs_write(t) ==> op_writable(m),
        ensures
            final(mbc)@.wf(),
            (*final(self), final(mbc)@) == spec_apply_op(t, m, *old(self), old(mbc)@),
            is_branch(t) ==> taken == spec_branch_cond(t, old(self).p),
            final(mbc)@.ppu.cycle == old(mbc)@.ppu.cycle,
    {
        match t {
            OpType::ADC => { self.adc(mbc, m); true },
            OpType::AND => { self.and(mbc, m); true },
            OpType::ASL => { self.asl(mbc, m); true },
            OpType::BCC => self.bcc(mbc, m),
            OpType::BCS => self.bcs(mbc, m),
            OpType::BEQ => self.beq(mbc, m),
            OpType::BIT => { self.bit(mbc, m); true },
            OpType::BMI => self.bmi(mbc, m),
            OpType::BNE => self.bne(mbc, m),
            OpType::BPL => self.bpl(mbc, m),
            OpType::BRK => { self.brk(mbc, m); true },
            OpType::BVC => self.bvc(mbc, m),
            OpType::BVS => self.bvs(mbc, m),
            OpType::CLC => { self.clc(mbc, m); true },
            OpType::CLD => { self.cld(mbc, m); true },
            OpType::CLI => { self.cli(mbc, m); true },
            OpType::CLV => { self.clv(mbc, m); true },
            OpType::CMP => { self.cmp(mbc, m); true },
            OpType::CPX => { self.cpx(mbc, m); true },
            OpType::CPY => { self.cpy(mbc, m); true },
            OpType::DEC => { self.dec(mbc, m); true },
            OpType::DEX => { self.dex(mbc, m); true },
            OpType::DEY => { self.dey(mbc, m); true },
            OpType::EOR => { self.eor(mbc, m); true },
            OpType::INC => { self.inc(mbc, m); true },
            OpType::INX => { self.inx(mbc, m); true },
            OpType::INY => { self.iny(mbc, m); true },
            OpType::JMP => { self.jmp(mbc, m); true },
            OpType::JSR => { self.jsr(mbc, m); true },
            OpType::LDA => { self.lda(mbc, m); true },
            OpType::LDX => { self.ldx(mbc, m); true },
            OpType::LDY => { self.ldy(mbc, m); true },
            OpType::LSR => { self.lsr(mbc, m); true },
            OpType::NOP => { self.nop(mbc, m); true },
            OpType::ORA => { self.ora(mbc, m); true },
            OpType::PHA => { self.pha(mbc, m); true },
            OpType::PHP => { self.php(mbc, m); true },
            OpType::PLA => { self.pla(mbc, m); true },
            OpType::PLP => { self.plp(mbc, m); true },
            OpType::ROL => { self.rol(mbc, m); true },
            OpType::ROR => { self.ror(mbc, m); true },
            OpType::RTI => { self.rti(mbc, m); true },
            OpType::RTS => { self.rts(mbc, m); true },
            OpType::SBC => { self.sbc(mbc, m); true },
            OpType::SEC => { self.sec(mbc, m); true },
            OpType::SED => { self.sed(mbc, m); true },
            OpType::SEI => { self.sei(mbc, m); true },
            OpType::STA => { self.sta(mbc, m); true },
            OpType::STX => { self.stx(mbc, m); true },
            OpType::STY => { self.sty(mbc, m); true },
            OpType::TAX => { self.tax(mbc, m); true },
            OpType::TAY => { self.tay(mbc, m); true },
            OpType::TSX => { self.tsx(mbc, m); true },
            OpType::TXA => { self.txa(mbc, m); true },
            OpType::TXS => { self.txs(mbc, m); true },
            OpType::TYA => { self.tya(mbc, m); true },
        }
    }

    /// Decode and run one instruction whose opcode has already been
    /// fetched, charging its tabulated cycles plus the page-cross and
    /// branch extras.
    #[verifier::rlimit(100)]
    pub fn process_opcode(&mut self, mbc: &mut Mbc, opcode: u8)
        requires
            old(mbc)@.wf(),
            resolve_ok(spec_decode(opcode).mode, *old(self), old(mbc)@),
            op_needs_write(spec_decode(opcode).op) ==> op_writable(
                spec_resolve(spec_decode(opcode).mode, *old(self), old(mbc)@),
            ),
        ensures
            final(mbc)@.wf(),
            (*final(self), final(mbc)@) == spec_step(*old(self), old(mbc)@, opcode),
            final(mbc)@.ppu.cycle == old(mbc)@.ppu.cycle,
    {
        let d = decode(opcode);
        let m = self.resolve(mbc, d.mode);
        let fall: u16 = ((self.pc as u32 + 1) % 0x10000) as u16;
        let mut cost: u64 = d.cycles as u64;
        if d.page_cycle != 0 && self.operand_crossed(m) {
            cost = cost + d.page_cycle as u64;
        }
        let taken = self.execute(mbc, d.op, m);
        if self.op_is_branch(d.op) && taken {
            cost = cost + (if self.pc / 256 != fall / 256 {
                2
            } else {
                1
            });
        }
        self.cycle = self.cycle.wrapping_add(cost);
    }

    /// The exec twin of `op_crossed`.
    fn operand_crossed(&self, m: Operand) -> (r: bool)
        ensures
            r == op_crossed(m),
    {
        match m {
            Operand::Memory { crossed, .. } => crossed,
            _ => false,
        }
    }

    /// The exec twin of `is_branch`.
    fn op_is_branch(&self, t: OpType) -> (r: bool)
        ensures
            r == is_branch(t),
    {
        match t {
            OpType::BCC => true,
            OpType::BCS => true,
            OpType::BEQ => true,
            OpType::BMI => true,
            OpType::BNE => true,
            OpType::BPL => true,
            OpType::BVC => true,
            OpType::BVS => true,
            _ => false,
        }
    }

    /// Execute one step: dispatch a pending enabled NMI (7 cycles), or
    /// fetch and run one instruction, charging exactly its tabulated
    /// base cost plus the documented page-cross and branch extras. A
    /// KIL/JAM opcode halts with an error and changes nothing.
    pub fn tick(&mut self, mbc: &mut Mbc) -> (r: Result<(), CpuError>)
        requires
            old(mbc)@.wf(),
            tick_ok(*old(self), old(mbc)@),
        ensures
            final(mbc)@.wf(),
            cpu_tick_rel(*old(self), old(mbc)@, *final(self), final(mbc)@, r),
            final(mbc)@.ppu.cycle == old(mbc)@.ppu.cycle,
            !nmi_pending(old(mbc)@) && !spec_is_kil(mbc_read_val(old(mbc)@, old(self).pc))
                ==> final(self).cycle == vstd::wrapping::u64_specs::wrapping_add(
                old(self).cycle,
                spec_instr_cycles(
                    Cpu { pc: ((old(self).pc + 1) % 0x10000) as u16, ..*old(self) },
                    old(mbc)@,
                    mbc_read_val(old(mbc)@, old(self).pc),
                ) as u64,
            ),
    {
        proof {
            reveal(cpu_tick_rel);
        }
        let nmi = mbc.is_raise_nmi();
        if nmi {
            self.do_irq(mbc);
            self.cycle = self.cycle.wrapping_add(7);
            return Ok(());
        }
        proof {
            assert(mbc@ =~= old(mbc)@);
        }
        let opcode = mbc.peek(self.pc);
        if is_kil(opcode) {
            return Err(CpuError::Kil { pc: self.pc, opcode });
        }
        self.pc = ((self.pc as u32 + 1) % 0x10000) as u16;
        self.process_opcode(mbc, opcode);
        Ok(())
    }
}


/// Every decode-table entry costs at most 8 base cycles with at most
/// one page-cross extra cycle.
pub proof fn lemma_decode_bounds(op: u8)
    ensures
        spec_decode(op).cycles <= 8,
        spec_decode(op).page_cycle <= 1,
{
    reveal(spec_decode);
}

/// One instruction costs at most 11 cycles: the tabulated base, the
/// page-cross extra, and the branch extras.
pub proof fn lemma_instr_cycles_bound(c: Cpu, mm: MbcModel, opcode: u8)
    ensures
        0 <= spec_instr_cycles(c, mm, opcode) <= 11,
{
    lemma_decode_bounds(opcode);
}

/// One CPU step never moves the cycle counter backwards, and adds at
/// most 11 cycles, as long as the counter is far from wrapping.
pub proof fn lemma_tick_rel_cycle_bound(
    c0: Cpu,
    m0: MbcModel,
    c1: Cpu,
    m1: MbcModel,
    r: Result<(), CpuError>,
)
    requires
        cpu_tick_rel(c0, m0, c1, m1, r),
        c0.cycle + 11 <= u64::MAX,
    ensures
        c0.cycle <= c1.cycle <= c0.cycle + 11,
{
    reveal(cpu_tick_rel);
    if !nmi_pending(m0) {
        let opcode = mbc_read_val(m0, c0.pc);
        if !spec_is_kil(opcode) {
            let ca = Cpu { pc: ((c0.pc + 1) % 0x10000) as u16, ..c0 };
            lemma_instr_cycles_bound(ca, m0, opcode);
        }
    }
}

/// PHP then PLP restores every flag except B, which ends up clear (with
/// U forced to 1); and the B bit never influences a branch condition.
#[verifier::rlimit(100)]
pub proof fn lemma_php_plp_round_trip(c: Cpu, mm: MbcModel)
    requires
        mm.ram.len() == 0x800,
    ensures
        ({
            let (c1, m1) = spec_apply_op(OpType::PHP, Operand::Implicit, c, mm);
            let (c2, m2) = spec_apply_op(OpType::PLP, Operand::Implicit, c1, m1);
            &&& c2.p == spec_plp_byte(spec_php_byte(c.p))
            &&& c2.p & FLAG_CRY == c.p & FLAG_CRY
            &&& c2.p & FLAG_ZER == c.p & FLAG_ZER
            &&& c2.p & FLAG_IRQ == c.p & FLAG_IRQ
            &&& c2.p & FLAG_DEC == c.p & FLAG_DEC
            &&& c2.p & FLAG_OVF == c.p & FLAG_OVF
            &&& c2.p & FLAG_NEG == c.p & FLAG_NEG
            &&& c2.p & FLAG_BRK == 0
            &&& c2.s == c.s
            &&& c2.a == c.a
        }),
        forall|t: OpType| #[trigger] spec_branch_cond(t, c.p | FLAG_BRK) == spec_branch_cond(t, c.p),
{
    let (c1, m1) = spec_apply_op(OpType::PHP, Operand::Implicit, c, mm);
    let addr: u16 = (0x100 + c.s) as u16;
    assert(mbc_read_val(m1, (0x100 + s_inc(s_dec(c.s))) as u16) == spec_php_byte(c.p)) by {
        assert(s_inc(s_dec(c.s)) == c.s);
        assert((addr % 0x800) < 0x800);
    }
    let v = spec_php_byte(c.p);
    let p = c.p;
    assert((((v & !0x10) | 0x20) == ((p | 0x10 | 0x20) & !0x10) | 0x20) && (((p | 0x10 | 0x20)
        & !0x10) | 0x20) & 0x01 == p & 0x01 && (((p | 0x10 | 0x20) & !0x10) | 0x20) & 0x02 == p
        & 0x02 && (((p | 0x10 | 0x20) & !0x10) | 0x20) & 0x04 == p & 0x04 && (((p | 0x10 | 0x20)
        & !0x10) | 0x20) & 0x08 == p & 0x08 && (((p | 0x10 | 0x20) & !0x10) | 0x20) & 0x40 == p
        & 0x40 && (((p | 0x10 | 0x20) & !0x10) | 0x20) & 0x80 == p & 0x80 && (((p | 0x10 | 0x20)
        & !0x10) | 0x20) & 0x10 == 0) by (bit_vector)
        requires
            v == (p | 0x10 | 0x20),
    ;
    assert forall|t: OpType| #[trigger] spec_branch_cond(t, c.p | FLAG_BRK) == spec_branch_cond(
        t,
        c.p,
    ) by {
        let q = c.p;
        assert((q | 0x10) & 0x01 == q & 0x01 && (q | 0x10) & 0x02 == q & 0x02 && (q | 0x10) & 0x40
            == q & 0x40 && (q | 0x10) & 0x80 == q & 0x80) by (bit_vector);
    }
}

/// Pushing a 16-bit value lands its bytes at `$0100+S` and `$0100+S-1`
/// and decrements S twice; both bytes read back.
pub proof fn lemma_push16_effect(c: Cpu, mm: MbcModel, v: u16)
    requires
        mm.ram.len() == 0x800,
    ensures
        ({
            let (c1, m1) = spec_push16(c, mm, v);
            &&& c1 == Cpu { s: s_dec(s_dec(c.s)), ..c }
            &&& m1 == MbcModel {
                ram: mm.ram.update((0x100 + c.s) as int, (v / 256) as u8).update(
                    (0x100 + s_dec(c.s)) as int,
                    (v % 256) as u8,
                ),
                ..mm
            }
            &&& mbc_read_val(m1, (0x100 + s_dec(c.s)) as u16) == (v % 256) as u8
            &&& mbc_read_val(m1, (0x100 + c.s) as u16) == (v / 256) as u8
        }),
{
    let (c1, m1) = spec_push16(c, mm, v);
    assert(s_dec(c.s) != c.s);
    assert(m1 =~= MbcModel {
        ram: mm.ram.update((0x100 + c.s) as int, (v / 256) as u8).update(
            (0x100 + s_dec(c.s)) as int,
            (v % 256) as u8,
        ),
        ..mm
    });
}

/// Popping 16 bits after a 16-bit push returns the pushed value and
/// restores S.
pub proof fn lemma_pop16_after_push16(c: Cpu, mm: MbcModel, v: u16)
    requires
        mm.ram.len() == 0x800,
    ensures
        ({
            let (c1, m1) = spec_push16(c, mm, v);
            &&& spec_pop16_val(c1, m1) == v
            &&& spec_pop16_cpu(c1) == c
        }),
{
    lemma_push16_effect(c, mm, v);
    let (c1, m1) = spec_push16(c, mm, v);
    let s1 = s_dec(c.s);
    let s2 = s_dec(s1);
    assert(s_inc(s2) == s1 && s_inc(s1) == c.s);
    assert(spec_pop16_val(c1, m1) == (v % 256) + 256 * (v / 256));
    assert((v % 256) + 256 * (v / 256) == v);
    assert(spec_pop16_cpu(c1) =~= c);
}

/// A JSR to any target followed by an RTS resumes at the instruction
/// immediately after the JSR, with every register but the program
/// counter restored.
#[verifier::rlimit(100)]
#[verifier::spinoff_prover]
pub proof fn lemma_jsr_rts_round_trip(c: Cpu, mm: MbcModel, target: u16)
    requires
        mm.ram.len() == 0x800,
    ensures
        ({
            let m = Operand::Memory { addr: target, length: 2, crossed: false };
            let (c1, m1) = spec_apply_op(OpType::JSR, m, c, mm);
            let (c2, m2) = spec_apply_op(OpType::RTS, Operand::Implicit, c1, m1);
            &&& c2 == Cpu { pc: ((c.pc + 2) % 0x10000) as u16, ..c }
            &&& m2 == m1
        }),
{
    let m = Operand::Memory { addr: target, length: 2, crossed: false };
    let ret = ((c.pc + 1) % 0x10000) as u16;
    lemma_push16_effect(c, mm, ret);
    lemma_pop16_after_push16(c, mm, ret);
    let (c1, m1) = spec_apply_op(OpType::JSR, m, c, mm);
    let (c2, m2) = spec_apply_op(OpType::RTS, Operand::Implicit, c1, m1);
    assert(c1 == Cpu { pc: target, ..spec_push16(c, mm, ret).0 });
    assert(spec_pop16_val(c1, m1) == ret);
    assert(c2.pc == ((ret + 1) % 0x10000) as u16);
    assert((ret + 1) % 0x10000 == (c.pc + 2) % 0x10000) by {
        vstd::arithmetic::div_mod::lemma_mod_multiples_vanish(1, c.pc + 1, 0x10000);
        if c.pc + 1 >= 0x10000 {
            assert(ret == (c.pc + 1 - 0x10000) as u16);
        }
    }
    assert(c2 =~= Cpu { pc: ((c.pc + 2) % 0x10000) as u16, ..c });
}
} // verus!
