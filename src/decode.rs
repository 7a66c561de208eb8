//! Recognising the instructions this firmware emulates.
//!
//! Classification goes through the `riscv_decode` crate; the register and
//! CSR fields are then read from the instruction word directly.
use vstd::prelude::*;
use riscv_decode::types::{
    BType, CsrIType, CsrType, FenceType, IType, JType, R4Type, RType, SType, ShiftType, UType,
};
use riscv_decode::{DecodingError, Instruction};

verus! {

/// riscv_decode's `RType` payload, carried inside [`Instruction`] and never read.
#[verifier::external_type_specification]
#[verifier::external_body]
pub struct ExRType(RType);

/// riscv_decode's `CsrType` payload, carried inside [`Instruction`] and never read.
#[verifier::external_type_specification]
#[verifier::external_body]
pub struct ExCsrType(CsrType);

/// riscv_decode's `CsrIType` payload, carried inside [`Instruction`] and never read.
#[verifier::external_type_specification]
#[verifier::external_body]
pub struct ExCsrIType(CsrIType);

/// riscv_decode's `IType` payload, carried inside [`Instruction`] and never read.
#[verifier::external_type_specification]
#[verifier::external_body]
pub struct ExIType(IType);

/// riscv_decode's `SType` payload, carried inside [`Instruction`] and never read.
#[verifier::external_type_specification]
#[verifier::external_body]
pub struct ExSType(SType);

/// riscv_decode's `BType` payload, carried inside [`Instruction`] and never read.
#[verifier::external_type_specification]
#[verifier::external_body]
pub struct ExBType(BType);

/// riscv_decode's `UType` payload, carried inside [`Instruction`] and never read.
#[verifier::external_type_specification]
#[verifier::external_body]
pub struct ExUType(UType);

/// riscv_decode's `JType` payload, carried inside [`Instruction`] and never read.
#[verifier::external_type_specification]
#[verifier::external_body]
pub struct ExJType(JType);

/// riscv_decode's `FenceType` payload, carried inside [`Instruction`] and never read.
#[verifier::external_type_specification]
#[verifier::external_body]
pub struct ExFenceType(FenceType);

/// riscv_decode's `ShiftType` payload, carried inside [`Instruction`] and never read.
#[verifier::external_type_specification]
#[verifier::external_body]
pub struct ExShiftType(ShiftType);

/// riscv_decode's `R4Type` payload, carried inside [`Instruction`] and never read.
#[verifier::external_type_specification]
#[verifier::external_body]
pub struct ExR4Type(R4Type);

/// riscv_decode's `Instruction`: its variants are visible, their payloads opaque.
#[verifier::external_type_specification]
pub struct ExInstruction(Instruction);

/// riscv_decode's `DecodingError`, only ever passed over.
#[verifier::external_type_specification]
#[verifier::external_body]
pub struct ExDecodingError(DecodingError);

/// Major opcode (bits 0..7).
pub open spec fn opcode(i: u32) -> u32 {
    i & 0x7f
}

/// `funct3` field (bits 12..15).
pub open spec fn funct3(i: u32) -> u32 {
    (i >> 12) & 0x7
}

/// `funct5` field of an atomic instruction (bits 27..32).
pub open spec fn funct5(i: u32) -> u32 {
    i >> 27
}

/// Destination register field (bits 7..12).
pub open spec fn rd_of(i: u32) -> u32 {
    (i >> 7) & 0x1f
}

/// First source register field (bits 15..20).
pub open spec fn rs1_of(i: u32) -> u32 {
    (i >> 15) & 0x1f
}

/// Second source register field (bits 20..25).
pub open spec fn rs2_of(i: u32) -> u32 {
    (i >> 20) & 0x1f
}

/// CSR number of a CSR instruction (bits 20..32).
pub open spec fn csr_of(i: u32) -> u32 {
    i >> 20
}

/// A 32-bit word-sized atomic instruction (AMO opcode, `funct3 = 010`) with the given `funct5`.
pub open spec fn amo_w_form(i: u32, f5: u32) -> bool {
    opcode(i) == 0x2f && funct3(i) == 0b010 && funct5(i) == f5
}

/// A SYSTEM-opcode instruction with the given `funct3` (`001` is CSRRW, `010` CSRRS).
pub open spec fn csr_form(i: u32, f3: u32) -> bool {
    opcode(i) == 0x73 && funct3(i) == f3
}

/// Relies on `riscv_decode::decode` recognising the word-sized atomic
/// instructions and the CSRRW / CSRRS instructions by their opcode, `funct3`
/// and `funct5` fields, and on it giving those variants for no other word.
pub assume_specification[ riscv_decode::decode ](i: u32) -> (r: Result<Instruction, DecodingError>)
    ensures
        (r matches Ok(Instruction::LrW(_))) <==> amo_w_form(i, 0b00010),
        (r matches Ok(Instruction::ScW(_))) <==> amo_w_form(i, 0b00011),
        (r matches Ok(Instruction::AmoswapW(_))) <==> amo_w_form(i, 0b00001),
        (r matches Ok(Instruction::AmoaddW(_))) <==> amo_w_form(i, 0b00000),
        (r matches Ok(Instruction::AmoxorW(_))) <==> amo_w_form(i, 0b00100),
        (r matches Ok(Instruction::AmoandW(_))) <==> amo_w_form(i, 0b01100),
        (r matches Ok(Instruction::AmoorW(_))) <==> amo_w_form(i, 0b01000),
        (r matches Ok(Instruction::AmominW(_))) <==> amo_w_form(i, 0b10000),
        (r matches Ok(Instruction::AmomaxW(_))) <==> amo_w_form(i, 0b10100),
        (r matches Ok(Instruction::AmominuW(_))) <==> amo_w_form(i, 0b11000),
        (r matches Ok(Instruction::AmomaxuW(_))) <==> amo_w_form(i, 0b11100),
        (r matches Ok(Instruction::Csrrw(_))) <==> csr_form(i, 0b001),
        (r matches Ok(Instruction::Csrrs(_))) <==> csr_form(i, 0b010),
;

/// Read-modify-write operation of an atomic memory instruction.
#[derive(Clone, Copy, Debug, PartialEq, Eq, Structural)]
pub enum AmoOp {
    Swap,
    Add,
    Xor,
    And,
    Or,
    Min,
    Max,
    MinU,
    MaxU,
}

/// A word-sized atomic instruction, with its register operands.
#[derive(Clone, Copy, Debug, PartialEq, Eq, Structural)]
pub enum AtomicInst {
    LoadReserved { rd: u32, rs1: u32 },
    StoreConditional { rd: u32, rs1: u32, rs2: u32 },
    Amo { op: AmoOp, rd: u32, rs1: u32, rs2: u32 },
}

/// A CSR instruction the firmware may emulate.
#[derive(Clone, Copy, Debug, PartialEq, Eq, Structural)]
pub enum CsrInst {
    /// `csrrs rd, csr, rs1`
    ReadSet { csr: u32, rd: u32 },
    /// `csrrw rd, csr, rs1`
    ReadWrite { csr: u32, rd: u32 },
}

pub open spec fn amo_inst(op: AmoOp, i: u32) -> Option<AtomicInst> {
    Some(AtomicInst::Amo { op, rd: rd_of(i), rs1: rs1_of(i), rs2: rs2_of(i) })
}

/// The atomic instruction encoded by `i`, if it is one.
pub open spec fn atomic_of(i: u32) -> Option<AtomicInst> {
    if amo_w_form(i, 0b00010) {
        Some(AtomicInst::LoadReserved { rd: rd_of(i), rs1: rs1_of(i) })
    } else if amo_w_form(i, 0b00011) {
        Some(AtomicInst::StoreConditional { rd: rd_of(i), rs1: rs1_of(i), rs2: rs2_of(i) })
    } else if amo_w_form(i, 0b00001) {
        amo_inst(AmoOp::Swap, i)
    } else if amo_w_form(i, 0b00000) {
        amo_inst(AmoOp::Add, i)
    } else if amo_w_form(i, 0b00100) {
        amo_inst(AmoOp::Xor, i)
    } else if amo_w_form(i, 0b01100) {
        amo_inst(AmoOp::And, i)
    } else if amo_w_form(i, 0b01000) {
        amo_inst(AmoOp::Or, i)
    } else if amo_w_form(i, 0b10000) {
        amo_inst(AmoOp::Min, i)
    } else if amo_w_form(i, 0b10100) {
        amo_inst(AmoOp::Max, i)
    } else if amo_w_form(i, 0b11000) {
        amo_inst(AmoOp::MinU, i)
    } else if amo_w_form(i, 0b11100) {
        amo_inst(AmoOp::MaxU, i)
    } else {
        None
    }
}

/// The CSR instruction encoded by `i`, if it is a CSRRS or CSRRW.
pub open spec fn csr_inst_of(i: u32) -> Option<CsrInst> {
    if csr_form(i, 0b010) {
        Some(CsrInst::ReadSet { csr: csr_of(i), rd: rd_of(i) })
    } else if csr_form(i, 0b001) {
        Some(CsrInst::ReadWrite { csr: csr_of(i), rd: rd_of(i) })
    } else {
        None
    }
}

fn rd_field(i: u32) -> (r: u32)
    ensures
        r == rd_of(i),
        r < 32,
{
    assert((i >> 7) & 0x1f < 32) by (bit_vector);
    (i >> 7) & 0x1f
}

fn rs1_field(i: u32) -> (r: u32)
    ensures
        r == rs1_of(i),
        r < 32,
{
    assert((i >> 15) & 0x1f < 32) by (bit_vector);
    (i >> 15) & 0x1f
}

fn rs2_field(i: u32) -> (r: u32)
    ensures
        r == rs2_of(i),
        r < 32,
{
    assert((i >> 20) & 0x1f < 32) by (bit_vector);
    (i >> 20) & 0x1f
}

fn amo(op: AmoOp, i: u32) -> (r: Option<AtomicInst>)
    ensures
        r == amo_inst(op, i),
{
    Some(AtomicInst::Amo { op, rd: rd_field(i), rs1: rs1_field(i), rs2: rs2_field(i) })
}

/// Decodes a word-sized atomic instruction (LR.W, SC.W or an AMO*.W).
pub fn decode_atomic(i: u32) -> (r: Option<AtomicInst>)
    ensures
        r == atomic_of(i),
{
    match riscv_decode::decode(i) {
        Ok(Instruction::LrW(_)) => Some(AtomicInst::LoadReserved { rd: rd_field(i), rs1: rs1_field(i) }),
        Ok(Instruction::ScW(_)) => Some(
            AtomicInst::StoreConditional { rd: rd_field(i), rs1: rs1_field(i), rs2: rs2_field(i) },
        ),
        Ok(Instruction::AmoswapW(_)) => amo(AmoOp::Swap, i),
        Ok(Instruction::AmoaddW(_)) => amo(AmoOp::Add, i),
        Ok(Instruction::AmoxorW(_)) => amo(AmoOp::Xor, i),
        Ok(Instruction::AmoandW(_)) => amo(AmoOp::And, i),
        Ok(Instruction::AmoorW(_)) => amo(AmoOp::Or, i),
        Ok(Instruction::AmominW(_)) => amo(AmoOp::Min, i),
        Ok(Instruction::AmomaxW(_)) => amo(AmoOp::Max, i),
        Ok(Instruction::AmominuW(_)) => amo(AmoOp::MinU, i),
        Ok(Instruction::AmomaxuW(_)) => amo(AmoOp::MaxU, i),
        _ => None,
    }
}

/// Decodes a CSRRS or CSRRW instruction.
pub fn decode_csr(i: u32) -> (r: Option<CsrInst>)
    ensures
        r == csr_inst_of(i),
{
    match riscv_decode::decode(i) {
        Ok(Instruction::Csrrs(_)) => Some(CsrInst::ReadSet { csr: i >> 20, rd: rd_field(i) }),
        Ok(Instruction::Csrrw(_)) => Some(CsrInst::ReadWrite { csr: i >> 20, rd: rd_field(i) }),
        _ => None,
    }
}

/// Whether `i` is a store-conditional (SC.W).
pub fn is_store_conditional(i: u32) -> (r: bool)
    ensures
        r == amo_w_form(i, 0b00011),
{
    match riscv_decode::decode(i) {
        Ok(Instruction::ScW(_)) => true,
        _ => false,
    }
}

} // verus!
