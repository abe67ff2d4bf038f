//! The instruction set as a tagged variant, and the decoder of 32-bit code
//! words.
//!
//! The decoder is specified in the notation of the instruction-set manual:
//! `bits(w, hi, lo)` is the field `w[hi:lo]` and `sext(v, n)` reads an
//! `n`-bit field as a two's-complement number.

use vstd::prelude::*;
use vstd::std_specs::convert::FromSpecImpl;
use crate::bits::{bit, bits, sext};
use crate::cpu::Register;

verus! {

/// The six base formats of a 32-bit code word.
#[derive(Copy, Clone, PartialEq, Eq, Structural, Debug)]
pub enum Type {
    R,
    I,
    S,
    B,
    U,
    J,
}

/// One decoded instruction with the operands that the executor needs.
///
/// Immediates are sign-extended where the instruction set says so; the
/// immediates of the compressed forms are already scaled.
#[derive(Copy, Clone, PartialEq, Eq, Structural, Debug)]
pub enum Instruction {
    Lui { rd: Register, imm: i32 },
    Auipc { rd: Register, imm: i32 },
    Jal { rd: Register, imm: i32 },
    Jalr { rd: Register, rs1: Register, imm: i32 },
    Beq { rs1: Register, rs2: Register, imm: i32 },
    Bne { rs1: Register, rs2: Register, imm: i32 },
    Blt { rs1: Register, rs2: Register, imm: i32 },
    Bge { rs1: Register, rs2: Register, imm: i32 },
    Bltu { rs1: Register, rs2: Register, imm: i32 },
    Bgeu { rs1: Register, rs2: Register, imm: i32 },
    Lb { rd: Register, rs1: Register, imm: i32 },
    Lh { rd: Register, rs1: Register, imm: i32 },
    Lw { rd: Register, rs1: Register, imm: i32 },
    Lbu { rd: Register, rs1: Register, imm: i32 },
    Lhu { rd: Register, rs1: Register, imm: i32 },
    Lwu { rd: Register, rs1: Register, imm: i32 },
    Ld { rd: Register, rs1: Register, imm: i32 },
    Sb { rs1: Register, rs2: Register, imm: i32 },
    Sh { rs1: Register, rs2: Register, imm: i32 },
    Sw { rs1: Register, rs2: Register, imm: i32 },
    Sd { rs1: Register, rs2: Register, imm: i32 },
    Addi { rd: Register, rs1: Register, imm: i32 },
    Slti { rd: Register, rs1: Register, imm: i32 },
    Sltiu { rd: Register, rs1: Register, imm: i32 },
    Xori { rd: Register, rs1: Register, imm: i32 },
    Ori { rd: Register, rs1: Register, imm: i32 },
    Andi { rd: Register, rs1: Register, imm: i32 },
    Slli { rd: Register, rs1: Register, shamt: i32 },
    Srli { rd: Register, rs1: Register, shamt: i32 },
    Srai { rd: Register, rs1: Register, shamt: i32 },
    Addiw { rd: Register, rs1: Register, imm: i32 },
    Slliw { rd: Register, rs1: Register, shamt: i32 },
    Srliw { rd: Register, rs1: Register, shamt: i32 },
    Sraiw { rd: Register, rs1: Register, shamt: i32 },
    Add { rd: Register, rs1: Register, rs2: Register },
    Sub { rd: Register, rs1: Register, rs2: Register },
    Sll { rd: Register, rs1: Register, rs2: Register },
    Slt { rd: Register, rs1: Register, rs2: Register },
    Sltu { rd: Register, rs1: Register, rs2: Register },
    Xor { rd: Register, rs1: Register, rs2: Register },
    Srl { rd: Register, rs1: Register, rs2: Register },
    Sra { rd: Register, rs1: Register, rs2: Register },
    Or { rd: Register, rs1: Register, rs2: Register },
    And { rd: Register, rs1: Register, rs2: Register },
    Mul { rd: Register, rs1: Register, rs2: Register },
    Mulh { rd: Register, rs1: Register, rs2: Register },
    Mulhsu { rd: Register, rs1: Register, rs2: Register },
    Mulhu { rd: Register, rs1: Register, rs2: Register },
    Div { rd: Register, rs1: Register, rs2: Register },
    Divu { rd: Register, rs1: Register, rs2: Register },
    Rem { rd: Register, rs1: Register, rs2: Register },
    Remu { rd: Register, rs1: Register, rs2: Register },
    Addw { rd: Register, rs1: Register, rs2: Register },
    Subw { rd: Register, rs1: Register, rs2: Register },
    Sllw { rd: Register, rs1: Register, rs2: Register },
    Srlw { rd: Register, rs1: Register, rs2: Register },
    Sraw { rd: Register, rs1: Register, rs2: Register },
    Mulw { rd: Register, rs1: Register, rs2: Register },
    Divw { rd: Register, rs1: Register, rs2: Register },
    Divuw { rd: Register, rs1: Register, rs2: Register },
    Remw { rd: Register, rs1: Register, rs2: Register },
    Remuw { rd: Register, rs1: Register, rs2: Register },
    Fence { rd: Register, rs1: Register, imm: i32 },
    FenceI { rd: Register, rs1: Register, imm: i32 },
    Ecall,
    Ebreak,
    Csrrw { rd: Register, rs1: Register, csr: u16 },
    Csrrs { rd: Register, rs1: Register, csr: u16 },
    Csrrc { rd: Register, rs1: Register, csr: u16 },
    Csrrwi { rd: Register, uimm: u32, csr: u16 },
    Csrrsi { rd: Register, uimm: u32, csr: u16 },
    Csrrci { rd: Register, uimm: u32, csr: u16 },
    Amoswapw { rd: Register, rs1: Register, rs2: Register, aq: bool, rl: bool },
    Amoaddw { rd: Register, rs1: Register, rs2: Register, aq: bool, rl: bool },
    Amoxorw { rd: Register, rs1: Register, rs2: Register, aq: bool, rl: bool },
    Amoandw { rd: Register, rs1: Register, rs2: Register, aq: bool, rl: bool },
    Amoorw { rd: Register, rs1: Register, rs2: Register, aq: bool, rl: bool },
    Amominw { rd: Register, rs1: Register, rs2: Register, aq: bool, rl: bool },
    Amomaxw { rd: Register, rs1: Register, rs2: Register, aq: bool, rl: bool },
    Amominuw { rd: Register, rs1: Register, rs2: Register, aq: bool, rl: bool },
    Amomaxuw { rd: Register, rs1: Register, rs2: Register, aq: bool, rl: bool },
    /// Any compressed encoding that the instruction set declares a hint.
    Hint,
    CAddi4spn { rd: Register, nzuimm: u32 },
    CFld { rd: Register, rs1: Register, uimm: u32 },
    CLw { rd: Register, rs1: Register, uimm: u32 },
    CLd { rd: Register, rs1: Register, uimm: u32 },
    CFsd { rs1: Register, rs2: Register, uimm: u32 },
    CSw { rs1: Register, rs2: Register, uimm: u32 },
    CSd { rs1: Register, rs2: Register, uimm: u32 },
    CNop,
    CAddi { reg: Register, nzimm: i32 },
    CAddiw { reg: Register, imm: i32 },
    CLi { rd: Register, imm: i32 },
    CAddi16sp { nzimm: i32 },
    CLui { rd: Register, nzimm: i32 },
    CSrli { reg: Register, nzuimm: u32 },
    CSrai { reg: Register, nzuimm: u32 },
    CAndi { reg: Register, imm: i32 },
    CSub { reg: Register, rs2: Register },
    CXor { reg: Register, rs2: Register },
    COr { reg: Register, rs2: Register },
    CAnd { reg: Register, rs2: Register },
    CSubw { reg: Register, rs2: Register },
    CAddw { reg: Register, rs2: Register },
    CJ { imm: i32 },
    CBeqz { rs1: Register, imm: i32 },
    CBnez { rs1: Register, imm: i32 },
    CSlli { reg: Register, nzuimm: u32 },
    CFldsp { rd: Register, uimm: u32 },
    CLwsp { rd: Register, uimm: u32 },
    CLdsp { rd: Register, uimm: u32 },
    CJr { rs1: Register },
    CMv { rd: Register, rs2: Register },
    CEbreak,
    CJalr { rs1: Register },
    CAdd { reg: Register, rs2: Register },
    CFsdsp { rs2: Register, uimm: u32 },
    CSwsp { rs2: Register, uimm: u32 },
    CSdsp { rs2: Register, uimm: u32 },
    /// A 32-bit word that encodes no supported instruction.
    Undefined(u32),
    /// A 16-bit word that encodes no supported instruction.
    UndefinedCompressed(u16),
}

impl Instruction {
    /// Whether the operands fit the fields that encode them: a shift amount
    /// is below the width of the shift, a control/status register address
    /// has 12 bits, and an unsigned immediate of a compressed form is below
    /// the range of its field.
    pub open spec fn operands_fit(self) -> bool {
        match self {
            Instruction::Slli { shamt, .. } => 0 <= shamt < 64,
            Instruction::Srli { shamt, .. } => 0 <= shamt < 64,
            Instruction::Srai { shamt, .. } => 0 <= shamt < 64,
            Instruction::Slliw { shamt, .. } => 0 <= shamt < 32,
            Instruction::Srliw { shamt, .. } => 0 <= shamt < 32,
            Instruction::Sraiw { shamt, .. } => 0 <= shamt < 32,
            Instruction::Csrrw { csr, .. } => csr < 4096,
            Instruction::Csrrs { csr, .. } => csr < 4096,
            Instruction::Csrrc { csr, .. } => csr < 4096,
            Instruction::Csrrwi { csr, .. } => csr < 4096,
            Instruction::Csrrsi { csr, .. } => csr < 4096,
            Instruction::Csrrci { csr, .. } => csr < 4096,
            Instruction::CAddi4spn { nzuimm, .. } => nzuimm < 1024,
            Instruction::CFld { uimm, .. } => uimm < 256,
            Instruction::CLw { uimm, .. } => uimm < 128,
            Instruction::CLd { uimm, .. } => uimm < 256,
            Instruction::CFsd { uimm, .. } => uimm < 256,
            Instruction::CSw { uimm, .. } => uimm < 128,
            Instruction::CSd { uimm, .. } => uimm < 256,
            Instruction::CSrli { nzuimm, .. } => nzuimm < 64,
            Instruction::CSrai { nzuimm, .. } => nzuimm < 64,
            Instruction::CSlli { nzuimm, .. } => nzuimm < 64,
            Instruction::CFldsp { uimm, .. } => uimm < 512,
            Instruction::CLwsp { uimm, .. } => uimm < 256,
            Instruction::CLdsp { uimm, .. } => uimm < 512,
            Instruction::CFsdsp { uimm, .. } => uimm < 512,
            Instruction::CSwsp { uimm, .. } => uimm < 256,
            Instruction::CSdsp { uimm, .. } => uimm < 512,
            _ => true,
        }
    }

    /// The register that the instruction writes a result to, if it writes
    /// one.  A compressed instruction writes to the register that the base
    /// instruction it stands for writes to.
    pub open spec fn dest(self) -> Option<Register> {
        match self {
            Instruction::Lui { rd, .. } => Some(rd),
            Instruction::Auipc { rd, .. } => Some(rd),
            Instruction::Jal { rd, .. } => Some(rd),
            Instruction::Jalr { rd, .. } => Some(rd),
            Instruction::Lb { rd, .. } => Some(rd),
            Instruction::Lh { rd, .. } => Some(rd),
            Instruction::Lw { rd, .. } => Some(rd),
            Instruction::Lbu { rd, .. } => Some(rd),
            Instruction::Lhu { rd, .. } => Some(rd),
            Instruction::Lwu { rd, .. } => Some(rd),
            Instruction::Ld { rd, .. } => Some(rd),
            Instruction::Addi { rd, .. } => Some(rd),
            Instruction::Slti { rd, .. } => Some(rd),
            Instruction::Sltiu { rd, .. } => Some(rd),
            Instruction::Xori { rd, .. } => Some(rd),
            Instruction::Ori { rd, .. } => Some(rd),
            Instruction::Andi { rd, .. } => Some(rd),
            Instruction::Slli { rd, .. } => Some(rd),
            Instruction::Srli { rd, .. } => Some(rd),
            Instruction::Srai { rd, .. } => Some(rd),
            Instruction::Addiw { rd, .. } => Some(rd),
            Instruction::Slliw { rd, .. } => Some(rd),
            Instruction::Srliw { rd, .. } => Some(rd),
            Instruction::Sraiw { rd, .. } => Some(rd),
            Instruction::Add { rd, .. } => Some(rd),
            Instruction::Sub { rd, .. } => Some(rd),
            Instruction::Sll { rd, .. } => Some(rd),
            Instruction::Slt { rd, .. } => Some(rd),
            Instruction::Sltu { rd, .. } => Some(rd),
            Instruction::Xor { rd, .. } => Some(rd),
            Instruction::Srl { rd, .. } => Some(rd),
            Instruction::Sra { rd, .. } => Some(rd),
            Instruction::Or { rd, .. } => Some(rd),
            Instruction::And { rd, .. } => Some(rd),
            Instruction::Mul { rd, .. } => Some(rd),
            Instruction::Mulh { rd, .. } => Some(rd),
            Instruction::Mulhsu { rd, .. } => Some(rd),
            Instruction::Mulhu { rd, .. } => Some(rd),
            Instruction::Div { rd, .. } => Some(rd),
            Instruction::Divu { rd, .. } => Some(rd),
            Instruction::Rem { rd, .. } => Some(rd),
            Instruction::Remu { rd, .. } => Some(rd),
            Instruction::Addw { rd, .. } => Some(rd),
            Instruction::Subw { rd, .. } => Some(rd),
            Instruction::Sllw { rd, .. } => Some(rd),
            Instruction::Srlw { rd, .. } => Some(rd),
            Instruction::Sraw { rd, .. } => Some(rd),
            Instruction::Mulw { rd, .. } => Some(rd),
            Instruction::Divw { rd, .. } => Some(rd),
            Instruction::Divuw { rd, .. } => Some(rd),
            Instruction::Remw { rd, .. } => Some(rd),
            Instruction::Remuw { rd, .. } => Some(rd),
            Instruction::Csrrw { rd, .. } => Some(rd),
            Instruction::Csrrs { rd, .. } => Some(rd),
            Instruction::Csrrc { rd, .. } => Some(rd),
            Instruction::Csrrwi { rd, .. } => Some(rd),
            Instruction::Csrrsi { rd, .. } => Some(rd),
            Instruction::Csrrci { rd, .. } => Some(rd),
            Instruction::Amoswapw { rd, .. } => Some(rd),
            Instruction::Amoaddw { rd, .. } => Some(rd),
            Instruction::Amoxorw { rd, .. } => Some(rd),
            Instruction::Amoandw { rd, .. } => Some(rd),
            Instruction::Amoorw { rd, .. } => Some(rd),
            Instruction::Amominw { rd, .. } => Some(rd),
            Instruction::Amomaxw { rd, .. } => Some(rd),
            Instruction::Amominuw { rd, .. } => Some(rd),
            Instruction::Amomaxuw { rd, .. } => Some(rd),
            Instruction::CAddi4spn { rd, .. } => Some(rd),
            Instruction::CLw { rd, .. } => Some(rd),
            Instruction::CLd { rd, .. } => Some(rd),
            Instruction::CLi { rd, .. } => Some(rd),
            Instruction::CLui { rd, .. } => Some(rd),
            Instruction::CLwsp { rd, .. } => Some(rd),
            Instruction::CLdsp { rd, .. } => Some(rd),
            Instruction::CMv { rd, .. } => Some(rd),
            Instruction::CAddi { reg, .. } => Some(reg),
            Instruction::CAddiw { reg, .. } => Some(reg),
            Instruction::CSrli { reg, .. } => Some(reg),
            Instruction::CSrai { reg, .. } => Some(reg),
            Instruction::CAndi { reg, .. } => Some(reg),
            Instruction::CSub { reg, .. } => Some(reg),
            Instruction::CXor { reg, .. } => Some(reg),
            Instruction::COr { reg, .. } => Some(reg),
            Instruction::CAnd { reg, .. } => Some(reg),
            Instruction::CSubw { reg, .. } => Some(reg),
            Instruction::CAddw { reg, .. } => Some(reg),
            Instruction::CSlli { reg, .. } => Some(reg),
            Instruction::CAdd { reg, .. } => Some(reg),
            Instruction::CAddi16sp { .. } => Some(Register::Sp),
            Instruction::CJalr { .. } => Some(Register::Ra),
            Instruction::CJ { .. } => Some(Register::Zero),
            Instruction::CJr { .. } => Some(Register::Zero),
            Instruction::CNop => Some(Register::Zero),
            Instruction::Hint => Some(Register::Zero),
            _ => None,
        }
    }

    /// Whether the operands fit the fields that encode them, and the
    /// destination, if there is one, is one of `x0` to `x31`.
    pub open spec fn wf(self) -> bool {
        &&& self.operands_fit()
        &&& self.dest() matches Some(rd) ==> rd.is_general()
    }
}

/// The I-immediate: `sext(w[31:20])`.
pub open spec fn imm_i(w: int) -> int {
    sext(bits(w, 31, 20), 12)
}

/// The S-immediate: `sext(w[31:25] ++ w[11:7])`.
pub open spec fn imm_s(w: int) -> int {
    sext(bits(w, 31, 25) * 0x20 + bits(w, 11, 7), 12)
}

/// The B-immediate: `sext(w[31] ++ w[7] ++ w[30:25] ++ w[11:8] ++ 0)`.
pub open spec fn imm_b(w: int) -> int {
    sext(
        bits(w, 31, 31) * 0x1000 + bits(w, 7, 7) * 0x800 + bits(w, 30, 25) * 0x20 + bits(w, 11, 8)
            * 2,
        13,
    )
}

/// The U-immediate: `w[31:12]` in place, the low twelve bits zero, read as a
/// signed 32-bit number.
pub open spec fn imm_u(w: int) -> int {
    sext(bits(w, 31, 12) * 0x1000, 32)
}

/// The J-immediate: `sext(w[31] ++ w[19:12] ++ w[20] ++ w[30:21] ++ 0)`.
pub open spec fn imm_j(w: int) -> int {
    sext(
        bits(w, 31, 31) * 0x100000 + bits(w, 19, 12) * 0x1000 + bits(w, 20, 20) * 0x800 + bits(
            w,
            30,
            21,
        ) * 2,
        21,
    )
}

/// The destination field `w[11:7]`.
pub open spec fn field_rd(w: int) -> Register {
    Register::of(bits(w, 11, 7))
}

/// The first source field `w[19:15]`.
pub open spec fn field_rs1(w: int) -> Register {
    Register::of(bits(w, 19, 15))
}

/// The second source field `w[24:20]`.
pub open spec fn field_rs2(w: int) -> Register {
    Register::of(bits(w, 24, 20))
}

/// The fields of a 32-bit word as the decoder's shifts and masks compute
/// them.
proof fn lemma_fields(w: u32)
    by (bit_vector)
    ensures
        w & 0b1111111 == w % 0x80,
        (w >> 7) & 0b11111 == (w / 0x80) % 0x20,
        (w >> 12) & 0b111 == (w / 0x1000) % 8,
        (w >> 15) & 0b11111 == (w / 0x8000) % 0x20,
        (w >> 20) & 0b11111 == (w / 0x100000) % 0x20,
        (w >> 20) & 0b111111 == (w / 0x100000) % 0x40,
        (w >> 20) & 0b111111111111 == (w / 0x100000) % 0x1000,
        (w >> 25) & 0b1111111 == (w / 0x2000000) % 0x80,
        (w >> 26) & 0b111111 == (w / 0x4000000) % 0x40,
        (w >> 27) & 0b11111 == (w / 0x8000000) % 0x20,
        (w >> 26) & 0b1 == (w / 0x4000000) % 2,
        (w >> 25) & 0b1 == (w / 0x2000000) % 2,
{
}

/// The immediates of a 32-bit word as the decoder's shifts and masks
/// compute them.
proof fn lemma_immediates(w: u32)
    by (bit_vector)
    ensures
        ({
            let field = (w / 0x100000) % 0x1000;
            (w as i32) >> 20 == (if field < 0x800 {
                field as int
            } else {
                field - 0x1000
            })
        }),
        ({
            let raw = (((w >> 25) & 0b1111111) << 5) | ((w >> 7) & 0b11111);
            let field = (w / 0x2000000) % 0x80 * 0x20 + (w / 0x80) % 0x20;
            ((raw as i32) << 20) >> 20 == (if field < 0x800 {
                field
            } else {
                field - 0x1000
            })
        }),
        ({
            let raw = (((w >> 31) & 0b1) << 12) | (((w >> 7) & 0b1) << 11) | (((w >> 25)
                & 0b111111) << 5) | (((w >> 8) & 0b1111) << 1);
            let field = (w / 0x80000000) % 2 * 0x1000 + (w / 0x80) % 2 * 0x800 + (w / 0x2000000)
                % 0x40 * 0x20 + (w / 0x100) % 0x10 * 2;
            ((raw as i32) << 19) >> 19 == (if field < 0x1000 {
                field
            } else {
                field - 0x2000
            })
        }),
        ({
            let field = (w / 0x1000) % 0x100000 * 0x1000;
            (w & !0xfffu32) as i32 == (if field < 0x80000000 {
                field as int
            } else {
                field - 0x100000000
            })
        }),
        ({
            let raw = (((w >> 31) & 0b1) << 20) | (((w >> 12) & 0b11111111) << 12) | (((w >> 20)
                & 0b1) << 11) | (((w >> 21) & 0b1111111111) << 1);
            let field = (w / 0x80000000) % 2 * 0x100000 + (w / 0x1000) % 0x100 * 0x1000 + (w
                / 0x100000) % 2 * 0x800 + (w / 0x200000) % 0x400 * 2;
            ((raw as i32) << 11) >> 11 == (if field < 0x100000 {
                field
            } else {
                field - 0x200000
            })
        }),
{
}

/// The fields of an R-format word.
#[derive(Debug)]
pub struct RType {
    pub funct7: u32,
    pub funct3: u32,
    pub rd: Register,
    pub rs1: Register,
    pub rs2: Register,
}

impl FromSpecImpl<u32> for RType {
    open spec fn obeys_from_spec() -> bool {
        true
    }

    open spec fn from_spec(value: u32) -> Self {
        RType {
            funct7: bits(value as int, 31, 25) as u32,
            funct3: bits(value as int, 14, 12) as u32,
            rd: field_rd(value as int),
            rs1: field_rs1(value as int),
            rs2: field_rs2(value as int),
        }
    }
}

impl From<u32> for RType {
    fn from(value: u32) -> (r: Self) {
        proof {
            lemma_fields(value);
        }
        let funct7: u32 = (value >> 25) & 0b1111111;

        let rs2 = Register::from_index((value >> 20) & 0b11111);
        let rs1 = Register::from_index((value >> 15) & 0b11111);

        let funct3: u32 = (value >> 12) & 0b111;

        let rd = Register::from_index((value >> 7) & 0b11111);

        Self { funct7, funct3, rd, rs1, rs2 }
    }
}

/// The fields of an I-format word.
#[derive(Debug)]
pub struct IType {
    pub imm: i32,
    pub rs1: Register,
    pub funct3: u32,
    pub rd: Register,
}

impl FromSpecImpl<u32> for IType {
    open spec fn obeys_from_spec() -> bool {
        true
    }

    open spec fn from_spec(value: u32) -> Self {
        IType {
            imm: imm_i(value as int) as i32,
            rs1: field_rs1(value as int),
            funct3: bits(value as int, 14, 12) as u32,
            rd: field_rd(value as int),
        }
    }
}

impl From<u32> for IType {
    fn from(value: u32) -> (r: Self) {
        proof {
            lemma_fields(value);
            lemma_immediates(value);
        }
        let imm: i32 = (value as i32) >> 20;

        let rs1 = Register::from_index((value >> 15) & 0b11111);
        let funct3: u32 = (value >> 12) & 0b111;
        let rd = Register::from_index((value >> 7) & 0b11111);

        Self { imm, rs1, funct3, rd }
    }
}

/// The fields of an S-format word.
#[derive(Debug)]
pub struct SType {
    pub imm: i32,
    pub funct3: u32,
    pub rs1: Register,
    pub rs2: Register,
}

impl FromSpecImpl<u32> for SType {
    open spec fn obeys_from_spec() -> bool {
        true
    }

    open spec fn from_spec(value: u32) -> Self {
        SType {
            imm: imm_s(value as int) as i32,
            funct3: bits(value as int, 14, 12) as u32,
            rs1: field_rs1(value as int),
            rs2: field_rs2(value as int),
        }
    }
}

impl From<u32> for SType {
    fn from(value: u32) -> (r: Self) {
        proof {
            lemma_fields(value);
            lemma_immediates(value);
        }
        let imm115: u32 = (value >> 25) & 0b1111111;
        let imm40: u32 = (value >> 7) & 0b11111;

        let imm: u32 = (imm115 << 5) | imm40;
        let imm: i32 = ((imm as i32) << 20) >> 20;

        let funct3: u32 = (value >> 12) & 0b111;
        let rs1 = Register::from_index((value >> 15) & 0b11111);
        let rs2 = Register::from_index((value >> 20) & 0b11111);

        Self { imm, funct3, rs1, rs2 }
    }
}

/// The fields of a B-format word.
#[derive(Debug)]
pub struct BType {
    pub imm: i32,
    pub funct3: u32,
    pub rs1: Register,
    pub rs2: Register,
}

impl FromSpecImpl<u32> for BType {
    open spec fn obeys_from_spec() -> bool {
        true
    }

    open spec fn from_spec(value: u32) -> Self {
        BType {
            imm: imm_b(value as int) as i32,
            funct3: bits(value as int, 14, 12) as u32,
            rs1: field_rs1(value as int),
            rs2: field_rs2(value as int),
        }
    }
}

impl From<u32> for BType {
    fn from(value: u32) -> (r: Self) {
        proof {
            lemma_fields(value);
            lemma_immediates(value);
        }
        let imm12: u32 = (value >> 31) & 0b1;
        let imm105: u32 = (value >> 25) & 0b111111;
        let imm41: u32 = (value >> 8) & 0b1111;
        let imm11: u32 = (value >> 7) & 0b1;

        let imm: u32 = (imm12 << 12) | (imm11 << 11) | (imm105 << 5) | (imm41 << 1);
        let imm: i32 = ((imm as i32) << 19) >> 19;

        let rs1 = Register::from_index((value >> 15) & 0b11111);
        let rs2 = Register::from_index((value >> 20) & 0b11111);

        let funct3: u32 = (value >> 12) & 0b111;

        Self { imm, funct3, rs1, rs2 }
    }
}

/// The fields of a U-format word.
#[derive(Debug)]
pub struct UType {
    pub imm: i32,
    pub rd: Register,
}

impl FromSpecImpl<u32> for UType {
    open spec fn obeys_from_spec() -> bool {
        true
    }

    open spec fn from_spec(value: u32) -> Self {
        UType { imm: imm_u(value as int) as i32, rd: field_rd(value as int) }
    }
}

impl From<u32> for UType {
    fn from(value: u32) -> (r: Self) {
        proof {
            lemma_fields(value);
            lemma_immediates(value);
        }
        let imm: i32 = (value & !0xfffu32) as i32;
        let rd = Register::from_index((value >> 7) & 0b11111);

        Self { imm, rd }
    }
}

/// The fields of a J-format word.
#[derive(Debug)]
pub struct JType {
    pub imm: i32,
    pub rd: Register,
}

impl FromSpecImpl<u32> for JType {
    open spec fn obeys_from_spec() -> bool {
        true
    }

    open spec fn from_spec(value: u32) -> Self {
        JType { imm: imm_j(value as int) as i32, rd: field_rd(value as int) }
    }
}

impl From<u32> for JType {
    fn from(value: u32) -> (r: Self) {
        proof {
            lemma_fields(value);
            lemma_immediates(value);
        }
        let imm20: u32 = (value >> 31) & 0b1;
        let imm101: u32 = (value >> 21) & 0b1111111111;
        let imm11: u32 = (value >> 20) & 0b1;
        let imm1912: u32 = (value >> 12) & 0b11111111;

        let imm: u32 = (imm20 << 20) | (imm1912 << 12) | (imm11 << 11) | (imm101 << 1);
        let imm: i32 = ((imm as i32) << 11) >> 11;

        let rd = Register::from_index((value >> 7) & 0b11111);

        Self { imm, rd }
    }
}

/// The opcode table: the base format of each 7-bit primary opcode that the
/// decoder knows.
pub open spec fn format_of(opcode: int) -> Option<Type> {
    if opcode == 0b0110011 || opcode == 0b0111011 || opcode == 0b0101111 {
        Some(Type::R)
    } else if opcode == 0b0000011 || opcode == 0b0001111 || opcode == 0b0010011 || opcode
        == 0b0011011 || opcode == 0b1100111 || opcode == 0b1110011 {
        Some(Type::I)
    } else if opcode == 0b0100011 {
        Some(Type::S)
    } else if opcode == 0b1100011 {
        Some(Type::B)
    } else if opcode == 0b0010111 || opcode == 0b0110111 {
        Some(Type::U)
    } else if opcode == 0b1101111 {
        Some(Type::J)
    } else {
        None
    }
}

/// The opcode table as the decoder stores it: for each opcode 0 for no
/// format, or the position of its format in R, I, S, B, U, J, counted from 1.
pub const TYPE_MAPPING_TABLE: [u8; 128] = [
    0, 0, 0, 2, 0, 0, 0, 0, 0, 0, 0, 0, 0, 0, 0, 2,
    0, 0, 0, 2, 0, 0, 0, 5, 0, 0, 0, 2, 0, 0, 0, 0,
    0, 0, 0, 3, 0, 0, 0, 0, 0, 0, 0, 0, 0, 0, 0, 1,
    0, 0, 0, 1, 0, 0, 0, 5, 0, 0, 0, 1, 0, 0, 0, 0,
    0, 0, 0, 0, 0, 0, 0, 0, 0, 0, 0, 0, 0, 0, 0, 0,
    0, 0, 0, 0, 0, 0, 0, 0, 0, 0, 0, 0, 0, 0, 0, 0,
    0, 0, 0, 4, 0, 0, 0, 2, 0, 0, 0, 0, 0, 0, 0, 6,
    0, 0, 0, 2, 0, 0, 0, 0, 0, 0, 0, 0, 0, 0, 0, 0,
];

impl Instruction {
    /// The instruction that an R-format word with primary opcode `opcode`
    /// encodes: the register-register operations, their word forms, the
    /// multiply/divide extension and the word-sized atomic memory operations.
    pub open spec fn decode_r_spec(w: u32, opcode: u32) -> Instruction {
        let rd = field_rd(w as int);
        let rs1 = field_rs1(w as int);
        let rs2 = field_rs2(w as int);
        let funct3 = bits(w as int, 14, 12);
        let funct7 = bits(w as int, 31, 25);
        if opcode == 0b0110011 {
            if funct7 == 0b0000000 {
                if funct3 == 0b000 {
                    Instruction::Add { rd, rs1, rs2 }
                } else if funct3 == 0b001 {
                    Instruction::Sll { rd, rs1, rs2 }
                } else if funct3 == 0b010 {
                    Instruction::Slt { rd, rs1, rs2 }
                } else if funct3 == 0b011 {
                    Instruction::Sltu { rd, rs1, rs2 }
                } else if funct3 == 0b100 {
                    Instruction::Xor { rd, rs1, rs2 }
                } else if funct3 == 0b101 {
                    Instruction::Srl { rd, rs1, rs2 }
                } else if funct3 == 0b110 {
                    Instruction::Or { rd, rs1, rs2 }
                } else if funct3 == 0b111 {
                    Instruction::And { rd, rs1, rs2 }
                } else {
                    Instruction::Undefined(w)
                }
            } else if funct7 == 0b0100000 {
                if funct3 == 0b000 {
                    Instruction::Sub { rd, rs1, rs2 }
                } else if funct3 == 0b101 {
                    Instruction::Sra { rd, rs1, rs2 }
                } else {
                    Instruction::Undefined(w)
                }
            } else if funct7 == 0b0000001 {
                if funct3 == 0b000 {
                    Instruction::Mul { rd, rs1, rs2 }
                } else if funct3 == 0b001 {
                    Instruction::Mulh { rd, rs1, rs2 }
                } else if funct3 == 0b010 {
                    Instruction::Mulhsu { rd, rs1, rs2 }
                } else if funct3 == 0b011 {
                    Instruction::Mulhu { rd, rs1, rs2 }
                } else if funct3 == 0b100 {
                    Instruction::Div { rd, rs1, rs2 }
                } else if funct3 == 0b101 {
                    Instruction::Divu { rd, rs1, rs2 }
                } else if funct3 == 0b110 {
                    Instruction::Rem { rd, rs1, rs2 }
                } else if funct3 == 0b111 {
                    Instruction::Remu { rd, rs1, rs2 }
                } else {
                    Instruction::Undefined(w)
                }
            } else {
                Instruction::Undefined(w)
            }
        } else if opcode == 0b0111011 {
            if funct7 == 0b0000000 {
                if funct3 == 0b000 {
                    Instruction::Addw { rd, rs1, rs2 }
                } else if funct3 == 0b001 {
                    Instruction::Sllw { rd, rs1, rs2 }
                } else if funct3 == 0b101 {
                    Instruction::Srlw { rd, rs1, rs2 }
                } else {
                    Instruction::Undefined(w)
                }
            } else if funct7 == 0b0100000 {
                if funct3 == 0b000 {
                    Instruction::Subw { rd, rs1, rs2 }
                } else if funct3 == 0b101 {
                    Instruction::Sraw { rd, rs1, rs2 }
                } else {
                    Instruction::Undefined(w)
                }
            } else if funct7 == 0b0000001 {
                if funct3 == 0b000 {
                    Instruction::Mulw { rd, rs1, rs2 }
                } else if funct3 == 0b100 {
                    Instruction::Divw { rd, rs1, rs2 }
                } else if funct3 == 0b101 {
                    Instruction::Divuw { rd, rs1, rs2 }
                } else if funct3 == 0b110 {
                    Instruction::Remw { rd, rs1, rs2 }
                } else if funct3 == 0b111 {
                    Instruction::Remuw { rd, rs1, rs2 }
                } else {
                    Instruction::Undefined(w)
                }
            } else {
                Instruction::Undefined(w)
            }
        } else if opcode == 0b0101111 {
            let funct5 = bits(w as int, 31, 27);
            let aq = bit(w as int, 26);
            let rl = bit(w as int, 25);
            if funct3 == 0b010 {
                if funct5 == 0b00001 {
                    Instruction::Amoswapw { rd, rs1, rs2, aq, rl }
                } else if funct5 == 0b00000 {
                    Instruction::Amoaddw { rd, rs1, rs2, aq, rl }
                } else if funct5 == 0b00100 {
                    Instruction::Amoxorw { rd, rs1, rs2, aq, rl }
                } else if funct5 == 0b01100 {
                    Instruction::Amoandw { rd, rs1, rs2, aq, rl }
                } else if funct5 == 0b01000 {
                    Instruction::Amoorw { rd, rs1, rs2, aq, rl }
                } else if funct5 == 0b10000 {
                    Instruction::Amominw { rd, rs1, rs2, aq, rl }
                } else if funct5 == 0b10100 {
                    Instruction::Amomaxw { rd, rs1, rs2, aq, rl }
                } else if funct5 == 0b11000 {
                    Instruction::Amominuw { rd, rs1, rs2, aq, rl }
                } else if funct5 == 0b11100 {
                    Instruction::Amomaxuw { rd, rs1, rs2, aq, rl }
                } else {
                    Instruction::Undefined(w)
                }
            } else {
                Instruction::Undefined(w)
            }
        } else {
            Instruction::Undefined(w)
        }
    }

    /// The instruction that an I-format word with primary opcode `opcode`
    /// encodes.
    ///
    /// A doubleword shift takes its amount from `w[25:20]`; of the right
    /// shifts `w[31:26]` tells the logical from the arithmetic one.  A word
    /// shift takes its amount from `w[24:20]` and `w[31:25]` must be the
    /// pattern of the operation.
    pub open spec fn decode_i_spec(w: u32, opcode: u32) -> Instruction {
        let rd = field_rd(w as int);
        let rs1 = field_rs1(w as int);
        let imm = imm_i(w as int) as i32;
        let funct3 = bits(w as int, 14, 12);
        let funct7 = bits(w as int, 31, 25);
        if opcode == 0b1100111 {
            if funct3 == 0b000 {
                Instruction::Jalr { rd, rs1, imm }
            } else {
                Instruction::Undefined(w)
            }
        } else if opcode == 0b0000011 {
            if funct3 == 0b000 {
                Instruction::Lb { rd, rs1, imm }
            } else if funct3 == 0b001 {
                Instruction::Lh { rd, rs1, imm }
            } else if funct3 == 0b010 {
                Instruction::Lw { rd, rs1, imm }
            } else if funct3 == 0b011 {
                Instruction::Ld { rd, rs1, imm }
            } else if funct3 == 0b100 {
                Instruction::Lbu { rd, rs1, imm }
            } else if funct3 == 0b101 {
                Instruction::Lhu { rd, rs1, imm }
            } else if funct3 == 0b110 {
                Instruction::Lwu { rd, rs1, imm }
            } else {
                Instruction::Undefined(w)
            }
        } else if opcode == 0b0010011 {
            let shamt = bits(w as int, 25, 20) as i32;
            let mode = bits(w as int, 31, 26);
            if funct3 == 0b001 {
                Instruction::Slli { rd, rs1, shamt }
            } else if funct3 == 0b101 {
                if mode == 0b000000 {
                    Instruction::Srli { rd, rs1, shamt }
                } else if mode == 0b010000 {
                    Instruction::Srai { rd, rs1, shamt }
                } else {
                    Instruction::Undefined(w)
                }
            } else {
                if funct3 == 0b000 {
                    Instruction::Addi { rd, rs1, imm }
                } else if funct3 == 0b010 {
                    Instruction::Slti { rd, rs1, imm }
                } else if funct3 == 0b011 {
                    Instruction::Sltiu { rd, rs1, imm }
                } else if funct3 == 0b100 {
                    Instruction::Xori { rd, rs1, imm }
                } else if funct3 == 0b110 {
                    Instruction::Ori { rd, rs1, imm }
                } else if funct3 == 0b111 {
                    Instruction::Andi { rd, rs1, imm }
                } else {
                    Instruction::Undefined(w)
                }
            }
        } else if opcode == 0b0011011 {
            let shamt = bits(w as int, 24, 20) as i32;
            if funct3 == 0b000 {
                Instruction::Addiw { rd, rs1, imm }
            } else if funct3 == 0b001 && funct7 == 0b0000000 {
                Instruction::Slliw { rd, rs1, shamt }
            } else if funct3 == 0b101 && funct7 == 0b0000000 {
                Instruction::Srliw { rd, rs1, shamt }
            } else if funct3 == 0b101 && funct7 == 0b0100000 {
                Instruction::Sraiw { rd, rs1, shamt }
            } else {
                Instruction::Undefined(w)
            }
        } else if opcode == 0b0001111 {
            if funct3 == 0b000 {
                Instruction::Fence { rd, rs1, imm }
            } else if funct3 == 0b001 {
                Instruction::FenceI { rd, rs1, imm }
            } else {
                Instruction::Undefined(w)
            }
        } else if opcode == 0b1110011 {
            let csr = bits(w as int, 31, 20) as u16;
            let uimm = bits(w as int, 19, 15) as u32;
            if funct3 == 0b000 {
                if csr == 0 {
                    Instruction::Ecall
                } else if csr == 1 {
                    Instruction::Ebreak
                } else {
                    Instruction::Undefined(w)
                }
            } else if funct3 == 0b001 {
                Instruction::Csrrw { rd, rs1, csr }
            } else if funct3 == 0b010 {
                Instruction::Csrrs { rd, rs1, csr }
            } else if funct3 == 0b011 {
                Instruction::Csrrc { rd, rs1, csr }
            } else if funct3 == 0b101 {
                Instruction::Csrrwi { rd, uimm, csr }
            } else if funct3 == 0b110 {
                Instruction::Csrrsi { rd, uimm, csr }
            } else if funct3 == 0b111 {
                Instruction::Csrrci { rd, uimm, csr }
            } else {
                Instruction::Undefined(w)
            }
        } else {
            Instruction::Undefined(w)
        }
    }

    /// The store that an S-format word encodes.
    pub open spec fn decode_s_spec(w: u32, opcode: u32) -> Instruction {
        let rs1 = field_rs1(w as int);
        let rs2 = field_rs2(w as int);
        let imm = imm_s(w as int) as i32;
        let funct3 = bits(w as int, 14, 12);
        if opcode == 0b0100011 {
            if funct3 == 0b000 {
                Instruction::Sb { rs1, rs2, imm }
            } else if funct3 == 0b001 {
                Instruction::Sh { rs1, rs2, imm }
            } else if funct3 == 0b010 {
                Instruction::Sw { rs1, rs2, imm }
            } else if funct3 == 0b011 {
                Instruction::Sd { rs1, rs2, imm }
            } else {
                Instruction::Undefined(w)
            }
        } else {
            Instruction::Undefined(w)
        }
    }

    /// The conditional branch that a B-format word encodes.
    pub open spec fn decode_b_spec(w: u32, opcode: u32) -> Instruction {
        let rs1 = field_rs1(w as int);
        let rs2 = field_rs2(w as int);
        let imm = imm_b(w as int) as i32;
        let funct3 = bits(w as int, 14, 12);
        if opcode == 0b1100011 {
            if funct3 == 0b000 {
                Instruction::Beq { rs1, rs2, imm }
            } else if funct3 == 0b001 {
                Instruction::Bne { rs1, rs2, imm }
            } else if funct3 == 0b100 {
                Instruction::Blt { rs1, rs2, imm }
            } else if funct3 == 0b101 {
                Instruction::Bge { rs1, rs2, imm }
            } else if funct3 == 0b110 {
                Instruction::Bltu { rs1, rs2, imm }
            } else if funct3 == 0b111 {
                Instruction::Bgeu { rs1, rs2, imm }
            } else {
                Instruction::Undefined(w)
            }
        } else {
            Instruction::Undefined(w)
        }
    }

    /// The instruction that a U-format word encodes.
    pub open spec fn decode_u_spec(w: u32, opcode: u32) -> Instruction {
        let rd = field_rd(w as int);
        let imm = imm_u(w as int) as i32;
        if opcode == 0b0110111 {
            Instruction::Lui { rd, imm }
        } else if opcode == 0b0010111 {
            Instruction::Auipc { rd, imm }
        } else {
            Instruction::Undefined(w)
        }
    }

    /// The jump that a J-format word encodes.
    pub open spec fn decode_j_spec(w: u32, opcode: u32) -> Instruction {
        let rd = field_rd(w as int);
        let imm = imm_j(w as int) as i32;
        if opcode == 0b1101111 {
            Instruction::Jal { rd, imm }
        } else {
            Instruction::Undefined(w)
        }
    }

    /// The instruction that the 32-bit word `w` encodes, `Undefined(w)`
    /// where it encodes none: the primary opcode `w[6:0]` selects the format,
    /// the function fields select the operation.
    pub open spec fn decode_spec(w: u32) -> Instruction {
        let opcode = bits(w as int, 6, 0) as u32;
        match format_of(opcode as int) {
            Some(Type::R) => Self::decode_r_spec(w, opcode),
            Some(Type::I) => Self::decode_i_spec(w, opcode),
            Some(Type::S) => Self::decode_s_spec(w, opcode),
            Some(Type::B) => Self::decode_b_spec(w, opcode),
            Some(Type::U) => Self::decode_u_spec(w, opcode),
            Some(Type::J) => Self::decode_j_spec(w, opcode),
            None => Instruction::Undefined(w),
        }
    }

    /// Every 32-bit word decodes to a well-formed instruction, and a word
    /// that encodes none decodes to `Undefined` with the word itself, never
    /// to the undefined variant of the 16-bit words.
    pub proof fn lemma_decode(w: u32)
        ensures
            Self::decode_spec(w).wf(),
            Self::decode_spec(w) matches Instruction::Undefined(word) ==> word == w,
            !(Self::decode_spec(w) is UndefinedCompressed),
    {
        let opcode = bits(w as int, 6, 0) as u32;
        Self::lemma_decode_r(w, opcode);
        Self::lemma_decode_i(w, opcode);
        Self::lemma_decode_s(w, opcode);
        Self::lemma_decode_b(w, opcode);
        Self::lemma_decode_u(w, opcode);
        Self::lemma_decode_j(w, opcode);
    }

    /// What `lemma_decode` says of a word, said of the R format.
    proof fn lemma_decode_r(w: u32, opcode: u32)
        ensures
            Self::decode_r_spec(w, opcode).wf(),
            Self::decode_r_spec(w, opcode) matches Instruction::Undefined(word) ==> word == w,
            !(Self::decode_r_spec(w, opcode) is UndefinedCompressed),
    {
        Register::lemma_of(bits(w as int, 11, 7));
    }

    /// What `lemma_decode` says of a word, said of the I format.
    proof fn lemma_decode_i(w: u32, opcode: u32)
        ensures
            Self::decode_i_spec(w, opcode).wf(),
            Self::decode_i_spec(w, opcode) matches Instruction::Undefined(word) ==> word == w,
            !(Self::decode_i_spec(w, opcode) is UndefinedCompressed),
    {
        Register::lemma_of(bits(w as int, 11, 7));
    }

    /// What `lemma_decode` says of a word, said of the S format.
    proof fn lemma_decode_s(w: u32, opcode: u32)
        ensures
            Self::decode_s_spec(w, opcode).wf(),
            Self::decode_s_spec(w, opcode) matches Instruction::Undefined(word) ==> word == w,
            !(Self::decode_s_spec(w, opcode) is UndefinedCompressed),
    {
        Register::lemma_of(bits(w as int, 11, 7));
    }

    /// What `lemma_decode` says of a word, said of the B format.
    proof fn lemma_decode_b(w: u32, opcode: u32)
        ensures
            Self::decode_b_spec(w, opcode).wf(),
            Self::decode_b_spec(w, opcode) matches Instruction::Undefined(word) ==> word == w,
            !(Self::decode_b_spec(w, opcode) is UndefinedCompressed),
    {
        Register::lemma_of(bits(w as int, 11, 7));
    }

    /// What `lemma_decode` says of a word, said of the U format.
    proof fn lemma_decode_u(w: u32, opcode: u32)
        ensures
            Self::decode_u_spec(w, opcode).wf(),
            Self::decode_u_spec(w, opcode) matches Instruction::Undefined(word) ==> word == w,
            !(Self::decode_u_spec(w, opcode) is UndefinedCompressed),
    {
        Register::lemma_of(bits(w as int, 11, 7));
    }

    /// What `lemma_decode` says of a word, said of the J format.
    proof fn lemma_decode_j(w: u32, opcode: u32)
        ensures
            Self::decode_j_spec(w, opcode).wf(),
            Self::decode_j_spec(w, opcode) matches Instruction::Undefined(word) ==> word == w,
            !(Self::decode_j_spec(w, opcode) is UndefinedCompressed),
    {
        Register::lemma_of(bits(w as int, 11, 7));
    }

    /// Immediate shifts and their upper bits.  Of the doubleword right
    /// shifts, `w[31:26]` tells `SRLI` from `SRAI` and any other pattern is
    /// undefined; the amount is `w[25:20]`.  A word shift with `w[25]` set is
    /// undefined.
    pub proof fn lemma_shift_immediates(w: u32)
        ensures
            bits(w as int, 6, 0) == 0b0010011 && bits(w as int, 14, 12) == 0b101
                ==> Self::decode_spec(w) == (if bits(w as int, 31, 26) == 0b000000 {
                Instruction::Srli {
                    rd: field_rd(w as int),
                    rs1: field_rs1(w as int),
                    shamt: bits(w as int, 25, 20) as i32,
                }
            } else if bits(w as int, 31, 26) == 0b010000 {
                Instruction::Srai {
                    rd: field_rd(w as int),
                    rs1: field_rs1(w as int),
                    shamt: bits(w as int, 25, 20) as i32,
                }
            } else {
                Instruction::Undefined(w)
            }),
            bits(w as int, 6, 0) == 0b0011011 && (bits(w as int, 14, 12) == 0b001 || bits(
                w as int,
                14,
                12,
            ) == 0b101) && bit(w as int, 25) ==> Self::decode_spec(w) == Instruction::Undefined(w),
    {
        lemma_fields(w);
    }

    /// Decodes a 32-bit code word.  Every word decodes; one that encodes no
    /// supported instruction gives `Undefined` with the word itself.
    pub fn decode(inst: u32) -> (r: Self)
        ensures
            r == Self::decode_spec(inst),
            r.wf(),
            r matches Instruction::Undefined(word) ==> word == inst,
            !(r is UndefinedCompressed),
    {
        proof {
            lemma_fields(inst);
        }
        let opcode: u32 = inst & 0b1111111;

        if let Some(typ) = Self::decode_type(opcode) {
            return match typ {
                Type::R => Self::decode_r(inst, opcode),
                Type::I => Self::decode_i(inst, opcode),
                Type::S => Self::decode_s(inst, opcode),
                Type::B => Self::decode_b(inst, opcode),
                Type::U => Self::decode_u(inst, opcode),
                Type::J => Self::decode_j(inst, opcode),
            };
        }
        Instruction::Undefined(inst)
    }

    /// Looks the base format of a primary opcode up in the opcode table.
    pub fn decode_type(opcode: u32) -> (r: Option<Type>)
        requires
            opcode < 128,
        ensures
            r == format_of(opcode as int),
    {
        let code: u8 = TYPE_MAPPING_TABLE[opcode as usize];
        match code {
            1 => Some(Type::R),
            2 => Some(Type::I),
            3 => Some(Type::S),
            4 => Some(Type::B),
            5 => Some(Type::U),
            6 => Some(Type::J),
            _ => None,
        }
    }

    fn decode_r(word: u32, opcode: u32) -> (r: Self)
        ensures
            r == Self::decode_r_spec(word, opcode),
            r.wf(),
            r matches Instruction::Undefined(word) ==> word == word,
            !(r is UndefinedCompressed),
    {
        proof {
            lemma_fields(word);
        }
        let inst = RType::from(word);
        let rd = inst.rd;
        let rs1 = inst.rs1;
        let rs2 = inst.rs2;

        match opcode {
            0b0110011 => {
                match (inst.funct7, inst.funct3) {
                    (0b0000000, 0b000) => Instruction::Add { rd, rs1, rs2 },
                    (0b0100000, 0b000) => Instruction::Sub { rd, rs1, rs2 },
                    (0b0000000, 0b001) => Instruction::Sll { rd, rs1, rs2 },
                    (0b0000000, 0b010) => Instruction::Slt { rd, rs1, rs2 },
                    (0b0000000, 0b011) => Instruction::Sltu { rd, rs1, rs2 },
                    (0b0000000, 0b100) => Instruction::Xor { rd, rs1, rs2 },
                    (0b0000000, 0b101) => Instruction::Srl { rd, rs1, rs2 },
                    (0b0100000, 0b101) => Instruction::Sra { rd, rs1, rs2 },
                    (0b0000000, 0b110) => Instruction::Or { rd, rs1, rs2 },
                    (0b0000000, 0b111) => Instruction::And { rd, rs1, rs2 },
                    (0b0000001, 0b000) => Instruction::Mul { rd, rs1, rs2 },
                    (0b0000001, 0b001) => Instruction::Mulh { rd, rs1, rs2 },
                    (0b0000001, 0b010) => Instruction::Mulhsu { rd, rs1, rs2 },
                    (0b0000001, 0b011) => Instruction::Mulhu { rd, rs1, rs2 },
                    (0b0000001, 0b100) => Instruction::Div { rd, rs1, rs2 },
                    (0b0000001, 0b101) => Instruction::Divu { rd, rs1, rs2 },
                    (0b0000001, 0b110) => Instruction::Rem { rd, rs1, rs2 },
                    (0b0000001, 0b111) => Instruction::Remu { rd, rs1, rs2 },
                    _ => Instruction::Undefined(word),
                }
            },
            0b0111011 => {
                match (inst.funct7, inst.funct3) {
                    (0b0000000, 0b000) => Instruction::Addw { rd, rs1, rs2 },
                    (0b0100000, 0b000) => Instruction::Subw { rd, rs1, rs2 },
                    (0b0000000, 0b001) => Instruction::Sllw { rd, rs1, rs2 },
                    (0b0000000, 0b101) => Instruction::Srlw { rd, rs1, rs2 },
                    (0b0100000, 0b101) => Instruction::Sraw { rd, rs1, rs2 },
                    (0b0000001, 0b000) => Instruction::Mulw { rd, rs1, rs2 },
                    (0b0000001, 0b100) => Instruction::Divw { rd, rs1, rs2 },
                    (0b0000001, 0b101) => Instruction::Divuw { rd, rs1, rs2 },
                    (0b0000001, 0b110) => Instruction::Remw { rd, rs1, rs2 },
                    (0b0000001, 0b111) => Instruction::Remuw { rd, rs1, rs2 },
                    _ => Instruction::Undefined(word),
                }
            },
            0b0101111 => {
                let funct5: u32 = (word >> 27) & 0b11111;
                let aq: bool = (word >> 26) & 0b1 == 1;
                let rl: bool = (word >> 25) & 0b1 == 1;

                match (funct5, inst.funct3) {
                    (0b00001, 0b010) => Instruction::Amoswapw { rd, rs1, rs2, aq, rl },
                    (0b00000, 0b010) => Instruction::Amoaddw { rd, rs1, rs2, aq, rl },
                    (0b00100, 0b010) => Instruction::Amoxorw { rd, rs1, rs2, aq, rl },
                    (0b01100, 0b010) => Instruction::Amoandw { rd, rs1, rs2, aq, rl },
                    (0b01000, 0b010) => Instruction::Amoorw { rd, rs1, rs2, aq, rl },
                    (0b10000, 0b010) => Instruction::Amominw { rd, rs1, rs2, aq, rl },
                    (0b10100, 0b010) => Instruction::Amomaxw { rd, rs1, rs2, aq, rl },
                    (0b11000, 0b010) => Instruction::Amominuw { rd, rs1, rs2, aq, rl },
                    (0b11100, 0b010) => Instruction::Amomaxuw { rd, rs1, rs2, aq, rl },
                    _ => Instruction::Undefined(word),
                }
            },
            _ => Instruction::Undefined(word),
        }
    }

    fn decode_i(word: u32, opcode: u32) -> (r: Self)
        ensures
            r == Self::decode_i_spec(word, opcode),
            r.wf(),
            r matches Instruction::Undefined(word) ==> word == word,
            !(r is UndefinedCompressed),
    {
        proof {
            lemma_fields(word);
        }
        let inst = IType::from(word);
        let rd = inst.rd;
        let rs1 = inst.rs1;
        let imm: i32 = inst.imm;

        match opcode {
            0b1100111 => {
                match inst.funct3 {
                    0b000 => Instruction::Jalr { rd, rs1, imm },
                    _ => Instruction::Undefined(word),
                }
            },
            0b0000011 => {
                match inst.funct3 {
                    0b000 => Instruction::Lb { rd, rs1, imm },
                    0b001 => Instruction::Lh { rd, rs1, imm },
                    0b010 => Instruction::Lw { rd, rs1, imm },
                    0b100 => Instruction::Lbu { rd, rs1, imm },
                    0b101 => Instruction::Lhu { rd, rs1, imm },
                    0b110 => Instruction::Lwu { rd, rs1, imm },
                    0b011 => Instruction::Ld { rd, rs1, imm },
                    _ => Instruction::Undefined(word),
                }
            },
            0b0010011 => {
                match inst.funct3 {
                    0b000 => Instruction::Addi { rd, rs1, imm },
                    0b010 => Instruction::Slti { rd, rs1, imm },
                    0b011 => Instruction::Sltiu { rd, rs1, imm },
                    0b100 => Instruction::Xori { rd, rs1, imm },
                    0b110 => Instruction::Ori { rd, rs1, imm },
                    0b111 => Instruction::Andi { rd, rs1, imm },
                    0b001 => {
                        let shamt: i32 = ((word >> 20) & 0b111111) as i32;
                        Instruction::Slli { rd, rs1, shamt }
                    },
                    0b101 => {
                        let shamt: i32 = ((word >> 20) & 0b111111) as i32;
                        let mode: u32 = (word >> 26) & 0b111111;

                        match mode {
                            0b000000 => Instruction::Srli { rd, rs1, shamt },
                            0b010000 => Instruction::Srai { rd, rs1, shamt },
                            _ => Instruction::Undefined(word),
                        }
                    },
                    _ => Instruction::Undefined(word),
                }
            },
            0b0011011 => {
                let shamt: i32 = ((word >> 20) & 0b11111) as i32;
                let mode: u32 = (word >> 25) & 0b1111111;

                match (inst.funct3, mode) {
                    (0b000, _) => Instruction::Addiw { rd, rs1, imm },
                    (0b001, 0b0000000) => Instruction::Slliw { rd, rs1, shamt },
                    (0b101, 0b0000000) => Instruction::Srliw { rd, rs1, shamt },
                    (0b101, 0b0100000) => Instruction::Sraiw { rd, rs1, shamt },
                    _ => Instruction::Undefined(word),
                }
            },
            0b0001111 => {
                match inst.funct3 {
                    0b000 => Instruction::Fence { rd, rs1, imm },
                    0b001 => Instruction::FenceI { rd, rs1, imm },
                    _ => Instruction::Undefined(word),
                }
            },
            0b1110011 => {
                let csr: u16 = ((word >> 20) & 0b111111111111) as u16;
                let uimm: u32 = (word >> 15) & 0b11111;

                match inst.funct3 {
                    0b000 => {
                        match csr {
                            0 => Instruction::Ecall,
                            1 => Instruction::Ebreak,
                            _ => Instruction::Undefined(word),
                        }
                    },
                    0b001 => Instruction::Csrrw { rd, rs1, csr },
                    0b010 => Instruction::Csrrs { rd, rs1, csr },
                    0b011 => Instruction::Csrrc { rd, rs1, csr },
                    0b101 => Instruction::Csrrwi { rd, uimm, csr },
                    0b110 => Instruction::Csrrsi { rd, uimm, csr },
                    0b111 => Instruction::Csrrci { rd, uimm, csr },
                    _ => Instruction::Undefined(word),
                }
            },
            _ => Instruction::Undefined(word),
        }
    }

    fn decode_s(word: u32, opcode: u32) -> (r: Self)
        ensures
            r == Self::decode_s_spec(word, opcode),
            r.wf(),
            r matches Instruction::Undefined(word) ==> word == word,
            !(r is UndefinedCompressed),
    {
        let inst = SType::from(word);
        let rs1 = inst.rs1;
        let rs2 = inst.rs2;
        let imm: i32 = inst.imm;

        match opcode {
            0b0100011 => {
                match inst.funct3 {
                    0b000 => Instruction::Sb { rs1, rs2, imm },
                    0b001 => Instruction::Sh { rs1, rs2, imm },
                    0b010 => Instruction::Sw { rs1, rs2, imm },
                    0b011 => Instruction::Sd { rs1, rs2, imm },
                    _ => Instruction::Undefined(word),
                }
            },
            _ => Instruction::Undefined(word),
        }
    }

    fn decode_b(word: u32, opcode: u32) -> (r: Self)
        ensures
            r == Self::decode_b_spec(word, opcode),
            r.wf(),
            r matches Instruction::Undefined(word) ==> word == word,
            !(r is UndefinedCompressed),
    {
        let inst = BType::from(word);
        let rs1 = inst.rs1;
        let rs2 = inst.rs2;
        let imm: i32 = inst.imm;

        match opcode {
            0b1100011 => {
                match inst.funct3 {
                    0b000 => Instruction::Beq { rs1, rs2, imm },
                    0b001 => Instruction::Bne { rs1, rs2, imm },
                    0b100 => Instruction::Blt { rs1, rs2, imm },
                    0b101 => Instruction::Bge { rs1, rs2, imm },
                    0b110 => Instruction::Bltu { rs1, rs2, imm },
                    0b111 => Instruction::Bgeu { rs1, rs2, imm },
                    _ => Instruction::Undefined(word),
                }
            },
            _ => Instruction::Undefined(word),
        }
    }

    fn decode_u(word: u32, opcode: u32) -> (r: Self)
        ensures
            r == Self::decode_u_spec(word, opcode),
            r.wf(),
            r matches Instruction::Undefined(word) ==> word == word,
            !(r is UndefinedCompressed),
    {
        proof {
            Register::lemma_of(bits(word as int, 11, 7));
        }
        let inst = UType::from(word);
        let rd = inst.rd;
        let imm: i32 = inst.imm;

        match opcode {
            0b0110111 => Instruction::Lui { rd, imm },
            0b0010111 => Instruction::Auipc { rd, imm },
            _ => Instruction::Undefined(word),
        }
    }

    fn decode_j(word: u32, opcode: u32) -> (r: Self)
        ensures
            r == Self::decode_j_spec(word, opcode),
            r.wf(),
            r matches Instruction::Undefined(word) ==> word == word,
            !(r is UndefinedCompressed),
    {
        proof {
            Register::lemma_of(bits(word as int, 11, 7));
        }
        let inst = JType::from(word);
        let imm: i32 = inst.imm;
        let rd = inst.rd;

        match opcode {
            0b1101111 => Instruction::Jal { rd, imm },
            _ => Instruction::Undefined(word),
        }
    }
}

} // verus!
