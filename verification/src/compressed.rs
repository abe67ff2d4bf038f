//! The decoder of 16-bit code words.
//!
//! The low two bits of a 16-bit word select its quadrant and `h[15:13]` the
//! family within it.  The immediates are scattered over the word; each is
//! specified here by the fields that make it up, in the notation of the
//! instruction-set manual, and scaled as the manual says.

use vstd::prelude::*;
use crate::bits::{bits, sext};
use crate::cpu::Register;
use crate::instruction::Instruction;

verus! {

/// The register that a 3-bit register field names: `x8` to `x15`.
pub open spec fn prime(field: int) -> Register {
    Register::of(8 + field)
}

/// The register field `h[4:2]` of the short formats.
pub open spec fn prime_low(h: int) -> Register {
    prime(bits(h, 4, 2))
}

/// The register field `h[9:7]` of the short formats.
pub open spec fn prime_high(h: int) -> Register {
    prime(bits(h, 9, 7))
}

/// The full register field `h[11:7]`.
pub open spec fn full_high(h: int) -> Register {
    Register::of(bits(h, 11, 7))
}

/// The full register field `h[6:2]`.
pub open spec fn full_low(h: int) -> Register {
    Register::of(bits(h, 6, 2))
}

/// The immediate of `C.ADDI4SPN`: `h[10:7]` are bits 9:6, `h[12:11]` bits
/// 5:4, `h[5]` bit 3 and `h[6]` bit 2.
pub open spec fn uimm_addi4spn(h: int) -> int {
    bits(h, 10, 7) * 64 + bits(h, 12, 11) * 16 + bits(h, 5, 5) * 8 + bits(h, 6, 6) * 4
}

/// The offset of a doubleword load or store: `h[6:5]` are bits 7:6 and
/// `h[12:10]` bits 5:3.
pub open spec fn uimm_double(h: int) -> int {
    bits(h, 6, 5) * 64 + bits(h, 12, 10) * 8
}

/// The offset of a word load or store: `h[5]` is bit 6, `h[12:10]` are bits
/// 5:3 and `h[6]` is bit 2.
pub open spec fn uimm_word(h: int) -> int {
    bits(h, 5, 5) * 64 + bits(h, 12, 10) * 8 + bits(h, 6, 6) * 4
}

/// The unsigned 6-bit immediate `h[12] ++ h[6:2]`.
pub open spec fn uimm6(h: int) -> int {
    bits(h, 12, 12) * 32 + bits(h, 6, 2)
}

/// The signed 6-bit immediate `sext(h[12] ++ h[6:2])`.
pub open spec fn imm6(h: int) -> int {
    sext(uimm6(h), 6)
}

/// The immediate of `C.ADDI16SP`: `h[12]` is bit 9, `h[4:3]` are bits 8:7,
/// `h[5]` is bit 6, `h[2]` bit 5 and `h[6]` bit 4; sign-extended.
pub open spec fn imm_addi16sp(h: int) -> int {
    sext(
        bits(h, 12, 12) * 512 + bits(h, 4, 3) * 128 + bits(h, 5, 5) * 64 + bits(h, 2, 2) * 32
            + bits(h, 6, 6) * 16,
        10,
    )
}

/// The immediate of `C.LUI`: `h[12]` is bit 17 and `h[6:2]` are bits 16:12;
/// sign-extended.
pub open spec fn imm_lui(h: int) -> int {
    sext(bits(h, 12, 12) * 0x20000 + bits(h, 6, 2) * 0x1000, 18)
}

/// The offset of `C.J`: `h[12]` is bit 11, `h[8]` bit 10, `h[10:9]` bits
/// 9:8, `h[6]` bit 7, `h[7]` bit 6, `h[2]` bit 5, `h[11]` bit 4 and
/// `h[5:3]` bits 3:1; sign-extended.
pub open spec fn imm_jump(h: int) -> int {
    sext(
        bits(h, 12, 12) * 2048 + bits(h, 8, 8) * 1024 + bits(h, 10, 9) * 256 + bits(h, 6, 6) * 128
            + bits(h, 7, 7) * 64 + bits(h, 2, 2) * 32 + bits(h, 11, 11) * 16 + bits(h, 5, 3) * 2,
        12,
    )
}

/// The offset of `C.BEQZ` and `C.BNEZ`: `h[12]` is bit 8, `h[6:5]` are bits
/// 7:6, `h[2]` is bit 5, `h[11:10]` are bits 4:3 and `h[4:3]` bits 2:1;
/// sign-extended.
pub open spec fn imm_branch(h: int) -> int {
    sext(
        bits(h, 12, 12) * 256 + bits(h, 6, 5) * 64 + bits(h, 2, 2) * 32 + bits(h, 11, 10) * 8
            + bits(h, 4, 3) * 2,
        9,
    )
}

/// The offset of a doubleword load from the stack: `h[4:2]` are bits 8:6,
/// `h[12]` is bit 5 and `h[6:5]` are bits 4:3.
pub open spec fn uimm_ldsp(h: int) -> int {
    bits(h, 4, 2) * 64 + bits(h, 12, 12) * 32 + bits(h, 6, 5) * 8
}

/// The offset of a word load from the stack: `h[3:2]` are bits 7:6, `h[12]`
/// is bit 5 and `h[6:4]` are bits 4:2.
pub open spec fn uimm_lwsp(h: int) -> int {
    bits(h, 3, 2) * 64 + bits(h, 12, 12) * 32 + bits(h, 6, 4) * 4
}

/// The offset of a doubleword store to the stack: `h[9:7]` are bits 8:6 and
/// `h[12:10]` bits 5:3.
pub open spec fn uimm_sdsp(h: int) -> int {
    bits(h, 9, 7) * 64 + bits(h, 12, 10) * 8
}

/// The offset of a word store to the stack: `h[8:7]` are bits 7:6 and
/// `h[12:9]` bits 5:2.
pub open spec fn uimm_swsp(h: int) -> int {
    bits(h, 8, 7) * 64 + bits(h, 12, 9) * 4
}

/// The fields of a 16-bit word as the decoder's shifts and masks compute
/// them.
proof fn lemma_fields16(h: u16)
    by (bit_vector)
    ensures
        h & 0b11 == h % 4,
        (h >> 13) & 0b111 == (h / 0x2000) % 8,
        (h >> 12) & 0b1 == (h / 0x1000) % 2,
        (h >> 10) & 0b11 == (h / 0x400) % 4,
        (h >> 7) & 0b11111 == (h / 0x80) % 0x20,
        (h >> 7) & 0b111 == (h / 0x80) % 8,
        (h >> 5) & 0b11 == (h / 0x20) % 4,
        (h >> 2) & 0b11111 == (h / 4) % 0x20,
        (h >> 2) & 0b111 == (h / 4) % 8,
{
}

/// The unsigned immediates of a 16-bit word as the decoder's shifts and
/// masks compute them.
proof fn lemma_unsigned_immediates(h: u16)
    by (bit_vector)
    ensures
        ((h >> 7) & 0b1111) << 6 | ((h >> 11) & 0b11) << 4 | ((h >> 5) & 0b1) << 3 | ((h >> 6)
            & 0b1) << 2 == (h / 0x80) % 16 * 64 + (h / 0x800) % 4 * 16 + (h / 0x20) % 2 * 8 + (h
            / 0x40) % 2 * 4,
        ((h >> 5) & 0b11) << 6 | ((h >> 10) & 0b111) << 3 == (h / 0x20) % 4 * 64 + (h / 0x400) % 8
            * 8,
        ((h >> 5) & 0b1) << 6 | ((h >> 10) & 0b111) << 3 | ((h >> 6) & 0b1) << 2 == (h / 0x20) % 2
            * 64 + (h / 0x400) % 8 * 8 + (h / 0x40) % 2 * 4,
        ((h >> 12) & 0b1) << 5 | ((h >> 2) & 0b11111) == (h / 0x1000) % 2 * 32 + (h / 4) % 32,
        ((h >> 2) & 0b111) << 6 | ((h >> 12) & 0b1) << 5 | ((h >> 5) & 0b11) << 3 == (h / 4) % 8
            * 64 + (h / 0x1000) % 2 * 32 + (h / 0x20) % 4 * 8,
        ((h >> 2) & 0b11) << 6 | ((h >> 12) & 0b1) << 5 | ((h >> 4) & 0b111) << 2 == (h / 4) % 4
            * 64 + (h / 0x1000) % 2 * 32 + (h / 0x10) % 8 * 4,
        ((h >> 7) & 0b111) << 6 | ((h >> 10) & 0b111) << 3 == (h / 0x80) % 8 * 64 + (h / 0x400) % 8
            * 8,
        ((h >> 7) & 0b11) << 6 | ((h >> 9) & 0b1111) << 2 == (h / 0x80) % 4 * 64 + (h / 0x200) % 16
            * 4,
{
}

/// The signed immediates of a 16-bit word as the decoder's shifts and masks
/// compute them.
proof fn lemma_signed_immediates(h: u16)
    by (bit_vector)
    ensures
        ({
            let raw = ((h >> 12) & 0b1) << 5 | ((h >> 2) & 0b11111);
            let field = (h / 0x1000) % 2 * 32 + (h / 4) % 32;
            ((raw as i32) << 26) >> 26 == (if field < 32 {
                field
            } else {
                field - 64
            })
        }),
        ({
            let raw = ((h >> 12) & 0b1) << 9 | ((h >> 3) & 0b11) << 7 | ((h >> 5) & 0b1) << 6 | ((h
                >> 2) & 0b1) << 5 | ((h >> 6) & 0b1) << 4;
            let field = (h / 0x1000) % 2 * 512 + (h / 8) % 4 * 128 + (h / 0x20) % 2 * 64 + (h / 4)
                % 2 * 32 + (h / 0x40) % 2 * 16;
            ((raw as i32) << 22) >> 22 == (if field < 512 {
                field
            } else {
                field - 1024
            })
        }),
        ({
            let raw = (((h >> 12) & 0b1) as u32) << 17 | (((h >> 2) & 0b11111) as u32) << 12;
            let field = (h / 0x1000) % 2 * 0x20000 + (h / 4) % 32 * 0x1000;
            ((raw as i32) << 14) >> 14 == (if field < 0x20000 {
                field
            } else {
                field - 0x40000
            })
        }),
        ({
            let raw = ((h >> 12) & 0b1) << 11 | ((h >> 8) & 0b1) << 10 | ((h >> 9) & 0b11) << 8 | ((
            h >> 6) & 0b1) << 7 | ((h >> 7) & 0b1) << 6 | ((h >> 2) & 0b1) << 5 | ((h >> 11) & 0b1)
                << 4 | ((h >> 3) & 0b111) << 1;
            let field = (h / 0x1000) % 2 * 2048 + (h / 0x100) % 2 * 1024 + (h / 0x200) % 4 * 256 + (
            h / 0x40) % 2 * 128 + (h / 0x80) % 2 * 64 + (h / 4) % 2 * 32 + (h / 0x800) % 2 * 16 + (h
                / 8) % 8 * 2;
            ((raw as i32) << 20) >> 20 == (if field < 2048 {
                field
            } else {
                field - 4096
            })
        }),
        ({
            let raw = ((h >> 12) & 0b1) << 8 | ((h >> 5) & 0b11) << 6 | ((h >> 2) & 0b1) << 5 | ((h
                >> 10) & 0b11) << 3 | ((h >> 3) & 0b11) << 1;
            let field = (h / 0x1000) % 2 * 256 + (h / 0x20) % 4 * 64 + (h / 4) % 2 * 32 + (h
                / 0x400) % 4 * 8 + (h / 8) % 4 * 2;
            ((raw as i32) << 23) >> 23 == (if field < 256 {
                field
            } else {
                field - 512
            })
        }),
{
}

impl Instruction {
    /// Quadrant 0: stack-pointer-relative address generation and the
    /// register-based loads and stores.  An all-zero immediate of
    /// `C.ADDI4SPN` and the family `100` are reserved.
    pub open spec fn decode_quadrant0_spec(h: u16) -> Instruction {
        let funct3 = bits(h as int, 15, 13);
        let rd = prime_low(h as int);
        let rs2 = prime_low(h as int);
        let rs1 = prime_high(h as int);
        if funct3 == 0b000 {
            let nzuimm = uimm_addi4spn(h as int) as u32;
            if nzuimm == 0 {
                Instruction::UndefinedCompressed(h)
            } else {
                Instruction::CAddi4spn { rd, nzuimm }
            }
        } else if funct3 == 0b001 {
            Instruction::CFld { rd, rs1, uimm: uimm_double(h as int) as u32 }
        } else if funct3 == 0b010 {
            Instruction::CLw { rd, rs1, uimm: uimm_word(h as int) as u32 }
        } else if funct3 == 0b011 {
            Instruction::CLd { rd, rs1, uimm: uimm_double(h as int) as u32 }
        } else if funct3 == 0b101 {
            Instruction::CFsd { rs1, rs2, uimm: uimm_double(h as int) as u32 }
        } else if funct3 == 0b110 {
            Instruction::CSw { rs1, rs2, uimm: uimm_word(h as int) as u32 }
        } else if funct3 == 0b111 {
            Instruction::CSd { rs1, rs2, uimm: uimm_double(h as int) as u32 }
        } else {
            Instruction::UndefinedCompressed(h)
        }
    }

    /// Quadrant 1: the immediate forms, the register-register operations of
    /// the short registers, the jump and the branches.
    ///
    /// `C.ADDI` with `x0` is `C.NOP` when its immediate is zero and a hint
    /// otherwise; with another register and a zero immediate it is a hint.
    /// `C.ADDIW` with `x0` is reserved.  `C.LI` with `x0` is a hint.  In the
    /// family `011`, `x2` selects `C.ADDI16SP`, `x0` is a hint, and a zero
    /// immediate is reserved.  A right shift by zero is a hint.
    pub open spec fn decode_quadrant1_spec(h: u16) -> Instruction {
        let funct3 = bits(h as int, 15, 13);
        let reg = full_high(h as int);
        let imm = imm6(h as int) as i32;
        if funct3 == 0b000 {
            if reg == Register::Zero {
                if imm != 0 {
                    Instruction::Hint
                } else {
                    Instruction::CNop
                }
            } else {
                if imm == 0 {
                    Instruction::Hint
                } else {
                    Instruction::CAddi { reg, nzimm: imm }
                }
            }
        } else if funct3 == 0b001 {
            if reg == Register::Zero {
                Instruction::UndefinedCompressed(h)
            } else {
                Instruction::CAddiw { reg, imm }
            }
        } else if funct3 == 0b010 {
            if reg == Register::Zero {
                Instruction::Hint
            } else {
                Instruction::CLi { rd: reg, imm }
            }
        } else if funct3 == 0b011 {
            if reg == Register::Sp {
                let nzimm = imm_addi16sp(h as int) as i32;
                if nzimm == 0 {
                    Instruction::UndefinedCompressed(h)
                } else {
                    Instruction::CAddi16sp { nzimm }
                }
            } else if reg == Register::Zero {
                Instruction::Hint
            } else {
                let nzimm = imm_lui(h as int) as i32;
                if nzimm == 0 {
                    Instruction::UndefinedCompressed(h)
                } else {
                    Instruction::CLui { rd: reg, nzimm }
                }
            }
        } else if funct3 == 0b100 {
            let funct2 = bits(h as int, 11, 10);
            let reg = prime_high(h as int);
            let rs2 = prime_low(h as int);
            let nzuimm = uimm6(h as int) as u32;
            if funct2 == 0b00 {
                if nzuimm == 0 {
                    Instruction::Hint
                } else {
                    Instruction::CSrli { reg, nzuimm }
                }
            } else if funct2 == 0b01 {
                if nzuimm == 0 {
                    Instruction::Hint
                } else {
                    Instruction::CSrai { reg, nzuimm }
                }
            } else if funct2 == 0b10 {
                Instruction::CAndi { reg, imm }
            } else {
                let wide = bits(h as int, 12, 12);
                let op = bits(h as int, 6, 5);
                if wide == 0 && op == 0b00 {
                    Instruction::CSub { reg, rs2 }
                } else if wide == 0 && op == 0b01 {
                    Instruction::CXor { reg, rs2 }
                } else if wide == 0 && op == 0b10 {
                    Instruction::COr { reg, rs2 }
                } else if wide == 0 && op == 0b11 {
                    Instruction::CAnd { reg, rs2 }
                } else if wide == 1 && op == 0b00 {
                    Instruction::CSubw { reg, rs2 }
                } else if wide == 1 && op == 0b01 {
                    Instruction::CAddw { reg, rs2 }
                } else {
                    Instruction::UndefinedCompressed(h)
                }
            }
        } else if funct3 == 0b101 {
            Instruction::CJ { imm: imm_jump(h as int) as i32 }
        } else if funct3 == 0b110 {
            Instruction::CBeqz { rs1: prime_high(h as int), imm: imm_branch(h as int) as i32 }
        } else {
            Instruction::CBnez { rs1: prime_high(h as int), imm: imm_branch(h as int) as i32 }
        }
    }

    /// Quadrant 2: the left shift, the stack-pointer-relative loads and
    /// stores, and the register jumps, move and add.
    ///
    /// `C.SLLI` with `x0` or with a zero amount is a hint.  `C.LWSP` and
    /// `C.LDSP` with `x0` are reserved.  In the family `100` with `h[12]`
    /// clear, a zero `h[6:2]` selects `C.JR`, reserved with `x0`, and any
    /// other `C.MV`, a hint with `x0`; with `h[12]` set, both fields zero
    /// are `C.EBREAK`, a zero `h[6:2]` selects `C.JALR`, and any other
    /// `C.ADD`, a hint with `x0`.
    pub open spec fn decode_quadrant2_spec(h: u16) -> Instruction {
        let funct3 = bits(h as int, 15, 13);
        let reg = full_high(h as int);
        let rs2 = full_low(h as int);
        if funct3 == 0b000 {
            let nzuimm = uimm6(h as int) as u32;
            if reg == Register::Zero || nzuimm == 0 {
                Instruction::Hint
            } else {
                Instruction::CSlli { reg, nzuimm }
            }
        } else if funct3 == 0b001 {
            Instruction::CFldsp { rd: reg, uimm: uimm_ldsp(h as int) as u32 }
        } else if funct3 == 0b010 {
            if reg == Register::Zero {
                Instruction::UndefinedCompressed(h)
            } else {
                Instruction::CLwsp { rd: reg, uimm: uimm_lwsp(h as int) as u32 }
            }
        } else if funct3 == 0b011 {
            if reg == Register::Zero {
                Instruction::UndefinedCompressed(h)
            } else {
                Instruction::CLdsp { rd: reg, uimm: uimm_ldsp(h as int) as u32 }
            }
        } else if funct3 == 0b100 {
            if bits(h as int, 12, 12) == 0 {
                if rs2 == Register::Zero {
                    if reg == Register::Zero {
                        Instruction::UndefinedCompressed(h)
                    } else {
                        Instruction::CJr { rs1: reg }
                    }
                } else {
                    if reg == Register::Zero {
                        Instruction::Hint
                    } else {
                        Instruction::CMv { rd: reg, rs2 }
                    }
                }
            } else {
                if rs2 == Register::Zero {
                    if reg == Register::Zero {
                        Instruction::CEbreak
                    } else {
                        Instruction::CJalr { rs1: reg }
                    }
                } else {
                    if reg == Register::Zero {
                        Instruction::Hint
                    } else {
                        Instruction::CAdd { reg, rs2 }
                    }
                }
            }
        } else if funct3 == 0b101 {
            Instruction::CFsdsp { rs2, uimm: uimm_sdsp(h as int) as u32 }
        } else if funct3 == 0b110 {
            Instruction::CSwsp { rs2, uimm: uimm_swsp(h as int) as u32 }
        } else {
            Instruction::CSdsp { rs2, uimm: uimm_sdsp(h as int) as u32 }
        }
    }

    /// The instruction that the 16-bit word `h` encodes; `Hint` where the
    /// instruction set declares the encoding a hint, and
    /// `UndefinedCompressed(h)` where it is reserved or not a 16-bit
    /// encoding at all.
    pub open spec fn decode_compressed_spec(h: u16) -> Instruction {
        let quadrant = bits(h as int, 1, 0);
        if quadrant == 0b00 {
            Self::decode_quadrant0_spec(h)
        } else if quadrant == 0b01 {
            Self::decode_quadrant1_spec(h)
        } else if quadrant == 0b10 {
            Self::decode_quadrant2_spec(h)
        } else {
            Instruction::UndefinedCompressed(h)
        }
    }

    /// Every 16-bit word decodes to a well-formed instruction, and a word
    /// that encodes none decodes to `UndefinedCompressed` with the word
    /// itself, never to the undefined variant of the 32-bit words.
    pub proof fn lemma_decode_compressed(h: u16)
        ensures
            Self::decode_compressed_spec(h).wf(),
            Self::decode_compressed_spec(h) matches Instruction::UndefinedCompressed(half) ==> half
                == h,
            !(Self::decode_compressed_spec(h) is Undefined),
    {
        Self::lemma_decode_quadrant0(h);
        Self::lemma_decode_quadrant1(h);
        Self::lemma_decode_quadrant2(h);
    }

    /// What `lemma_decode_compressed` says of a word, said of quadrant 0.
    proof fn lemma_decode_quadrant0(h: u16)
        ensures
            Self::decode_quadrant0_spec(h).wf(),
            Self::decode_quadrant0_spec(h) matches Instruction::UndefinedCompressed(half) ==> half
                == h,
            !(Self::decode_quadrant0_spec(h) is Undefined),
    {
        Register::lemma_of(bits(h as int, 11, 7));
        Register::lemma_of(bits(h as int, 6, 2));
        Register::lemma_of(8 + bits(h as int, 4, 2));
        Register::lemma_of(8 + bits(h as int, 9, 7));
    }

    /// What `lemma_decode_compressed` says of a word, said of quadrant 1.
    proof fn lemma_decode_quadrant1(h: u16)
        ensures
            Self::decode_quadrant1_spec(h).wf(),
            Self::decode_quadrant1_spec(h) matches Instruction::UndefinedCompressed(half) ==> half
                == h,
            !(Self::decode_quadrant1_spec(h) is Undefined),
    {
        Register::lemma_of(bits(h as int, 11, 7));
        Register::lemma_of(bits(h as int, 6, 2));
        Register::lemma_of(8 + bits(h as int, 4, 2));
        Register::lemma_of(8 + bits(h as int, 9, 7));
    }

    /// What `lemma_decode_compressed` says of a word, said of quadrant 2.
    proof fn lemma_decode_quadrant2(h: u16)
        ensures
            Self::decode_quadrant2_spec(h).wf(),
            Self::decode_quadrant2_spec(h) matches Instruction::UndefinedCompressed(half) ==> half
                == h,
            !(Self::decode_quadrant2_spec(h) is Undefined),
    {
        Register::lemma_of(bits(h as int, 11, 7));
        Register::lemma_of(bits(h as int, 6, 2));
        Register::lemma_of(8 + bits(h as int, 4, 2));
        Register::lemma_of(8 + bits(h as int, 9, 7));
    }

    fn reg_from_prime(prime: u16) -> (reg: Register)
        requires
            prime < 8,
        ensures
            reg == self::prime(prime as int),
            reg.is_general(),
    {
        match prime {
            0b000 => Register::S0,
            0b001 => Register::S1,
            0b010 => Register::A0,
            0b011 => Register::A1,
            0b100 => Register::A2,
            0b101 => Register::A3,
            0b110 => Register::A4,
            _ => Register::A5,
        }
    }

    /// Decodes a 16-bit code word.  Every word decodes.
    pub fn decode_compressed(inst: u16) -> (r: Self)
        ensures
            r == Self::decode_compressed_spec(inst),
            r.wf(),
            r matches Instruction::UndefinedCompressed(half) ==> half == inst,
            !(r is Undefined),
    {
        proof {
            lemma_fields16(inst);
        }
        let quad: u16 = inst & 0b11;
        match quad {
            0b00 => Self::decode_quadrant0(inst),
            0b01 => Self::decode_quadrant1(inst),
            0b10 => Self::decode_quadrant2(inst),
            _ => Instruction::UndefinedCompressed(inst),
        }
    }

    fn decode_quadrant0(inst: u16) -> (r: Self)
        ensures
            r == Self::decode_quadrant0_spec(inst),
            r.wf(),
            r matches Instruction::UndefinedCompressed(half) ==> half == inst,
            !(r is Undefined),
    {
        proof {
            lemma_fields16(inst);
            lemma_unsigned_immediates(inst);
        }
        let funct3: u16 = (inst >> 13) & 0b111;

        match funct3 {
            0b000 => {
                let nzuimm45: u16 = (inst >> 11) & 0b11;
                let nzuimm69: u16 = (inst >> 7) & 0b1111;
                let nzuimm2: u16 = (inst >> 6) & 0b1;
                let nzuimm3: u16 = (inst >> 5) & 0b1;
                let nzuimm: u16 = nzuimm69 << 6 | nzuimm45 << 4 | nzuimm3 << 3 | nzuimm2 << 2;
                let rd: u16 = (inst >> 2) & 0b111;

                if nzuimm == 0 {
                    Instruction::UndefinedCompressed(inst)
                } else {
                    let rd = Self::reg_from_prime(rd);
                    let nzuimm: u32 = nzuimm as u32;
                    Instruction::CAddi4spn { rd, nzuimm }
                }
            },
            0b001 => {
                let uimm35: u16 = (inst >> 10) & 0b111;
                let uimm67: u16 = (inst >> 5) & 0b11;
                let uimm: u16 = uimm67 << 6 | uimm35 << 3;
                let uimm: u32 = uimm as u32;

                let rs1 = Self::reg_from_prime((inst >> 7) & 0b111);
                let rd = Self::reg_from_prime((inst >> 2) & 0b111);

                Instruction::CFld { rd, rs1, uimm }
            },
            0b010 => {
                let uimm35: u16 = (inst >> 10) & 0b111;
                let uimm2: u16 = (inst >> 6) & 0b1;
                let uimm6: u16 = (inst >> 5) & 0b1;
                let uimm: u16 = uimm6 << 6 | uimm35 << 3 | uimm2 << 2;
                let uimm: u32 = uimm as u32;

                let rs1 = Self::reg_from_prime((inst >> 7) & 0b111);
                let rd = Self::reg_from_prime((inst >> 2) & 0b111);

                Instruction::CLw { rd, rs1, uimm }
            },
            0b011 => {
                let uimm35: u16 = (inst >> 10) & 0b111;
                let uimm67: u16 = (inst >> 5) & 0b11;
                let uimm: u16 = uimm67 << 6 | uimm35 << 3;
                let uimm: u32 = uimm as u32;

                let rs1 = Self::reg_from_prime((inst >> 7) & 0b111);
                let rd = Self::reg_from_prime((inst >> 2) & 0b111);

                Instruction::CLd { rd, rs1, uimm }
            },
            0b101 => {
                let uimm35: u16 = (inst >> 10) & 0b111;
                let uimm67: u16 = (inst >> 5) & 0b11;
                let uimm: u16 = uimm67 << 6 | uimm35 << 3;
                let uimm: u32 = uimm as u32;

                let rs1 = Self::reg_from_prime((inst >> 7) & 0b111);
                let rs2 = Self::reg_from_prime((inst >> 2) & 0b111);

                Instruction::CFsd { rs1, rs2, uimm }
            },
            0b110 => {
                let uimm35: u16 = (inst >> 10) & 0b111;
                let uimm2: u16 = (inst >> 6) & 0b1;
                let uimm6: u16 = (inst >> 5) & 0b1;
                let uimm: u16 = uimm6 << 6 | uimm35 << 3 | uimm2 << 2;
                let uimm: u32 = uimm as u32;

                let rs1 = Self::reg_from_prime((inst >> 7) & 0b111);
                let rs2 = Self::reg_from_prime((inst >> 2) & 0b111);

                Instruction::CSw { rs1, rs2, uimm }
            },
            0b111 => {
                let uimm35: u16 = (inst >> 10) & 0b111;
                let uimm67: u16 = (inst >> 5) & 0b11;
                let uimm: u16 = uimm67 << 6 | uimm35 << 3;
                let uimm: u32 = uimm as u32;

                let rs1 = Self::reg_from_prime((inst >> 7) & 0b111);
                let rs2 = Self::reg_from_prime((inst >> 2) & 0b111);

                Instruction::CSd { rs1, rs2, uimm }
            },
            _ => Instruction::UndefinedCompressed(inst),
        }
    }

    fn decode_quadrant1(inst: u16) -> (r: Self)
        ensures
            r == Self::decode_quadrant1_spec(inst),
            r.wf(),
            r matches Instruction::UndefinedCompressed(half) ==> half == inst,
            !(r is Undefined),
    {
        proof {
            lemma_fields16(inst);
            lemma_unsigned_immediates(inst);
            lemma_signed_immediates(inst);
        }
        let funct3: u16 = (inst >> 13) & 0b111;

        match funct3 {
            0b000 => {
                let nzimm5: u16 = (inst >> 12) & 0b1;
                let nzimm04: u16 = (inst >> 2) & 0b11111;
                let nzimm: u16 = nzimm5 << 5 | nzimm04;
                let nzimm: i32 = ((nzimm as i32) << 26) >> 26;

                let reg = Register::from_index(((inst >> 7) & 0b11111) as u32);
                if reg == Register::Zero {
                    if nzimm != 0 {
                        Instruction::Hint
                    } else {
                        Instruction::CNop
                    }
                } else {
                    if nzimm == 0 {
                        Instruction::Hint
                    } else {
                        Instruction::CAddi { reg, nzimm }
                    }
                }
            },
            0b001 => {
                let imm5: u16 = (inst >> 12) & 0b1;
                let imm04: u16 = (inst >> 2) & 0b11111;
                let imm: u16 = imm5 << 5 | imm04;
                let imm: i32 = ((imm as i32) << 26) >> 26;

                let reg = Register::from_index(((inst >> 7) & 0b11111) as u32);

                if reg == Register::Zero {
                    Instruction::UndefinedCompressed(inst)
                } else {
                    Instruction::CAddiw { reg, imm }
                }
            },
            0b010 => {
                let imm5: u16 = (inst >> 12) & 0b1;
                let imm04: u16 = (inst >> 2) & 0b11111;
                let imm: u16 = imm5 << 5 | imm04;
                let imm: i32 = ((imm as i32) << 26) >> 26;

                let rd = Register::from_index(((inst >> 7) & 0b11111) as u32);

                if rd == Register::Zero {
                    Instruction::Hint
                } else {
                    Instruction::CLi { rd, imm }
                }
            },
            0b011 => {
                let rd = Register::from_index(((inst >> 7) & 0b11111) as u32);
                if rd == Register::Sp {
                    let nzimm9: u16 = (inst >> 12) & 0b1;
                    let nzimm4: u16 = (inst >> 6) & 0b1;
                    let nzimm6: u16 = (inst >> 5) & 0b1;
                    let nzimm87: u16 = (inst >> 3) & 0b11;
                    let nzimm5: u16 = (inst >> 2) & 0b1;
                    let nzimm: u16 = nzimm9 << 9 | nzimm87 << 7 | nzimm6 << 6 | nzimm5 << 5 | nzimm4
                        << 4;
                    let nzimm: i32 = ((nzimm as i32) << 22) >> 22;

                    if nzimm == 0 {
                        Instruction::UndefinedCompressed(inst)
                    } else {
                        Instruction::CAddi16sp { nzimm }
                    }
                } else if rd == Register::Zero {
                    Instruction::Hint
                } else {
                    let nzimm17: u32 = ((inst >> 12) & 0b1) as u32;
                    let nzimm1612: u32 = ((inst >> 2) & 0b11111) as u32;

                    let nzimm: u32 = nzimm17 << 17 | nzimm1612 << 12;
                    let nzimm: i32 = ((nzimm as i32) << 14) >> 14;

                    if nzimm == 0 {
                        Instruction::UndefinedCompressed(inst)
                    } else {
                        Instruction::CLui { rd, nzimm }
                    }
                }
            },
            0b100 => {
                let funct2: u16 = (inst >> 10) & 0b11;
                match funct2 {
                    0b00 => {
                        let nzuimm5: u16 = (inst >> 12) & 0b1;
                        let nzuimm04: u16 = (inst >> 2) & 0b11111;
                        let nzuimm: u16 = nzuimm5 << 5 | nzuimm04;
                        let nzuimm: u32 = nzuimm as u32;

                        let reg = Self::reg_from_prime((inst >> 7) & 0b111);

                        if nzuimm == 0 {
                            Instruction::Hint
                        } else {
                            Instruction::CSrli { reg, nzuimm }
                        }
                    },
                    0b01 => {
                        let nzuimm5: u16 = (inst >> 12) & 0b1;
                        let nzuimm04: u16 = (inst >> 2) & 0b11111;
                        let nzuimm: u16 = nzuimm5 << 5 | nzuimm04;
                        let nzuimm: u32 = nzuimm as u32;

                        let reg = Self::reg_from_prime((inst >> 7) & 0b111);

                        if nzuimm == 0 {
                            Instruction::Hint
                        } else {
                            Instruction::CSrai { reg, nzuimm }
                        }
                    },
                    0b10 => {
                        let imm5: u16 = (inst >> 12) & 0b1;
                        let imm04: u16 = (inst >> 2) & 0b11111;
                        let imm: u16 = imm5 << 5 | imm04;
                        let imm: i32 = ((imm as i32) << 26) >> 26;

                        let reg = Self::reg_from_prime((inst >> 7) & 0b111);

                        Instruction::CAndi { reg, imm }
                    },
                    _ => {
                        let funct2: u16 = (inst >> 5) & 0b11;
                        let bit12: u16 = (inst >> 12) & 0b1;

                        let reg = Self::reg_from_prime((inst >> 7) & 0b111);
                        let rs2 = Self::reg_from_prime((inst >> 2) & 0b111);

                        match (bit12, funct2) {
                            (0, 0b00) => Instruction::CSub { reg, rs2 },
                            (0, 0b01) => Instruction::CXor { reg, rs2 },
                            (0, 0b10) => Instruction::COr { reg, rs2 },
                            (0, 0b11) => Instruction::CAnd { reg, rs2 },
                            (1, 0b00) => Instruction::CSubw { reg, rs2 },
                            (1, 0b01) => Instruction::CAddw { reg, rs2 },
                            _ => Instruction::UndefinedCompressed(inst),
                        }
                    },
                }
            },
            0b101 => {
                let imm11: u16 = (inst >> 12) & 0b1;
                let imm4: u16 = (inst >> 11) & 0b1;
                let imm89: u16 = (inst >> 9) & 0b11;
                let imm10: u16 = (inst >> 8) & 0b1;
                let imm6: u16 = (inst >> 7) & 0b1;
                let imm7: u16 = (inst >> 6) & 0b1;
                let imm13: u16 = (inst >> 3) & 0b111;
                let imm5: u16 = (inst >> 2) & 0b1;

                let imm: u16 = imm11 << 11 | imm10 << 10 | imm89 << 8 | imm7 << 7 | imm6 << 6 | imm5
                    << 5 | imm4 << 4 | imm13 << 1;
                let imm: i32 = ((imm as i32) << 20) >> 20;

                Instruction::CJ { imm }
            },
            0b110 => {
                let imm8: u16 = (inst >> 12) & 0b1;
                let imm34: u16 = (inst >> 10) & 0b11;
                let imm67: u16 = (inst >> 5) & 0b11;
                let imm12: u16 = (inst >> 3) & 0b11;
                let imm5: u16 = (inst >> 2) & 0b1;

                let imm: u16 = imm8 << 8 | imm67 << 6 | imm5 << 5 | imm34 << 3 | imm12 << 1;
                let imm: i32 = ((imm as i32) << 23) >> 23;

                let rs1 = Self::reg_from_prime((inst >> 7) & 0b111);

                Instruction::CBeqz { rs1, imm }
            },
            _ => {
                let imm8: u16 = (inst >> 12) & 0b1;
                let imm34: u16 = (inst >> 10) & 0b11;
                let imm67: u16 = (inst >> 5) & 0b11;
                let imm12: u16 = (inst >> 3) & 0b11;
                let imm5: u16 = (inst >> 2) & 0b1;

                let imm: u16 = imm8 << 8 | imm67 << 6 | imm5 << 5 | imm34 << 3 | imm12 << 1;
                let imm: i32 = ((imm as i32) << 23) >> 23;

                let rs1 = Self::reg_from_prime((inst >> 7) & 0b111);

                Instruction::CBnez { rs1, imm }
            },
        }
    }

    fn decode_quadrant2(inst: u16) -> (r: Self)
        ensures
            r == Self::decode_quadrant2_spec(inst),
            r.wf(),
            r matches Instruction::UndefinedCompressed(half) ==> half == inst,
            !(r is Undefined),
    {
        proof {
            lemma_fields16(inst);
            lemma_unsigned_immediates(inst);
        }
        let funct3: u16 = (inst >> 13) & 0b111;

        match funct3 {
            0b000 => {
                let nzuimm5: u16 = (inst >> 12) & 0b1;
                let nzuimm04: u16 = (inst >> 2) & 0b11111;

                let nzuimm: u16 = nzuimm5 << 5 | nzuimm04;
                let nzuimm: u32 = nzuimm as u32;

                let reg = Register::from_index(((inst >> 7) & 0b11111) as u32);

                if reg == Register::Zero {
                    Instruction::Hint
                } else if nzuimm == 0 {
                    Instruction::Hint
                } else {
                    Instruction::CSlli { reg, nzuimm }
                }
            },
            0b001 => {
                let uimm5: u16 = (inst >> 12) & 0b1;
                let uimm34: u16 = (inst >> 5) & 0b11;
                let uimm68: u16 = (inst >> 2) & 0b111;

                let uimm: u16 = uimm68 << 6 | uimm5 << 5 | uimm34 << 3;
                let uimm: u32 = uimm as u32;

                let rd = Register::from_index(((inst >> 7) & 0b11111) as u32);

                Instruction::CFldsp { rd, uimm }
            },
            0b010 => {
                let uimm5: u16 = (inst >> 12) & 0b1;
                let uimm24: u16 = (inst >> 4) & 0b111;
                let uimm67: u16 = (inst >> 2) & 0b11;

                let uimm: u16 = uimm67 << 6 | uimm5 << 5 | uimm24 << 2;
                let uimm: u32 = uimm as u32;

                let rd = Register::from_index(((inst >> 7) & 0b11111) as u32);

                if rd == Register::Zero {
                    Instruction::UndefinedCompressed(inst)
                } else {
                    Instruction::CLwsp { rd, uimm }
                }
            },
            0b011 => {
                let uimm5: u16 = (inst >> 12) & 0b1;
                let uimm34: u16 = (inst >> 5) & 0b11;
                let uimm68: u16 = (inst >> 2) & 0b111;

                let uimm: u16 = uimm68 << 6 | uimm5 << 5 | uimm34 << 3;
                let uimm: u32 = uimm as u32;

                let rd = Register::from_index(((inst >> 7) & 0b11111) as u32);

                if rd == Register::Zero {
                    Instruction::UndefinedCompressed(inst)
                } else {
                    Instruction::CLdsp { rd, uimm }
                }
            },
            0b100 => {
                let bit12: u16 = (inst >> 12) & 0b1;

                let reg: u16 = (inst >> 7) & 0b11111;
                let rs2: u16 = (inst >> 2) & 0b11111;

                if bit12 == 0 {
                    if rs2 == 0 {
                        if reg == 0 {
                            Instruction::UndefinedCompressed(inst)
                        } else {
                            let rs1 = Register::from_index(reg as u32);
                            Instruction::CJr { rs1 }
                        }
                    } else {
                        if reg == 0 {
                            Instruction::Hint
                        } else {
                            let rd = Register::from_index(reg as u32);
                            let rs2 = Register::from_index(rs2 as u32);
                            Instruction::CMv { rd, rs2 }
                        }
                    }
                } else {
                    if reg == 0 && rs2 == 0 {
                        Instruction::CEbreak
                    } else if rs2 == 0 {
                        let rs1 = Register::from_index(reg as u32);
                        Instruction::CJalr { rs1 }
                    } else {
                        let reg = Register::from_index(reg as u32);
                        let rs2 = Register::from_index(rs2 as u32);

                        if reg == Register::Zero {
                            Instruction::Hint
                        } else {
                            Instruction::CAdd { reg, rs2 }
                        }
                    }
                }
            },
            0b101 => {
                let uimm35: u16 = (inst >> 10) & 0b111;
                let uimm68: u16 = (inst >> 7) & 0b111;

                let uimm: u16 = uimm68 << 6 | uimm35 << 3;
                let uimm: u32 = uimm as u32;

                let rs2 = Register::from_index(((inst >> 2) & 0b11111) as u32);

                Instruction::CFsdsp { rs2, uimm }
            },
            0b110 => {
                let uimm25: u16 = (inst >> 9) & 0b1111;
                let uimm67: u16 = (inst >> 7) & 0b11;

                let uimm: u16 = uimm67 << 6 | uimm25 << 2;
                let uimm: u32 = uimm as u32;

                let rs2 = Register::from_index(((inst >> 2) & 0b11111) as u32);

                Instruction::CSwsp { rs2, uimm }
            },
            _ => {
                let uimm35: u16 = (inst >> 10) & 0b111;
                let uimm68: u16 = (inst >> 7) & 0b111;

                let uimm: u16 = uimm68 << 6 | uimm35 << 3;
                let uimm: u32 = uimm as u32;

                let rs2 = Register::from_index(((inst >> 2) & 0b11111) as u32);

                Instruction::CSdsp { rs2, uimm }
            },
        }
    }
}

} // verus!
