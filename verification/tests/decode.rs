use rest_emu::cpu::Register;
use rest_emu::instruction::{BType, IType, Instruction, JType, RType, SType, Type, UType};

fn r_word(funct7: u32, rs2: u32, rs1: u32, funct3: u32, rd: u32, opcode: u32) -> u32 {
    funct7 << 25 | rs2 << 20 | rs1 << 15 | funct3 << 12 | rd << 7 | opcode
}

fn i_word(imm: i32, rs1: u32, funct3: u32, rd: u32, opcode: u32) -> u32 {
    ((imm as u32) & 0xfff) << 20 | rs1 << 15 | funct3 << 12 | rd << 7 | opcode
}

fn s_word(imm: i32, rs2: u32, rs1: u32, funct3: u32, opcode: u32) -> u32 {
    let imm = imm as u32;
    ((imm >> 5) & 0x7f) << 25 | rs2 << 20 | rs1 << 15 | funct3 << 12 | (imm & 0x1f) << 7 | opcode
}

fn b_word(imm: i32, rs2: u32, rs1: u32, funct3: u32) -> u32 {
    let imm = imm as u32;
    ((imm >> 12) & 1) << 31
        | ((imm >> 5) & 0x3f) << 25
        | rs2 << 20
        | rs1 << 15
        | funct3 << 12
        | ((imm >> 1) & 0xf) << 8
        | ((imm >> 11) & 1) << 7
        | 0b1100011
}

fn j_word(imm: i32, rd: u32) -> u32 {
    let imm = imm as u32;
    ((imm >> 20) & 1) << 31
        | ((imm >> 1) & 0x3ff) << 21
        | ((imm >> 11) & 1) << 20
        | ((imm >> 12) & 0xff) << 12
        | rd << 7
        | 0b1101111
}

#[test]
fn register_index_and_back() {
    let all = [
        Register::Zero, Register::Ra, Register::Sp, Register::Gp, Register::Tp, Register::T0,
        Register::T1, Register::T2, Register::S0, Register::S1, Register::A0, Register::A1,
        Register::A2, Register::A3, Register::A4, Register::A5, Register::A6, Register::A7,
        Register::S2, Register::S3, Register::S4, Register::S5, Register::S6, Register::S7,
        Register::S8, Register::S9, Register::S10, Register::S11, Register::T3, Register::T4,
        Register::T5, Register::T6, Register::Pc,
    ];
    for (i, r) in all.iter().enumerate() {
        assert_eq!(r.index(), i);
        assert_eq!(Register::from_index(i as u32), *r);
    }
}

#[test]
fn opcode_table_formats() {
    assert_eq!(Instruction::decode_type(0b0110011), Some(Type::R));
    assert_eq!(Instruction::decode_type(0b0111011), Some(Type::R));
    assert_eq!(Instruction::decode_type(0b0101111), Some(Type::R));
    assert_eq!(Instruction::decode_type(0b0000011), Some(Type::I));
    assert_eq!(Instruction::decode_type(0b0001111), Some(Type::I));
    assert_eq!(Instruction::decode_type(0b0010011), Some(Type::I));
    assert_eq!(Instruction::decode_type(0b0011011), Some(Type::I));
    assert_eq!(Instruction::decode_type(0b1100111), Some(Type::I));
    assert_eq!(Instruction::decode_type(0b1110011), Some(Type::I));
    assert_eq!(Instruction::decode_type(0b0100011), Some(Type::S));
    assert_eq!(Instruction::decode_type(0b1100011), Some(Type::B));
    assert_eq!(Instruction::decode_type(0b0010111), Some(Type::U));
    assert_eq!(Instruction::decode_type(0b0110111), Some(Type::U));
    assert_eq!(Instruction::decode_type(0b1101111), Some(Type::J));
    let known = [
        0b0110011u32, 0b0111011, 0b0101111, 0b0000011, 0b0001111, 0b0010011, 0b0011011,
        0b1100111, 0b1110011, 0b0100011, 0b1100011, 0b0010111, 0b0110111, 0b1101111,
    ];
    for opcode in 0..128u32 {
        if !known.contains(&opcode) {
            assert_eq!(Instruction::decode_type(opcode), None);
        }
    }
}

#[test]
fn format_fields_r() {
    let f = RType::from(r_word(0b0100000, 7, 6, 0b101, 5, 0b0110011));
    assert_eq!(f.funct7, 0b0100000);
    assert_eq!(f.funct3, 0b101);
    assert_eq!(f.rd, Register::T0);
    assert_eq!(f.rs1, Register::T1);
    assert_eq!(f.rs2, Register::T2);
}

#[test]
fn format_fields_i_sign_extends() {
    let f = IType::from(i_word(-1, 2, 0, 2, 0b0010011));
    assert_eq!(f.imm, -1);
    assert_eq!(f.rs1, Register::Sp);
    assert_eq!(f.rd, Register::Sp);
    assert_eq!(f.funct3, 0);
    assert_eq!(IType::from(i_word(2047, 0, 0, 0, 0b0010011)).imm, 2047);
    assert_eq!(IType::from(i_word(-2048, 0, 0, 0, 0b0010011)).imm, -2048);
    assert_eq!(IType::from(0x00A00513).imm, 10);
}

#[test]
fn format_fields_s_sign_extends() {
    let f = SType::from(s_word(-4, 11, 2, 0b011, 0b0100011));
    assert_eq!(f.imm, -4);
    assert_eq!(f.rs1, Register::Sp);
    assert_eq!(f.rs2, Register::A1);
    assert_eq!(f.funct3, 0b011);
    assert_eq!(SType::from(s_word(2047, 0, 0, 0, 0b0100011)).imm, 2047);
    assert_eq!(SType::from(s_word(-2048, 0, 0, 0, 0b0100011)).imm, -2048);
    assert_eq!(SType::from(s_word(0x555, 0, 0, 0, 0b0100011)).imm, 0x555);
}

#[test]
fn format_fields_b_sign_extends() {
    let f = BType::from(b_word(-8, 6, 5, 0b001));
    assert_eq!(f.imm, -8);
    assert_eq!(f.rs1, Register::T0);
    assert_eq!(f.rs2, Register::T1);
    assert_eq!(f.funct3, 0b001);
    assert_eq!(BType::from(b_word(4094, 0, 0, 0)).imm, 4094);
    assert_eq!(BType::from(b_word(-4096, 0, 0, 0)).imm, -4096);
    assert_eq!(BType::from(b_word(0x800, 0, 0, 0)).imm, 0x800);
    assert_eq!(BType::from(b_word(2, 0, 0, 0)).imm, 2);
}

#[test]
fn format_fields_u_keeps_upper_bits() {
    let f = UType::from(0x12345_0b7 | 5 << 7);
    assert_eq!(f.imm, 0x12345000);
    assert_eq!(UType::from(0xfffff037).imm, -4096);
    assert_eq!(UType::from(0x80000037).imm, i32::MIN);
    assert_eq!(UType::from(0x00000fb7).imm, 0);
    assert_eq!(UType::from(0x00000fb7).rd, Register::T6);
}

#[test]
fn format_fields_j_sign_extends() {
    let f = JType::from(j_word(-2, 1));
    assert_eq!(f.imm, -2);
    assert_eq!(f.rd, Register::Ra);
    assert_eq!(JType::from(j_word(0xffffe, 0)).imm, 0xffffe);
    assert_eq!(JType::from(j_word(-0x100000, 0)).imm, -0x100000);
    assert_eq!(JType::from(j_word(0x800, 0)).imm, 0x800);
    assert_eq!(JType::from(j_word(0x1000, 0)).imm, 0x1000);
    assert_eq!(JType::from(j_word(2, 0)).imm, 2);
}

#[test]
fn decode_addi_a0_zero_ten() {
    assert_eq!(
        Instruction::decode(0x00A00513),
        Instruction::Addi { rd: Register::A0, rs1: Register::Zero, imm: 10 }
    );
}

#[test]
fn decode_upper_and_jumps() {
    assert_eq!(
        Instruction::decode(0x123450b7),
        Instruction::Lui { rd: Register::Ra, imm: 0x12345000 }
    );
    assert_eq!(
        Instruction::decode(0xfffff517),
        Instruction::Auipc { rd: Register::A0, imm: -4096 }
    );
    assert_eq!(
        Instruction::decode(j_word(-16, 1)),
        Instruction::Jal { rd: Register::Ra, imm: -16 }
    );
    assert_eq!(
        Instruction::decode(0x00008067),
        Instruction::Jalr { rd: Register::Zero, rs1: Register::Ra, imm: 0 }
    );
    assert_eq!(Instruction::decode(i_word(0, 1, 1, 0, 0b1100111)), Instruction::Undefined(i_word(0, 1, 1, 0, 0b1100111)));
}

#[test]
fn decode_branches() {
    let rs1 = Register::A0;
    let rs2 = Register::A1;
    assert_eq!(Instruction::decode(b_word(8, 11, 10, 0b000)), Instruction::Beq { rs1, rs2, imm: 8 });
    assert_eq!(Instruction::decode(b_word(-8, 11, 10, 0b001)), Instruction::Bne { rs1, rs2, imm: -8 });
    assert_eq!(Instruction::decode(b_word(8, 11, 10, 0b100)), Instruction::Blt { rs1, rs2, imm: 8 });
    assert_eq!(Instruction::decode(b_word(8, 11, 10, 0b101)), Instruction::Bge { rs1, rs2, imm: 8 });
    assert_eq!(Instruction::decode(b_word(8, 11, 10, 0b110)), Instruction::Bltu { rs1, rs2, imm: 8 });
    assert_eq!(Instruction::decode(b_word(8, 11, 10, 0b111)), Instruction::Bgeu { rs1, rs2, imm: 8 });
    let w = b_word(8, 11, 10, 0b010);
    assert_eq!(Instruction::decode(w), Instruction::Undefined(w));
    let w = b_word(8, 11, 10, 0b011);
    assert_eq!(Instruction::decode(w), Instruction::Undefined(w));
}

#[test]
fn decode_loads_and_stores() {
    let rd = Register::T0;
    let rs1 = Register::Sp;
    let op = 0b0000011;
    assert_eq!(Instruction::decode(i_word(-1, 2, 0b000, 5, op)), Instruction::Lb { rd, rs1, imm: -1 });
    assert_eq!(Instruction::decode(i_word(2, 2, 0b001, 5, op)), Instruction::Lh { rd, rs1, imm: 2 });
    assert_eq!(Instruction::decode(i_word(4, 2, 0b010, 5, op)), Instruction::Lw { rd, rs1, imm: 4 });
    assert_eq!(Instruction::decode(i_word(8, 2, 0b011, 5, op)), Instruction::Ld { rd, rs1, imm: 8 });
    assert_eq!(Instruction::decode(i_word(1, 2, 0b100, 5, op)), Instruction::Lbu { rd, rs1, imm: 1 });
    assert_eq!(Instruction::decode(i_word(2, 2, 0b101, 5, op)), Instruction::Lhu { rd, rs1, imm: 2 });
    assert_eq!(Instruction::decode(i_word(4, 2, 0b110, 5, op)), Instruction::Lwu { rd, rs1, imm: 4 });
    let w = i_word(4, 2, 0b111, 5, op);
    assert_eq!(Instruction::decode(w), Instruction::Undefined(w));

    let rs2 = Register::T0;
    let op = 0b0100011;
    assert_eq!(Instruction::decode(s_word(-1, 5, 2, 0b000, op)), Instruction::Sb { rs1, rs2, imm: -1 });
    assert_eq!(Instruction::decode(s_word(2, 5, 2, 0b001, op)), Instruction::Sh { rs1, rs2, imm: 2 });
    assert_eq!(Instruction::decode(s_word(4, 5, 2, 0b010, op)), Instruction::Sw { rs1, rs2, imm: 4 });
    assert_eq!(Instruction::decode(s_word(-8, 5, 2, 0b011, op)), Instruction::Sd { rs1, rs2, imm: -8 });
    let w = s_word(0, 5, 2, 0b100, op);
    assert_eq!(Instruction::decode(w), Instruction::Undefined(w));
}

#[test]
fn decode_immediate_arithmetic() {
    let rd = Register::A0;
    let rs1 = Register::A1;
    let op = 0b0010011;
    assert_eq!(Instruction::decode(i_word(-5, 11, 0b000, 10, op)), Instruction::Addi { rd, rs1, imm: -5 });
    assert_eq!(Instruction::decode(i_word(-5, 11, 0b010, 10, op)), Instruction::Slti { rd, rs1, imm: -5 });
    assert_eq!(Instruction::decode(i_word(-5, 11, 0b011, 10, op)), Instruction::Sltiu { rd, rs1, imm: -5 });
    assert_eq!(Instruction::decode(i_word(-5, 11, 0b100, 10, op)), Instruction::Xori { rd, rs1, imm: -5 });
    assert_eq!(Instruction::decode(i_word(-5, 11, 0b110, 10, op)), Instruction::Ori { rd, rs1, imm: -5 });
    assert_eq!(Instruction::decode(i_word(-5, 11, 0b111, 10, op)), Instruction::Andi { rd, rs1, imm: -5 });
    assert_eq!(Instruction::decode(i_word(-5, 11, 0b000, 10, 0b0011011)), Instruction::Addiw { rd, rs1, imm: -5 });
}

#[test]
fn decode_doubleword_shifts() {
    let rd = Register::A0;
    let rs1 = Register::A1;
    let op = 0b0010011;
    assert_eq!(Instruction::decode(i_word(63, 11, 0b001, 10, op)), Instruction::Slli { rd, rs1, shamt: 63 });
    assert_eq!(Instruction::decode(i_word(0, 11, 0b001, 10, op)), Instruction::Slli { rd, rs1, shamt: 0 });
    assert_eq!(Instruction::decode(i_word(33, 11, 0b101, 10, op)), Instruction::Srli { rd, rs1, shamt: 33 });
    assert_eq!(
        Instruction::decode(i_word(0x400 | 33, 11, 0b101, 10, op)),
        Instruction::Srai { rd, rs1, shamt: 33 }
    );
    // Any other pattern in the upper six bits of a right shift is undefined.
    for mode in [0b000001u32, 0b100000, 0b110000, 0b010001, 0b111111] {
        let w = mode << 26 | 5 << 20 | 11 << 15 | 0b101 << 12 | 10 << 7 | op;
        assert_eq!(Instruction::decode(w), Instruction::Undefined(w));
    }
}

#[test]
fn decode_word_shifts() {
    let rd = Register::A0;
    let rs1 = Register::A1;
    let op = 0b0011011;
    assert_eq!(Instruction::decode(i_word(31, 11, 0b001, 10, op)), Instruction::Slliw { rd, rs1, shamt: 31 });
    assert_eq!(Instruction::decode(i_word(7, 11, 0b101, 10, op)), Instruction::Srliw { rd, rs1, shamt: 7 });
    assert_eq!(
        Instruction::decode(i_word(0x400 | 7, 11, 0b101, 10, op)),
        Instruction::Sraiw { rd, rs1, shamt: 7 }
    );
    // Bit 25 set makes a word shift undefined, whatever the operation.
    for funct3 in [0b001u32, 0b101] {
        for upper in [0b0000001u32, 0b0100001] {
            let w = upper << 25 | 3 << 20 | 11 << 15 | funct3 << 12 | 10 << 7 | op;
            assert_eq!(Instruction::decode(w), Instruction::Undefined(w));
        }
    }
    // So does any other pattern in the upper seven bits.
    let w = 0b0100000 << 25 | 3 << 20 | 11 << 15 | 0b001 << 12 | 10 << 7 | op;
    assert_eq!(Instruction::decode(w), Instruction::Undefined(w));
    let w = 0b1000000 << 25 | 3 << 20 | 11 << 15 | 0b101 << 12 | 10 << 7 | op;
    assert_eq!(Instruction::decode(w), Instruction::Undefined(w));
    let w = i_word(0, 11, 0b010, 10, op);
    assert_eq!(Instruction::decode(w), Instruction::Undefined(w));
}

#[test]
fn decode_register_arithmetic() {
    let rd = Register::T0;
    let rs1 = Register::T1;
    let rs2 = Register::T2;
    let op = 0b0110011;
    let d = |f7: u32, f3: u32| Instruction::decode(r_word(f7, 7, 6, f3, 5, op));
    assert_eq!(d(0, 0), Instruction::Add { rd, rs1, rs2 });
    assert_eq!(d(0b0100000, 0), Instruction::Sub { rd, rs1, rs2 });
    assert_eq!(d(0, 1), Instruction::Sll { rd, rs1, rs2 });
    assert_eq!(d(0, 2), Instruction::Slt { rd, rs1, rs2 });
    assert_eq!(d(0, 3), Instruction::Sltu { rd, rs1, rs2 });
    assert_eq!(d(0, 4), Instruction::Xor { rd, rs1, rs2 });
    assert_eq!(d(0, 5), Instruction::Srl { rd, rs1, rs2 });
    assert_eq!(d(0b0100000, 5), Instruction::Sra { rd, rs1, rs2 });
    assert_eq!(d(0, 6), Instruction::Or { rd, rs1, rs2 });
    assert_eq!(d(0, 7), Instruction::And { rd, rs1, rs2 });
    assert_eq!(d(1, 0), Instruction::Mul { rd, rs1, rs2 });
    assert_eq!(d(1, 1), Instruction::Mulh { rd, rs1, rs2 });
    assert_eq!(d(1, 2), Instruction::Mulhsu { rd, rs1, rs2 });
    assert_eq!(d(1, 3), Instruction::Mulhu { rd, rs1, rs2 });
    assert_eq!(d(1, 4), Instruction::Div { rd, rs1, rs2 });
    assert_eq!(d(1, 5), Instruction::Divu { rd, rs1, rs2 });
    assert_eq!(d(1, 6), Instruction::Rem { rd, rs1, rs2 });
    assert_eq!(d(1, 7), Instruction::Remu { rd, rs1, rs2 });
    for (f7, f3) in [(0b0100000u32, 1u32), (0b0100000, 7), (2, 0), (0b1111111, 0)] {
        let w = r_word(f7, 7, 6, f3, 5, op);
        assert_eq!(Instruction::decode(w), Instruction::Undefined(w));
    }
}

#[test]
fn decode_register_word_arithmetic() {
    let rd = Register::T0;
    let rs1 = Register::T1;
    let rs2 = Register::T2;
    let op = 0b0111011;
    let d = |f7: u32, f3: u32| Instruction::decode(r_word(f7, 7, 6, f3, 5, op));
    assert_eq!(d(0, 0), Instruction::Addw { rd, rs1, rs2 });
    assert_eq!(d(0b0100000, 0), Instruction::Subw { rd, rs1, rs2 });
    assert_eq!(d(0, 1), Instruction::Sllw { rd, rs1, rs2 });
    assert_eq!(d(0, 5), Instruction::Srlw { rd, rs1, rs2 });
    assert_eq!(d(0b0100000, 5), Instruction::Sraw { rd, rs1, rs2 });
    assert_eq!(d(1, 0), Instruction::Mulw { rd, rs1, rs2 });
    assert_eq!(d(1, 4), Instruction::Divw { rd, rs1, rs2 });
    assert_eq!(d(1, 5), Instruction::Divuw { rd, rs1, rs2 });
    assert_eq!(d(1, 6), Instruction::Remw { rd, rs1, rs2 });
    assert_eq!(d(1, 7), Instruction::Remuw { rd, rs1, rs2 });
    for (f7, f3) in [(0u32, 2u32), (0, 4), (1, 1), (0b0100000, 1)] {
        let w = r_word(f7, 7, 6, f3, 5, op);
        assert_eq!(Instruction::decode(w), Instruction::Undefined(w));
    }
}

#[test]
fn decode_fences_and_environment() {
    let w = i_word(0x0ff, 0, 0b000, 0, 0b0001111);
    assert_eq!(
        Instruction::decode(w),
        Instruction::Fence { rd: Register::Zero, rs1: Register::Zero, imm: 0x0ff }
    );
    let w = i_word(0, 0, 0b001, 0, 0b0001111);
    assert_eq!(
        Instruction::decode(w),
        Instruction::FenceI { rd: Register::Zero, rs1: Register::Zero, imm: 0 }
    );
    let w = i_word(0, 0, 0b010, 0, 0b0001111);
    assert_eq!(Instruction::decode(w), Instruction::Undefined(w));
    assert_eq!(Instruction::decode(0x00000073), Instruction::Ecall);
    assert_eq!(Instruction::decode(0x00100073), Instruction::Ebreak);
    assert_eq!(Instruction::decode(0x00200073), Instruction::Undefined(0x00200073));
}

#[test]
fn decode_csr_accesses() {
    let rd = Register::T0;
    let rs1 = Register::T1;
    let op = 0b1110011;
    let csr_word = |funct3: u32| 0xfffu32 << 20 | 6 << 15 | funct3 << 12 | 5 << 7 | op;
    assert_eq!(Instruction::decode(csr_word(1)), Instruction::Csrrw { rd, rs1, csr: 0xfff });
    assert_eq!(Instruction::decode(csr_word(2)), Instruction::Csrrs { rd, rs1, csr: 0xfff });
    assert_eq!(Instruction::decode(csr_word(3)), Instruction::Csrrc { rd, rs1, csr: 0xfff });
    assert_eq!(Instruction::decode(csr_word(5)), Instruction::Csrrwi { rd, uimm: 6, csr: 0xfff });
    assert_eq!(Instruction::decode(csr_word(6)), Instruction::Csrrsi { rd, uimm: 6, csr: 0xfff });
    assert_eq!(Instruction::decode(csr_word(7)), Instruction::Csrrci { rd, uimm: 6, csr: 0xfff });
    assert_eq!(Instruction::decode(csr_word(4)), Instruction::Undefined(csr_word(4)));
    assert_eq!(
        Instruction::decode(0xfff012f3),
        Instruction::Csrrw { rd: Register::T0, rs1: Register::Zero, csr: 0xfff }
    );
    assert_eq!(
        Instruction::decode(0x3002a073),
        Instruction::Csrrs { rd: Register::Zero, rs1: Register::T0, csr: 0x300 }
    );
}

#[test]
fn decode_atomics() {
    let rd = Register::A0;
    let rs1 = Register::A1;
    let rs2 = Register::A2;
    let op = 0b0101111;
    let amo = |funct5: u32, aq: u32, rl: u32, funct3: u32| {
        Instruction::decode(r_word(funct5 << 2 | aq << 1 | rl, 12, 11, funct3, 10, op))
    };
    assert_eq!(amo(0b00001, 0, 0, 2), Instruction::Amoswapw { rd, rs1, rs2, aq: false, rl: false });
    assert_eq!(amo(0b00000, 1, 0, 2), Instruction::Amoaddw { rd, rs1, rs2, aq: true, rl: false });
    assert_eq!(amo(0b00100, 0, 1, 2), Instruction::Amoxorw { rd, rs1, rs2, aq: false, rl: true });
    assert_eq!(amo(0b01100, 1, 1, 2), Instruction::Amoandw { rd, rs1, rs2, aq: true, rl: true });
    assert_eq!(amo(0b01000, 0, 0, 2), Instruction::Amoorw { rd, rs1, rs2, aq: false, rl: false });
    assert_eq!(amo(0b10000, 0, 0, 2), Instruction::Amominw { rd, rs1, rs2, aq: false, rl: false });
    assert_eq!(amo(0b10100, 0, 0, 2), Instruction::Amomaxw { rd, rs1, rs2, aq: false, rl: false });
    assert_eq!(amo(0b11000, 0, 0, 2), Instruction::Amominuw { rd, rs1, rs2, aq: false, rl: false });
    assert_eq!(amo(0b11100, 0, 0, 2), Instruction::Amomaxuw { rd, rs1, rs2, aq: false, rl: false });
    // Load-reserved, store-conditional and the doubleword forms are not supported.
    for (funct5, funct3) in [(0b00010u32, 2u32), (0b00011, 2), (0b00001, 3), (0b00000, 3), (0b00001, 0)] {
        let w = r_word(funct5 << 2, 12, 11, funct3, 10, op);
        assert_eq!(Instruction::decode(w), Instruction::Undefined(w));
    }
}

#[test]
fn decode_unknown_opcodes_keep_the_word() {
    for w in [0u32, 0xffff_ffff, 0x0000_0007, 0x0000_007f, 0x1234_5653, 0x0000_0043] {
        assert_eq!(Instruction::decode(w), Instruction::Undefined(w));
    }
}

#[test]
fn decode_never_yields_a_compressed_undefined() {
    let mut w: u32 = 3;
    for _ in 0..20000 {
        match Instruction::decode(w) {
            Instruction::Undefined(x) => assert_eq!(x, w),
            Instruction::UndefinedCompressed(_) => panic!("16-bit variant from a 32-bit word"),
            _ => {}
        }
        w = w.wrapping_mul(1664525).wrapping_add(1013904223) | 3;
    }
}
