use rest_emu::cpu::{Core, CoreExit, Register};
use rest_emu::instruction::Instruction;
use rest_emu::mmu::Mmu;

fn fresh() -> Core {
    Core::new(Mmu::new(1024))
}

fn q0(funct3: u16, bits12_5: u16, bits4_2: u16) -> u16 {
    funct3 << 13 | bits12_5 << 5 | bits4_2 << 2
}

/// A word of quadrant 1 or 2 from `h[12]`, `h[11:7]` and `h[6:2]`.
fn ci(quadrant: u16, funct3: u16, bit12: u16, reg: u16, low: u16) -> u16 {
    funct3 << 13 | bit12 << 12 | reg << 7 | low << 2 | quadrant
}

#[test]
fn quadrant0_addi4spn() {
    assert_eq!(
        Instruction::decode_compressed(0x0808),
        Instruction::CAddi4spn { rd: Register::A0, nzuimm: 16 }
    );
    // Each bit of the immediate: h[5] is bit 3, h[6] bit 2, h[12:11] bits 5:4, h[10:7] bits 9:6.
    let cases = [(1u16 << 5, 8u32), (1 << 6, 4), (1 << 11, 16), (1 << 12, 32), (1 << 7, 64), (1 << 8, 128), (1 << 9, 256), (1 << 10, 512)];
    for (bit, value) in cases {
        assert_eq!(
            Instruction::decode_compressed(bit | 7 << 2),
            Instruction::CAddi4spn { rd: Register::A5, nzuimm: value }
        );
    }
    assert_eq!(
        Instruction::decode_compressed(0x1fe0),
        Instruction::CAddi4spn { rd: Register::S0, nzuimm: 1020 }
    );
    // A zero immediate is reserved, the all-zero word included.
    assert_eq!(Instruction::decode_compressed(0), Instruction::UndefinedCompressed(0));
    assert_eq!(Instruction::decode_compressed(0x001c), Instruction::UndefinedCompressed(0x001c));
}

#[test]
fn quadrant0_word_loads_and_stores() {
    // uimm[5:3] = h[12:10], uimm[2] = h[6], uimm[6] = h[5]
    let rs1 = Register::S1;
    let reg = Register::A2;
    let body = |uimm53: u16, bit6: u16, bit5: u16| (uimm53 << 5 | 1 << 2 | bit6 << 1 | bit5, 4u16);
    for (uimm53, b6, b5, value) in [(0u16, 0u16, 0u16, 0u32), (1, 0, 0, 8), (2, 0, 0, 16), (4, 0, 0, 32), (0, 1, 0, 4), (0, 0, 1, 64), (7, 1, 1, 124)] {
        let (hi, lo) = body(uimm53, b6, b5);
        assert_eq!(
            Instruction::decode_compressed(q0(0b010, hi, lo)),
            Instruction::CLw { rd: reg, rs1, uimm: value }
        );
        assert_eq!(
            Instruction::decode_compressed(q0(0b110, hi, lo)),
            Instruction::CSw { rs1, rs2: reg, uimm: value }
        );
    }
}

#[test]
fn quadrant0_doubleword_loads_and_stores() {
    // uimm[5:3] = h[12:10], uimm[7:6] = h[6:5]
    let rs1 = Register::S1;
    let reg = Register::A2;
    for (uimm53, uimm76, value) in [(0u16, 0u16, 0u32), (1, 0, 8), (2, 0, 16), (4, 0, 32), (0, 1, 64), (0, 2, 128), (7, 3, 248)] {
        let hi = uimm53 << 5 | 1 << 2 | uimm76;
        assert_eq!(Instruction::decode_compressed(q0(0b011, hi, 4)), Instruction::CLd { rd: reg, rs1, uimm: value });
        assert_eq!(Instruction::decode_compressed(q0(0b111, hi, 4)), Instruction::CSd { rs1, rs2: reg, uimm: value });
        assert_eq!(Instruction::decode_compressed(q0(0b001, hi, 4)), Instruction::CFld { rd: reg, rs1, uimm: value });
        assert_eq!(Instruction::decode_compressed(q0(0b101, hi, 4)), Instruction::CFsd { rs1, rs2: reg, uimm: value });
    }
    let w = q0(0b100, 0x55, 3);
    assert_eq!(Instruction::decode_compressed(w), Instruction::UndefinedCompressed(w));
}

#[test]
fn prime_registers_are_x8_to_x15() {
    let expected = [
        Register::S0, Register::S1, Register::A0, Register::A1, Register::A2, Register::A3,
        Register::A4, Register::A5,
    ];
    for (i, reg) in expected.iter().enumerate() {
        let i = i as u16;
        assert_eq!(
            Instruction::decode_compressed(q0(0b010, 0, i)),
            Instruction::CLw { rd: *reg, rs1: Register::S0, uimm: 0 }
        );
        assert_eq!(
            Instruction::decode_compressed(q0(0b010, i << 2, 0)),
            Instruction::CLw { rd: Register::S0, rs1: *reg, uimm: 0 }
        );
    }
}

#[test]
fn quadrant1_addi_nop_and_hints() {
    assert_eq!(Instruction::decode_compressed(0x0001), Instruction::CNop);
    assert_eq!(Instruction::decode_compressed(ci(1, 0, 0, 0, 5)), Instruction::Hint);
    assert_eq!(Instruction::decode_compressed(ci(1, 0, 1, 0, 0)), Instruction::Hint);
    assert_eq!(Instruction::decode_compressed(ci(1, 0, 0, 10, 0)), Instruction::Hint);
    assert_eq!(
        Instruction::decode_compressed(ci(1, 0, 0, 10, 5)),
        Instruction::CAddi { reg: Register::A0, nzimm: 5 }
    );
    assert_eq!(
        Instruction::decode_compressed(ci(1, 0, 1, 10, 31)),
        Instruction::CAddi { reg: Register::A0, nzimm: -1 }
    );
    assert_eq!(
        Instruction::decode_compressed(ci(1, 0, 1, 31, 0)),
        Instruction::CAddi { reg: Register::T6, nzimm: -32 }
    );
    assert_eq!(
        Instruction::decode_compressed(ci(1, 0, 0, 1, 31)),
        Instruction::CAddi { reg: Register::Ra, nzimm: 31 }
    );
}

#[test]
fn quadrant1_addiw_and_li() {
    assert_eq!(
        Instruction::decode_compressed(ci(1, 1, 0, 10, 0)),
        Instruction::CAddiw { reg: Register::A0, imm: 0 }
    );
    assert_eq!(
        Instruction::decode_compressed(ci(1, 1, 1, 10, 30)),
        Instruction::CAddiw { reg: Register::A0, imm: -2 }
    );
    let w = ci(1, 1, 0, 0, 3);
    assert_eq!(Instruction::decode_compressed(w), Instruction::UndefinedCompressed(w));
    assert_eq!(Instruction::decode_compressed(0x4515), Instruction::CLi { rd: Register::A0, imm: 5 });
    assert_eq!(
        Instruction::decode_compressed(ci(1, 2, 1, 10, 0)),
        Instruction::CLi { rd: Register::A0, imm: -32 }
    );
    assert_eq!(Instruction::decode_compressed(ci(1, 2, 0, 0, 5)), Instruction::Hint);
}

#[test]
fn quadrant1_addi16sp_and_lui() {
    // nzimm[9] = h[12], nzimm[4] = h[6], nzimm[6] = h[5], nzimm[8:7] = h[4:3], nzimm[5] = h[2]
    let cases = [(0u16, 0b10000u16, 16i32), (0, 0b01000, 64), (0, 0b00100, 256), (0, 0b00010, 128), (0, 0b00001, 32), (1, 0, -512), (1, 0b11111, -16), (0, 0b11111, 496)];
    for (bit12, low, value) in cases {
        assert_eq!(
            Instruction::decode_compressed(ci(1, 3, bit12, 2, low)),
            Instruction::CAddi16sp { nzimm: value }
        );
    }
    let w = ci(1, 3, 0, 2, 0);
    assert_eq!(Instruction::decode_compressed(w), Instruction::UndefinedCompressed(w));

    assert_eq!(
        Instruction::decode_compressed(ci(1, 3, 0, 10, 1)),
        Instruction::CLui { rd: Register::A0, nzimm: 0x1000 }
    );
    assert_eq!(
        Instruction::decode_compressed(ci(1, 3, 0, 10, 31)),
        Instruction::CLui { rd: Register::A0, nzimm: 0x1f000 }
    );
    assert_eq!(
        Instruction::decode_compressed(ci(1, 3, 1, 10, 31)),
        Instruction::CLui { rd: Register::A0, nzimm: -4096 }
    );
    assert_eq!(
        Instruction::decode_compressed(ci(1, 3, 1, 10, 0)),
        Instruction::CLui { rd: Register::A0, nzimm: -0x20000 }
    );
    let w = ci(1, 3, 0, 10, 0);
    assert_eq!(Instruction::decode_compressed(w), Instruction::UndefinedCompressed(w));
    assert_eq!(Instruction::decode_compressed(ci(1, 3, 0, 0, 1)), Instruction::Hint);
    assert_eq!(Instruction::decode_compressed(ci(1, 3, 0, 0, 0)), Instruction::Hint);
}

#[test]
fn quadrant1_shifts_and_andi() {
    // h[11:10] selects, h[9:7] is the register
    let reg = Register::A1;
    let w = |funct2: u16, bit12: u16, low: u16| ci(1, 4, bit12, funct2 << 3 | 3, low);
    assert_eq!(Instruction::decode_compressed(w(0, 0, 1)), Instruction::CSrli { reg, nzuimm: 1 });
    assert_eq!(Instruction::decode_compressed(w(0, 1, 31)), Instruction::CSrli { reg, nzuimm: 63 });
    assert_eq!(Instruction::decode_compressed(w(0, 0, 0)), Instruction::Hint);
    assert_eq!(Instruction::decode_compressed(w(1, 1, 0)), Instruction::CSrai { reg, nzuimm: 32 });
    assert_eq!(Instruction::decode_compressed(w(1, 0, 0)), Instruction::Hint);
    assert_eq!(Instruction::decode_compressed(w(2, 0, 9)), Instruction::CAndi { reg, imm: 9 });
    assert_eq!(Instruction::decode_compressed(w(2, 1, 31)), Instruction::CAndi { reg, imm: -1 });
    assert_eq!(Instruction::decode_compressed(w(2, 0, 0)), Instruction::CAndi { reg, imm: 0 });
}

#[test]
fn quadrant1_register_operations() {
    let reg = Register::A1;
    let rs2 = Register::A5;
    // h[12] and h[6:5] select, h[4:2] is the second register
    let w = |bit12: u16, op: u16| ci(1, 4, bit12, 3 << 3 | 3, op << 3 | 7);
    assert_eq!(Instruction::decode_compressed(w(0, 0)), Instruction::CSub { reg, rs2 });
    assert_eq!(Instruction::decode_compressed(w(0, 1)), Instruction::CXor { reg, rs2 });
    assert_eq!(Instruction::decode_compressed(w(0, 2)), Instruction::COr { reg, rs2 });
    assert_eq!(Instruction::decode_compressed(w(0, 3)), Instruction::CAnd { reg, rs2 });
    assert_eq!(Instruction::decode_compressed(w(1, 0)), Instruction::CSubw { reg, rs2 });
    assert_eq!(Instruction::decode_compressed(w(1, 1)), Instruction::CAddw { reg, rs2 });
    assert_eq!(Instruction::decode_compressed(w(1, 2)), Instruction::UndefinedCompressed(w(1, 2)));
    assert_eq!(Instruction::decode_compressed(w(1, 3)), Instruction::UndefinedCompressed(w(1, 3)));
}

#[test]
fn quadrant1_jump_offset() {
    // imm[11|4|9:8|10|6|7|3:1|5] = h[12:2]
    let cases = [(2u16, 32i32), (3, 2), (4, 4), (5, 8), (6, 128), (7, 64), (8, 1024), (9, 256), (10, 512), (11, 16), (12, -2048)];
    for (bit, value) in cases {
        assert_eq!(
            Instruction::decode_compressed(0b101 << 13 | 1 << bit | 1),
            Instruction::CJ { imm: value }
        );
    }
    assert_eq!(Instruction::decode_compressed(0xa001), Instruction::CJ { imm: 0 });
    assert_eq!(Instruction::decode_compressed(0xbffd), Instruction::CJ { imm: -2 });
}

#[test]
fn quadrant1_branch_offset() {
    // imm[8|4:3] = h[12:10], imm[7:6|2:1|5] = h[6:2]
    let cases = [(2u16, 32i32), (3, 2), (4, 4), (5, 64), (6, 128), (10, 8), (11, 16), (12, -256)];
    for (bit, value) in cases {
        assert_eq!(
            Instruction::decode_compressed(0b110 << 13 | 1 << bit | 2 << 7 | 1),
            Instruction::CBeqz { rs1: Register::A0, imm: value }
        );
        assert_eq!(
            Instruction::decode_compressed(0b111 << 13 | 1 << bit | 2 << 7 | 1),
            Instruction::CBnez { rs1: Register::A0, imm: value }
        );
    }
    assert_eq!(
        Instruction::decode_compressed(0b110 << 13 | 0x1c7c | 1),
        Instruction::CBeqz { rs1: Register::S0, imm: -2 }
    );
}

#[test]
fn quadrant2_slli() {
    assert_eq!(
        Instruction::decode_compressed(ci(2, 0, 0, 10, 1)),
        Instruction::CSlli { reg: Register::A0, nzuimm: 1 }
    );
    assert_eq!(
        Instruction::decode_compressed(ci(2, 0, 1, 10, 31)),
        Instruction::CSlli { reg: Register::A0, nzuimm: 63 }
    );
    assert_eq!(Instruction::decode_compressed(ci(2, 0, 0, 10, 0)), Instruction::Hint);
    assert_eq!(Instruction::decode_compressed(ci(2, 0, 0, 0, 4)), Instruction::Hint);
    assert_eq!(Instruction::decode_compressed(ci(2, 0, 0, 0, 0)), Instruction::Hint);
}

#[test]
fn quadrant2_stack_loads() {
    // C.LWSP: uimm[5] = h[12], uimm[4:2] = h[6:4], uimm[7:6] = h[3:2]
    for (bit12, low, value) in [(0u16, 0u16, 0u32), (1, 0, 32), (0, 0b00100, 4), (0, 0b10000, 16), (0, 0b00001, 64), (0, 0b00010, 128), (1, 0b11111, 252)] {
        assert_eq!(
            Instruction::decode_compressed(ci(2, 2, bit12, 10, low)),
            Instruction::CLwsp { rd: Register::A0, uimm: value }
        );
    }
    // C.LDSP: uimm[5] = h[12], uimm[4:3] = h[6:5], uimm[8:6] = h[4:2]
    for (bit12, low, value) in [(0u16, 0u16, 0u32), (1, 0, 32), (0, 0b01000, 8), (0, 0b10000, 16), (0, 0b00001, 64), (0, 0b00100, 256), (1, 0b11111, 504)] {
        assert_eq!(
            Instruction::decode_compressed(ci(2, 3, bit12, 10, low)),
            Instruction::CLdsp { rd: Register::A0, uimm: value }
        );
        assert_eq!(
            Instruction::decode_compressed(ci(2, 1, bit12, 10, low)),
            Instruction::CFldsp { rd: Register::A0, uimm: value }
        );
    }
    let w = ci(2, 2, 0, 0, 4);
    assert_eq!(Instruction::decode_compressed(w), Instruction::UndefinedCompressed(w));
    let w = ci(2, 3, 0, 0, 8);
    assert_eq!(Instruction::decode_compressed(w), Instruction::UndefinedCompressed(w));
}

#[test]
fn quadrant2_stack_stores() {
    // C.SWSP: uimm[5:2] = h[12:9], uimm[7:6] = h[8:7]
    for (field, value) in [(0u16, 0u32), (0b000100, 4), (0b100000, 32), (0b000001, 64), (0b000010, 128), (0b111111, 252)] {
        assert_eq!(
            Instruction::decode_compressed(0b110 << 13 | field << 7 | 11 << 2 | 2),
            Instruction::CSwsp { rs2: Register::A1, uimm: value }
        );
    }
    // C.SDSP: uimm[5:3] = h[12:10], uimm[8:6] = h[9:7]
    for (field, value) in [(0u16, 0u32), (0b001000, 8), (0b100000, 32), (0b000001, 64), (0b000100, 256), (0b111111, 504)] {
        assert_eq!(
            Instruction::decode_compressed(0b111 << 13 | field << 7 | 11 << 2 | 2),
            Instruction::CSdsp { rs2: Register::A1, uimm: value }
        );
        assert_eq!(
            Instruction::decode_compressed(0b101 << 13 | field << 7 | 11 << 2 | 2),
            Instruction::CFsdsp { rs2: Register::A1, uimm: value }
        );
    }
}

#[test]
fn quadrant2_jumps_move_and_add() {
    assert_eq!(Instruction::decode_compressed(0x8082), Instruction::CJr { rs1: Register::Ra });
    let w = ci(2, 4, 0, 0, 0);
    assert_eq!(Instruction::decode_compressed(w), Instruction::UndefinedCompressed(w));
    assert_eq!(
        Instruction::decode_compressed(ci(2, 4, 0, 10, 11)),
        Instruction::CMv { rd: Register::A0, rs2: Register::A1 }
    );
    assert_eq!(Instruction::decode_compressed(ci(2, 4, 0, 0, 11)), Instruction::Hint);
    assert_eq!(Instruction::decode_compressed(0x9002), Instruction::CEbreak);
    assert_eq!(
        Instruction::decode_compressed(ci(2, 4, 1, 10, 0)),
        Instruction::CJalr { rs1: Register::A0 }
    );
    assert_eq!(
        Instruction::decode_compressed(0x952e),
        Instruction::CAdd { reg: Register::A0, rs2: Register::A1 }
    );
    assert_eq!(Instruction::decode_compressed(ci(2, 4, 1, 0, 11)), Instruction::Hint);
}

#[test]
fn quadrant3_is_not_compressed() {
    for w in [0x0003u16, 0xffff, 0x0513, 0x8067] {
        assert_eq!(Instruction::decode_compressed(w), Instruction::UndefinedCompressed(w));
    }
}

#[test]
fn every_half_word_decodes_and_keeps_itself_when_undefined() {
    for w in 0..=u16::MAX {
        match Instruction::decode_compressed(w) {
            Instruction::UndefinedCompressed(x) => assert_eq!(x, w),
            Instruction::Undefined(_) => panic!("32-bit variant from a 16-bit word"),
            _ => {}
        }
    }
}

#[test]
fn every_supported_half_word_executes_without_fault_on_a_large_memory() {
    // Whatever decodes to a supported instruction either runs or is refused
    // by `check`; nothing in between.
    let mut ran = 0u32;
    for w in 0..=u16::MAX {
        if w & 3 == 3 {
            continue;
        }
        let inst = Instruction::decode_compressed(w);
        let mut c = fresh();
        c.set_reg(Register::Sp, 256);
        for i in 8..16u32 {
            c.set_reg(Register::from_index(i), 64 + i as u64 * 8);
        }
        c.set_reg(Register::Pc, 2);
        if c.check(inst).is_none() {
            c.execute(inst, 0);
            assert_eq!(c.reg(Register::Zero), 0);
            ran += 1;
        }
    }
    assert!(ran > 30000);
}

#[test]
fn compressed_arithmetic_executes_as_its_base_form() {
    let a = 0x0123_4567_89ab_cdefu64;
    let b = 0xfedc_ba98_7654_3210u64;
    let run = |inst: Instruction| {
        let mut c = fresh();
        c.set_reg(Register::A0, a);
        c.set_reg(Register::A1, b);
        c.set_reg(Register::Sp, 0x100);
        assert_eq!(c.execute(inst, 0), CoreExit::Success);
        c
    };
    let sext32 = |x: u32| x as i32 as i64 as u64;
    let (r, s) = (Register::A0, Register::A1);
    assert_eq!(run(Instruction::CAddi { reg: r, nzimm: -3 }).reg(r), a - 3);
    assert_eq!(run(Instruction::CAddiw { reg: r, imm: 1 }).reg(r), sext32(0x89ab_cdf0));
    assert_eq!(run(Instruction::CLi { rd: r, imm: -7 }).reg(r), (-7i64) as u64);
    assert_eq!(run(Instruction::CLui { rd: r, nzimm: -4096 }).reg(r), 0xffff_ffff_ffff_f000);
    assert_eq!(run(Instruction::CLui { rd: r, nzimm: 0x1f000 }).reg(r), 0x1f000);
    assert_eq!(run(Instruction::CAddi16sp { nzimm: -16 }).reg(Register::Sp), 0xf0);
    assert_eq!(run(Instruction::CAddi16sp { nzimm: 496 }).reg(Register::Sp), 0x100 + 496);
    assert_eq!(run(Instruction::CAddi4spn { rd: r, nzuimm: 1020 }).reg(r), 0x100 + 1020);
    assert_eq!(run(Instruction::CSrli { reg: r, nzuimm: 4 }).reg(r), a >> 4);
    assert_eq!(run(Instruction::CSrai { reg: s, nzuimm: 4 }).reg(s), ((b as i64) >> 4) as u64);
    assert_eq!(run(Instruction::CSlli { reg: r, nzuimm: 63 }).reg(r), a << 63);
    assert_eq!(run(Instruction::CAndi { reg: r, imm: -16 }).reg(r), a & !0xf);
    assert_eq!(run(Instruction::CSub { reg: r, rs2: s }).reg(r), a.wrapping_sub(b));
    assert_eq!(run(Instruction::CXor { reg: r, rs2: s }).reg(r), a ^ b);
    assert_eq!(run(Instruction::COr { reg: r, rs2: s }).reg(r), a | b);
    assert_eq!(run(Instruction::CAnd { reg: r, rs2: s }).reg(r), a & b);
    assert_eq!(run(Instruction::CSubw { reg: r, rs2: s }).reg(r), sext32((a as u32).wrapping_sub(b as u32)));
    assert_eq!(run(Instruction::CAddw { reg: r, rs2: s }).reg(r), sext32((a as u32).wrapping_add(b as u32)));
    assert_eq!(run(Instruction::CMv { rd: r, rs2: s }).reg(r), b);
    assert_eq!(run(Instruction::CAdd { reg: r, rs2: s }).reg(r), a.wrapping_add(b));
    assert_eq!(run(Instruction::CAdd { reg: r, rs2: r }).reg(r), a.wrapping_add(a));
}

#[test]
fn compressed_loads_and_stores_execute() {
    let mut c = fresh();
    c.set_reg(Register::Sp, 512);
    c.set_reg(Register::S0, 128);
    c.set_reg(Register::A0, 0x1111_2222_8333_4444);
    c.execute(Instruction::CSd { rs1: Register::S0, rs2: Register::A0, uimm: 8 }, 0);
    assert_eq!(c.load_u64(136), 0x1111_2222_8333_4444);
    c.execute(Instruction::CLd { rd: Register::A1, rs1: Register::S0, uimm: 8 }, 0);
    assert_eq!(c.reg(Register::A1), 0x1111_2222_8333_4444);
    c.execute(Instruction::CLw { rd: Register::A2, rs1: Register::S0, uimm: 8 }, 0);
    assert_eq!(c.reg(Register::A2), 0xffff_ffff_8333_4444);
    c.execute(Instruction::CSw { rs1: Register::S0, rs2: Register::A0, uimm: 124 }, 0);
    assert_eq!(c.load_u64(252), 0x8333_4444);
    c.execute(Instruction::CSdsp { rs2: Register::A0, uimm: 504 }, 0);
    assert_eq!(c.load_u64(1016), 0x1111_2222_8333_4444);
    c.execute(Instruction::CLdsp { rd: Register::A3, uimm: 504 }, 0);
    assert_eq!(c.reg(Register::A3), 0x1111_2222_8333_4444);
    c.execute(Instruction::CSwsp { rs2: Register::A0, uimm: 252 }, 0);
    assert_eq!(c.load_u64(764), 0x8333_4444);
    c.execute(Instruction::CLwsp { rd: Register::A4, uimm: 252 }, 0);
    assert_eq!(c.reg(Register::A4), 0xffff_ffff_8333_4444);
}

#[test]
fn compressed_jumps_and_branches_execute() {
    let mut c = fresh();
    c.set_reg(Register::Pc, 0x102);
    c.execute(Instruction::CJ { imm: -2 }, 0x100);
    assert_eq!(c.reg(Register::Pc), 0xfe);
    assert_eq!(c.reg(Register::Ra), 0);

    c.set_reg(Register::Pc, 0x102);
    c.set_reg(Register::A0, 0xffff1337);
    c.execute(Instruction::CJr { rs1: Register::A0 }, 0x100);
    assert_eq!(c.reg(Register::Pc), 0xffff1337);
    assert_eq!(c.reg(Register::Ra), 0);

    c.set_reg(Register::Pc, 0x102);
    c.execute(Instruction::CJalr { rs1: Register::A0 }, 0x100);
    assert_eq!(c.reg(Register::Pc), 0xffff1337);
    assert_eq!(c.reg(Register::Ra), 0x102);

    // C.JALR through ra itself jumps to the old ra.
    c.set_reg(Register::Pc, 0x202);
    c.set_reg(Register::Ra, 0x400);
    c.execute(Instruction::CJalr { rs1: Register::Ra }, 0x200);
    assert_eq!(c.reg(Register::Pc), 0x400);
    assert_eq!(c.reg(Register::Ra), 0x202);

    for (value, beqz_taken) in [(0u64, true), (1, false), (u64::MAX, false)] {
        c.set_reg(Register::S0, value);
        c.set_reg(Register::Pc, 0x102);
        c.execute(Instruction::CBeqz { rs1: Register::S0, imm: 0x10 }, 0x100);
        assert_eq!(c.reg(Register::Pc), if beqz_taken { 0x110 } else { 0x102 });
        c.set_reg(Register::Pc, 0x102);
        c.execute(Instruction::CBnez { rs1: Register::S0, imm: -0x10 }, 0x100);
        assert_eq!(c.reg(Register::Pc), if beqz_taken { 0x102 } else { 0xf0 });
    }
}
