//! What one instruction does to the machine, as a function on states.
//!
//! A state is the register file, the control/status registers and the
//! memory.  `State::apply` gives the state after an instruction, taken after
//! the program counter has been advanced past it; a compressed instruction
//! does what the base instruction it expands to does.  `State::step` puts
//! fetch, decode, advance and apply together.
//!
//! The four large case analyses, `Instruction::expand`, `State::access`,
//! `State::value` and `State::apply_base`, are opaque, so that a proof which
//! only passes states along does not pay for them; a proof that needs their
//! cases reveals them.

use vstd::prelude::*;
use crate::alu::{
    add32, add64, addw, div, divu, divuw, divw, low_byte, low_half, low_word, max_signed,
    max_unsigned, min_signed, min_unsigned, mul64, mulh, mulhsu, mulhu, mulw, rem, remu, remuw,
    remw, sext_byte, sext_half, sext_imm, sext_word, signed64, sll, sllw, slt, sltu, sra, sraw, srl,
    srlw, sub64, subw,
};
use crate::bits::bits;
use crate::cpu::{CoreExit, Register};
use crate::instruction::Instruction;
use crate::mmu::{in_range, load, store};

verus! {

/// The machine state: the value of each of the 33 registers, 4096
/// control/status registers and the bytes of the memory.
pub struct State {
    pub regs: Map<Register, u64>,
    pub csrs: Seq<u64>,
    pub mem: Seq<u8>,
}

/// Why an instruction cannot be executed.
#[derive(Copy, Clone, PartialEq, Eq, Structural, Debug)]
pub enum Fault {
    /// The fetched word decodes to nothing that the core executes.
    Decode { inst: Instruction },
    /// An access at `addr` reaches past the end of the memory.
    Memory { addr: u64 },
}

impl Instruction {
    /// Whether the core executes the instruction: not an undefined word,
    /// and not one of the compressed floating-point loads and stores.
    pub open spec fn supported(self) -> bool {
        match self {
            Instruction::Undefined(_) => false,
            Instruction::UndefinedCompressed(_) => false,
            Instruction::CFld { .. } => false,
            Instruction::CFsd { .. } => false,
            Instruction::CFldsp { .. } => false,
            Instruction::CFsdsp { .. } => false,
            _ => true,
        }
    }

    /// The base instruction that a compressed instruction stands for; a
    /// base instruction stands for itself.
    #[verifier::opaque]
    pub open spec fn expand(self) -> Instruction {
        match self {
            Instruction::CAddi4spn { rd, nzuimm } => Instruction::Addi {
                rd,
                rs1: Register::Sp,
                imm: nzuimm as i32,
            },
            Instruction::CLw { rd, rs1, uimm } => Instruction::Lw { rd, rs1, imm: uimm as i32 },
            Instruction::CLd { rd, rs1, uimm } => Instruction::Ld { rd, rs1, imm: uimm as i32 },
            Instruction::CSw { rs1, rs2, uimm } => Instruction::Sw { rs1, rs2, imm: uimm as i32 },
            Instruction::CSd { rs1, rs2, uimm } => Instruction::Sd { rs1, rs2, imm: uimm as i32 },
            Instruction::CNop => Instruction::Addi {
                rd: Register::Zero,
                rs1: Register::Zero,
                imm: 0,
            },
            Instruction::Hint => Instruction::Addi {
                rd: Register::Zero,
                rs1: Register::Zero,
                imm: 0,
            },
            Instruction::CAddi { reg, nzimm } => Instruction::Addi {
                rd: reg,
                rs1: reg,
                imm: nzimm,
            },
            Instruction::CAddiw { reg, imm } => Instruction::Addiw { rd: reg, rs1: reg, imm },
            Instruction::CLi { rd, imm } => Instruction::Addi { rd, rs1: Register::Zero, imm },
            Instruction::CAddi16sp { nzimm } => Instruction::Addi {
                rd: Register::Sp,
                rs1: Register::Sp,
                imm: nzimm,
            },
            Instruction::CLui { rd, nzimm } => Instruction::Lui { rd, imm: nzimm },
            Instruction::CSrli { reg, nzuimm } => Instruction::Srli {
                rd: reg,
                rs1: reg,
                shamt: nzuimm as i32,
            },
            Instruction::CSrai { reg, nzuimm } => Instruction::Srai {
                rd: reg,
                rs1: reg,
                shamt: nzuimm as i32,
            },
            Instruction::CAndi { reg, imm } => Instruction::Andi { rd: reg, rs1: reg, imm },
            Instruction::CSub { reg, rs2 } => Instruction::Sub { rd: reg, rs1: reg, rs2 },
            Instruction::CXor { reg, rs2 } => Instruction::Xor { rd: reg, rs1: reg, rs2 },
            Instruction::COr { reg, rs2 } => Instruction::Or { rd: reg, rs1: reg, rs2 },
            Instruction::CAnd { reg, rs2 } => Instruction::And { rd: reg, rs1: reg, rs2 },
            Instruction::CSubw { reg, rs2 } => Instruction::Subw { rd: reg, rs1: reg, rs2 },
            Instruction::CAddw { reg, rs2 } => Instruction::Addw { rd: reg, rs1: reg, rs2 },
            Instruction::CJ { imm } => Instruction::Jal { rd: Register::Zero, imm },
            Instruction::CBeqz { rs1, imm } => Instruction::Beq { rs1, rs2: Register::Zero, imm },
            Instruction::CBnez { rs1, imm } => Instruction::Bne { rs1, rs2: Register::Zero, imm },
            Instruction::CSlli { reg, nzuimm } => Instruction::Slli {
                rd: reg,
                rs1: reg,
                shamt: nzuimm as i32,
            },
            Instruction::CLwsp { rd, uimm } => Instruction::Lw {
                rd,
                rs1: Register::Sp,
                imm: uimm as i32,
            },
            Instruction::CLdsp { rd, uimm } => Instruction::Ld {
                rd,
                rs1: Register::Sp,
                imm: uimm as i32,
            },
            Instruction::CJr { rs1 } => Instruction::Jalr { rd: Register::Zero, rs1, imm: 0 },
            Instruction::CMv { rd, rs2 } => Instruction::Add { rd, rs1: Register::Zero, rs2 },
            Instruction::CEbreak => Instruction::Ebreak,
            Instruction::CJalr { rs1 } => Instruction::Jalr { rd: Register::Ra, rs1, imm: 0 },
            Instruction::CAdd { reg, rs2 } => Instruction::Add { rd: reg, rs1: reg, rs2 },
            Instruction::CSwsp { rs2, uimm } => Instruction::Sw {
                rs1: Register::Sp,
                rs2,
                imm: uimm as i32,
            },
            Instruction::CSdsp { rs2, uimm } => Instruction::Sd {
                rs1: Register::Sp,
                rs2,
                imm: uimm as i32,
            },
            _ => self,
        }
    }

    /// What a step that executes the instruction reports.
    pub open spec fn exit(self) -> CoreExit {
        match self {
            Instruction::Ecall => CoreExit::Ecall,
            Instruction::Ebreak => CoreExit::Ebreak,
            Instruction::CEbreak => CoreExit::Ebreak,
            _ => CoreExit::Success,
        }
    }

    /// Whether the base instruction is a jump.
    pub open spec fn is_jump(self) -> bool {
        self is Jal || self is Jalr
    }

    /// Whether the base instruction is an atomic memory operation.
    pub open spec fn is_atomic(self) -> bool {
        self is Amoswapw || self is Amoaddw || self is Amoxorw || self is Amoandw || self is Amoorw
            || self is Amominw || self is Amomaxw || self is Amominuw || self is Amomaxuw
    }

    /// Whether the base instruction accesses a control/status register.
    pub open spec fn is_csr(self) -> bool {
        self is Csrrw || self is Csrrs || self is Csrrc || self is Csrrwi || self is Csrrsi
            || self is Csrrci
    }

    /// The base instruction that a well-formed compressed instruction
    /// stands for is well formed.
    pub proof fn lemma_expand_wf(self)
        requires
            self.wf(),
        ensures
            self.expand().wf(),
    {
        reveal(Instruction::expand);
        match self {
            Instruction::CAddi4spn { .. } => {
                assert(self.expand().wf());
            },
            Instruction::CLw { .. } => {
                assert(self.expand().wf());
            },
            Instruction::CLd { .. } => {
                assert(self.expand().wf());
            },
            Instruction::CSw { .. } => {
                assert(self.expand().wf());
            },
            Instruction::CSd { .. } => {
                assert(self.expand().wf());
            },
            Instruction::CNop => {
                assert(self.expand().wf());
            },
            Instruction::Hint => {
                assert(self.expand().wf());
            },
            Instruction::CAddi { .. } => {
                assert(self.expand().wf());
            },
            Instruction::CAddiw { .. } => {
                assert(self.expand().wf());
            },
            Instruction::CLi { .. } => {
                assert(self.expand().wf());
            },
            Instruction::CAddi16sp { .. } => {
                assert(self.expand().wf());
            },
            Instruction::CLui { .. } => {
                assert(self.expand().wf());
            },
            Instruction::CSrli { .. } => {
                assert(self.expand().wf());
            },
            Instruction::CSrai { .. } => {
                assert(self.expand().wf());
            },
            Instruction::CAndi { .. } => {
                assert(self.expand().wf());
            },
            Instruction::CSub { .. } => {
                assert(self.expand().wf());
            },
            Instruction::CXor { .. } => {
                assert(self.expand().wf());
            },
            Instruction::COr { .. } => {
                assert(self.expand().wf());
            },
            Instruction::CAnd { .. } => {
                assert(self.expand().wf());
            },
            Instruction::CSubw { .. } => {
                assert(self.expand().wf());
            },
            Instruction::CAddw { .. } => {
                assert(self.expand().wf());
            },
            Instruction::CJ { .. } => {
                assert(self.expand().wf());
            },
            Instruction::CBeqz { .. } => {
                assert(self.expand().wf());
            },
            Instruction::CBnez { .. } => {
                assert(self.expand().wf());
            },
            Instruction::CSlli { .. } => {
                assert(self.expand().wf());
            },
            Instruction::CLwsp { .. } => {
                assert(self.expand().wf());
            },
            Instruction::CLdsp { .. } => {
                assert(self.expand().wf());
            },
            Instruction::CJr { .. } => {
                assert(self.expand().wf());
            },
            Instruction::CMv { .. } => {
                assert(self.expand().wf());
            },
            Instruction::CEbreak => {
                assert(self.expand().wf());
            },
            Instruction::CJalr { .. } => {
                assert(self.expand().wf());
            },
            Instruction::CAdd { .. } => {
                assert(self.expand().wf());
            },
            Instruction::CSwsp { .. } => {
                assert(self.expand().wf());
            },
            Instruction::CSdsp { .. } => {
                assert(self.expand().wf());
            },
            _ => {
                assert(self.expand() == self);
            },
        }
    }

    /// A compressed instruction writes to the register that the base
    /// instruction it stands for writes to.
    pub proof fn lemma_expand_dest(self)
        ensures
            self.expand().dest() == self.dest(),
    {
        reveal(Instruction::expand);
        match self {
            Instruction::CAddi4spn { .. } => {
                assert(self.expand().dest() == self.dest());
            },
            Instruction::CLw { .. } => {
                assert(self.expand().dest() == self.dest());
            },
            Instruction::CLd { .. } => {
                assert(self.expand().dest() == self.dest());
            },
            Instruction::CSw { .. } => {
                assert(self.expand().dest() == self.dest());
            },
            Instruction::CSd { .. } => {
                assert(self.expand().dest() == self.dest());
            },
            Instruction::CNop => {
                assert(self.expand().dest() == self.dest());
            },
            Instruction::Hint => {
                assert(self.expand().dest() == self.dest());
            },
            Instruction::CAddi { .. } => {
                assert(self.expand().dest() == self.dest());
            },
            Instruction::CAddiw { .. } => {
                assert(self.expand().dest() == self.dest());
            },
            Instruction::CLi { .. } => {
                assert(self.expand().dest() == self.dest());
            },
            Instruction::CAddi16sp { .. } => {
                assert(self.expand().dest() == self.dest());
            },
            Instruction::CLui { .. } => {
                assert(self.expand().dest() == self.dest());
            },
            Instruction::CSrli { .. } => {
                assert(self.expand().dest() == self.dest());
            },
            Instruction::CSrai { .. } => {
                assert(self.expand().dest() == self.dest());
            },
            Instruction::CAndi { .. } => {
                assert(self.expand().dest() == self.dest());
            },
            Instruction::CSub { .. } => {
                assert(self.expand().dest() == self.dest());
            },
            Instruction::CXor { .. } => {
                assert(self.expand().dest() == self.dest());
            },
            Instruction::COr { .. } => {
                assert(self.expand().dest() == self.dest());
            },
            Instruction::CAnd { .. } => {
                assert(self.expand().dest() == self.dest());
            },
            Instruction::CSubw { .. } => {
                assert(self.expand().dest() == self.dest());
            },
            Instruction::CAddw { .. } => {
                assert(self.expand().dest() == self.dest());
            },
            Instruction::CJ { .. } => {
                assert(self.expand().dest() == self.dest());
            },
            Instruction::CBeqz { .. } => {
                assert(self.expand().dest() == self.dest());
            },
            Instruction::CBnez { .. } => {
                assert(self.expand().dest() == self.dest());
            },
            Instruction::CSlli { .. } => {
                assert(self.expand().dest() == self.dest());
            },
            Instruction::CLwsp { .. } => {
                assert(self.expand().dest() == self.dest());
            },
            Instruction::CLdsp { .. } => {
                assert(self.expand().dest() == self.dest());
            },
            Instruction::CJr { .. } => {
                assert(self.expand().dest() == self.dest());
            },
            Instruction::CMv { .. } => {
                assert(self.expand().dest() == self.dest());
            },
            Instruction::CEbreak => {
                assert(self.expand().dest() == self.dest());
            },
            Instruction::CJalr { .. } => {
                assert(self.expand().dest() == self.dest());
            },
            Instruction::CAdd { .. } => {
                assert(self.expand().dest() == self.dest());
            },
            Instruction::CSwsp { .. } => {
                assert(self.expand().dest() == self.dest());
            },
            Instruction::CSdsp { .. } => {
                assert(self.expand().dest() == self.dest());
            },
            _ => {
                assert(self.expand() == self);
            },
        }
    }
}

impl State {
    /// Every register has a value, there are 4096 control/status
    /// registers, and `x0` holds zero.
    pub open spec fn wf(self) -> bool {
        &&& self.regs.dom() =~= Set::<Register>::full()
        &&& self.csrs.len() == 4096
        &&& self.regs[Register::Zero] == 0
    }

    /// The value of a register.
    pub open spec fn reg(self, r: Register) -> u64 {
        self.regs[r]
    }

    /// The program counter.
    pub open spec fn pc(self) -> u64 {
        self.regs[Register::Pc]
    }

    /// The state after `value` has been written to `r`; a write to `x0`
    /// changes nothing.
    pub open spec fn set_reg(self, r: Register, value: u64) -> State {
        if r == Register::Zero {
            self
        } else {
            State { regs: self.regs.insert(r, value), ..self }
        }
    }

    /// The state after a jump to `target`.
    pub open spec fn set_pc(self, target: u64) -> State {
        self.set_reg(Register::Pc, target)
    }

    /// The state after `value` has been written to the control/status
    /// register `csr`.
    pub open spec fn set_csr(self, csr: u16, value: u64) -> State {
        State { csrs: self.csrs.update(csr as int, value), ..self }
    }

    /// The unsigned number in the `width` bytes at `addr`.
    pub open spec fn load(self, addr: u64, width: nat) -> nat {
        load(self.mem, addr as int, width)
    }

    /// The state after the low `width` bytes of `value` have been stored at
    /// `addr`.
    pub open spec fn store(self, addr: u64, width: nat, value: nat) -> State {
        State { mem: store(self.mem, addr as int, width, value), ..self }
    }

    /// The address `rs1 + sext(imm)` of a load or store.
    pub open spec fn address(self, rs1: Register, imm: i32) -> u64 {
        add64(self.reg(rs1), sext_imm(imm))
    }

    /// The state after a conditional branch: at `current_pc + sext(imm)`
    /// where the branch is taken, unchanged where it is not.
    pub open spec fn branch(self, taken: bool, current_pc: u64, imm: i32) -> State {
        if taken {
            self.set_pc(add64(current_pc, sext_imm(imm)))
        } else {
            self
        }
    }

    /// The state after an atomic memory operation on the word at `rs1` has
    /// stored `new` there and put the sign-extended old word in `rd`.
    pub open spec fn amo(self, rd: Register, rs1: Register, new: u32) -> State {
        let addr = self.reg(rs1);
        let old = self.load(addr, 4) as u32;
        self.store(addr, 4, new as nat).set_reg(rd, sext_word(old))
    }

    /// The word at the address in `rs1`, which an atomic memory operation
    /// combines with the low word of its source register.
    pub open spec fn amo_old(self, rs1: Register) -> u32 {
        self.load(self.reg(rs1), 4) as u32
    }

    /// The bytes that the base instruction `inst` reads or writes in
    /// memory: the address of the first and their number.
    #[verifier::opaque]
    pub open spec fn access(self, inst: Instruction) -> Option<(u64, nat)> {
        match inst {
            Instruction::Lb { rs1, imm, .. } => Some((self.address(rs1, imm), 1nat)),
            Instruction::Lbu { rs1, imm, .. } => Some((self.address(rs1, imm), 1nat)),
            Instruction::Sb { rs1, imm, .. } => Some((self.address(rs1, imm), 1nat)),
            Instruction::Lh { rs1, imm, .. } => Some((self.address(rs1, imm), 2nat)),
            Instruction::Lhu { rs1, imm, .. } => Some((self.address(rs1, imm), 2nat)),
            Instruction::Sh { rs1, imm, .. } => Some((self.address(rs1, imm), 2nat)),
            Instruction::Lw { rs1, imm, .. } => Some((self.address(rs1, imm), 4nat)),
            Instruction::Lwu { rs1, imm, .. } => Some((self.address(rs1, imm), 4nat)),
            Instruction::Sw { rs1, imm, .. } => Some((self.address(rs1, imm), 4nat)),
            Instruction::Ld { rs1, imm, .. } => Some((self.address(rs1, imm), 8nat)),
            Instruction::Sd { rs1, imm, .. } => Some((self.address(rs1, imm), 8nat)),
            Instruction::Amoswapw { rs1, .. } => Some((self.reg(rs1), 4nat)),
            Instruction::Amoaddw { rs1, .. } => Some((self.reg(rs1), 4nat)),
            Instruction::Amoxorw { rs1, .. } => Some((self.reg(rs1), 4nat)),
            Instruction::Amoandw { rs1, .. } => Some((self.reg(rs1), 4nat)),
            Instruction::Amoorw { rs1, .. } => Some((self.reg(rs1), 4nat)),
            Instruction::Amominw { rs1, .. } => Some((self.reg(rs1), 4nat)),
            Instruction::Amomaxw { rs1, .. } => Some((self.reg(rs1), 4nat)),
            Instruction::Amominuw { rs1, .. } => Some((self.reg(rs1), 4nat)),
            Instruction::Amomaxuw { rs1, .. } => Some((self.reg(rs1), 4nat)),
            _ => None,
        }
    }

    /// The fault that executing `inst` in this state raises, if any: a
    /// decode fault for what the core does not execute, a memory fault for
    /// an access that does not lie inside the memory.
    pub open spec fn fault(self, inst: Instruction) -> Option<Fault> {
        if !inst.supported() {
            Some(Fault::Decode { inst })
        } else {
            match self.access(inst.expand()) {
                Some((addr, width)) => {
                    if in_range(self.mem, addr as int, width) {
                        None
                    } else {
                        Some(Fault::Memory { addr })
                    }
                },
                None => None,
            }
        }
    }

    /// The value that the base instruction `inst` computes or loads for its
    /// destination register; zero for an instruction that has none or that
    /// does more than write a result.
    #[verifier::opaque]
    pub open spec fn value(self, inst: Instruction, current_pc: u64) -> u64 {
        match inst {
            Instruction::Lui { imm, .. } => sext_imm(imm),
            Instruction::Auipc { imm, .. } => add64(current_pc, sext_imm(imm)),
            Instruction::Lb { rs1, imm, .. } => sext_byte(
                self.load(self.address(rs1, imm), 1) as u8,
            ),
            Instruction::Lh { rs1, imm, .. } => sext_half(
                self.load(self.address(rs1, imm), 2) as u16,
            ),
            Instruction::Lw { rs1, imm, .. } => sext_word(
                self.load(self.address(rs1, imm), 4) as u32,
            ),
            Instruction::Lbu { rs1, imm, .. } => self.load(self.address(rs1, imm), 1) as u64,
            Instruction::Lhu { rs1, imm, .. } => self.load(self.address(rs1, imm), 2) as u64,
            Instruction::Lwu { rs1, imm, .. } => self.load(self.address(rs1, imm), 4) as u64,
            Instruction::Ld { rs1, imm, .. } => self.load(self.address(rs1, imm), 8) as u64,
            Instruction::Addi { rs1, imm, .. } => add64(self.reg(rs1), sext_imm(imm)),
            Instruction::Slti { rs1, imm, .. } => slt(self.reg(rs1), sext_imm(imm)),
            Instruction::Sltiu { rs1, imm, .. } => sltu(self.reg(rs1), sext_imm(imm)),
            Instruction::Xori { rs1, imm, .. } => self.reg(rs1) ^ sext_imm(imm),
            Instruction::Ori { rs1, imm, .. } => self.reg(rs1) | sext_imm(imm),
            Instruction::Andi { rs1, imm, .. } => self.reg(rs1) & sext_imm(imm),
            Instruction::Slli { rs1, shamt, .. } => sll(self.reg(rs1), shamt as u64),
            Instruction::Srli { rs1, shamt, .. } => srl(self.reg(rs1), shamt as u64),
            Instruction::Srai { rs1, shamt, .. } => sra(self.reg(rs1), shamt as u64),
            Instruction::Addiw { rs1, imm, .. } => addw(self.reg(rs1), sext_imm(imm)),
            Instruction::Slliw { rs1, shamt, .. } => sllw(self.reg(rs1), shamt as u64),
            Instruction::Srliw { rs1, shamt, .. } => srlw(self.reg(rs1), shamt as u64),
            Instruction::Sraiw { rs1, shamt, .. } => sraw(self.reg(rs1), shamt as u64),
            Instruction::Add { rs1, rs2, .. } => add64(self.reg(rs1), self.reg(rs2)),
            Instruction::Sub { rs1, rs2, .. } => sub64(self.reg(rs1), self.reg(rs2)),
            Instruction::Sll { rs1, rs2, .. } => sll(self.reg(rs1), self.reg(rs2)),
            Instruction::Slt { rs1, rs2, .. } => slt(self.reg(rs1), self.reg(rs2)),
            Instruction::Sltu { rs1, rs2, .. } => sltu(self.reg(rs1), self.reg(rs2)),
            Instruction::Xor { rs1, rs2, .. } => self.reg(rs1) ^ self.reg(rs2),
            Instruction::Srl { rs1, rs2, .. } => srl(self.reg(rs1), self.reg(rs2)),
            Instruction::Sra { rs1, rs2, .. } => sra(self.reg(rs1), self.reg(rs2)),
            Instruction::Or { rs1, rs2, .. } => self.reg(rs1) | self.reg(rs2),
            Instruction::And { rs1, rs2, .. } => self.reg(rs1) & self.reg(rs2),
            Instruction::Mul { rs1, rs2, .. } => mul64(self.reg(rs1), self.reg(rs2)),
            Instruction::Mulh { rs1, rs2, .. } => mulh(self.reg(rs1), self.reg(rs2)),
            Instruction::Mulhsu { rs1, rs2, .. } => mulhsu(self.reg(rs1), self.reg(rs2)),
            Instruction::Mulhu { rs1, rs2, .. } => mulhu(self.reg(rs1), self.reg(rs2)),
            Instruction::Div { rs1, rs2, .. } => div(self.reg(rs1), self.reg(rs2)),
            Instruction::Divu { rs1, rs2, .. } => divu(self.reg(rs1), self.reg(rs2)),
            Instruction::Rem { rs1, rs2, .. } => rem(self.reg(rs1), self.reg(rs2)),
            Instruction::Remu { rs1, rs2, .. } => remu(self.reg(rs1), self.reg(rs2)),
            Instruction::Addw { rs1, rs2, .. } => addw(self.reg(rs1), self.reg(rs2)),
            Instruction::Subw { rs1, rs2, .. } => subw(self.reg(rs1), self.reg(rs2)),
            Instruction::Sllw { rs1, rs2, .. } => sllw(self.reg(rs1), self.reg(rs2)),
            Instruction::Srlw { rs1, rs2, .. } => srlw(self.reg(rs1), self.reg(rs2)),
            Instruction::Sraw { rs1, rs2, .. } => sraw(self.reg(rs1), self.reg(rs2)),
            Instruction::Mulw { rs1, rs2, .. } => mulw(self.reg(rs1), self.reg(rs2)),
            Instruction::Divw { rs1, rs2, .. } => divw(self.reg(rs1), self.reg(rs2)),
            Instruction::Divuw { rs1, rs2, .. } => divuw(self.reg(rs1), self.reg(rs2)),
            Instruction::Remw { rs1, rs2, .. } => remw(self.reg(rs1), self.reg(rs2)),
            Instruction::Remuw { rs1, rs2, .. } => remuw(self.reg(rs1), self.reg(rs2)),
            _ => 0,
        }
    }

    /// The state after the base instruction `inst`, where `self` is the
    /// state after the program counter moved past the instruction and
    /// `current_pc` is the address of the instruction.
    ///
    /// A jump links the address after the instruction, which is the program
    /// counter of `self`, and its target is taken as it is, the low bit
    /// included.  An access to a control/status register reads the register
    /// first, into `rd`, and then the source: where both name one register,
    /// what is written back is what was read.  `CSRRW` and `CSRRWI` leave the
    /// read out when `rd` is `x0`; the other four leave the write out when
    /// the source is `x0` or the immediate zero.  An instruction that only
    /// computes or loads writes its `value` to its destination.
    #[verifier::opaque]
    pub open spec fn apply_base(self, inst: Instruction, current_pc: u64) -> State {
        match inst {
            Instruction::Jal { rd, imm } => self.set_reg(rd, self.pc()).set_pc(
                add64(current_pc, sext_imm(imm)),
            ),
            Instruction::Jalr { rd, rs1, imm } => self.set_reg(rd, self.pc()).set_pc(
                self.address(rs1, imm),
            ),
            Instruction::Beq { rs1, rs2, imm } => self.branch(
                self.reg(rs1) == self.reg(rs2),
                current_pc,
                imm,
            ),
            Instruction::Bne { rs1, rs2, imm } => self.branch(
                self.reg(rs1) != self.reg(rs2),
                current_pc,
                imm,
            ),
            Instruction::Blt { rs1, rs2, imm } => self.branch(
                signed64(self.reg(rs1)) < signed64(self.reg(rs2)),
                current_pc,
                imm,
            ),
            Instruction::Bge { rs1, rs2, imm } => self.branch(
                signed64(self.reg(rs1)) >= signed64(self.reg(rs2)),
                current_pc,
                imm,
            ),
            Instruction::Bltu { rs1, rs2, imm } => self.branch(
                self.reg(rs1) < self.reg(rs2),
                current_pc,
                imm,
            ),
            Instruction::Bgeu { rs1, rs2, imm } => self.branch(
                self.reg(rs1) >= self.reg(rs2),
                current_pc,
                imm,
            ),
            Instruction::Sb { rs1, rs2, imm } => self.store(
                self.address(rs1, imm),
                1,
                low_byte(self.reg(rs2)) as nat,
            ),
            Instruction::Sh { rs1, rs2, imm } => self.store(
                self.address(rs1, imm),
                2,
                low_half(self.reg(rs2)) as nat,
            ),
            Instruction::Sw { rs1, rs2, imm } => self.store(
                self.address(rs1, imm),
                4,
                low_word(self.reg(rs2)) as nat,
            ),
            Instruction::Sd { rs1, rs2, imm } => self.store(
                self.address(rs1, imm),
                8,
                self.reg(rs2) as nat,
            ),
            Instruction::Csrrw { rd, rs1, csr } => {
                let read = if rd != Register::Zero {
                    self.set_reg(rd, self.csrs[csr as int])
                } else {
                    self
                };
                read.set_csr(csr, read.reg(rs1))
            },
            Instruction::Csrrs { rd, rs1, csr } => {
                let old = self.csrs[csr as int];
                let read = self.set_reg(rd, old);
                if rs1 != Register::Zero {
                    read.set_csr(csr, old | read.reg(rs1))
                } else {
                    read
                }
            },
            Instruction::Csrrc { rd, rs1, csr } => {
                let old = self.csrs[csr as int];
                let read = self.set_reg(rd, old);
                if rs1 != Register::Zero {
                    read.set_csr(csr, old & !read.reg(rs1))
                } else {
                    read
                }
            },
            Instruction::Csrrwi { rd, uimm, csr } => {
                let read = if rd != Register::Zero {
                    self.set_reg(rd, self.csrs[csr as int])
                } else {
                    self
                };
                read.set_csr(csr, uimm as u64)
            },
            Instruction::Csrrsi { rd, uimm, csr } => {
                let old = self.csrs[csr as int];
                let read = self.set_reg(rd, old);
                if uimm != 0 {
                    read.set_csr(csr, old | uimm as u64)
                } else {
                    read
                }
            },
            Instruction::Csrrci { rd, uimm, csr } => {
                let old = self.csrs[csr as int];
                let read = self.set_reg(rd, old);
                if uimm != 0 {
                    read.set_csr(csr, old & !(uimm as u64))
                } else {
                    read
                }
            },
            Instruction::Amoswapw { rd, rs1, rs2, .. } => self.amo(
                rd,
                rs1,
                low_word(self.reg(rs2)),
            ),
            Instruction::Amoaddw { rd, rs1, rs2, .. } => self.amo(
                rd,
                rs1,
                add32(self.amo_old(rs1), low_word(self.reg(rs2))),
            ),
            Instruction::Amoxorw { rd, rs1, rs2, .. } => self.amo(
                rd,
                rs1,
                self.amo_old(rs1) ^ low_word(self.reg(rs2)),
            ),
            Instruction::Amoandw { rd, rs1, rs2, .. } => self.amo(
                rd,
                rs1,
                self.amo_old(rs1) & low_word(self.reg(rs2)),
            ),
            Instruction::Amoorw { rd, rs1, rs2, .. } => self.amo(
                rd,
                rs1,
                self.amo_old(rs1) | low_word(self.reg(rs2)),
            ),
            Instruction::Amominw { rd, rs1, rs2, .. } => self.amo(
                rd,
                rs1,
                min_signed(self.amo_old(rs1), low_word(self.reg(rs2))),
            ),
            Instruction::Amomaxw { rd, rs1, rs2, .. } => self.amo(
                rd,
                rs1,
                max_signed(self.amo_old(rs1), low_word(self.reg(rs2))),
            ),
            Instruction::Amominuw { rd, rs1, rs2, .. } => self.amo(
                rd,
                rs1,
                min_unsigned(self.amo_old(rs1), low_word(self.reg(rs2))),
            ),
            Instruction::Amomaxuw { rd, rs1, rs2, .. } => self.amo(
                rd,
                rs1,
                max_unsigned(self.amo_old(rs1), low_word(self.reg(rs2))),
            ),
            _ => match inst.dest() {
                Some(rd) => self.set_reg(rd, self.value(inst, current_pc)),
                None => self,
            },
        }
    }

    /// The state after `inst`, base or compressed.
    pub open spec fn apply(self, inst: Instruction, current_pc: u64) -> State {
        self.apply_base(inst.expand(), current_pc)
    }

    /// The half-word at the program counter.
    pub open spec fn fetch_half(self) -> u16 {
        self.load(self.pc(), 2) as u16
    }

    /// The word at the program counter.
    pub open spec fn fetch_word(self) -> u32 {
        self.load(self.pc(), 4) as u32
    }

    /// Whether the instruction at the program counter is a compressed one:
    /// the low two bits of its first half-word are not both set.
    pub open spec fn is_compressed(self) -> bool {
        bits(self.fetch_half() as int, 1, 0) != 0b11
    }

    /// The length in bytes of the instruction at the program counter.
    pub open spec fn length(self) -> u64 {
        if self.is_compressed() {
            2
        } else {
            4
        }
    }

    /// The instruction at the program counter.
    pub open spec fn fetched(self) -> Instruction {
        if self.is_compressed() {
            Instruction::decode_compressed_spec(self.fetch_half())
        } else {
            Instruction::decode_spec(self.fetch_word())
        }
    }

    /// The state after the program counter has moved past the instruction
    /// it points at.
    pub open spec fn advance(self) -> State {
        self.set_pc(add64(self.pc(), self.length()))
    }

    /// Moving the program counter forward and then back to where it was
    /// leaves the state as it was.
    pub proof fn lemma_move_back(self)
        requires
            self.wf(),
        ensures
            self.advance().set_pc(self.pc()) == self,
    {
        assert(self.advance().set_pc(self.pc()).regs =~= self.regs);
    }

    /// The fault that a step from this state raises, if any: a memory fault
    /// where the instruction does not lie inside the memory, else the fault
    /// of the fetched instruction in the state past the fetch.
    pub open spec fn step_fault(self) -> Option<Fault> {
        if !in_range(self.mem, self.pc() as int, 2) {
            Some(Fault::Memory { addr: self.pc() })
        } else if !in_range(self.mem, self.pc() as int, self.length() as nat) {
            Some(Fault::Memory { addr: self.pc() })
        } else {
            self.advance().fault(self.fetched())
        }
    }

    /// The program counter after one step: the target where the fetched
    /// instruction is a jump or a taken branch, and otherwise the address of
    /// the instruction plus its length, 2 for a compressed and 4 for a
    /// 32-bit instruction.
    pub open spec fn next_pc(self) -> u64 {
        match self.advance().target(self.fetched().expand(), self.pc()) {
            Some(target) => target,
            None => add64(self.pc(), self.length()),
        }
    }

    /// The state after one step: the instruction at the program counter is
    /// fetched and decoded, the program counter moves past it, and the
    /// instruction is applied.
    pub open spec fn step(self) -> State {
        self.advance().apply(self.fetched(), self.pc())
    }

    /// Where the base instruction `inst` sends the program counter: the
    /// target of a jump or of a branch that is taken, and nothing otherwise.
    pub open spec fn target(self, inst: Instruction, current_pc: u64) -> Option<u64> {
        let taken = match inst {
            Instruction::Jal { .. } => true,
            Instruction::Beq { rs1, rs2, .. } => self.reg(rs1) == self.reg(rs2),
            Instruction::Bne { rs1, rs2, .. } => self.reg(rs1) != self.reg(rs2),
            Instruction::Blt { rs1, rs2, .. } => signed64(self.reg(rs1)) < signed64(self.reg(rs2)),
            Instruction::Bge { rs1, rs2, .. } => signed64(self.reg(rs1)) >= signed64(self.reg(rs2)),
            Instruction::Bltu { rs1, rs2, .. } => self.reg(rs1) < self.reg(rs2),
            Instruction::Bgeu { rs1, rs2, .. } => self.reg(rs1) >= self.reg(rs2),
            _ => false,
        };
        match inst {
            Instruction::Jalr { rs1, imm, .. } => Some(self.address(rs1, imm)),
            Instruction::Jal { imm, .. } => Some(add64(current_pc, sext_imm(imm))),
            Instruction::Beq { imm, .. } if taken => Some(add64(current_pc, sext_imm(imm))),
            Instruction::Bne { imm, .. } if taken => Some(add64(current_pc, sext_imm(imm))),
            Instruction::Blt { imm, .. } if taken => Some(add64(current_pc, sext_imm(imm))),
            Instruction::Bge { imm, .. } if taken => Some(add64(current_pc, sext_imm(imm))),
            Instruction::Bltu { imm, .. } if taken => Some(add64(current_pc, sext_imm(imm))),
            Instruction::Bgeu { imm, .. } if taken => Some(add64(current_pc, sext_imm(imm))),
            _ => None,
        }
    }

    /// The state after the writes in `writes` have been made one after the
    /// other, the first of them first.
    pub open spec fn set_regs(self, writes: Seq<(Register, u64)>) -> State
        decreases writes.len(),
    {
        if writes.len() == 0 {
            self
        } else {
            self.set_regs(writes.drop_last()).set_reg(writes.last().0, writes.last().1)
        }
    }

    /// The hardwired zero: whatever is written to the register file, and in
    /// whatever order, `x0` reads as zero and the state stays well formed.
    pub proof fn lemma_zero_stays_zero(self, writes: Seq<(Register, u64)>)
        requires
            self.wf(),
        ensures
            self.set_regs(writes).wf(),
            self.set_regs(writes).reg(Register::Zero) == 0,
        decreases writes.len(),
    {
        if writes.len() > 0 {
            self.lemma_zero_stays_zero(writes.drop_last());
        }
    }

    /// A write to a register leaves the state well formed, and where the
    /// register is general purpose, the program counter as it was.
    pub proof fn lemma_set_reg(self, r: Register, value: u64)
        requires
            self.wf(),
        ensures
            self.set_reg(r, value).wf(),
            r.is_general() ==> self.set_reg(r, value).pc() == self.pc(),
            self.set_reg(Register::Pc, value).pc() == value,
    {
        assert(self.regs.insert(r, value).dom() =~= self.regs.dom());
    }

    /// An instruction leaves the state well formed.
    pub proof fn lemma_apply_wf(self, inst: Instruction, current_pc: u64)
        requires
            self.wf(),
            inst.wf(),
        ensures
            self.apply(inst, current_pc).wf(),
    {
        assert forall|s: State, r: Register, v: u64| s.wf() implies #[trigger] s.set_reg(
            r,
            v,
        ).wf() by {
            s.lemma_set_reg(r, v);
        }
        inst.lemma_expand_wf();
        self.lemma_apply_base_wf(inst.expand(), current_pc);
    }

    /// `lemma_apply_wf` for a base instruction, case by case.
    proof fn lemma_apply_base_wf(self, inst: Instruction, current_pc: u64)
        requires
            self.wf(),
            inst.wf(),
            forall|s: State, r: Register, v: u64| s.wf() ==> #[trigger] s.set_reg(r, v).wf(),
        ensures
            self.apply_base(inst, current_pc).wf(),
    {
        reveal(State::apply_base);
        match inst {
            Instruction::Jal { .. } => {
                assert(self.apply_base(inst, current_pc).wf());
            },
            Instruction::Jalr { .. } => {
                assert(self.apply_base(inst, current_pc).wf());
            },
            Instruction::Beq { .. } => {
                assert(self.apply_base(inst, current_pc).wf());
            },
            Instruction::Bne { .. } => {
                assert(self.apply_base(inst, current_pc).wf());
            },
            Instruction::Blt { .. } => {
                assert(self.apply_base(inst, current_pc).wf());
            },
            Instruction::Bge { .. } => {
                assert(self.apply_base(inst, current_pc).wf());
            },
            Instruction::Bltu { .. } => {
                assert(self.apply_base(inst, current_pc).wf());
            },
            Instruction::Bgeu { .. } => {
                assert(self.apply_base(inst, current_pc).wf());
            },
            Instruction::Sb { .. } => {
                assert(self.apply_base(inst, current_pc).wf());
            },
            Instruction::Sh { .. } => {
                assert(self.apply_base(inst, current_pc).wf());
            },
            Instruction::Sw { .. } => {
                assert(self.apply_base(inst, current_pc).wf());
            },
            Instruction::Sd { .. } => {
                assert(self.apply_base(inst, current_pc).wf());
            },
            Instruction::Csrrw { .. } => {
                assert(self.apply_base(inst, current_pc).wf());
            },
            Instruction::Csrrs { .. } => {
                assert(self.apply_base(inst, current_pc).wf());
            },
            Instruction::Csrrc { .. } => {
                assert(self.apply_base(inst, current_pc).wf());
            },
            Instruction::Csrrwi { .. } => {
                assert(self.apply_base(inst, current_pc).wf());
            },
            Instruction::Csrrsi { .. } => {
                assert(self.apply_base(inst, current_pc).wf());
            },
            Instruction::Csrrci { .. } => {
                assert(self.apply_base(inst, current_pc).wf());
            },
            Instruction::Amoswapw { .. } => {
                assert(self.apply_base(inst, current_pc).wf());
            },
            Instruction::Amoaddw { .. } => {
                assert(self.apply_base(inst, current_pc).wf());
            },
            Instruction::Amoxorw { .. } => {
                assert(self.apply_base(inst, current_pc).wf());
            },
            Instruction::Amoandw { .. } => {
                assert(self.apply_base(inst, current_pc).wf());
            },
            Instruction::Amoorw { .. } => {
                assert(self.apply_base(inst, current_pc).wf());
            },
            Instruction::Amominw { .. } => {
                assert(self.apply_base(inst, current_pc).wf());
            },
            Instruction::Amomaxw { .. } => {
                assert(self.apply_base(inst, current_pc).wf());
            },
            Instruction::Amominuw { .. } => {
                assert(self.apply_base(inst, current_pc).wf());
            },
            Instruction::Amomaxuw { .. } => {
                assert(self.apply_base(inst, current_pc).wf());
            },
            _ => {
                assert(self.apply_base(inst, current_pc).wf());
            },
        }
    }

    /// The program counter after an instruction that does not name it as
    /// its destination: the target where the instruction is a jump or a
    /// taken branch, and otherwise where it was, which in a step is just
    /// past the instruction.
    pub proof fn lemma_pc_after(self, inst: Instruction, current_pc: u64)
        requires
            self.wf(),
            inst.dest() matches Some(rd) ==> rd.is_general(),
        ensures
            self.apply(inst, current_pc).pc() == (match self.target(inst.expand(), current_pc) {
                Some(target) => target,
                None => self.pc(),
            }),
    {
        assert forall|s: State, r: Register, v: u64| s.wf() implies (#[trigger] s.set_reg(
            r,
            v,
        )).wf() && (r.is_general() ==> s.set_reg(r, v).pc() == s.pc()) && s.set_reg(
            Register::Pc,
            v,
        ).pc() == v by {
            s.lemma_set_reg(r, v);
        }
        inst.lemma_expand_dest();
        self.lemma_pc_after_base(inst.expand(), current_pc);
    }

    /// `lemma_pc_after` for a base instruction.
    proof fn lemma_pc_after_base(self, inst: Instruction, current_pc: u64)
        requires
            self.wf(),
            inst.dest() matches Some(rd) ==> rd.is_general(),
            forall|s: State, r: Register, v: u64|
                s.wf() ==> (#[trigger] s.set_reg(r, v)).wf() && (r.is_general() ==> s.set_reg(
                    r,
                    v,
                ).pc() == s.pc()) && s.set_reg(Register::Pc, v).pc() == v,
        ensures
            self.apply_base(inst, current_pc).pc() == (match self.target(inst, current_pc) {
                Some(target) => target,
                None => self.pc(),
            }),
    {
        reveal(State::apply_base);
    }

    /// An instruction whose destination is `x0` changes no general-purpose
    /// register.  Unless it is a jump it leaves the program counter, unless
    /// it is an atomic memory operation the memory, and unless it accesses a
    /// control/status register the control/status registers as they were.
    pub proof fn lemma_write_to_zero(self, inst: Instruction, current_pc: u64)
        requires
            self.wf(),
            inst.dest() == Some(Register::Zero),
        ensures
            forall|r: Register|
                r.is_general() ==> self.apply(inst, current_pc).reg(r) == self.reg(r),
            !inst.expand().is_jump() ==> self.apply(inst, current_pc).regs == self.regs,
            !inst.expand().is_atomic() ==> self.apply(inst, current_pc).mem == self.mem,
            !inst.expand().is_csr() ==> self.apply(inst, current_pc).csrs == self.csrs,
    {
        inst.lemma_expand_dest();
        reveal(State::apply_base);
    }

    /// Reading a control/status register into `rd` while writing `x0` to
    /// it, twice, leaves what doing so once and then reading it into `x0`
    /// without a write leaves, provided the first read changes nothing: `rd`
    /// is `x0`, or the register held zero.
    pub proof fn lemma_csr_clear_twice(self, rd: Register, csr: u16, current_pc: u64)
        requires
            self.wf(),
            csr < 4096,
            rd == Register::Zero || self.csrs[csr as int] == 0,
        ensures
            ({
                let clear = Instruction::Csrrw { rd, rs1: Register::Zero, csr };
                let read = Instruction::Csrrs { rd: Register::Zero, rs1: Register::Zero, csr };
                self.apply(clear, current_pc).apply(clear, current_pc) == self.apply(
                    clear,
                    current_pc,
                ).apply(read, current_pc)
            }),
    {
        reveal(State::apply_base);
        reveal(Instruction::expand);
        let clear = Instruction::Csrrw { rd, rs1: Register::Zero, csr };
        let read = Instruction::Csrrs { rd: Register::Zero, rs1: Register::Zero, csr };
        let once = self.apply(clear, current_pc);
        let twice = once.apply(clear, current_pc);
        let other = once.apply(read, current_pc);
        assert(twice.csrs =~= other.csrs);
        assert(twice.regs =~= other.regs);
    }

    /// `ADDI` with a zero immediate copies its source, and so do `SLLI` and
    /// `SRLI` with a zero amount.
    pub proof fn lemma_copies(self, rd: Register, rs1: Register, current_pc: u64)
        requires
            self.wf(),
        ensures
            self.apply(Instruction::Addi { rd, rs1, imm: 0 }, current_pc) == self.set_reg(
                rd,
                self.reg(rs1),
            ),
            self.apply(Instruction::Slli { rd, rs1, shamt: 0 }, current_pc) == self.set_reg(
                rd,
                self.reg(rs1),
            ),
            self.apply(Instruction::Srli { rd, rs1, shamt: 0 }, current_pc) == self.set_reg(
                rd,
                self.reg(rs1),
            ),
    {
        reveal(State::apply_base);
        reveal(State::value);
        reveal(Instruction::expand);
        crate::alu::lemma_identities(self.reg(rs1));
    }

    /// The instruction at the program counter is well formed, whatever the
    /// memory holds.
    pub proof fn lemma_fetched_wf(self)
        ensures
            self.fetched().wf(),
    {
        Instruction::lemma_decode(self.fetch_word());
        Instruction::lemma_decode_compressed(self.fetch_half());
    }

    /// A step leaves a well-formed state well formed: every register keeps
    /// a value, `x0` keeps reading zero, and the control/status registers
    /// stay 4096.
    pub proof fn lemma_step_wf(self)
        requires
            self.wf(),
        ensures
            self.step().wf(),
    {
        self.lemma_fetched_wf();
        self.lemma_set_reg(Register::Pc, add64(self.pc(), self.length()));
        self.advance().lemma_apply_wf(self.fetched(), self.pc());
    }

    /// The program counter after a step: the target where the fetched
    /// instruction is a jump or a taken branch, and otherwise the address of
    /// the instruction plus its length, 2 for a compressed and 4 for a
    /// 32-bit instruction.
    pub proof fn lemma_step_pc(self)
        requires
            self.wf(),
        ensures
            self.step().pc() == self.next_pc(),
            self.length() == (if self.is_compressed() {
                2u64
            } else {
                4u64
            }),
    {
        self.lemma_fetched_wf();
        self.lemma_set_reg(Register::Pc, add64(self.pc(), self.length()));
        self.advance().lemma_pc_after(self.fetched(), self.pc());
    }
}

} // verus!
