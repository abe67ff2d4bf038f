//! The semantics of each instruction, applied to a core.

use vstd::prelude::*;
use crate::alu::{
    add32, add64, addw, div, divu, divuw, divw, lemma_small_immediate, low_byte, low_half, low_word,
    max_signed, max_unsigned, min_signed, min_unsigned, mul64, mulh, mulhsu, mulhu, mulw, rem, remu,
    remuw, remw, sext_byte, sext_half, sext_imm, sext_word, sll, sllw, slt, sltu, sra, sraw, srl,
    srlw, sub64, subw,
};
use crate::cpu::{Core, CoreExit, Register};
use crate::instruction::Instruction;
use crate::semantics::State;

verus! {

/// Whether the instruction is a jump or a conditional branch.
spec fn is_control(inst: Instruction) -> bool {
    inst is Jal
    || inst is Jalr
    || inst is Beq
    || inst is Bne
    || inst is Blt
    || inst is Bge
    || inst is Bltu
    || inst is Bgeu
}

/// Whether the instruction is a load or a store.
spec fn is_memory(inst: Instruction) -> bool {
    inst is Lb
    || inst is Lh
    || inst is Lw
    || inst is Lbu
    || inst is Lhu
    || inst is Lwu
    || inst is Ld
    || inst is Sb
    || inst is Sh
    || inst is Sw
    || inst is Sd
}

/// Whether the instruction is an operation on a register and an immediate.
spec fn is_immediate(inst: Instruction) -> bool {
    inst is Lui
    || inst is Auipc
    || inst is Addi
    || inst is Slti
    || inst is Sltiu
    || inst is Xori
    || inst is Ori
    || inst is Andi
    || inst is Slli
    || inst is Srli
    || inst is Srai
    || inst is Addiw
    || inst is Slliw
    || inst is Srliw
    || inst is Sraiw
}

/// Whether the instruction is an operation on two registers.
spec fn is_register(inst: Instruction) -> bool {
    inst is Add
    || inst is Sub
    || inst is Sll
    || inst is Slt
    || inst is Sltu
    || inst is Xor
    || inst is Srl
    || inst is Sra
    || inst is Or
    || inst is And
    || inst is Addw
    || inst is Subw
    || inst is Sllw
    || inst is Srlw
    || inst is Sraw
}

/// Whether the instruction is a multiplication, division or remainder.
spec fn is_muldiv(inst: Instruction) -> bool {
    inst is Mul
    || inst is Mulh
    || inst is Mulhsu
    || inst is Mulhu
    || inst is Div
    || inst is Divu
    || inst is Rem
    || inst is Remu
    || inst is Mulw
    || inst is Divw
    || inst is Divuw
    || inst is Remw
    || inst is Remuw
}

/// Whether the instruction is a fence, an environment call or an access to a
/// control/status register.
spec fn is_system(inst: Instruction) -> bool {
    inst is Fence
    || inst is FenceI
    || inst is Ecall
    || inst is Ebreak
    || inst is Csrrw
    || inst is Csrrs
    || inst is Csrrc
    || inst is Csrrwi
    || inst is Csrrsi
    || inst is Csrrci
}

/// Whether the instruction is an atomic memory operation.
spec fn is_atomic(inst: Instruction) -> bool {
    inst is Amoswapw
    || inst is Amoaddw
    || inst is Amoxorw
    || inst is Amoandw
    || inst is Amoorw
    || inst is Amominw
    || inst is Amomaxw
    || inst is Amominuw
    || inst is Amomaxuw
}

/// Whether the instruction is a compressed operation on a register and an immediate.
spec fn is_short_immediate(inst: Instruction) -> bool {
    inst is Hint
    || inst is CNop
    || inst is CAddi4spn
    || inst is CAddi
    || inst is CAddiw
    || inst is CLi
    || inst is CAddi16sp
    || inst is CLui
    || inst is CSrli
    || inst is CSrai
    || inst is CAndi
    || inst is CSlli
}

/// Whether the instruction is a compressed operation on two registers.
spec fn is_short_register(inst: Instruction) -> bool {
    inst is CSub
    || inst is CXor
    || inst is COr
    || inst is CAnd
    || inst is CSubw
    || inst is CAddw
    || inst is CMv
    || inst is CAdd
}

/// Whether the instruction is a compressed load or store.
spec fn is_short_memory(inst: Instruction) -> bool {
    inst is CLw
    || inst is CLd
    || inst is CSw
    || inst is CSd
    || inst is CLwsp
    || inst is CLdsp
    || inst is CSwsp
    || inst is CSdsp
}

/// Whether the instruction is a compressed jump, branch or breakpoint.
spec fn is_short_control(inst: Instruction) -> bool {
    inst is CJ
    || inst is CBeqz
    || inst is CBnez
    || inst is CJr
    || inst is CJalr
    || inst is CEbreak
}

impl Core {
    /// Applies the semantics of one decoded instruction.  The program
    /// counter has already moved past the instruction; `current_pc` is the
    /// address the instruction was fetched from, to which the offsets of
    /// jumps and branches are relative.
    pub fn execute(&mut self, inst: Instruction, current_pc: u64) -> (exit: CoreExit)
        requires
            inst.wf(),
            old(self)@.fault(inst) is None,
        ensures
            final(self)@ == old(self)@.apply(inst, current_pc),
            final(self)@.wf(),
            exit == inst.exit(),
    {
        self.invariants();
        match inst {
            Instruction::Jal { .. }
            | Instruction::Jalr { .. }
            | Instruction::Beq { .. }
            | Instruction::Bne { .. }
            | Instruction::Blt { .. }
            | Instruction::Bge { .. }
            | Instruction::Bltu { .. }
            | Instruction::Bgeu { .. } => self.execute_control(inst, current_pc),
            Instruction::Lb { .. }
            | Instruction::Lh { .. }
            | Instruction::Lw { .. }
            | Instruction::Lbu { .. }
            | Instruction::Lhu { .. }
            | Instruction::Lwu { .. }
            | Instruction::Ld { .. }
            | Instruction::Sb { .. }
            | Instruction::Sh { .. }
            | Instruction::Sw { .. }
            | Instruction::Sd { .. } => self.execute_memory(inst, current_pc),
            Instruction::Lui { .. }
            | Instruction::Auipc { .. }
            | Instruction::Addi { .. }
            | Instruction::Slti { .. }
            | Instruction::Sltiu { .. }
            | Instruction::Xori { .. }
            | Instruction::Ori { .. }
            | Instruction::Andi { .. }
            | Instruction::Slli { .. }
            | Instruction::Srli { .. }
            | Instruction::Srai { .. }
            | Instruction::Addiw { .. }
            | Instruction::Slliw { .. }
            | Instruction::Srliw { .. }
            | Instruction::Sraiw { .. } => self.execute_immediate(inst, current_pc),
            Instruction::Add { .. }
            | Instruction::Sub { .. }
            | Instruction::Sll { .. }
            | Instruction::Slt { .. }
            | Instruction::Sltu { .. }
            | Instruction::Xor { .. }
            | Instruction::Srl { .. }
            | Instruction::Sra { .. }
            | Instruction::Or { .. }
            | Instruction::And { .. }
            | Instruction::Addw { .. }
            | Instruction::Subw { .. }
            | Instruction::Sllw { .. }
            | Instruction::Srlw { .. }
            | Instruction::Sraw { .. } => self.execute_register(inst, current_pc),
            Instruction::Mul { .. }
            | Instruction::Mulh { .. }
            | Instruction::Mulhsu { .. }
            | Instruction::Mulhu { .. }
            | Instruction::Div { .. }
            | Instruction::Divu { .. }
            | Instruction::Rem { .. }
            | Instruction::Remu { .. }
            | Instruction::Mulw { .. }
            | Instruction::Divw { .. }
            | Instruction::Divuw { .. }
            | Instruction::Remw { .. }
            | Instruction::Remuw { .. } => self.execute_muldiv(inst, current_pc),
            Instruction::Fence { .. }
            | Instruction::FenceI { .. }
            | Instruction::Ecall
            | Instruction::Ebreak
            | Instruction::Csrrw { .. }
            | Instruction::Csrrs { .. }
            | Instruction::Csrrc { .. }
            | Instruction::Csrrwi { .. }
            | Instruction::Csrrsi { .. }
            | Instruction::Csrrci { .. } => self.execute_system(inst, current_pc),
            Instruction::Amoswapw { .. }
            | Instruction::Amoaddw { .. }
            | Instruction::Amoxorw { .. }
            | Instruction::Amoandw { .. }
            | Instruction::Amoorw { .. }
            | Instruction::Amominw { .. }
            | Instruction::Amomaxw { .. }
            | Instruction::Amominuw { .. }
            | Instruction::Amomaxuw { .. } => self.execute_atomic(inst, current_pc),
            Instruction::Hint
            | Instruction::CNop
            | Instruction::CAddi4spn { .. }
            | Instruction::CAddi { .. }
            | Instruction::CAddiw { .. }
            | Instruction::CLi { .. }
            | Instruction::CAddi16sp { .. }
            | Instruction::CLui { .. }
            | Instruction::CSrli { .. }
            | Instruction::CSrai { .. }
            | Instruction::CAndi { .. }
            | Instruction::CSlli { .. } => self.execute_short_immediate(inst, current_pc),
            Instruction::CSub { .. }
            | Instruction::CXor { .. }
            | Instruction::COr { .. }
            | Instruction::CAnd { .. }
            | Instruction::CSubw { .. }
            | Instruction::CAddw { .. }
            | Instruction::CMv { .. }
            | Instruction::CAdd { .. } => self.execute_short_register(inst, current_pc),
            Instruction::CLw { .. }
            | Instruction::CLd { .. }
            | Instruction::CSw { .. }
            | Instruction::CSd { .. }
            | Instruction::CLwsp { .. }
            | Instruction::CLdsp { .. }
            | Instruction::CSwsp { .. }
            | Instruction::CSdsp { .. } => self.execute_short_memory(inst, current_pc),
            Instruction::CJ { .. }
            | Instruction::CBeqz { .. }
            | Instruction::CBnez { .. }
            | Instruction::CJr { .. }
            | Instruction::CJalr { .. }
            | Instruction::CEbreak => self.execute_short_control(inst, current_pc),
            Instruction::CFld { .. }
            | Instruction::CFsd { .. }
            | Instruction::CFldsp { .. }
            | Instruction::CFsdsp { .. }
            | Instruction::Undefined(_)
            | Instruction::UndefinedCompressed(_) => CoreExit::Success,
        }
    }

    /// Jumps and conditional branches.
    #[verifier::rlimit(30)]
    fn execute_control(&mut self, inst: Instruction, current_pc: u64) -> (exit: CoreExit)
        requires
            is_control(inst),
            inst.wf(),
            old(self)@.wf(),
            old(self)@.fault(inst) is None,
        ensures
            final(self)@ == old(self)@.apply(inst, current_pc),
            final(self)@.wf(),
            exit == inst.exit(),
    {
        proof {
            reveal(State::apply_base);
            reveal(State::value);
            reveal(Instruction::expand);
            reveal(State::access);
        }
        match inst {
            Instruction::Jal { rd, imm } => {
                let target: u64 = add64(current_pc, sext_imm(imm));
                let return_addr: u64 = self.reg(Register::Pc);

                self.set_reg(rd, return_addr);
                self.set_reg(Register::Pc, target);
                return CoreExit::Success;
            },
            Instruction::Jalr { rd, rs1, imm } => {
                let target: u64 = add64(self.reg(rs1), sext_imm(imm));
                let return_addr: u64 = self.reg(Register::Pc);

                self.set_reg(rd, return_addr);
                self.set_reg(Register::Pc, target);
                return CoreExit::Success;
            },
            Instruction::Beq { rs1, rs2, imm } => {
                let rs1: u64 = self.reg(rs1);
                let rs2: u64 = self.reg(rs2);
                let target: u64 = add64(current_pc, sext_imm(imm));

                if rs1 == rs2 {
                    self.set_reg(Register::Pc, target);
                }
                return CoreExit::Success;
            },
            Instruction::Bne { rs1, rs2, imm } => {
                let rs1: u64 = self.reg(rs1);
                let rs2: u64 = self.reg(rs2);
                let target: u64 = add64(current_pc, sext_imm(imm));

                if rs1 != rs2 {
                    self.set_reg(Register::Pc, target);
                }
                return CoreExit::Success;
            },
            Instruction::Blt { rs1, rs2, imm } => {
                let rs1: u64 = self.reg(rs1);
                let rs2: u64 = self.reg(rs2);
                let target: u64 = add64(current_pc, sext_imm(imm));

                if slt(rs1, rs2) == 1 {
                    self.set_reg(Register::Pc, target);
                }
                return CoreExit::Success;
            },
            Instruction::Bge { rs1, rs2, imm } => {
                let rs1: u64 = self.reg(rs1);
                let rs2: u64 = self.reg(rs2);
                let target: u64 = add64(current_pc, sext_imm(imm));

                if slt(rs1, rs2) == 0 {
                    self.set_reg(Register::Pc, target);
                }
                return CoreExit::Success;
            },
            Instruction::Bltu { rs1, rs2, imm } => {
                let rs1: u64 = self.reg(rs1);
                let rs2: u64 = self.reg(rs2);
                let target: u64 = add64(current_pc, sext_imm(imm));

                if rs1 < rs2 {
                    self.set_reg(Register::Pc, target);
                }
                return CoreExit::Success;
            },
            Instruction::Bgeu { rs1, rs2, imm } => {
                let rs1: u64 = self.reg(rs1);
                let rs2: u64 = self.reg(rs2);
                let target: u64 = add64(current_pc, sext_imm(imm));

                if rs1 >= rs2 {
                    self.set_reg(Register::Pc, target);
                }
                return CoreExit::Success;
            },
            _ => CoreExit::Success,
        }
    }

    /// Loads and stores.
    #[verifier::rlimit(30)]
    fn execute_memory(&mut self, inst: Instruction, current_pc: u64) -> (exit: CoreExit)
        requires
            is_memory(inst),
            inst.wf(),
            old(self)@.wf(),
            old(self)@.fault(inst) is None,
        ensures
            final(self)@ == old(self)@.apply(inst, current_pc),
            final(self)@.wf(),
            exit == inst.exit(),
    {
        proof {
            reveal(State::apply_base);
            reveal(State::value);
            reveal(Instruction::expand);
            reveal(State::access);
        }
        match inst {
            Instruction::Lb { rd, rs1, imm } => {
                let addr: u64 = add64(self.reg(rs1), sext_imm(imm));

                let value: u8 = self.load_u8(addr);
                self.set_reg(rd, sext_byte(value));
                return CoreExit::Success;
            },
            Instruction::Lh { rd, rs1, imm } => {
                let addr: u64 = add64(self.reg(rs1), sext_imm(imm));

                let value: u16 = self.load_u16(addr);
                self.set_reg(rd, sext_half(value));
                return CoreExit::Success;
            },
            Instruction::Lw { rd, rs1, imm } => {
                let addr: u64 = add64(self.reg(rs1), sext_imm(imm));

                let value: u32 = self.load_u32(addr);
                self.set_reg(rd, sext_word(value));
                return CoreExit::Success;
            },
            Instruction::Lbu { rd, rs1, imm } => {
                let addr: u64 = add64(self.reg(rs1), sext_imm(imm));

                let value: u8 = self.load_u8(addr);
                self.set_reg(rd, value as u64);
                return CoreExit::Success;
            },
            Instruction::Lhu { rd, rs1, imm } => {
                let addr: u64 = add64(self.reg(rs1), sext_imm(imm));

                let value: u16 = self.load_u16(addr);
                self.set_reg(rd, value as u64);
                return CoreExit::Success;
            },
            Instruction::Lwu { rd, rs1, imm } => {
                let addr: u64 = add64(self.reg(rs1), sext_imm(imm));

                let value: u32 = self.load_u32(addr);
                self.set_reg(rd, value as u64);
                return CoreExit::Success;
            },
            Instruction::Ld { rd, rs1, imm } => {
                let addr: u64 = add64(self.reg(rs1), sext_imm(imm));

                let value: u64 = self.load_u64(addr);
                self.set_reg(rd, value);
                return CoreExit::Success;
            },
            Instruction::Sb { rs1, rs2, imm } => {
                let addr: u64 = add64(self.reg(rs1), sext_imm(imm));

                let value: u8 = low_byte(self.reg(rs2));
                self.store_u8(addr, value);
                return CoreExit::Success;
            },
            Instruction::Sh { rs1, rs2, imm } => {
                let addr: u64 = add64(self.reg(rs1), sext_imm(imm));

                let value: u16 = low_half(self.reg(rs2));
                self.store_u16(addr, value);
                return CoreExit::Success;
            },
            Instruction::Sw { rs1, rs2, imm } => {
                let addr: u64 = add64(self.reg(rs1), sext_imm(imm));

                let value: u32 = low_word(self.reg(rs2));
                self.store_u32(addr, value);
                return CoreExit::Success;
            },
            Instruction::Sd { rs1, rs2, imm } => {
                let addr: u64 = add64(self.reg(rs1), sext_imm(imm));

                let value: u64 = self.reg(rs2);
                self.store_u64(addr, value);
                return CoreExit::Success;
            },
            _ => CoreExit::Success,
        }
    }

    /// Operations on a register and an immediate.
    #[verifier::rlimit(30)]
    fn execute_immediate(&mut self, inst: Instruction, current_pc: u64) -> (exit: CoreExit)
        requires
            is_immediate(inst),
            inst.wf(),
            old(self)@.wf(),
            old(self)@.fault(inst) is None,
        ensures
            final(self)@ == old(self)@.apply(inst, current_pc),
            final(self)@.wf(),
            exit == inst.exit(),
    {
        proof {
            reveal(State::apply_base);
            reveal(State::value);
            reveal(Instruction::expand);
            reveal(State::access);
        }
        match inst {
            Instruction::Lui { rd, imm } => {
                self.set_reg(rd, sext_imm(imm));
                return CoreExit::Success;
            },
            Instruction::Auipc { rd, imm } => {
                let value: u64 = add64(current_pc, sext_imm(imm));
                self.set_reg(rd, value);
                return CoreExit::Success;
            },
            Instruction::Addi { rd, rs1, imm } => {
                let rs1: u64 = self.reg(rs1);
                let imm: u64 = sext_imm(imm);

                let value: u64 = add64(rs1, imm);
                self.set_reg(rd, value);
                return CoreExit::Success;
            },
            Instruction::Slti { rd, rs1, imm } => {
                let rs1: u64 = self.reg(rs1);
                let imm: u64 = sext_imm(imm);

                let value: u64 = slt(rs1, imm);
                self.set_reg(rd, value);
                return CoreExit::Success;
            },
            Instruction::Sltiu { rd, rs1, imm } => {
                let rs1: u64 = self.reg(rs1);
                let imm: u64 = sext_imm(imm);

                let value: u64 = sltu(rs1, imm);
                self.set_reg(rd, value);
                return CoreExit::Success;
            },
            Instruction::Xori { rd, rs1, imm } => {
                let rs1: u64 = self.reg(rs1);
                let imm: u64 = sext_imm(imm);

                let value: u64 = rs1 ^ imm;
                self.set_reg(rd, value);
                return CoreExit::Success;
            },
            Instruction::Ori { rd, rs1, imm } => {
                let rs1: u64 = self.reg(rs1);
                let imm: u64 = sext_imm(imm);

                let value: u64 = rs1 | imm;
                self.set_reg(rd, value);
                return CoreExit::Success;
            },
            Instruction::Andi { rd, rs1, imm } => {
                let rs1: u64 = self.reg(rs1);
                let imm: u64 = sext_imm(imm);

                let value: u64 = rs1 & imm;
                self.set_reg(rd, value);
                return CoreExit::Success;
            },
            Instruction::Slli { rd, rs1, shamt } => {
                let rs1: u64 = self.reg(rs1);

                let value: u64 = sll(rs1, shamt as u64);
                self.set_reg(rd, value);
                return CoreExit::Success;
            },
            Instruction::Srli { rd, rs1, shamt } => {
                let rs1: u64 = self.reg(rs1);

                let value: u64 = srl(rs1, shamt as u64);
                self.set_reg(rd, value);
                return CoreExit::Success;
            },
            Instruction::Srai { rd, rs1, shamt } => {
                let rs1: u64 = self.reg(rs1);

                let value: u64 = sra(rs1, shamt as u64);
                self.set_reg(rd, value);
                return CoreExit::Success;
            },
            Instruction::Addiw { rd, rs1, imm } => {
                let rs1: u64 = self.reg(rs1);
                let imm: u64 = sext_imm(imm);

                let value: u64 = addw(rs1, imm);
                self.set_reg(rd, value);
                return CoreExit::Success;
            },
            Instruction::Slliw { rd, rs1, shamt } => {
                let rs1: u64 = self.reg(rs1);

                let value: u64 = sllw(rs1, shamt as u64);
                self.set_reg(rd, value);
                return CoreExit::Success;
            },
            Instruction::Srliw { rd, rs1, shamt } => {
                let rs1: u64 = self.reg(rs1);

                let value: u64 = srlw(rs1, shamt as u64);
                self.set_reg(rd, value);
                return CoreExit::Success;
            },
            Instruction::Sraiw { rd, rs1, shamt } => {
                let rs1: u64 = self.reg(rs1);

                let value: u64 = sraw(rs1, shamt as u64);
                self.set_reg(rd, value);
                return CoreExit::Success;
            },
            _ => CoreExit::Success,
        }
    }

    /// Operations on two registers.
    #[verifier::rlimit(30)]
    fn execute_register(&mut self, inst: Instruction, current_pc: u64) -> (exit: CoreExit)
        requires
            is_register(inst),
            inst.wf(),
            old(self)@.wf(),
            old(self)@.fault(inst) is None,
        ensures
            final(self)@ == old(self)@.apply(inst, current_pc),
            final(self)@.wf(),
            exit == inst.exit(),
    {
        proof {
            reveal(State::apply_base);
            reveal(State::value);
            reveal(Instruction::expand);
            reveal(State::access);
        }
        match inst {
            Instruction::Add { rd, rs1, rs2 } => {
                let rs1: u64 = self.reg(rs1);
                let rs2: u64 = self.reg(rs2);

                let value: u64 = add64(rs1, rs2);
                self.set_reg(rd, value);
                return CoreExit::Success;
            },
            Instruction::Sub { rd, rs1, rs2 } => {
                let rs1: u64 = self.reg(rs1);
                let rs2: u64 = self.reg(rs2);

                let value: u64 = sub64(rs1, rs2);
                self.set_reg(rd, value);
                return CoreExit::Success;
            },
            Instruction::Sll { rd, rs1, rs2 } => {
                let rs1: u64 = self.reg(rs1);
                let rs2: u64 = self.reg(rs2);

                let value: u64 = sll(rs1, rs2);
                self.set_reg(rd, value);
                return CoreExit::Success;
            },
            Instruction::Slt { rd, rs1, rs2 } => {
                let rs1: u64 = self.reg(rs1);
                let rs2: u64 = self.reg(rs2);

                let value: u64 = slt(rs1, rs2);
                self.set_reg(rd, value);
                return CoreExit::Success;
            },
            Instruction::Sltu { rd, rs1, rs2 } => {
                let rs1: u64 = self.reg(rs1);
                let rs2: u64 = self.reg(rs2);

                let value: u64 = sltu(rs1, rs2);
                self.set_reg(rd, value);
                return CoreExit::Success;
            },
            Instruction::Xor { rd, rs1, rs2 } => {
                let rs1: u64 = self.reg(rs1);
                let rs2: u64 = self.reg(rs2);

                let value: u64 = rs1 ^ rs2;
                self.set_reg(rd, value);
                return CoreExit::Success;
            },
            Instruction::Srl { rd, rs1, rs2 } => {
                let rs1: u64 = self.reg(rs1);
                let rs2: u64 = self.reg(rs2);

                let value: u64 = srl(rs1, rs2);
                self.set_reg(rd, value);
                return CoreExit::Success;
            },
            Instruction::Sra { rd, rs1, rs2 } => {
                let rs1: u64 = self.reg(rs1);
                let rs2: u64 = self.reg(rs2);

                let value: u64 = sra(rs1, rs2);
                self.set_reg(rd, value);
                return CoreExit::Success;
            },
            Instruction::Or { rd, rs1, rs2 } => {
                let rs1: u64 = self.reg(rs1);
                let rs2: u64 = self.reg(rs2);

                let value: u64 = rs1 | rs2;
                self.set_reg(rd, value);
                return CoreExit::Success;
            },
            Instruction::And { rd, rs1, rs2 } => {
                let rs1: u64 = self.reg(rs1);
                let rs2: u64 = self.reg(rs2);

                let value: u64 = rs1 & rs2;
                self.set_reg(rd, value);
                return CoreExit::Success;
            },
            Instruction::Addw { rd, rs1, rs2 } => {
                let rs1: u64 = self.reg(rs1);
                let rs2: u64 = self.reg(rs2);

                let value: u64 = addw(rs1, rs2);
                self.set_reg(rd, value);
                return CoreExit::Success;
            },
            Instruction::Subw { rd, rs1, rs2 } => {
                let rs1: u64 = self.reg(rs1);
                let rs2: u64 = self.reg(rs2);

                let value: u64 = subw(rs1, rs2);
                self.set_reg(rd, value);
                return CoreExit::Success;
            },
            Instruction::Sllw { rd, rs1, rs2 } => {
                let rs1: u64 = self.reg(rs1);
                let rs2: u64 = self.reg(rs2);

                let value: u64 = sllw(rs1, rs2);
                self.set_reg(rd, value);
                return CoreExit::Success;
            },
            Instruction::Srlw { rd, rs1, rs2 } => {
                let rs1: u64 = self.reg(rs1);
                let rs2: u64 = self.reg(rs2);

                let value: u64 = srlw(rs1, rs2);
                self.set_reg(rd, value);
                return CoreExit::Success;
            },
            Instruction::Sraw { rd, rs1, rs2 } => {
                let rs1: u64 = self.reg(rs1);
                let rs2: u64 = self.reg(rs2);

                let value: u64 = sraw(rs1, rs2);
                self.set_reg(rd, value);
                return CoreExit::Success;
            },
            _ => CoreExit::Success,
        }
    }

    /// Multiplication, division and remainder.
    #[verifier::rlimit(30)]
    fn execute_muldiv(&mut self, inst: Instruction, current_pc: u64) -> (exit: CoreExit)
        requires
            is_muldiv(inst),
            inst.wf(),
            old(self)@.wf(),
            old(self)@.fault(inst) is None,
        ensures
            final(self)@ == old(self)@.apply(inst, current_pc),
            final(self)@.wf(),
            exit == inst.exit(),
    {
        proof {
            reveal(State::apply_base);
            reveal(State::value);
            reveal(Instruction::expand);
            reveal(State::access);
        }
        match inst {
            Instruction::Mul { rd, rs1, rs2 } => {
                let rs1: u64 = self.reg(rs1);
                let rs2: u64 = self.reg(rs2);

                let value: u64 = mul64(rs1, rs2);
                self.set_reg(rd, value);
                return CoreExit::Success;
            },
            Instruction::Mulh { rd, rs1, rs2 } => {
                let rs1: u64 = self.reg(rs1);
                let rs2: u64 = self.reg(rs2);

                let value: u64 = mulh(rs1, rs2);
                self.set_reg(rd, value);
                return CoreExit::Success;
            },
            Instruction::Mulhsu { rd, rs1, rs2 } => {
                let rs1: u64 = self.reg(rs1);
                let rs2: u64 = self.reg(rs2);

                let value: u64 = mulhsu(rs1, rs2);
                self.set_reg(rd, value);
                return CoreExit::Success;
            },
            Instruction::Mulhu { rd, rs1, rs2 } => {
                let rs1: u64 = self.reg(rs1);
                let rs2: u64 = self.reg(rs2);

                let value: u64 = mulhu(rs1, rs2);
                self.set_reg(rd, value);
                return CoreExit::Success;
            },
            Instruction::Div { rd, rs1, rs2 } => {
                let rs1: u64 = self.reg(rs1);
                let rs2: u64 = self.reg(rs2);

                let value: u64 = div(rs1, rs2);
                self.set_reg(rd, value);
                return CoreExit::Success;
            },
            Instruction::Divu { rd, rs1, rs2 } => {
                let rs1: u64 = self.reg(rs1);
                let rs2: u64 = self.reg(rs2);

                let value: u64 = divu(rs1, rs2);
                self.set_reg(rd, value);
                return CoreExit::Success;
            },
            Instruction::Rem { rd, rs1, rs2 } => {
                let rs1: u64 = self.reg(rs1);
                let rs2: u64 = self.reg(rs2);

                let value: u64 = rem(rs1, rs2);
                self.set_reg(rd, value);
                return CoreExit::Success;
            },
            Instruction::Remu { rd, rs1, rs2 } => {
                let rs1: u64 = self.reg(rs1);
                let rs2: u64 = self.reg(rs2);

                let value: u64 = remu(rs1, rs2);
                self.set_reg(rd, value);
                return CoreExit::Success;
            },
            Instruction::Mulw { rd, rs1, rs2 } => {
                let rs1: u64 = self.reg(rs1);
                let rs2: u64 = self.reg(rs2);

                let value: u64 = mulw(rs1, rs2);
                self.set_reg(rd, value);
                return CoreExit::Success;
            },
            Instruction::Divw { rd, rs1, rs2 } => {
                let rs1: u64 = self.reg(rs1);
                let rs2: u64 = self.reg(rs2);

                let value: u64 = divw(rs1, rs2);
                self.set_reg(rd, value);
                return CoreExit::Success;
            },
            Instruction::Divuw { rd, rs1, rs2 } => {
                let rs1: u64 = self.reg(rs1);
                let rs2: u64 = self.reg(rs2);

                let value: u64 = divuw(rs1, rs2);
                self.set_reg(rd, value);
                return CoreExit::Success;
            },
            Instruction::Remw { rd, rs1, rs2 } => {
                let rs1: u64 = self.reg(rs1);
                let rs2: u64 = self.reg(rs2);

                let value: u64 = remw(rs1, rs2);
                self.set_reg(rd, value);
                return CoreExit::Success;
            },
            Instruction::Remuw { rd, rs1, rs2 } => {
                let rs1: u64 = self.reg(rs1);
                let rs2: u64 = self.reg(rs2);

                let value: u64 = remuw(rs1, rs2);
                self.set_reg(rd, value);
                return CoreExit::Success;
            },
            _ => CoreExit::Success,
        }
    }

    /// Fences, environment calls and accesses to control/status registers.
    #[verifier::rlimit(30)]
    fn execute_system(&mut self, inst: Instruction, current_pc: u64) -> (exit: CoreExit)
        requires
            is_system(inst),
            inst.wf(),
            old(self)@.wf(),
            old(self)@.fault(inst) is None,
        ensures
            final(self)@ == old(self)@.apply(inst, current_pc),
            final(self)@.wf(),
            exit == inst.exit(),
    {
        proof {
            reveal(State::apply_base);
            reveal(State::value);
            reveal(Instruction::expand);
            reveal(State::access);
        }
        match inst {
            Instruction::Fence { .. } => {
                return CoreExit::Success;
            },
            Instruction::FenceI { .. } => {
                return CoreExit::Success;
            },
            Instruction::Ecall => {
                return CoreExit::Ecall;
            },
            Instruction::Ebreak => {
                return CoreExit::Ebreak;
            },
            Instruction::Csrrw { rd, rs1, csr } => {
                // The read is left out when the destination is x0.
                if rd != Register::Zero {
                    let value: u64 = self.read_csr(csr);
                    self.set_reg(rd, value);
                }

                let rs1: u64 = self.reg(rs1);
                self.write_csr(csr, rs1);
                return CoreExit::Success;
            },
            Instruction::Csrrs { rd, rs1, csr } => {
                let value: u64 = self.read_csr(csr);
                self.set_reg(rd, value);

                // The write is left out when the source is x0.
                if rs1 != Register::Zero {
                    let rs1: u64 = self.reg(rs1);
                    self.write_csr(csr, value | rs1);
                }
                return CoreExit::Success;
            },
            Instruction::Csrrc { rd, rs1, csr } => {
                let value: u64 = self.read_csr(csr);
                self.set_reg(rd, value);

                // The write is left out when the source is x0.
                if rs1 != Register::Zero {
                    let rs1: u64 = self.reg(rs1);
                    self.write_csr(csr, value & !rs1);
                }
                return CoreExit::Success;
            },
            Instruction::Csrrwi { rd, uimm, csr } => {
                // The read is left out when the destination is x0.
                if rd != Register::Zero {
                    let value: u64 = self.read_csr(csr);
                    self.set_reg(rd, value);
                }

                self.write_csr(csr, uimm as u64);
                return CoreExit::Success;
            },
            Instruction::Csrrsi { rd, uimm, csr } => {
                let value: u64 = self.read_csr(csr);
                self.set_reg(rd, value);

                // The write is left out when the immediate is zero.
                if uimm != 0 {
                    let uimm: u64 = uimm as u64;
                    self.write_csr(csr, value | uimm);
                }
                return CoreExit::Success;
            },
            Instruction::Csrrci { rd, uimm, csr } => {
                let value: u64 = self.read_csr(csr);
                self.set_reg(rd, value);

                // The write is left out when the immediate is zero.
                if uimm != 0 {
                    let uimm: u64 = uimm as u64;
                    self.write_csr(csr, value & !uimm);
                }
                return CoreExit::Success;
            },
            _ => CoreExit::Success,
        }
    }

    /// Atomic memory operations on words.
    #[verifier::rlimit(30)]
    fn execute_atomic(&mut self, inst: Instruction, current_pc: u64) -> (exit: CoreExit)
        requires
            is_atomic(inst),
            inst.wf(),
            old(self)@.wf(),
            old(self)@.fault(inst) is None,
        ensures
            final(self)@ == old(self)@.apply(inst, current_pc),
            final(self)@.wf(),
            exit == inst.exit(),
    {
        proof {
            reveal(State::apply_base);
            reveal(State::value);
            reveal(Instruction::expand);
            reveal(State::access);
        }
        match inst {
            Instruction::Amoswapw { rd, rs1, rs2, .. } => {
                let rs2: u32 = low_word(self.reg(rs2));
                let addr: u64 = self.reg(rs1);
                let old: u32 = self.load_u32(addr);

                let value: u32 = rs2;
                self.store_u32(addr, value);

                self.set_reg(rd, sext_word(old));
                return CoreExit::Success;
            },
            Instruction::Amoaddw { rd, rs1, rs2, .. } => {
                let rs2: u32 = low_word(self.reg(rs2));
                let addr: u64 = self.reg(rs1);
                let old: u32 = self.load_u32(addr);

                let value: u32 = add32(old, rs2);
                self.store_u32(addr, value);

                self.set_reg(rd, sext_word(old));
                return CoreExit::Success;
            },
            Instruction::Amoxorw { rd, rs1, rs2, .. } => {
                let rs2: u32 = low_word(self.reg(rs2));
                let addr: u64 = self.reg(rs1);
                let old: u32 = self.load_u32(addr);

                let value: u32 = old ^ rs2;
                self.store_u32(addr, value);

                self.set_reg(rd, sext_word(old));
                return CoreExit::Success;
            },
            Instruction::Amoandw { rd, rs1, rs2, .. } => {
                let rs2: u32 = low_word(self.reg(rs2));
                let addr: u64 = self.reg(rs1);
                let old: u32 = self.load_u32(addr);

                let value: u32 = old & rs2;
                self.store_u32(addr, value);

                self.set_reg(rd, sext_word(old));
                return CoreExit::Success;
            },
            Instruction::Amoorw { rd, rs1, rs2, .. } => {
                let rs2: u32 = low_word(self.reg(rs2));
                let addr: u64 = self.reg(rs1);
                let old: u32 = self.load_u32(addr);

                let value: u32 = old | rs2;
                self.store_u32(addr, value);

                self.set_reg(rd, sext_word(old));
                return CoreExit::Success;
            },
            Instruction::Amominw { rd, rs1, rs2, .. } => {
                let rs2: u32 = low_word(self.reg(rs2));
                let addr: u64 = self.reg(rs1);
                let old: u32 = self.load_u32(addr);

                let value: u32 = min_signed(old, rs2);
                self.store_u32(addr, value);

                self.set_reg(rd, sext_word(old));
                return CoreExit::Success;
            },
            Instruction::Amomaxw { rd, rs1, rs2, .. } => {
                let rs2: u32 = low_word(self.reg(rs2));
                let addr: u64 = self.reg(rs1);
                let old: u32 = self.load_u32(addr);

                let value: u32 = max_signed(old, rs2);
                self.store_u32(addr, value);

                self.set_reg(rd, sext_word(old));
                return CoreExit::Success;
            },
            Instruction::Amominuw { rd, rs1, rs2, .. } => {
                let rs2: u32 = low_word(self.reg(rs2));
                let addr: u64 = self.reg(rs1);
                let old: u32 = self.load_u32(addr);

                let value: u32 = min_unsigned(old, rs2);
                self.store_u32(addr, value);

                self.set_reg(rd, sext_word(old));
                return CoreExit::Success;
            },
            Instruction::Amomaxuw { rd, rs1, rs2, .. } => {
                let rs2: u32 = low_word(self.reg(rs2));
                let addr: u64 = self.reg(rs1);
                let old: u32 = self.load_u32(addr);

                let value: u32 = max_unsigned(old, rs2);
                self.store_u32(addr, value);

                self.set_reg(rd, sext_word(old));
                return CoreExit::Success;
            },
            _ => CoreExit::Success,
        }
    }

    /// Compressed operations on a register and an immediate, and the
    /// compressed no-operations.
    #[verifier::rlimit(30)]
    fn execute_short_immediate(&mut self, inst: Instruction, current_pc: u64) -> (exit: CoreExit)
        requires
            is_short_immediate(inst),
            inst.wf(),
            old(self)@.wf(),
            old(self)@.fault(inst) is None,
        ensures
            final(self)@ == old(self)@.apply(inst, current_pc),
            final(self)@.wf(),
            exit == inst.exit(),
    {
        proof {
            reveal(State::apply_base);
            reveal(State::value);
            reveal(Instruction::expand);
            reveal(State::access);
        }
        match inst {
            Instruction::Hint => {
                return CoreExit::Success;
            },
            Instruction::CNop => {
                return CoreExit::Success;
            },
            Instruction::CAddi4spn { rd, nzuimm } => {
                proof {
                    lemma_small_immediate(nzuimm);
                }
                let nzuimm: u64 = nzuimm as u64;

                let value: u64 = add64(self.reg(Register::Sp), nzuimm);
                self.set_reg(rd, value);
                return CoreExit::Success;
            },
            Instruction::CAddi { reg, nzimm } => {
                let rs1: u64 = self.reg(reg);

                let value: u64 = add64(rs1, sext_imm(nzimm));
                self.set_reg(reg, value);
                return CoreExit::Success;
            },
            Instruction::CAddiw { reg, imm } => {
                let rs1: u64 = self.reg(reg);

                let value: u64 = addw(rs1, sext_imm(imm));
                self.set_reg(reg, value);
                return CoreExit::Success;
            },
            Instruction::CLi { rd, imm } => {
                let value: u64 = sext_imm(imm);
                self.set_reg(rd, value);
                return CoreExit::Success;
            },
            Instruction::CAddi16sp { nzimm } => {
                let nzimm: u64 = sext_imm(nzimm);

                let value: u64 = add64(self.reg(Register::Sp), nzimm);
                self.set_reg(Register::Sp, value);
                return CoreExit::Success;
            },
            Instruction::CLui { rd, nzimm } => {
                let value: u64 = sext_imm(nzimm);
                self.set_reg(rd, value);
                return CoreExit::Success;
            },
            Instruction::CSrli { reg, nzuimm } => {
                let rs1: u64 = self.reg(reg);

                proof {
                    lemma_small_immediate(nzuimm);
                }
                let value: u64 = srl(rs1, nzuimm as u64);
                self.set_reg(reg, value);
                return CoreExit::Success;
            },
            Instruction::CSrai { reg, nzuimm } => {
                let rs1: u64 = self.reg(reg);

                proof {
                    lemma_small_immediate(nzuimm);
                }
                let value: u64 = sra(rs1, nzuimm as u64);
                self.set_reg(reg, value);
                return CoreExit::Success;
            },
            Instruction::CAndi { reg, imm } => {
                let rs1: u64 = self.reg(reg);
                let imm: u64 = sext_imm(imm);

                let value: u64 = rs1 & imm;
                self.set_reg(reg, value);
                return CoreExit::Success;
            },
            Instruction::CSlli { reg, nzuimm } => {
                let rs1: u64 = self.reg(reg);

                proof {
                    lemma_small_immediate(nzuimm);
                }
                let value: u64 = sll(rs1, nzuimm as u64);
                self.set_reg(reg, value);
                return CoreExit::Success;
            },
            _ => CoreExit::Success,
        }
    }

    /// Compressed operations on two registers.
    #[verifier::rlimit(30)]
    fn execute_short_register(&mut self, inst: Instruction, current_pc: u64) -> (exit: CoreExit)
        requires
            is_short_register(inst),
            inst.wf(),
            old(self)@.wf(),
            old(self)@.fault(inst) is None,
        ensures
            final(self)@ == old(self)@.apply(inst, current_pc),
            final(self)@.wf(),
            exit == inst.exit(),
    {
        proof {
            reveal(State::apply_base);
            reveal(State::value);
            reveal(Instruction::expand);
            reveal(State::access);
        }
        match inst {
            Instruction::CSub { reg, rs2 } => {
                let rs1: u64 = self.reg(reg);
                let rs2: u64 = self.reg(rs2);

                let value: u64 = sub64(rs1, rs2);
                self.set_reg(reg, value);
                return CoreExit::Success;
            },
            Instruction::CXor { reg, rs2 } => {
                let rs1: u64 = self.reg(reg);
                let rs2: u64 = self.reg(rs2);

                let value: u64 = rs1 ^ rs2;
                self.set_reg(reg, value);
                return CoreExit::Success;
            },
            Instruction::COr { reg, rs2 } => {
                let rs1: u64 = self.reg(reg);
                let rs2: u64 = self.reg(rs2);

                let value: u64 = rs1 | rs2;
                self.set_reg(reg, value);
                return CoreExit::Success;
            },
            Instruction::CAnd { reg, rs2 } => {
                let rs1: u64 = self.reg(reg);
                let rs2: u64 = self.reg(rs2);

                let value: u64 = rs1 & rs2;
                self.set_reg(reg, value);
                return CoreExit::Success;
            },
            Instruction::CSubw { reg, rs2 } => {
                let rs1: u64 = self.reg(reg);
                let rs2: u64 = self.reg(rs2);

                let value: u64 = subw(rs1, rs2);
                self.set_reg(reg, value);
                return CoreExit::Success;
            },
            Instruction::CAddw { reg, rs2 } => {
                let rs1: u64 = self.reg(reg);
                let rs2: u64 = self.reg(rs2);

                let value: u64 = addw(rs1, rs2);
                self.set_reg(reg, value);
                return CoreExit::Success;
            },
            Instruction::CMv { rd, rs2 } => {
                let value: u64 = self.reg(rs2);
                self.set_reg(rd, value);
                return CoreExit::Success;
            },
            Instruction::CAdd { reg, rs2 } => {
                let rs1: u64 = self.reg(reg);
                let rs2: u64 = self.reg(rs2);

                let value: u64 = add64(rs1, rs2);
                self.set_reg(reg, value);
                return CoreExit::Success;
            },
            _ => CoreExit::Success,
        }
    }

    /// Compressed loads and stores.
    #[verifier::rlimit(30)]
    fn execute_short_memory(&mut self, inst: Instruction, current_pc: u64) -> (exit: CoreExit)
        requires
            is_short_memory(inst),
            inst.wf(),
            old(self)@.wf(),
            old(self)@.fault(inst) is None,
        ensures
            final(self)@ == old(self)@.apply(inst, current_pc),
            final(self)@.wf(),
            exit == inst.exit(),
    {
        proof {
            reveal(State::apply_base);
            reveal(State::value);
            reveal(Instruction::expand);
            reveal(State::access);
        }
        match inst {
            Instruction::CLw { rd, rs1, uimm } => {
                proof {
                    lemma_small_immediate(uimm);
                }
                let uimm: u64 = uimm as u64;
                let rs1: u64 = self.reg(rs1);

                let addr: u64 = add64(rs1, uimm);

                let value: u32 = self.load_u32(addr);
                self.set_reg(rd, sext_word(value));
                return CoreExit::Success;
            },
            Instruction::CLd { rd, rs1, uimm } => {
                proof {
                    lemma_small_immediate(uimm);
                }
                let uimm: u64 = uimm as u64;
                let rs1: u64 = self.reg(rs1);

                let addr: u64 = add64(rs1, uimm);

                let value: u64 = self.load_u64(addr);
                self.set_reg(rd, value);
                return CoreExit::Success;
            },
            Instruction::CSw { rs1, rs2, uimm } => {
                proof {
                    lemma_small_immediate(uimm);
                }
                let uimm: u64 = uimm as u64;
                let rs1: u64 = self.reg(rs1);
                let rs2: u32 = low_word(self.reg(rs2));

                let addr: u64 = add64(rs1, uimm);

                self.store_u32(addr, rs2);
                return CoreExit::Success;
            },
            Instruction::CSd { rs1, rs2, uimm } => {
                proof {
                    lemma_small_immediate(uimm);
                }
                let uimm: u64 = uimm as u64;
                let rs1: u64 = self.reg(rs1);
                let rs2: u64 = self.reg(rs2);

                let addr: u64 = add64(rs1, uimm);

                self.store_u64(addr, rs2);
                return CoreExit::Success;
            },
            Instruction::CLwsp { rd, uimm } => {
                proof {
                    lemma_small_immediate(uimm);
                }
                let uimm: u64 = uimm as u64;

                let addr: u64 = add64(self.reg(Register::Sp), uimm);

                let value: u32 = self.load_u32(addr);
                self.set_reg(rd, sext_word(value));
                return CoreExit::Success;
            },
            Instruction::CLdsp { rd, uimm } => {
                proof {
                    lemma_small_immediate(uimm);
                }
                let uimm: u64 = uimm as u64;

                let addr: u64 = add64(self.reg(Register::Sp), uimm);

                let value: u64 = self.load_u64(addr);
                self.set_reg(rd, value);
                return CoreExit::Success;
            },
            Instruction::CSwsp { rs2, uimm } => {
                let rs2: u32 = low_word(self.reg(rs2));
                proof {
                    lemma_small_immediate(uimm);
                }
                let uimm: u64 = uimm as u64;

                let addr: u64 = add64(self.reg(Register::Sp), uimm);

                self.store_u32(addr, rs2);
                return CoreExit::Success;
            },
            Instruction::CSdsp { rs2, uimm } => {
                let rs2: u64 = self.reg(rs2);
                proof {
                    lemma_small_immediate(uimm);
                }
                let uimm: u64 = uimm as u64;

                let addr: u64 = add64(self.reg(Register::Sp), uimm);

                self.store_u64(addr, rs2);
                return CoreExit::Success;
            },
            _ => CoreExit::Success,
        }
    }

    /// Compressed jumps and branches, and the compressed breakpoint.
    #[verifier::rlimit(30)]
    fn execute_short_control(&mut self, inst: Instruction, current_pc: u64) -> (exit: CoreExit)
        requires
            is_short_control(inst),
            inst.wf(),
            old(self)@.wf(),
            old(self)@.fault(inst) is None,
        ensures
            final(self)@ == old(self)@.apply(inst, current_pc),
            final(self)@.wf(),
            exit == inst.exit(),
    {
        proof {
            reveal(State::apply_base);
            reveal(State::value);
            reveal(Instruction::expand);
            reveal(State::access);
        }
        match inst {
            Instruction::CJ { imm } => {
                let target: u64 = add64(current_pc, sext_imm(imm));
                self.set_reg(Register::Pc, target);
                return CoreExit::Success;
            },
            Instruction::CBeqz { rs1, imm } => {
                let rs1: u64 = self.reg(rs1);
                let target: u64 = add64(current_pc, sext_imm(imm));

                if rs1 == 0 {
                    self.set_reg(Register::Pc, target);
                }
                return CoreExit::Success;
            },
            Instruction::CBnez { rs1, imm } => {
                let rs1: u64 = self.reg(rs1);
                let target: u64 = add64(current_pc, sext_imm(imm));

                if rs1 != 0 {
                    self.set_reg(Register::Pc, target);
                }
                return CoreExit::Success;
            },
            Instruction::CJr { rs1 } => {
                let target: u64 = self.reg(rs1);
                self.set_reg(Register::Pc, target);
                return CoreExit::Success;
            },
            Instruction::CJalr { rs1 } => {
                let target: u64 = self.reg(rs1);
                let return_addr: u64 = self.reg(Register::Pc);

                self.set_reg(Register::Ra, return_addr);
                self.set_reg(Register::Pc, target);
                return CoreExit::Success;
            },
            Instruction::CEbreak => {
                return CoreExit::Ebreak;
            },
            _ => CoreExit::Success,
        }
    }
}

} // verus!
