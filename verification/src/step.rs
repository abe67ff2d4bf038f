//! One step of the core: fetch, decode, advance, execute.

use vstd::prelude::*;
use crate::alu::{add64, sext_imm};
use crate::cpu::{Core, CoreExit, Register};
use crate::instruction::Instruction;
use crate::mmu::in_range;
use crate::semantics::{Fault, State};

verus! {

/// The low two bits of a half-word, which tell a compressed instruction
/// from a 32-bit one.
proof fn lemma_low_bits(h: u16)
    by (bit_vector)
    ensures
        h & 0b11 == h % 4,
{
}

impl Core {
    /// Fetches, decodes and executes the instruction at the program
    /// counter.  The program counter moves past the instruction before the
    /// instruction is applied, so a jump or a taken branch overrides the
    /// move, and a return address is the address after the instruction.
    pub fn step(&mut self) -> (exit: CoreExit)
        requires
            old(self)@.step_fault() is None,
        ensures
            final(self)@ == old(self)@.step(),
            final(self)@.wf(),
            exit == old(self)@.fetched().exit(),
            final(self)@.pc() == old(self)@.next_pc(),
    {
        let current_pc: u64 = self.reg(Register::Pc);
        self.invariants();

        let inst: u16 = self.fetch_u16();
        proof {
            lemma_low_bits(inst);
        }
        let is_compressed: bool = (inst & 0b11) != 0b11;

        if is_compressed {
            self.set_reg(Register::Pc, current_pc + 2);
            let inst = Instruction::decode_compressed(inst);
            proof {
                self@.lemma_pc_after(inst, current_pc);
            }
            return self.execute(inst, current_pc);
        } else {
            let inst: u32 = self.fetch_u32();
            self.set_reg(Register::Pc, current_pc + 4);
            let inst = Instruction::decode(inst);
            proof {
                self@.lemma_pc_after(inst, current_pc);
            }
            return self.execute(inst, current_pc);
        }
    }

    /// Steps where the step raises no fault, and reports the fault where it
    /// raises one; then the state is left as it was.
    pub fn try_step(&mut self) -> (r: Result<CoreExit, Fault>)
        ensures
            match old(self)@.step_fault() {
                Some(fault) => r == Err::<CoreExit, Fault>(fault) && final(self)@ == old(self)@,
                None => r == Ok::<CoreExit, Fault>(old(self)@.fetched().exit()) && final(self)@
                    == old(self)@.step() && final(self)@.pc() == old(self)@.next_pc(),
            },
            final(self)@.wf(),
    {
        let current_pc: u64 = self.reg(Register::Pc);
        if !self.contains(current_pc, 2) {
            return Err(Fault::Memory { addr: current_pc });
        }
        let half: u16 = self.fetch_u16();
        proof {
            lemma_low_bits(half);
        }
        let is_compressed: bool = (half & 0b11) != 0b11;
        if !is_compressed && !self.contains(current_pc, 4) {
            return Err(Fault::Memory { addr: current_pc });
        }
        if is_compressed {
            self.set_reg(Register::Pc, current_pc + 2);
            let inst = Instruction::decode_compressed(half);
            proof {
                self@.lemma_pc_after(inst, current_pc);
            }
            let r = self.try_execute(inst, current_pc);
            proof {
                old(self)@.lemma_move_back();
            }
            return r;
        } else {
            let word: u32 = self.fetch_u32();
            self.set_reg(Register::Pc, current_pc + 4);
            let inst = Instruction::decode(word);
            proof {
                self@.lemma_pc_after(inst, current_pc);
            }
            let r = self.try_execute(inst, current_pc);
            proof {
                old(self)@.lemma_move_back();
            }
            return r;
        }
    }

    /// The second half of `try_step`: executes the fetched instruction
    /// where it raises no fault, else moves the program counter back to the
    /// instruction and reports the fault.
    fn try_execute(&mut self, inst: Instruction, current_pc: u64) -> (r: Result<CoreExit, Fault>)
        requires
            inst.wf(),
        ensures
            match old(self)@.fault(inst) {
                Some(fault) => r == Err::<CoreExit, Fault>(fault) && final(self)@ == old(
                    self,
                )@.set_pc(current_pc),
                None => r == Ok::<CoreExit, Fault>(inst.exit()) && final(self)@ == old(self)@.apply(
                    inst,
                    current_pc,
                ),
            },
            final(self)@.wf(),
    {
        match self.check(inst) {
            Some(fault) => {
                self.set_reg(Register::Pc, current_pc);
                return Err(fault);
            },
            None => {
                let exit = self.execute(inst, current_pc);
                return Ok(exit);
            },
        }
    }

    /// The fault that executing `inst` in the present state would raise.
    pub fn check(&self, inst: Instruction) -> (r: Option<Fault>)
        ensures
            r == self@.fault(inst),
    {
        proof {
            reveal(Instruction::expand);
            reveal(State::access);
        }
        match inst {
            Instruction::Undefined(_)
            | Instruction::UndefinedCompressed(_)
            | Instruction::CFld { .. }
            | Instruction::CFsd { .. }
            | Instruction::CFldsp { .. }
            | Instruction::CFsdsp { .. } => {
                return Some(Fault::Decode { inst });
            },
            Instruction::Lb { rs1, imm, .. }
            | Instruction::Lbu { rs1, imm, .. }
            | Instruction::Sb { rs1, imm, .. } => {
                return self.check_access(add64(self.reg(rs1), sext_imm(imm)), 1);
            },
            Instruction::Lh { rs1, imm, .. }
            | Instruction::Lhu { rs1, imm, .. }
            | Instruction::Sh { rs1, imm, .. } => {
                return self.check_access(add64(self.reg(rs1), sext_imm(imm)), 2);
            },
            Instruction::Lw { rs1, imm, .. }
            | Instruction::Lwu { rs1, imm, .. }
            | Instruction::Sw { rs1, imm, .. } => {
                return self.check_access(add64(self.reg(rs1), sext_imm(imm)), 4);
            },
            Instruction::Ld { rs1, imm, .. } | Instruction::Sd { rs1, imm, .. } => {
                return self.check_access(add64(self.reg(rs1), sext_imm(imm)), 8);
            },
            Instruction::Amoswapw { rs1, .. }
            | Instruction::Amoaddw { rs1, .. }
            | Instruction::Amoxorw { rs1, .. }
            | Instruction::Amoandw { rs1, .. }
            | Instruction::Amoorw { rs1, .. }
            | Instruction::Amominw { rs1, .. }
            | Instruction::Amomaxw { rs1, .. }
            | Instruction::Amominuw { rs1, .. }
            | Instruction::Amomaxuw { rs1, .. } => {
                return self.check_access(self.reg(rs1), 4);
            },
            Instruction::CLw { rs1, uimm, .. } | Instruction::CSw { rs1, uimm, .. } => {
                return self.check_access(add64(self.reg(rs1), sext_imm(uimm as i32)), 4);
            },
            Instruction::CLd { rs1, uimm, .. } | Instruction::CSd { rs1, uimm, .. } => {
                return self.check_access(add64(self.reg(rs1), sext_imm(uimm as i32)), 8);
            },
            Instruction::CLwsp { uimm, .. } | Instruction::CSwsp { uimm, .. } => {
                return self.check_access(add64(self.reg(Register::Sp), sext_imm(uimm as i32)), 4);
            },
            Instruction::CLdsp { uimm, .. } | Instruction::CSdsp { uimm, .. } => {
                return self.check_access(add64(self.reg(Register::Sp), sext_imm(uimm as i32)), 8);
            },
            _ => {
                return None;
            },
        }
    }

    /// The memory fault of an access to `width` bytes at `addr`, if it
    /// raises one.
    fn check_access(&self, addr: u64, width: u64) -> (r: Option<Fault>)
        ensures
            r == (if in_range(self@.mem, addr as int, width as nat) {
                None
            } else {
                Some(Fault::Memory { addr })
            }),
    {
        if self.contains(addr, width) {
            None
        } else {
            Some(Fault::Memory { addr })
        }
    }

    /// The half-word at the program counter.
    fn fetch_u16(&self) -> (result: u16)
        requires
            in_range(self@.mem, self@.pc() as int, 2),
        ensures
            result == self@.fetch_half(),
    {
        let pc: u64 = self.reg(Register::Pc);
        let result: u16 = self.load_u16(pc);

        result
    }

    /// The word at the program counter.
    fn fetch_u32(&self) -> (result: u32)
        requires
            in_range(self@.mem, self@.pc() as int, 4),
        ensures
            result == self@.fetch_word(),
    {
        let pc: u64 = self.reg(Register::Pc);
        let result: u32 = self.load_u32(pc);

        result
    }
}

} // verus!
