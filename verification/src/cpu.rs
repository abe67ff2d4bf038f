//! The registers, and the core that holds them together with its memory.

use vstd::prelude::*;
use crate::mmu::{in_range, splice, store, Mmu};
use crate::semantics::State;

verus! {

/// The slots of the register file: the 32 general-purpose registers under
/// their ABI names, and the program counter.
#[derive(Copy, Clone, PartialEq, Eq, Structural, Debug)]
pub enum Register {
    Zero,
    Ra,
    Sp,
    Gp,
    Tp,
    T0,
    T1,
    T2,
    S0,
    S1,
    A0,
    A1,
    A2,
    A3,
    A4,
    A5,
    A6,
    A7,
    S2,
    S3,
    S4,
    S5,
    S6,
    S7,
    S8,
    S9,
    S10,
    S11,
    T3,
    T4,
    T5,
    T6,
    Pc,
}

impl Register {
    /// The slot of the register in the register file: `n` for `xn`, 32 for
    /// the program counter.
    pub open spec fn spec_index(&self) -> usize {
        match self {
            Register::Zero => 0,
            Register::Ra => 1,
            Register::Sp => 2,
            Register::Gp => 3,
            Register::Tp => 4,
            Register::T0 => 5,
            Register::T1 => 6,
            Register::T2 => 7,
            Register::S0 => 8,
            Register::S1 => 9,
            Register::A0 => 10,
            Register::A1 => 11,
            Register::A2 => 12,
            Register::A3 => 13,
            Register::A4 => 14,
            Register::A5 => 15,
            Register::A6 => 16,
            Register::A7 => 17,
            Register::S2 => 18,
            Register::S3 => 19,
            Register::S4 => 20,
            Register::S5 => 21,
            Register::S6 => 22,
            Register::S7 => 23,
            Register::S8 => 24,
            Register::S9 => 25,
            Register::S10 => 26,
            Register::S11 => 27,
            Register::T3 => 28,
            Register::T4 => 29,
            Register::T5 => 30,
            Register::T6 => 31,
            Register::Pc => 32,
        }
    }

    /// The register that occupies slot `i`; the program counter for every
    /// `i` that names no general-purpose register.
    pub open spec fn of(i: int) -> Register {
        if i == 0 {
            Register::Zero
        } else if i == 1 {
            Register::Ra
        } else if i == 2 {
            Register::Sp
        } else if i == 3 {
            Register::Gp
        } else if i == 4 {
            Register::Tp
        } else if i == 5 {
            Register::T0
        } else if i == 6 {
            Register::T1
        } else if i == 7 {
            Register::T2
        } else if i == 8 {
            Register::S0
        } else if i == 9 {
            Register::S1
        } else if i == 10 {
            Register::A0
        } else if i == 11 {
            Register::A1
        } else if i == 12 {
            Register::A2
        } else if i == 13 {
            Register::A3
        } else if i == 14 {
            Register::A4
        } else if i == 15 {
            Register::A5
        } else if i == 16 {
            Register::A6
        } else if i == 17 {
            Register::A7
        } else if i == 18 {
            Register::S2
        } else if i == 19 {
            Register::S3
        } else if i == 20 {
            Register::S4
        } else if i == 21 {
            Register::S5
        } else if i == 22 {
            Register::S6
        } else if i == 23 {
            Register::S7
        } else if i == 24 {
            Register::S8
        } else if i == 25 {
            Register::S9
        } else if i == 26 {
            Register::S10
        } else if i == 27 {
            Register::S11
        } else if i == 28 {
            Register::T3
        } else if i == 29 {
            Register::T4
        } else if i == 30 {
            Register::T5
        } else if i == 31 {
            Register::T6
        } else {
            Register::Pc
        }
    }

    /// The slot of the register that occupies slot `i` is `i`.
    pub proof fn lemma_of(i: int)
        requires
            0 <= i <= 32,
        ensures
            Register::of(i).spec_index() == i,
            i < 32 ==> Register::of(i).is_general(),
    {
    }

    /// Each register has a slot of its own among the 33: `x0` the first
    /// and the program counter the last.
    pub proof fn lemma_index(self)
        ensures
            self.spec_index() <= 32,
            Register::of(self.spec_index() as int) == self,
            self == Register::Zero <==> self.spec_index() == 0,
            self == Register::Pc <==> self.spec_index() == 32,
    {
    }

    /// Whether the register is one of `x0` to `x31`.
    pub open spec fn is_general(&self) -> bool {
        *self != Register::Pc
    }

    #[verifier::when_used_as_spec(spec_index)]
    pub fn index(&self) -> (i: usize)
        ensures
            i == self.spec_index(),
            i <= 32,
            Register::of(i as int) == *self,
    {
        match self {
            Register::Zero => 0,
            Register::Ra => 1,
            Register::Sp => 2,
            Register::Gp => 3,
            Register::Tp => 4,
            Register::T0 => 5,
            Register::T1 => 6,
            Register::T2 => 7,
            Register::S0 => 8,
            Register::S1 => 9,
            Register::A0 => 10,
            Register::A1 => 11,
            Register::A2 => 12,
            Register::A3 => 13,
            Register::A4 => 14,
            Register::A5 => 15,
            Register::A6 => 16,
            Register::A7 => 17,
            Register::S2 => 18,
            Register::S3 => 19,
            Register::S4 => 20,
            Register::S5 => 21,
            Register::S6 => 22,
            Register::S7 => 23,
            Register::S8 => 24,
            Register::S9 => 25,
            Register::S10 => 26,
            Register::S11 => 27,
            Register::T3 => 28,
            Register::T4 => 29,
            Register::T5 => 30,
            Register::T6 => 31,
            Register::Pc => 32,
        }
    }

    /// The register in slot `value`.
    pub fn from_index(value: u32) -> (reg: Register)
        requires
            value <= 32,
        ensures
            reg == Register::of(value as int),
            reg.spec_index() == value,
            value < 32 ==> reg.is_general(),
    {
        match value {
            0 => Register::Zero,
            1 => Register::Ra,
            2 => Register::Sp,
            3 => Register::Gp,
            4 => Register::Tp,
            5 => Register::T0,
            6 => Register::T1,
            7 => Register::T2,
            8 => Register::S0,
            9 => Register::S1,
            10 => Register::A0,
            11 => Register::A1,
            12 => Register::A2,
            13 => Register::A3,
            14 => Register::A4,
            15 => Register::A5,
            16 => Register::A6,
            17 => Register::A7,
            18 => Register::S2,
            19 => Register::S3,
            20 => Register::S4,
            21 => Register::S5,
            22 => Register::S6,
            23 => Register::S7,
            24 => Register::S8,
            25 => Register::S9,
            26 => Register::S10,
            27 => Register::S11,
            28 => Register::T3,
            29 => Register::T4,
            30 => Register::T5,
            31 => Register::T6,
            _ => Register::Pc,
        }
    }
}

/// What a step reports to the harness.
#[derive(Copy, Clone, PartialEq, Eq, Structural, Debug)]
pub enum CoreExit {
    Success,
    Ecall,
    Ebreak,
}

/// One hart: the register file, the control/status registers and the
/// memory it executes from.
pub struct Core {
    registers: [u64; 33],
    csr_registers: [u64; 4096],
    mmu: Mmu,
}

impl View for Core {
    type V = State;

    closed spec fn view(&self) -> State {
        State {
            regs: Map::new(
                |r: Register| true,
                |r: Register| self.registers@[r.spec_index() as int],
            ),
            csrs: self.csr_registers@,
            mem: self.mmu@,
        }
    }
}

impl Core {
    #[verifier::type_invariant]
    spec fn zero_is_zero(self) -> bool {
        self.registers[0] == 0
    }

    /// A core with every register zero, on the memory `mmu`.
    pub fn new(mmu: Mmu) -> (core: Self)
        ensures
            core@.wf(),
            core@.mem == mmu@,
            forall|r: Register| #[trigger] core@.regs[r] == 0,
            forall|i: int| 0 <= i < 4096 ==> core@.csrs[i] == 0,
    {
        Self { registers: [0u64; 33], csr_registers: [0u64; 4096], mmu }
    }

    /// Does nothing when run.  In a proof it gives what holds of every
    /// core: its view is well formed, and its memory is no larger than the
    /// machine can address.
    pub(crate) fn invariants(&self)
        ensures
            self@.wf(),
            self@.mem.len() <= usize::MAX,
    {
        proof {
            use_type_invariant(self);
            self.mmu.lemma_size_fits();
        }
    }

    /// The memory of the core.
    pub fn mmu(&self) -> (mmu: &Mmu)
        ensures
            mmu@ == self@.mem,
    {
        &self.mmu
    }

    /// Writes `value` to the control/status register at the 12-bit address
    /// `csr`.
    pub fn write_csr(&mut self, csr: u16, value: u64)
        requires
            csr < 4096,
        ensures
            final(self)@ == old(self)@.set_csr(csr, value),
            final(self)@.wf(),
    {
        proof {
            use_type_invariant(&*self);
        }
        let csr: usize = csr as usize;
        self.csr_registers[csr] = value;
    }

    /// The control/status register at the 12-bit address `csr`.
    pub fn read_csr(&self, csr: u16) -> (value: u64)
        requires
            csr < 4096,
        ensures
            value == self@.csrs[csr as int],
            self@.wf(),
    {
        proof {
            use_type_invariant(self);
        }
        let csr: usize = csr as usize;
        self.csr_registers[csr]
    }

    /// Writes `value` to `reg`; a write to `x0` is ignored.
    pub fn set_reg(&mut self, reg: Register, value: u64)
        ensures
            final(self)@ == old(self)@.set_reg(reg, value),
            final(self)@.wf(),
    {
        proof {
            use_type_invariant(&*self);
        }
        if reg != Register::Zero {
            self.registers[reg.index()] = value;
            proof {
                assert forall|r: Register| r != reg implies r.spec_index() != reg.spec_index() by {
                    r.lemma_index();
                    reg.lemma_index();
                }
                assert(self@.regs =~= old(self)@.regs.insert(reg, value));
            }
        }
    }

    /// The value of `reg`; zero for `x0`.
    pub fn reg(&self, reg: Register) -> (value: u64)
        ensures
            value == self@.reg(reg),
            reg == Register::Zero ==> value == 0,
            self@.wf(),
    {
        proof {
            use_type_invariant(self);
        }
        self.registers[reg.index()]
    }

    /// The byte at `addr`.
    pub fn load_u8(&self, addr: u64) -> (value: u8)
        requires
            in_range(self@.mem, addr as int, 1),
        ensures
            value == self@.load(addr, 1),
    {
        self.mmu.read_u8(addr)
    }

    /// Writes `value` to the byte at `addr`.
    pub fn store_u8(&mut self, addr: u64, value: u8)
        requires
            in_range(old(self)@.mem, addr as int, 1),
        ensures
            final(self)@ == old(self)@.store(addr, 1, value as nat),
            final(self)@.mem.len() == old(self)@.mem.len(),
            final(self)@.wf(),
    {
        proof {
            use_type_invariant(&*self);
        }
        self.mmu.write_u8(addr, value);
    }

    /// The number in the 2 bytes at `addr`, least significant byte first.
    pub fn load_u16(&self, addr: u64) -> (value: u16)
        requires
            in_range(self@.mem, addr as int, 2),
        ensures
            value == self@.load(addr, 2),
    {
        self.mmu.read_u16(addr)
    }

    /// Writes `value` to the 2 bytes at `addr`, least significant byte
    /// first.
    pub fn store_u16(&mut self, addr: u64, value: u16)
        requires
            in_range(old(self)@.mem, addr as int, 2),
        ensures
            final(self)@ == old(self)@.store(addr, 2, value as nat),
            final(self)@.mem.len() == old(self)@.mem.len(),
            final(self)@.wf(),
    {
        proof {
            use_type_invariant(&*self);
        }
        self.mmu.write_u16(addr, value);
    }

    /// The number in the 4 bytes at `addr`, least significant byte first.
    pub fn load_u32(&self, addr: u64) -> (value: u32)
        requires
            in_range(self@.mem, addr as int, 4),
        ensures
            value == self@.load(addr, 4),
    {
        self.mmu.read_u32(addr)
    }

    /// Writes `value` to the 4 bytes at `addr`, least significant byte
    /// first.
    pub fn store_u32(&mut self, addr: u64, value: u32)
        requires
            in_range(old(self)@.mem, addr as int, 4),
        ensures
            final(self)@ == old(self)@.store(addr, 4, value as nat),
            final(self)@.mem.len() == old(self)@.mem.len(),
            final(self)@.wf(),
    {
        proof {
            use_type_invariant(&*self);
        }
        self.mmu.write_u32(addr, value);
    }

    /// The number in the 8 bytes at `addr`, least significant byte first.
    pub fn load_u64(&self, addr: u64) -> (value: u64)
        requires
            in_range(self@.mem, addr as int, 8),
        ensures
            value == self@.load(addr, 8),
    {
        self.mmu.read_u64(addr)
    }

    /// Writes `value` to the 8 bytes at `addr`, least significant byte
    /// first.
    pub fn store_u64(&mut self, addr: u64, value: u64)
        requires
            in_range(old(self)@.mem, addr as int, 8),
        ensures
            final(self)@ == old(self)@.store(addr, 8, value as nat),
            final(self)@.mem.len() == old(self)@.mem.len(),
            final(self)@.wf(),
    {
        proof {
            use_type_invariant(&*self);
        }
        self.mmu.write_u64(addr, value);
    }

    /// Copies `bytes` into the memory, the first of them to `offset`.
    pub fn load_bytes(&mut self, offset: u64, bytes: &[u8])
        requires
            in_range(old(self)@.mem, offset as int, bytes@.len()),
        ensures
            final(self)@ == (State {
                mem: splice(old(self)@.mem, offset as int, bytes@),
                ..old(self)@
            }),
            final(self)@.mem.len() == old(self)@.mem.len(),
            final(self)@.wf(),
    {
        self.invariants();
        let n: usize = bytes.len();
        let mut i: usize = 0;
        assert(self@.mem =~= splice(self@.mem, offset as int, bytes@.take(0)));
        while i < n
            invariant
                n == bytes@.len(),
                i <= n,
                offset + n <= old(self)@.mem.len() <= usize::MAX,
                self@ == (State {
                    mem: splice(old(self)@.mem, offset as int, bytes@.take(i as int)),
                    ..old(self)@
                }),
                self@.wf(),
            decreases n - i,
        {
            self.store_u8(offset + i as u64, bytes[i]);
            proof {
                reveal_with_fuel(store, 2);
                assert(self@.mem =~= splice(old(self)@.mem, offset as int, bytes@.take(i + 1)));
            }
            i = i + 1;
        }
        assert(bytes@.take(n as int) =~= bytes@);
    }

    /// Whether the `width` bytes starting at `addr` lie inside the memory.
    pub fn contains(&self, addr: u64, width: u64) -> (r: bool)
        ensures
            r == in_range(self@.mem, addr as int, width as nat),
            self@.mem.len() <= usize::MAX,
    {
        proof {
            self.mmu.lemma_size_fits();
        }
        self.mmu.contains(addr, width)
    }
}

} // verus!
