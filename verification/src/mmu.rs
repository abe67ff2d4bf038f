//! Flat little-endian memory.
//!
//! The memory is a fixed-length sequence of bytes.  A multi-byte value at
//! address `a` is the number whose base-256 digits are the bytes at `a`,
//! `a + 1`, ... with the least significant digit first.

use vstd::prelude::*;
use vstd::arithmetic::power::pow;

verus! {

/// The number read from `width` consecutive bytes starting at `addr`,
/// least significant byte first.
pub open spec fn load(mem: Seq<u8>, addr: int, width: nat) -> nat
    decreases width,
{
    if width == 0 {
        0
    } else {
        mem[addr] as nat + 256 * load(mem, addr + 1, (width - 1) as nat)
    }
}

/// The memory after the low `width` base-256 digits of `value` have been
/// written to consecutive bytes starting at `addr`, least significant first.
pub open spec fn store(mem: Seq<u8>, addr: int, width: nat, value: nat) -> Seq<u8>
    decreases width,
{
    if width == 0 {
        mem
    } else {
        store(mem.update(addr, (value % 256) as u8), addr + 1, (width - 1) as nat, value / 256)
    }
}

/// Whether the `width` bytes starting at `addr` all lie inside `mem`.
pub open spec fn in_range(mem: Seq<u8>, addr: int, width: nat) -> bool {
    0 <= addr && addr + width <= mem.len()
}

/// A store changes neither the length of the memory nor any byte outside
/// the written range.
pub proof fn lemma_store_frame(mem: Seq<u8>, addr: int, width: nat, value: nat)
    requires
        in_range(mem, addr, width),
    ensures
        store(mem, addr, width, value).len() == mem.len(),
        forall|i: int|
            0 <= i < mem.len() && !(addr <= i < addr + width) ==> #[trigger] store(
                mem,
                addr,
                width,
                value,
            )[i] == mem[i],
    decreases width,
{
    if width > 0 {
        lemma_store_frame(
            mem.update(addr, (value % 256) as u8),
            addr + 1,
            (width - 1) as nat,
            value / 256,
        );
    }
}

/// Little-endian round trip: reading back the bytes that a store wrote gives
/// the stored value, reduced to the width of the access.
pub proof fn lemma_load_after_store(mem: Seq<u8>, addr: int, width: nat, value: nat)
    requires
        in_range(mem, addr, width),
    ensures
        pow(256, width) > 0,
        load(store(mem, addr, width, value), addr, width) == value % (pow(256, width) as nat),
    decreases width,
{
    reveal(pow);
    vstd::arithmetic::power::lemma_pow_positive(256, width);
    if width > 0 {
        let rest = (width - 1) as nat;
        let first = mem.update(addr, (value % 256) as u8);
        let out = store(mem, addr, width, value);
        lemma_load_after_store(first, addr + 1, rest, value / 256);
        lemma_store_frame(first, addr + 1, rest, value / 256);
        assert(out[addr] == first[addr]);
        vstd::arithmetic::power::lemma_pow_positive(256, rest);
        vstd::arithmetic::div_mod::lemma_mod_breakdown(value as int, 256, pow(256, rest));
    }
}

/// The moduli of the four access widths.
pub proof fn lemma_width_moduli()
    ensures
        pow(256, 1) == 0x100,
        pow(256, 2) == 0x1_0000,
        pow(256, 4) == 0x1_0000_0000,
        pow(256, 8) == 0x1_0000_0000_0000_0000,
{
    reveal_with_fuel(pow, 9);
}

/// Writing a value that fits the access width and reading it back at the
/// same address gives the value: in particular for every `u8`, `u16`, `u32`
/// and `u64` at widths 1, 2, 4 and 8.
pub proof fn lemma_round_trip(mem: Seq<u8>, addr: int, width: nat, value: nat)
    requires
        in_range(mem, addr, width),
        value < pow(256, width),
    ensures
        load(store(mem, addr, width, value), addr, width) == value,
{
    lemma_load_after_store(mem, addr, width, value);
    vstd::arithmetic::div_mod::lemma_small_mod(value, pow(256, width) as nat);
}

/// Little-endian round trip at each width: what a store of a `u8`, `u16`,
/// `u32` or `u64` wrote, a load of the same width at the same address
/// reads back.
pub proof fn lemma_round_trip_widths(mem: Seq<u8>, addr: int, b: u8, h: u16, w: u32, d: u64)
    ensures
        in_range(mem, addr, 1) ==> load(store(mem, addr, 1, b as nat), addr, 1) == b,
        in_range(mem, addr, 2) ==> load(store(mem, addr, 2, h as nat), addr, 2) == h,
        in_range(mem, addr, 4) ==> load(store(mem, addr, 4, w as nat), addr, 4) == w,
        in_range(mem, addr, 8) ==> load(store(mem, addr, 8, d as nat), addr, 8) == d,
{
    lemma_width_moduli();
    if in_range(mem, addr, 1) {
        lemma_round_trip(mem, addr, 1, b as nat);
    }
    if in_range(mem, addr, 2) {
        lemma_round_trip(mem, addr, 2, h as nat);
    }
    if in_range(mem, addr, 4) {
        lemma_round_trip(mem, addr, 4, w as nat);
    }
    if in_range(mem, addr, 8) {
        lemma_round_trip(mem, addr, 8, d as nat);
    }
}

/// The memory after `bytes` have been copied to `offset` and onward.
pub open spec fn splice(mem: Seq<u8>, offset: int, bytes: Seq<u8>) -> Seq<u8> {
    Seq::new(
        mem.len(),
        |i: int|
            if offset <= i < offset + bytes.len() {
                bytes[i - offset]
            } else {
                mem[i]
            },
    )
}

/// The bytes that the shifts and masks of a 16-bit store produce are the
/// base-256 digits of the value; the word that a 16-bit read assembles is the
/// number with those digits.
proof fn lemma_digits_u16(v: u16, b0: u8, b1: u8)
    by (bit_vector)
    ensures
        v & 0xff == v % 256,
        (v >> 8) & 0xff == (v / 256) % 256,
        (b0 as u16) | (b1 as u16) << 8 == b0 + 256 * b1,
{
}

/// The same for a 32-bit store and read.
proof fn lemma_digits_u32(v: u32, b0: u8, b1: u8, b2: u8, b3: u8)
    by (bit_vector)
    ensures
        (v >> 0) & 0xff == v % 256,
        (v >> 8) & 0xff == (v / 256) % 256,
        (v >> 16) & 0xff == (v / 256 / 256) % 256,
        (v >> 24) & 0xff == (v / 256 / 256 / 256) % 256,
        (b0 as u32) | (b1 as u32) << 8 | (b2 as u32) << 16 | (b3 as u32) << 24 == b0 + 256 * (b1
            + 256 * (b2 + 256 * b3)),
{
}

/// The same for a 64-bit store.
proof fn lemma_digits_u64_write(v: u64)
    by (bit_vector)
    ensures
        (v >> 0) & 0xff == v % 256,
        (v >> 8) & 0xff == (v / 256) % 256,
        (v >> 16) & 0xff == (v / 256 / 256) % 256,
        (v >> 24) & 0xff == (v / 256 / 256 / 256) % 256,
        (v >> 32) & 0xff == (v / 256 / 256 / 256 / 256) % 256,
        (v >> 40) & 0xff == (v / 256 / 256 / 256 / 256 / 256) % 256,
        (v >> 48) & 0xff == (v / 256 / 256 / 256 / 256 / 256 / 256) % 256,
        (v >> 56) & 0xff == (v / 256 / 256 / 256 / 256 / 256 / 256 / 256) % 256,
{
}

/// The same for a 64-bit read.
proof fn lemma_digits_u64_read(b0: u8, b1: u8, b2: u8, b3: u8, b4: u8, b5: u8, b6: u8, b7: u8)
    by (bit_vector)
    ensures
        (b0 as u64) | (b1 as u64) << 8 | (b2 as u64) << 16 | (b3 as u64) << 24 | (b4 as u64) << 32
            | (b5 as u64) << 40 | (b6 as u64) << 48 | (b7 as u64) << 56 == b0 + 256 * (b1 + 256 * (
        b2 + 256 * (b3 + 256 * (b4 + 256 * (b5 + 256 * (b6 + 256 * b7)))))),
{
}

/// Byte-addressable memory of a fixed size.
pub struct Mmu {
    ram: Vec<u8>,
}

impl View for Mmu {
    type V = Seq<u8>;

    closed spec fn view(&self) -> Seq<u8> {
        self.ram@
    }
}

impl Mmu {
    /// A memory of `size` bytes, all zero.
    pub fn new(size: usize) -> (mmu: Self)
        ensures
            mmu@.len() == size,
            forall|i: int| 0 <= i < size ==> mmu@[i] == 0,
    {
        Self { ram: vec![0u8; size] }
    }

    /// The size of a memory fits the machine's address type.
    pub proof fn lemma_size_fits(&self)
        ensures
            self@.len() <= usize::MAX,
    {
        assert(self@.len() == self.ram.len());
    }

    /// The number of bytes in the memory.
    pub fn size(&self) -> (n: usize)
        ensures
            n == self@.len(),
    {
        self.ram.len()
    }

    /// Whether the `width` bytes starting at `addr` lie inside the memory.
    pub fn contains(&self, addr: u64, width: u64) -> (r: bool)
        ensures
            r == in_range(self@, addr as int, width as nat),
    {
        let size: usize = self.ram.len();
        let size: u64 = size as u64;
        width <= size && addr <= size - width
    }

    /// Writes the byte at `addr`.
    pub fn write_u8(&mut self, addr: u64, value: u8)
        requires
            in_range(old(self)@, addr as int, 1),
        ensures
            final(self)@ == store(old(self)@, addr as int, 1, value as nat),
            final(self)@.len() == old(self)@.len(),
            load(final(self)@, addr as int, 1) == value,
            final(self)@ == old(self)@.update(addr as int, value),
        no_unwind
    {
        proof {
            reveal_with_fuel(store, 2);
            assert(addr < self.ram.len());
            lemma_round_trip_widths(self@, addr as int, value, 0, 0, 0);
        }
        self.ram[addr as usize] = value;
    }

    /// The byte at `addr`.
    pub fn read_u8(&self, addr: u64) -> (value: u8)
        requires
            in_range(self@, addr as int, 1),
        ensures
            value == load(self@, addr as int, 1),
            value == self@[addr as int],
    {
        proof {
            reveal_with_fuel(load, 2);
            assert(addr < self.ram.len());
        }
        self.ram[addr as usize]
    }

    /// Copies `bytes` into the memory, the first of them to `offset`.
    pub fn load_bytes(&mut self, offset: u64, bytes: &[u8])
        requires
            in_range(old(self)@, offset as int, bytes@.len()),
        ensures
            final(self)@ == splice(old(self)@, offset as int, bytes@),
            final(self)@.len() == old(self)@.len(),
    {
        proof {
            self.lemma_size_fits();
        }
        let n: usize = bytes.len();
        let mut i: usize = 0;
        while i < n
            invariant
                n == bytes@.len(),
                i <= n,
                offset + n <= old(self)@.len() <= usize::MAX,
                self@ == splice(old(self)@, offset as int, bytes@.take(i as int)),
            decreases n - i,
        {
            self.write_u8(offset + i as u64, bytes[i]);
            assert(self@ =~= splice(old(self)@, offset as int, bytes@.take(i + 1)));
            i = i + 1;
        }
        assert(bytes@.take(n as int) =~= bytes@);
    }

    /// Writes `value` to the 2 bytes at `addr`, least significant byte
    /// first.
    pub fn write_u16(&mut self, addr: u64, value: u16)
        requires
            in_range(old(self)@, addr as int, 2),
        ensures
            final(self)@ == store(old(self)@, addr as int, 2, value as nat),
            final(self)@.len() == old(self)@.len(),
            load(final(self)@, addr as int, 2) == value,
        no_unwind
    {
        proof {
            self.lemma_size_fits();
            lemma_store_frame(self@, addr as int, 2, value as nat);
            lemma_round_trip_widths(self@, addr as int, 0, value, 0, 0);
            reveal_with_fuel(store, 3);
            lemma_digits_u16(value, 0, 0);
        }
        self.write_u8(addr, (value & 0xff) as u8);
        self.write_u8(addr + 1, ((value >> 8) & 0xff) as u8);
    }

    /// The number in the 2 bytes at `addr`, least significant byte first.
    pub fn read_u16(&self, addr: u64) -> (value: u16)
        requires
            in_range(self@, addr as int, 2),
        ensures
            value == load(self@, addr as int, 2),
    {
        proof {
            self.lemma_size_fits();
        }
        let b0: u8 = self.read_u8(addr);
        let b1: u8 = self.read_u8(addr + 1);
        proof {
            reveal_with_fuel(load, 3);
            lemma_digits_u16(0, b0, b1);
        }
        b0 as u16 | (b1 as u16) << 8
    }

    /// Writes `value` to the 4 bytes at `addr`, least significant byte
    /// first.
    pub fn write_u32(&mut self, addr: u64, value: u32)
        requires
            in_range(old(self)@, addr as int, 4),
        ensures
            final(self)@ == store(old(self)@, addr as int, 4, value as nat),
            final(self)@.len() == old(self)@.len(),
            load(final(self)@, addr as int, 4) == value,
        no_unwind
    {
        proof {
            self.lemma_size_fits();
            lemma_store_frame(self@, addr as int, 4, value as nat);
            lemma_round_trip_widths(self@, addr as int, 0, 0, value, 0);
            reveal_with_fuel(store, 5);
            lemma_digits_u32(value, 0, 0, 0, 0);
        }
        self.write_u8(addr + 0, ((value >> 0) & 0xff) as u8);
        self.write_u8(addr + 1, ((value >> 8) & 0xff) as u8);
        self.write_u8(addr + 2, ((value >> 16) & 0xff) as u8);
        self.write_u8(addr + 3, ((value >> 24) & 0xff) as u8);
    }

    /// The number in the 4 bytes at `addr`, least significant byte first.
    pub fn read_u32(&self, addr: u64) -> (value: u32)
        requires
            in_range(self@, addr as int, 4),
        ensures
            value == load(self@, addr as int, 4),
    {
        proof {
            self.lemma_size_fits();
        }
        let b0: u8 = self.read_u8(addr);
        let b1: u8 = self.read_u8(addr + 1);
        let b2: u8 = self.read_u8(addr + 2);
        let b3: u8 = self.read_u8(addr + 3);
        proof {
            reveal_with_fuel(load, 5);
            lemma_digits_u32(0, b0, b1, b2, b3);
        }
        b0 as u32 | (b1 as u32) << 8 | (b2 as u32) << 16 | (b3 as u32) << 24
    }

    /// Writes `value` to the 8 bytes at `addr`, least significant byte
    /// first.
    pub fn write_u64(&mut self, addr: u64, value: u64)
        requires
            in_range(old(self)@, addr as int, 8),
        ensures
            final(self)@ == store(old(self)@, addr as int, 8, value as nat),
            final(self)@.len() == old(self)@.len(),
            load(final(self)@, addr as int, 8) == value,
        no_unwind
    {
        proof {
            self.lemma_size_fits();
            lemma_store_frame(self@, addr as int, 8, value as nat);
            lemma_round_trip_widths(self@, addr as int, 0, 0, 0, value);
            reveal_with_fuel(store, 9);
            lemma_digits_u64_write(value);
        }
        self.write_u8(addr + 0, ((value >> 0) & 0xff) as u8);
        self.write_u8(addr + 1, ((value >> 8) & 0xff) as u8);
        self.write_u8(addr + 2, ((value >> 16) & 0xff) as u8);
        self.write_u8(addr + 3, ((value >> 24) & 0xff) as u8);
        self.write_u8(addr + 4, ((value >> 32) & 0xff) as u8);
        self.write_u8(addr + 5, ((value >> 40) & 0xff) as u8);
        self.write_u8(addr + 6, ((value >> 48) & 0xff) as u8);
        self.write_u8(addr + 7, ((value >> 56) & 0xff) as u8);
    }

    /// The number in the 8 bytes at `addr`, least significant byte first.
    pub fn read_u64(&self, addr: u64) -> (value: u64)
        requires
            in_range(self@, addr as int, 8),
        ensures
            value == load(self@, addr as int, 8),
    {
        proof {
            self.lemma_size_fits();
        }
        let b0: u8 = self.read_u8(addr);
        let b1: u8 = self.read_u8(addr + 1);
        let b2: u8 = self.read_u8(addr + 2);
        let b3: u8 = self.read_u8(addr + 3);
        let b4: u8 = self.read_u8(addr + 4);
        let b5: u8 = self.read_u8(addr + 5);
        let b6: u8 = self.read_u8(addr + 6);
        let b7: u8 = self.read_u8(addr + 7);
        proof {
            reveal_with_fuel(load, 9);
            lemma_digits_u64_read(b0, b1, b2, b3, b4, b5, b6, b7);
        }
        b0 as u64 | (b1 as u64) << 8 | (b2 as u64) << 16 | (b3 as u64) << 24 | (b4 as u64) << 32
            | (b5 as u64) << 40 | (b6 as u64) << 48 | (b7 as u64) << 56
    }
}

} // verus!
