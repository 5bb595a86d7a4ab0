//! A guest's linear memory and the two exports of the isolation demo guest,
//! which store and load 32-bit integers at byte addresses.
//!
//! WebAssembly memory is a flat array of bytes; a 32-bit integer occupies four
//! consecutive bytes, least significant first, at any (possibly unaligned)
//! address. A guest pointer is a 32-bit unsigned address, so a negative `i32`
//! names the address 2^32 higher.
use vstd::prelude::*;

verus! {

/// The bytes of a guest's linear memory.
pub struct LinearMemory {
    bytes: Vec<u8>,
}

impl View for LinearMemory {
    type V = Seq<u8>;

    closed spec fn view(&self) -> Seq<u8> {
        self.bytes@
    }
}

/// The unsigned 32-bit address that the pointer value `addr` names.
pub open spec fn wasm_address(addr: i32) -> int {
    if addr >= 0 {
        addr as int
    } else {
        addr + 0x1_0000_0000
    }
}

/// The four bytes at `addr` lie inside `mem`.
pub open spec fn word_in_bounds(mem: Seq<u8>, addr: i32) -> bool {
    wasm_address(addr) + 4 <= mem.len()
}

/// The little-endian bytes of `u`.
pub open spec fn le_bytes(u: u32) -> Seq<u8> {
    seq![(u & 0xff) as u8, ((u >> 8) & 0xff) as u8, ((u >> 16) & 0xff) as u8, ((u >> 24) & 0xff) as u8]
}

/// The unsigned value of four little-endian bytes.
pub open spec fn le_value(b0: u8, b1: u8, b2: u8, b3: u8) -> u32 {
    (b0 as u32) | ((b1 as u32) << 8) | ((b2 as u32) << 16) | ((b3 as u32) << 24)
}

/// The `i32` that the four bytes at `addr` of `mem` hold.
pub open spec fn load_i32(mem: Seq<u8>, addr: i32) -> i32 {
    let a = wasm_address(addr);
    le_value(mem[a], mem[a + 1], mem[a + 2], mem[a + 3]) as i32
}

/// `mem` after the four bytes at `addr` are overwritten with `val`.
pub open spec fn store_i32(mem: Seq<u8>, addr: i32, val: i32) -> Seq<u8> {
    let a = wasm_address(addr);
    let b = le_bytes(val as u32);
    Seq::new(mem.len(), |i: int| if a <= i < a + 4 { b[i - a] } else { mem[i] })
}

/// A memory of `size` bytes, all zero.
pub open spec fn zeroed(size: nat) -> Seq<u8> {
    Seq::new(size, |i: int| 0u8)
}

impl LinearMemory {
    /// A fresh memory of `size` zero bytes, as every new instance starts with.
    pub fn new(size: usize) -> (m: LinearMemory)
        ensures
            m@ == zeroed(size as nat),
    {
        let mut bytes: Vec<u8> = Vec::new();
        let mut i: usize = 0;
        while i < size
            invariant
                i <= size,
                bytes@ == zeroed(i as nat),
            decreases size - i,
        {
            bytes.push(0u8);
            i = i + 1;
        }
        LinearMemory { bytes }
    }

    /// The number of bytes in the memory.
    pub fn size(&self) -> (n: usize)
        ensures
            n == self@.len(),
    {
        self.bytes.len()
    }
}

/// The address that `addr` names, as an index.
fn address_index(addr: i32) -> (a: u64)
    ensures
        a == wasm_address(addr),
{
    if addr >= 0 {
        addr as u64
    } else {
        ((addr as i64) + 0x1_0000_0000) as u64
    }
}

/// Whether the four bytes at `addr` lie inside `mem`; a guest traps
/// (the host sees an error) where they do not.
pub fn word_fits(mem: &LinearMemory, addr: i32) -> (b: bool)
    ensures
        b == word_in_bounds(mem@, addr),
{
    let a = address_index(addr);
    let len = mem.bytes.len() as u64;
    a <= len && 4 <= len - a
}

/// Stores `val` at `addr` in `mem`, little-endian.
pub fn write_i32(mem: &mut LinearMemory, addr: i32, val: i32)
    requires
        word_in_bounds(old(mem)@, addr),
    ensures
        final(mem)@ == store_i32(old(mem)@, addr, val),
{
    let a = address_index(addr) as usize;
    assert(a + 3 < mem.bytes.len());
    let u = val as u32;
    let b0 = (u & 0xff) as u8;
    let b1 = ((u >> 8) & 0xff) as u8;
    let b2 = ((u >> 16) & 0xff) as u8;
    let b3 = ((u >> 24) & 0xff) as u8;
    mem.bytes.set(a, b0);
    mem.bytes.set(a + 1, b1);
    mem.bytes.set(a + 2, b2);
    mem.bytes.set(a + 3, b3);
    assert(mem@ =~= store_i32(old(mem)@, addr, val));
}

/// Loads the `i32` stored little-endian at `addr` in `mem`.
pub fn read_i32(mem: &LinearMemory, addr: i32) -> (v: i32)
    requires
        word_in_bounds(mem@, addr),
    ensures
        v == load_i32(mem@, addr),
{
    let a = address_index(addr) as usize;
    assert(a + 3 < mem.bytes.len());
    let b0 = mem.bytes[a];
    let b1 = mem.bytes[a + 1];
    let b2 = mem.bytes[a + 2];
    let b3 = mem.bytes[a + 3];
    let u = (b0 as u32) | ((b1 as u32) << 8) | ((b2 as u32) << 16) | ((b3 as u32) << 24);
    #[verifier::truncate]
    (u as i32)
}

/// Reading an address gives back what was last written there.
pub proof fn law_read_after_write(mem: Seq<u8>, addr: i32, val: i32)
    requires
        word_in_bounds(mem, addr),
    ensures
        word_in_bounds(store_i32(mem, addr, val), addr),
        load_i32(store_i32(mem, addr, val), addr) == val,
{
    let a = wasm_address(addr);
    let m2 = store_i32(mem, addr, val);
    let u = val as u32;
    assert(m2[a] == le_bytes(u)[0]);
    assert(m2[a + 1] == le_bytes(u)[1]);
    assert(m2[a + 2] == le_bytes(u)[2]);
    assert(m2[a + 3] == le_bytes(u)[3]);
    assert(le_value(
        (u & 0xff) as u8,
        ((u >> 8) & 0xff) as u8,
        ((u >> 16) & 0xff) as u8,
        ((u >> 24) & 0xff) as u8,
    ) as i32 == val) by (bit_vector)
        requires
            u == val as u32,
    ;
}

/// A write leaves every word that does not overlap it unchanged.
pub proof fn law_write_keeps_other_words(mem: Seq<u8>, addr: i32, val: i32, other: i32)
    requires
        word_in_bounds(mem, addr),
        word_in_bounds(mem, other),
        wasm_address(other) + 4 <= wasm_address(addr) || wasm_address(addr) + 4 <= wasm_address(
            other,
        ),
    ensures
        load_i32(store_i32(mem, addr, val), other) == load_i32(mem, other),
{
}

/// A write changes no byte outside the four it stores, nor the memory's size.
pub proof fn law_write_is_local(mem: Seq<u8>, addr: i32, val: i32, i: int)
    requires
        word_in_bounds(mem, addr),
        0 <= i < mem.len(),
        !(wasm_address(addr) <= i < wasm_address(addr) + 4),
    ensures
        store_i32(mem, addr, val).len() == mem.len(),
        store_i32(mem, addr, val)[i] == mem[i],
{
}

/// Every word of a fresh memory reads as zero.
pub proof fn law_fresh_memory_reads_zero(size: nat, addr: i32)
    requires
        word_in_bounds(zeroed(size), addr),
    ensures
        load_i32(zeroed(size), addr) == 0,
{
    assert(le_value(0u8, 0u8, 0u8, 0u8) as i32 == 0i32) by (bit_vector);
}

} // verus!
