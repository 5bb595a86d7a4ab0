//! How a guest hands a result back to its host: the guest writes the result
//! bytes into its linear memory and returns one `i64` that carries the
//! result's address in the high 32 bits and its length in the low 32 bits.
use vstd::prelude::*;

verus! {

/// 2^32, the weight of the high half of a packed result.
pub open spec fn half_word() -> int {
    0x1_0000_0000
}

/// The value that a guest returns for a result of `len` bytes at `ptr`:
/// `ptr` in the high half and `len` in the low half. A negative length
/// (which no guest produces) fills the high half with its sign bits.
pub open spec fn packed_output(ptr: i32, len: i32) -> int {
    if len >= 0 {
        ptr * half_word() + len
    } else {
        len as int
    }
}

/// The address a host reads from a packed result: the high half, which a
/// negative value carries into `usize` by wrapping.
pub open spec fn unpacked_ptr(packed: i64) -> int {
    let q = (packed as int) / half_word();
    if q >= 0 {
        q
    } else {
        q + usize::MAX + 1
    }
}

/// The length a host reads from a packed result: the low half.
pub open spec fn unpacked_len(packed: i64) -> int {
    (packed as int) % half_word()
}

/// Packs a result's address and length into the guest's return value.
pub fn pack_output(ptr: i32, len: i32) -> (packed: i64)
    ensures
        packed == packed_output(ptr, len),
{
    let p = ptr as i64;
    let l = len as i64;
    let r = (p << 32u64) | l;
    assert(l >= 0 ==> r == p * 0x1_0000_0000 + l) by (bit_vector)
        requires
            r == (p << 32u64) | l,
            -0x8000_0000 <= p < 0x8000_0000,
            -0x8000_0000 <= l < 0x8000_0000,
    ;
    assert(l < 0 ==> r == l) by (bit_vector)
        requires
            r == (p << 32u64) | l,
            -0x8000_0000 <= l < 0x8000_0000,
    ;
    r
}

/// Splits a guest's return value into the result's address and length, as
/// the host reads them.
pub fn unpack_output(packed: i64) -> (r: (usize, usize))
    ensures
        r.0 == unpacked_ptr(packed),
        r.1 == unpacked_len(packed),
{
    let hi = packed >> 32u64;
    let lo = packed & 0xFFFF_FFFFi64;
    assert(hi == packed / 0x1_0000_0000 && -0x8000_0000 <= hi < 0x8000_0000) by (bit_vector)
        requires
            hi == packed >> 32u64,
    ;
    assert(lo == packed % 0x1_0000_0000 && 0 <= lo < 0x1_0000_0000) by (bit_vector)
        requires
            lo == packed & 0xFFFF_FFFFi64,
    ;
    let out_ptr: usize = if hi >= 0 {
        hi as usize
    } else {
        (usize::MAX - ((-(hi + 1)) as usize))
    };
    (out_ptr, lo as usize)
}

/// A host recovers exactly the address and length that a guest packed, for
/// every non-negative address and length.
pub proof fn law_unpack_inverts_pack(ptr: i32, len: i32)
    requires
        ptr >= 0,
        len >= 0,
    ensures
        i64::MIN <= packed_output(ptr, len) <= i64::MAX,
        unpacked_ptr(packed_output(ptr, len) as i64) == ptr,
        unpacked_len(packed_output(ptr, len) as i64) == len,
{
    let x = packed_output(ptr, len);
    assert(0 <= ptr * half_word() <= 0x7fff_ffff * half_word()) by (nonlinear_arith)
        requires
            0 <= ptr <= 0x7fff_ffff,
    ;
    vstd::arithmetic::div_mod::lemma_fundamental_div_mod_converse(
        x,
        half_word(),
        ptr as int,
        len as int,
    );
}

} // verus!
