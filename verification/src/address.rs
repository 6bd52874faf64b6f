//! Arithmetic between the 8-byte little-endian address form and its value as
//! a 64-bit integer.
//!
//! An address is valid on the wire only when its two highest bytes are zero,
//! i.e. when its value fits in 48 bits.

use vstd::prelude::*;

use vstd::arithmetic::div_mod::lemma_div_denominator;

verus! {

/// The value of the little-endian byte string `bytes[i..]`.
pub open spec fn addr_val_from(bytes: Seq<u8>, i: int) -> int
    decreases bytes.len() - i,
{
    if i < 0 || i >= bytes.len() {
        0
    } else {
        bytes[i] + 256 * addr_val_from(bytes, i + 1)
    }
}

/// The value of a little-endian byte string.
pub open spec fn addr_val(bytes: Seq<u8>) -> int {
    addr_val_from(bytes, 0)
}

/// The 8 little-endian bytes of the value `v`.
pub open spec fn addr_bytes_of(v: int) -> Seq<u8> {
    seq![
        (v % 256) as u8,
        ((v / 0x100) % 256) as u8,
        ((v / 0x10000) % 256) as u8,
        ((v / 0x1000000) % 256) as u8,
        ((v / 0x100000000) % 256) as u8,
        ((v / 0x10000000000) % 256) as u8,
        ((v / 0x1000000000000) % 256) as u8,
        ((v / 0x100000000000000) % 256) as u8,
    ]
}

/// The value of a byte string is never negative.
proof fn lemma_addr_val_from_nonneg(bytes: Seq<u8>, i: int)
    ensures
        0 <= addr_val_from(bytes, i),
    decreases bytes.len() - i,
{
    if 0 <= i < bytes.len() {
        lemma_addr_val_from_nonneg(bytes, i + 1);
    }
}

/// An address whose two highest bytes are zero has a value below `2^48`.
pub proof fn lemma_addr_val_48(bytes: Seq<u8>)
    requires
        bytes.len() == 8,
        bytes[6] == 0,
        bytes[7] == 0,
    ensures
        0 <= addr_val(bytes) < 0x1000000000000,
{
    lemma_unfold_8(bytes);
}

/// Unfolds the value of an 8-byte string into its byte sum.
proof fn lemma_unfold_8(bytes: Seq<u8>)
    requires
        bytes.len() == 8,
    ensures
        addr_val(bytes) == bytes[0] + 0x100 * bytes[1] + 0x10000 * bytes[2] + 0x1000000 * bytes[3]
            + 0x100000000 * bytes[4] + 0x10000000000 * bytes[5] + 0x1000000000000 * bytes[6]
            + 0x100000000000000 * bytes[7],
{
    let b = bytes;
    assert(addr_val_from(b, 8) == 0);
    assert(addr_val_from(b, 7) == b[7] + 256 * addr_val_from(b, 8));
    assert(addr_val_from(b, 6) == b[6] + 256 * addr_val_from(b, 7));
    assert(addr_val_from(b, 5) == b[5] + 256 * addr_val_from(b, 6));
    assert(addr_val_from(b, 4) == b[4] + 256 * addr_val_from(b, 5));
    assert(addr_val_from(b, 3) == b[3] + 256 * addr_val_from(b, 4));
    assert(addr_val_from(b, 2) == b[2] + 256 * addr_val_from(b, 3));
    assert(addr_val_from(b, 1) == b[1] + 256 * addr_val_from(b, 2));
    assert(addr_val_from(b, 0) == b[0] + 256 * addr_val_from(b, 1));
}

/// Any 8-byte address value is below `2^64`.
pub proof fn lemma_addr_val_64(bytes: Seq<u8>)
    requires
        bytes.len() == 8,
    ensures
        0 <= addr_val(bytes) < 0x10000000000000000,
{
    lemma_unfold_8(bytes);
}

/// Reading back the little-endian bytes of a 64-bit value gives the value.
pub proof fn lemma_addr_val_of_bytes(v: int)
    requires
        0 <= v < 0x10000000000000000,
    ensures
        addr_val(addr_bytes_of(v)) == v,
{
    let b = addr_bytes_of(v);
    lemma_div_denominator(v, 0x100, 0x100);
    lemma_div_denominator(v, 0x10000, 0x100);
    lemma_div_denominator(v, 0x1000000, 0x100);
    lemma_div_denominator(v, 0x100000000, 0x100);
    lemma_div_denominator(v, 0x10000000000, 0x100);
    lemma_div_denominator(v, 0x1000000000000, 0x100);
    lemma_div_denominator(v, 0x100000000000000, 0x100);
    assert(v / 0x100000000000000 < 0x100);
    assert(addr_val_from(b, 8) == 0);
    assert(addr_val_from(b, 7) == v / 0x100000000000000);
    assert(addr_val_from(b, 6) == v / 0x1000000000000);
    assert(addr_val_from(b, 5) == v / 0x10000000000);
    assert(addr_val_from(b, 4) == v / 0x100000000);
    assert(addr_val_from(b, 3) == v / 0x1000000);
    assert(addr_val_from(b, 2) == v / 0x10000);
    assert(addr_val_from(b, 1) == v / 0x100);
    assert(addr_val_from(b, 0) == v);
}

/// Two same-length byte strings with the same value are the same string.
proof fn lemma_addr_val_from_injective(x: Seq<u8>, y: Seq<u8>, i: int)
    requires
        x.len() == y.len(),
        0 <= i,
        addr_val_from(x, i) == addr_val_from(y, i),
    ensures
        forall|k: int| i <= k < x.len() ==> x[k] == y[k],
    decreases x.len() - i,
{
    if i < x.len() {
        lemma_addr_val_from_nonneg(x, i + 1);
        lemma_addr_val_from_nonneg(y, i + 1);
        assert(x[i] == y[i] && addr_val_from(x, i + 1) == addr_val_from(y, i + 1)) by {
            assert(x[i] + 256 * addr_val_from(x, i + 1) == y[i] + 256 * addr_val_from(y, i + 1));
        }
        lemma_addr_val_from_injective(x, y, i + 1);
        assert forall|k: int| i <= k < x.len() implies x[k] == y[k] by {
            if k > i {
                assert(x[k] == y[k]);
            }
        }
    }
}

/// Taking the bytes of an address's value gives back the address.
pub proof fn lemma_addr_bytes_of_val(bytes: Seq<u8>)
    requires
        bytes.len() == 8,
    ensures
        addr_bytes_of(addr_val(bytes)) == bytes,
{
    let v = addr_val(bytes);
    lemma_addr_val_64(bytes);
    lemma_addr_val_of_bytes(v);
    lemma_addr_val_from_injective(addr_bytes_of(v), bytes, 0);
    assert(addr_bytes_of(v) =~= bytes);
}

/// The address value of 8 little-endian bytes, as a 64-bit integer.
pub fn addr_to_u64(bytes: &[u8; 8]) -> (r: u64)
    ensures
        r == addr_val(bytes@),
{
    let r: u64 = (bytes[0] as u64) + (bytes[1] as u64) * 0x100 + (bytes[2] as u64) * 0x10000 + (
    bytes[3] as u64) * 0x1000000 + (bytes[4] as u64) * 0x100000000 + (bytes[5] as u64)
        * 0x10000000000 + (bytes[6] as u64) * 0x1000000000000 + (bytes[7] as u64)
        * 0x100000000000000;
    proof {
        let b = bytes@;
        assert(addr_val_from(b, 8) == 0);
        assert(addr_val_from(b, 7) == b[7]);
        assert(addr_val_from(b, 6) == b[6] + 256 * addr_val_from(b, 7));
        assert(addr_val_from(b, 5) == b[5] + 256 * addr_val_from(b, 6));
        assert(addr_val_from(b, 4) == b[4] + 256 * addr_val_from(b, 5));
        assert(addr_val_from(b, 3) == b[3] + 256 * addr_val_from(b, 4));
        assert(addr_val_from(b, 2) == b[2] + 256 * addr_val_from(b, 3));
        assert(addr_val_from(b, 1) == b[1] + 256 * addr_val_from(b, 2));
        assert(addr_val_from(b, 0) == b[0] + 256 * addr_val_from(b, 1));
    }
    r
}

/// The 8 little-endian bytes of a 64-bit address value.
pub fn u64_to_addr_bytes(v: u64) -> (r: [u8; 8])
    ensures
        r@ == addr_bytes_of(v as int),
{
    let r: [u8; 8] = [
        (v % 256) as u8,
        ((v / 0x100) % 256) as u8,
        ((v / 0x10000) % 256) as u8,
        ((v / 0x1000000) % 256) as u8,
        ((v / 0x100000000) % 256) as u8,
        ((v / 0x10000000000) % 256) as u8,
        ((v / 0x1000000000000) % 256) as u8,
        ((v / 0x100000000000000) % 256) as u8,
    ];
    proof {
        assert(r@ =~= addr_bytes_of(v as int));
    }
    r
}

} // verus!
