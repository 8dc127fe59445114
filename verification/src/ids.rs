use vstd::prelude::*;

verus! {

/// A 256-bit hash value: the shape shared by seller commitments, claim
/// nullifiers and method digests.
#[derive(Clone, Copy, Debug, PartialEq, Eq, Structural)]
pub struct Hash256 {
    pub hi: u128,
    pub lo: u128,
}

/// An account identifier on the ledger (32 bytes).
#[derive(Clone, Copy, Debug, PartialEq, Eq, Structural)]
pub struct AccountId {
    pub hi: u128,
    pub lo: u128,
}

/// The bytes of `x`, least significant first.
pub open spec fn u128_le_bytes(x: u128) -> Seq<u8> {
    Seq::new(16, |i: int| ((x >> ((8 * i) as u128)) & 0xff) as u8)
}

/// The bytes of `x`, least significant first.
pub open spec fn u32_le_bytes(x: u32) -> Seq<u8> {
    Seq::new(4, |i: int| ((x >> ((8 * i) as u32)) & 0xff) as u8)
}

/// The 32-byte little-endian encoding of a 256-bit hash, low half first.
pub open spec fn hash_le_bytes(h: Hash256) -> Seq<u8> {
    u128_le_bytes(h.lo) + u128_le_bytes(h.hi)
}

/// The 32-byte little-endian encoding of an account id, low half first.
pub open spec fn account_le_bytes(a: AccountId) -> Seq<u8> {
    u128_le_bytes(a.lo) + u128_le_bytes(a.hi)
}

/// Appends the 16 little-endian bytes of `x` to `out`.
pub fn push_u128_le(out: &mut Vec<u8>, x: u128)
    ensures
        final(out)@ == old(out)@ + u128_le_bytes(x),
{
    let mut i: usize = 0;
    while i < 16
        invariant
            i <= 16,
            out@ == old(out)@ + u128_le_bytes(x).take(i as int),
        decreases 16 - i,
    {
        let b: u8 = ((x >> ((8 * i) as u128)) & 0xff) as u8;
        out.push(b);
        proof {
            assert(old(out)@ + u128_le_bytes(x).take(i + 1) =~= (old(out)@
                + u128_le_bytes(x).take(i as int)).push(b));
        }
        i = i + 1;
    }
    proof {
        assert(u128_le_bytes(x).take(16) =~= u128_le_bytes(x));
    }
}

/// Appends the 4 little-endian bytes of `x` to `out`.
pub fn push_u32_le(out: &mut Vec<u8>, x: u32)
    ensures
        final(out)@ == old(out)@ + u32_le_bytes(x),
{
    let mut i: usize = 0;
    while i < 4
        invariant
            i <= 4,
            out@ == old(out)@ + u32_le_bytes(x).take(i as int),
        decreases 4 - i,
    {
        let b: u8 = ((x >> ((8 * i) as u32)) & 0xff) as u8;
        out.push(b);
        proof {
            assert(old(out)@ + u32_le_bytes(x).take(i + 1) =~= (old(out)@
                + u32_le_bytes(x).take(i as int)).push(b));
        }
        i = i + 1;
    }
    proof {
        assert(u32_le_bytes(x).take(4) =~= u32_le_bytes(x));
    }
}

/// The 32 little-endian bytes of a 256-bit hash.
pub fn hash_to_bytes(h: &Hash256) -> (r: Vec<u8>)
    ensures
        r@ == hash_le_bytes(*h),
        r@.len() == 32,
{
    let mut out: Vec<u8> = Vec::new();
    push_u128_le(&mut out, h.lo);
    push_u128_le(&mut out, h.hi);
    out
}

/// Whether two byte vectors hold the same bytes.
pub fn bytes_eq(a: &Vec<u8>, b: &Vec<u8>) -> (r: bool)
    ensures
        r == (a@ == b@),
{
    if a.len() != b.len() {
        return false;
    }
    let mut i: usize = 0;
    while i < a.len()
        invariant
            i <= a@.len(),
            a@.len() == b@.len(),
            forall|j: int| 0 <= j < i ==> a@[j] == b@[j],
        decreases a@.len() - i,
    {
        if a[i] != b[i] {
            return false;
        }
        i = i + 1;
    }
    proof {
        assert(a@ =~= b@);
    }
    true
}

} // verus!
