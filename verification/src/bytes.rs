//! Verified helpers on byte vectors: copying, element-wise XOR, and the
//! big-endian counter encoding both one-way function families share.

use vstd::prelude::*;

verus! {

/// Byte `j` (0 = most significant) of the big-endian encoding of `v`.
pub open spec fn be64_byte(v: u64, j: int) -> u8 {
    ((v >> (((7 - j) * 8) as u64)) & 0xff) as u8
}

/// The eight bytes of `v`, most significant first.
pub open spec fn be64(v: u64) -> Seq<u8> {
    Seq::new(8, |j: int| be64_byte(v, j))
}

/// A block of `n` bytes holding the big-endian encoding of `v`,
/// right-aligned and zero-padded on the left.
pub open spec fn ctr_block(n: nat, v: u64) -> Seq<u8>
    recommends
        n >= 8,
{
    Seq::new((n - 8) as nat, |i: int| 0u8) + be64(v)
}

/// `a` and `b` combined element-wise with XOR (lengths are expected to match).
pub open spec fn xor_seq(a: Seq<u8>, b: Seq<u8>) -> Seq<u8>
    recommends
        a.len() == b.len(),
{
    Seq::new(a.len(), |i: int| a[i] ^ b[i])
}

/// An independent copy of `v`.
pub fn clone_bytes(v: &Vec<u8>) -> (r: Vec<u8>)
    ensures
        r@ == v@,
{
    let mut r: Vec<u8> = Vec::new();
    let mut i: usize = 0;
    while i < v.len()
        invariant
            i <= v@.len(),
            r@ == v@.take(i as int),
        decreases v@.len() - i,
    {
        r.push(v[i]);
        i = i + 1;
        proof {
            assert(r@ =~= v@.take(i as int));
        }
    }
    proof {
        assert(r@ =~= v@);
    }
    r
}

/// The big-endian bytes of `v`, most significant first.
pub fn be64_bytes(v: u64) -> (r: Vec<u8>)
    ensures
        r@ == be64(v),
{
    let mut r: Vec<u8> = Vec::new();
    let mut j: usize = 0;
    while j < 8
        invariant
            j <= 8,
            r@.len() == j,
            forall|i: int| 0 <= i < j ==> r@[i] == be64_byte(v, i),
        decreases 8 - j,
    {
        let shift: u64 = (7 - j as u64) * 8;
        r.push(((v >> shift) & 0xff) as u8);
        j = j + 1;
    }
    proof {
        assert(r@ =~= be64(v));
    }
    r
}

/// The counter `v` encoded into an `n`-byte block, right-aligned and
/// zero-padded, as `ctr_block` describes.
pub fn ctr_block_bytes(n: usize, v: u64) -> (r: Vec<u8>)
    requires
        n >= 8,
    ensures
        r@ == ctr_block(n as nat, v),
        r@.len() == n,
{
    let mut r: Vec<u8> = Vec::new();
    let mut i: usize = 0;
    while i < n - 8
        invariant
            n >= 8,
            i <= n - 8,
            r@.len() == i,
            forall|k: int| 0 <= k < i ==> r@[k] == 0u8,
        decreases n - 8 - i,
    {
        r.push(0u8);
        i = i + 1;
    }
    let mut tail = be64_bytes(v);
    r.append(&mut tail);
    proof {
        assert(r@ =~= ctr_block(n as nat, v));
    }
    r
}

/// `a` XOR `b`, element by element.
pub fn xor_bytes(a: &Vec<u8>, b: &Vec<u8>) -> (r: Vec<u8>)
    requires
        a@.len() == b@.len(),
    ensures
        r@ == xor_seq(a@, b@),
{
    let mut r: Vec<u8> = Vec::new();
    let mut i: usize = 0;
    while i < a.len()
        invariant
            a@.len() == b@.len(),
            i <= a@.len(),
            r@.len() == i,
            forall|k: int| 0 <= k < i ==> r@[k] == (a@[k] ^ b@[k]),
        decreases a@.len() - i,
    {
        r.push(a[i] ^ b[i]);
        i = i + 1;
    }
    proof {
        assert(r@ =~= xor_seq(a@, b@));
    }
    r
}

} // verus!
