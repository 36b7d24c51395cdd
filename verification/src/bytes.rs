//! Byte-level helpers: big-endian encoding of heights, byte-string equality,
//! and concatenation of message fields.

use vstd::prelude::*;

verus! {

/// The big-endian 8-byte encoding of a 64-bit height.
pub open spec fn be64(h: u64) -> Seq<u8> {
    seq![
        ((h >> 56) & 0xff) as u8,
        ((h >> 48) & 0xff) as u8,
        ((h >> 40) & 0xff) as u8,
        ((h >> 32) & 0xff) as u8,
        ((h >> 24) & 0xff) as u8,
        ((h >> 16) & 0xff) as u8,
        ((h >> 8) & 0xff) as u8,
        (h & 0xff) as u8,
    ]
}

/// Encode a height as 8 big-endian bytes.
pub fn u64_to_be_bytes(h: u64) -> (r: Vec<u8>)
    ensures
        r@ == be64(h),
{
    let mut r: Vec<u8> = Vec::new();
    r.push(((h >> 56) & 0xff) as u8);
    r.push(((h >> 48) & 0xff) as u8);
    r.push(((h >> 40) & 0xff) as u8);
    r.push(((h >> 32) & 0xff) as u8);
    r.push(((h >> 24) & 0xff) as u8);
    r.push(((h >> 16) & 0xff) as u8);
    r.push(((h >> 8) & 0xff) as u8);
    r.push((h & 0xff) as u8);
    proof {
        assert(r@ =~= be64(h));
    }
    r
}

/// Bytewise equality of two byte strings.
pub fn bytes_eq(a: &Vec<u8>, b: &Vec<u8>) -> (r: bool)
    ensures
        r == (a@ == b@),
{
    if a.len() != b.len() {
        proof {
            assert(a@ != b@);
        }
        return false;
    }
    let mut i: usize = 0;
    while i < a.len()
        invariant
            i <= a.len(),
            a@.len() == b@.len(),
            forall|j: int| 0 <= j < i ==> a@[j] == b@[j],
        decreases a.len() - i,
    {
        if a[i] != b[i] {
            return false;
        }
        i += 1;
    }
    proof {
        assert(a@ =~= b@);
    }
    true
}

/// Append all of `src` onto `dst`.
pub fn extend_bytes(dst: &mut Vec<u8>, src: &Vec<u8>)
    ensures
        final(dst)@ == old(dst)@ + src@,
{
    let mut i: usize = 0;
    while i < src.len()
        invariant
            i <= src.len(),
            dst@ == old(dst)@ + src@.take(i as int),
        decreases src.len() - i,
    {
        dst.push(src[i]);
        proof {
            assert(dst@ =~= old(dst)@ + src@.take(i as int + 1));
        }
        i += 1;
    }
    proof {
        assert(dst@ =~= old(dst)@ + src@);
    }
}

/// A fresh copy of a byte string.
pub fn clone_bytes(v: &Vec<u8>) -> (r: Vec<u8>)
    ensures
        r@ == v@,
{
    let mut r: Vec<u8> = Vec::new();
    extend_bytes(&mut r, v);
    proof {
        assert(r@ =~= v@);
    }
    r
}

/// A fresh all-zero byte string of the given length.
pub fn zero_bytes(n: usize) -> (r: Vec<u8>)
    ensures
        r@ == Seq::<u8>::new(n as nat, |i: int| 0u8),
{
    let mut r: Vec<u8> = Vec::new();
    let mut i: usize = 0;
    while i < n
        invariant
            i <= n,
            r@ == Seq::<u8>::new(i as nat, |j: int| 0u8),
        decreases n - i,
    {
        r.push(0u8);
        proof {
            assert(r@ =~= Seq::<u8>::new(i as nat + 1, |j: int| 0u8));
        }
        i += 1;
    }
    r
}

} // verus!
