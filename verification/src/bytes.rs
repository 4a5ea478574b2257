//! Byte strings: fixed-width integer encodings, decimal spelling, equality,
//! and SHA-256 digests.
use vstd::prelude::*;
use sha2::Digest;

verus! {

/// Little-endian encoding of `n` in `width` bytes (`n` taken modulo 256^width).
pub open spec fn le_bytes(n: nat, width: nat) -> Seq<u8>
    decreases width,
{
    if width == 0 {
        Seq::empty()
    } else {
        seq![(n % 256) as u8] + le_bytes(n / 256, (width - 1) as nat)
    }
}

/// Big-endian encoding of `n` in `width` bytes (`n` taken modulo 256^width).
pub open spec fn be_bytes(n: nat, width: nat) -> Seq<u8>
    decreases width,
{
    if width == 0 {
        Seq::empty()
    } else {
        be_bytes(n / 256, (width - 1) as nat) + seq![(n % 256) as u8]
    }
}

/// Two's-complement value of a signed 128-bit integer, as an unsigned number.
pub open spec fn twos_complement_128(n: int) -> nat {
    if n < 0 { (n + 0x1_0000_0000_0000_0000_0000_0000_0000_0000) as nat } else { n as nat }
}

/// ASCII decimal spelling of `n`, most significant digit first.
pub open spec fn ascii_decimal(n: nat) -> Seq<u8>
    decreases n,
{
    if n < 10 {
        seq![(48 + n) as u8]
    } else {
        ascii_decimal(n / 10) + seq![(48 + n % 10) as u8]
    }
}

/// Appends the `width`-byte little-endian encoding of `x`.
pub fn push_le(v: &mut Vec<u8>, x: u128, width: u32)
    ensures
        final(v)@ == old(v)@ + le_bytes(x as nat, width as nat),
    decreases width,
{
    if width > 0 {
        v.push((x % 256) as u8);
        push_le(v, x / 256, width - 1);
        proof {
            assert(old(v)@.push((x % 256) as u8) + le_bytes((x / 256) as nat, (width - 1) as nat)
                =~= old(v)@ + le_bytes(x as nat, width as nat));
        }
    } else {
        assert(old(v)@ + le_bytes(x as nat, 0) =~= old(v)@);
    }
}

/// Appends the `width`-byte big-endian encoding of `x`.
pub fn push_be(v: &mut Vec<u8>, x: u128, width: u32)
    ensures
        final(v)@ == old(v)@ + be_bytes(x as nat, width as nat),
    decreases width,
{
    if width > 0 {
        push_be(v, x / 256, width - 1);
        v.push((x % 256) as u8);
        proof {
            assert((old(v)@ + be_bytes((x / 256) as nat, (width - 1) as nat)).push((x % 256) as u8)
                =~= old(v)@ + be_bytes(x as nat, width as nat));
        }
    } else {
        assert(old(v)@ + be_bytes(x as nat, 0) =~= old(v)@);
    }
}

/// Appends the 16-byte big-endian two's-complement encoding of `x`.
pub fn push_be_i128(v: &mut Vec<u8>, x: i128)
    ensures
        final(v)@ == old(v)@ + be_bytes(twos_complement_128(x as int), 16),
{
    if x < 0 {
        let shifted: i128 = (x + i128::MAX) + 1;
        let u: u128 = (shifted as u128) + (i128::MAX as u128) + 1;
        assert(u == twos_complement_128(x as int));
        push_be(v, u, 16);
    } else {
        push_be(v, x as u128, 16);
    }
}

/// Appends the ASCII decimal spelling of `n`.
pub fn push_ascii_decimal(v: &mut Vec<u8>, n: u64)
    ensures
        final(v)@ == old(v)@ + ascii_decimal(n as nat),
    decreases n,
{
    if n >= 10 {
        push_ascii_decimal(v, n / 10);
    }
    v.push((48 + n % 10) as u8);
    proof {
        if n >= 10 {
            assert((old(v)@ + ascii_decimal((n / 10) as nat)).push((48 + n % 10) as u8)
                =~= old(v)@ + ascii_decimal(n as nat));
        } else {
            assert(n % 10 == n);
            assert(old(v)@.push((48 + n % 10) as u8) =~= old(v)@ + ascii_decimal(n as nat));
        }
    }
}

/// Appends every byte of `b` to `a`.
pub fn append_bytes(a: &mut Vec<u8>, b: &Vec<u8>)
    ensures
        final(a)@ == old(a)@ + b@,
{
    let mut i: usize = 0;
    while i < b.len()
        invariant
            i <= b.len(),
            a@ == old(a)@ + b@.subrange(0, i as int),
        decreases b.len() - i,
    {
        a.push(b[i]);
        i = i + 1;
        assert(a@ =~= old(a)@ + b@.subrange(0, i as int));
    }
    assert(b@.subrange(0, b.len() as int) =~= b@);
}

/// A fresh copy of `b`.
pub fn copy_bytes(b: &Vec<u8>) -> (r: Vec<u8>)
    ensures
        r@ == b@,
{
    let mut r: Vec<u8> = Vec::new();
    append_bytes(&mut r, b);
    assert(Seq::<u8>::empty() + b@ =~= b@);
    r
}

/// Whether two byte strings are equal.
pub fn bytes_eq(a: &Vec<u8>, b: &Vec<u8>) -> (r: bool)
    ensures
        r == (a@ == b@),
{
    if a.len() != b.len() {
        return false;
    }
    let mut i: usize = 0;
    while i < a.len()
        invariant
            i <= a.len(),
            a.len() == b.len(),
            forall|j: int| 0 <= j < i ==> a@[j] == b@[j],
        decreases a.len() - i,
    {
        if a[i] != b[i] {
            return false;
        }
        i = i + 1;
    }
    assert(a@ =~= b@);
    true
}

/// The SHA-256 digest of a byte string.
pub uninterp spec fn sha256_digest(data: Seq<u8>) -> Seq<u8>;

/// Calls `sha2`'s `Sha256::digest` on `data`. The contract claims that the
/// result is the digest of exactly the bytes given (a function of them alone)
/// and that it is 32 bytes long, the fixed SHA-256 output size; nothing is
/// claimed of the digest's value.
#[verifier::external_body]
pub(crate) fn sha256(data: &[u8]) -> (r: Vec<u8>)
    ensures
        r@ == sha256_digest(data@),
        r@.len() == 32,
{
    <sha2::Sha256 as Digest>::digest(data).to_vec()
}

/// SHA-256 of the bytes held in a vector.
pub fn sha256_of(data: &Vec<u8>) -> (r: Vec<u8>)
    ensures
        r@ == sha256_digest(data@),
        r@.len() == 32,
{
    sha256(data.as_slice())
}

} // verus!
