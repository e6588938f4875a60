//! The byte layout of integers and keys, shared by the settings record and the
//! request body: integers are little-endian, a key is its 32 bytes as they are.

use vstd::prelude::*;

verus! {

/// The 64-bit integer written little-endian in the eight bytes of `s` from `at`.
pub open spec fn u64_le(s: Seq<u8>, at: int) -> int {
    s[at] + 256 * (s[at + 1] + 256 * (s[at + 2] + 256 * (s[at + 3] + 256 * (s[at + 4] + 256 * (s[at
        + 5] + 256 * (s[at + 6] + 256 * s[at + 7]))))))
}

/// The 32-bit integer written little-endian in the four bytes of `s` from `at`.
pub open spec fn u32_le(s: Seq<u8>, at: int) -> int {
    s[at] + 256 * (s[at + 1] + 256 * (s[at + 2] + 256 * s[at + 3]))
}

/// What is left of `x` once its lowest byte is dropped.
pub open spec fn drop_byte(x: int) -> int {
    x / 256
}

/// The lowest byte of `x`.
pub open spec fn low_byte(x: int) -> u8 {
    (x % 256) as u8
}

/// The eight bytes of `x`, lowest first.
pub open spec fn u64_le_bytes(x: u64) -> Seq<u8> {
    let x0 = x as int;
    let x1 = drop_byte(x0);
    let x2 = drop_byte(x1);
    let x3 = drop_byte(x2);
    let x4 = drop_byte(x3);
    let x5 = drop_byte(x4);
    let x6 = drop_byte(x5);
    let x7 = drop_byte(x6);
    seq![
        low_byte(x0),
        low_byte(x1),
        low_byte(x2),
        low_byte(x3),
        low_byte(x4),
        low_byte(x5),
        low_byte(x6),
        low_byte(x7),
    ]
}

/// The four bytes of `x`, lowest first.
pub open spec fn u32_le_bytes(x: u32) -> Seq<u8> {
    let x0 = x as int;
    let x1 = drop_byte(x0);
    let x2 = drop_byte(x1);
    let x3 = drop_byte(x2);
    seq![low_byte(x0), low_byte(x1), low_byte(x2), low_byte(x3)]
}

/// The key of 32 zero bytes, which stands for "not set".
pub open spec fn zero_key() -> Seq<u8> {
    Seq::new(32, |i: int| 0u8)
}

/// Reading back the bytes of an integer gives the integer.
pub proof fn lemma_u64_round_trip(x: u64)
    ensures
        u64_le_bytes(x).len() == 8,
        u64_le(u64_le_bytes(x), 0) == x,
{
}

/// Reading back the bytes of a 32-bit integer gives the integer.
pub proof fn lemma_u32_round_trip(x: u32)
    ensures
        u32_le_bytes(x).len() == 4,
        u32_le(u32_le_bytes(x), 0) == x,
{
}

/// Reads the integer that `u64_le` names.
pub fn read_u64(data: &[u8], at: usize) -> (x: u64)
    requires
        at + 8 <= data.len(),
    ensures
        x == u64_le(data@, at as int),
{
    let b0: u64 = data[at] as u64;
    let b1: u64 = data[at + 1] as u64;
    let b2: u64 = data[at + 2] as u64;
    let b3: u64 = data[at + 3] as u64;
    let b4: u64 = data[at + 4] as u64;
    let b5: u64 = data[at + 5] as u64;
    let b6: u64 = data[at + 6] as u64;
    let b7: u64 = data[at + 7] as u64;
    b0 + 256 * (b1 + 256 * (b2 + 256 * (b3 + 256 * (b4 + 256 * (b5 + 256 * (b6 + 256 * b7))))))
}

/// Reads the integer that `u32_le` names.
pub fn read_u32(data: &[u8], at: usize) -> (x: u32)
    requires
        at + 4 <= data.len(),
    ensures
        x == u32_le(data@, at as int),
{
    let b0: u32 = data[at] as u32;
    let b1: u32 = data[at + 1] as u32;
    let b2: u32 = data[at + 2] as u32;
    let b3: u32 = data[at + 3] as u32;
    b0 + 256 * (b1 + 256 * (b2 + 256 * b3))
}

/// Appends the eight bytes of `x`, lowest first.
pub fn write_u64(out: &mut Vec<u8>, x: u64)
    ensures
        final(out)@ == old(out)@ + u64_le_bytes(x),
{
    let ghost start = out@;
    let x1: u64 = x / 256;
    let x2: u64 = x1 / 256;
    let x3: u64 = x2 / 256;
    let x4: u64 = x3 / 256;
    let x5: u64 = x4 / 256;
    let x6: u64 = x5 / 256;
    let x7: u64 = x6 / 256;
    out.push((x % 256) as u8);
    out.push((x1 % 256) as u8);
    out.push((x2 % 256) as u8);
    out.push((x3 % 256) as u8);
    out.push((x4 % 256) as u8);
    out.push((x5 % 256) as u8);
    out.push((x6 % 256) as u8);
    out.push((x7 % 256) as u8);
    proof {
        assert(out@ =~= start + u64_le_bytes(x));
    }
}

/// Appends the four bytes of `x`, lowest first.
pub fn write_u32(out: &mut Vec<u8>, x: u32)
    ensures
        final(out)@ == old(out)@ + u32_le_bytes(x),
{
    let ghost start = out@;
    let x1: u32 = x / 256;
    let x2: u32 = x1 / 256;
    let x3: u32 = x2 / 256;
    out.push((x % 256) as u8);
    out.push((x1 % 256) as u8);
    out.push((x2 % 256) as u8);
    out.push((x3 % 256) as u8);
    proof {
        assert(out@ =~= start + u32_le_bytes(x));
    }
}

/// Reads the key that lies in the 32 bytes of `data` from `at`.
pub fn read_key(data: &[u8], at: usize) -> (k: [u8; 32])
    requires
        at + 32 <= data.len(),
    ensures
        k@ == data@.subrange(at as int, at + 32),
{
    let mut k: [u8; 32] = [0u8; 32];
    let mut i: usize = 0;
    while i < 32
        invariant
            0 <= i <= 32,
            at + 32 <= data.len(),
            forall|j: int| 0 <= j < i ==> k@[j] == data@[at + j],
        decreases 32 - i,
    {
        k[i] = data[at + i];
        i += 1;
    }
    proof {
        assert(k@ =~= data@.subrange(at as int, at + 32));
    }
    k
}

/// Appends the 32 bytes of a key.
pub fn write_key(out: &mut Vec<u8>, k: &[u8; 32])
    ensures
        final(out)@ == old(out)@ + k@,
{
    let ghost start = out@;
    let mut i: usize = 0;
    while i < 32
        invariant
            0 <= i <= 32,
            out@ == start + k@.take(i as int),
        decreases 32 - i,
    {
        out.push(k[i]);
        i += 1;
        proof {
            assert(out@ =~= start + k@.take(i as int));
        }
    }
    proof {
        assert(k@.take(32) =~= k@);
    }
}

/// Whether two keys are the same key.
pub fn same_key(a: &[u8; 32], b: &[u8; 32]) -> (r: bool)
    ensures
        r == (a@ == b@),
{
    let mut i: usize = 0;
    while i < 32
        invariant
            0 <= i <= 32,
            forall|j: int| 0 <= j < i ==> a@[j] == b@[j],
        decreases 32 - i,
    {
        if a[i] != b[i] {
            return false;
        }
        i += 1;
    }
    proof {
        assert(a@ =~= b@);
    }
    true
}

/// Whether a key is the key of 32 zero bytes.
pub fn is_zero_key(a: &[u8; 32]) -> (r: bool)
    ensures
        r == (a@ == zero_key()),
{
    let mut i: usize = 0;
    while i < 32
        invariant
            0 <= i <= 32,
            forall|j: int| 0 <= j < i ==> a@[j] == 0,
        decreases 32 - i,
    {
        if a[i] != 0 {
            assert(zero_key()[i as int] == 0);
            return false;
        }
        i += 1;
    }
    proof {
        assert(a@ =~= zero_key());
    }
    true
}

} // verus!
