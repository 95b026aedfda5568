//! Shared helpers for the compressed wire format.
//!
//! A compressed encoding is a fixed-size big-endian byte string whose
//! leading byte carries three flag bits: compression (always set),
//! infinity, and sort.  The helpers here read the flags, test whether
//! a coordinate is in range of the base field, and compare byte
//! strings; the per-group decoding logic builds on them.

use vstd::prelude::*;

verus! {

/// Big-endian bytes of the base-field modulus of the curve (a 381-bit
/// prime): a coordinate encoding is in range exactly when, after
/// masking the three flag bits, it is lexicographically below these.
pub const FP_MODULUS_BE: [u8; 48] = [
    0x1a, 0x01, 0x11, 0xea, 0x39, 0x7f, 0xe6, 0x9a, 0x4b, 0x1b, 0xa7, 0xb6, 0x43, 0x4b, 0xac,
    0xd7, 0x64, 0x77, 0x4b, 0x84, 0xf3, 0x85, 0x12, 0xbf, 0x67, 0x30, 0xd2, 0xa0, 0xf6, 0xb0,
    0xf6, 0x24, 0x1e, 0xab, 0xff, 0xfe, 0xb1, 0x53, 0xff, 0xff, 0xb9, 0xfe, 0xff, 0xff, 0xff,
    0xff, 0xaa, 0xab,
];

/// The compression flag (highest bit of the leading byte) is set.
pub open spec fn compression_bit(b: Seq<u8>) -> bool {
    b[0] & 0x80 == 0x80
}

/// The infinity flag (second bit of the leading byte) is set.
pub open spec fn infinity_bit(b: Seq<u8>) -> bool {
    b[0] & 0x40 == 0x40
}

/// Apart from its two leading flag bits, the string is all zero: the
/// only information the encoding of the point at infinity may carry.
pub open spec fn infinity_rest_zero(b: Seq<u8>) -> bool {
    b[0] & 0x3f == 0 && forall|i: int| 1 <= i < b.len() ==> b[i] == 0
}

/// Lexicographic order of two byte strings of equal length, which for
/// big-endian encodings coincides with numeric order.
pub open spec fn be_lt(a: Seq<u8>, b: Seq<u8>) -> bool
    decreases a.len(),
{
    if a.len() == 0 {
        false
    } else if a[0] < b[0] {
        true
    } else if a[0] > b[0] {
        false
    } else {
        be_lt(a.skip(1), b.skip(1))
    }
}

/// The big-endian coordinate starting at `start`, with the three flag
/// bits of a leading byte masked away when it sits at the front.
pub open spec fn coordinate_at(b: Seq<u8>, start: int) -> Seq<u8> {
    if start == 0 {
        seq![(b[0] & 0x1f) as u8] + b.subrange(1, 48)
    } else {
        b.subrange(start, start + 48)
    }
}

/// The coordinate starting at `start` is in range of the base field.
pub open spec fn coordinate_in_range(b: Seq<u8>, start: int) -> bool {
    be_lt(coordinate_at(b, start), FP_MODULUS_BE@)
}

/// Equality of byte strings.
pub fn bytes_eq(a: &[u8], b: &[u8]) -> (r: bool)
    ensures
        r == (a@ == b@),
{
    if a.len() != b.len() {
        proof {
            if a@ == b@ {
                assert(a@.len() == b@.len());
            }
        }
        return false;
    }
    let n: usize = a.len();
    let mut i: usize = 0;
    while i < n
        invariant
            i <= n,
            n == a@.len() == b@.len(),
            forall|j: int| 0 <= j < i ==> a@[j] == b@[j],
        decreases n - i,
    {
        if a[i] != b[i] {
            return false;
        }
        i += 1;
    }
    proof {
        assert(a@ =~= b@);
    }
    true
}

/// Whether, apart from its two leading flag bits, the string is all
/// zero.
pub fn rest_is_zero_check(b: &[u8]) -> (r: bool)
    requires
        b@.len() >= 1,
    ensures
        r == infinity_rest_zero(b@),
{
    if b[0] & 0x3f != 0 {
        return false;
    }
    let n: usize = b.len();
    let mut i: usize = 1;
    while i < n
        invariant
            1 <= i <= n,
            n == b@.len(),
            forall|j: int| 1 <= j < i ==> b@[j] == 0,
        decreases n - i,
    {
        if b[i] != 0 {
            return false;
        }
        i += 1;
    }
    true
}

/// Lexicographic comparison of byte strings of equal length.
pub fn be_lt_bytes(a: &[u8], b: &[u8]) -> (r: bool)
    requires
        a@.len() == b@.len(),
    ensures
        r == be_lt(a@, b@),
{
    let n: usize = a.len();
    let mut i: usize = 0;
    proof {
        assert(a@.skip(0) =~= a@);
        assert(b@.skip(0) =~= b@);
    }
    while i < n
        invariant
            i <= n,
            n == a@.len() == b@.len(),
            be_lt(a@, b@) == be_lt(a@.skip(i as int), b@.skip(i as int)),
        decreases n - i,
    {
        if a[i] < b[i] {
            proof {
                assert(a@.skip(i as int)[0] == a@[i as int]);
                assert(b@.skip(i as int)[0] == b@[i as int]);
            }
            return true;
        }
        if a[i] > b[i] {
            proof {
                assert(a@.skip(i as int)[0] == a@[i as int]);
                assert(b@.skip(i as int)[0] == b@[i as int]);
            }
            return false;
        }
        proof {
            assert(a@.skip(i as int)[0] == a@[i as int]);
            assert(b@.skip(i as int)[0] == b@[i as int]);
            assert(a@.skip(i as int).skip(1) =~= a@.skip(i + 1));
            assert(b@.skip(i as int).skip(1) =~= b@.skip(i + 1));
        }
        i += 1;
    }
    proof {
        assert(a@.skip(n as int).len() == 0);
    }
    false
}

/// The coordinate of `b` starting at `start`, masked of flag bits when
/// it sits at the front, as owned bytes.
pub fn extract_coordinate(b: &[u8], start: usize) -> (r: Vec<u8>)
    requires
        start + 48 <= b@.len(),
    ensures
        r@ == coordinate_at(b@, start as int),
{
    let n: usize = b.len();
    let end: usize = start + 48;
    let mut v: Vec<u8> = Vec::new();
    if start == 0 {
        v.push(b[0] & 0x1f);
    } else {
        v.push(b[start]);
    }
    let mut i: usize = start + 1;
    while i < end
        invariant
            end == start + 48,
            start + 1 <= i <= start + 48,
            start + 48 <= b@.len(),
            v@.len() == i - start,
            v@[0] == if start == 0 {
                (b@[0] & 0x1f) as u8
            } else {
                b@[start as int]
            },
            forall|j: int| 1 <= j < v@.len() ==> v@[j] == b@[start + j],
        decreases start + 48 - i,
    {
        v.push(b[i]);
        i += 1;
    }
    proof {
        assert(v@ =~= coordinate_at(b@, start as int));
    }
    v
}

/// Append a byte string to a vector.
pub fn append_bytes(dst: &mut Vec<u8>, src: &[u8])
    ensures
        final(dst)@ == old(dst)@ + src@,
{
    let n: usize = src.len();
    let mut i: usize = 0;
    proof {
        assert(dst@ =~= old(dst)@ + src@.subrange(0, 0));
    }
    while i < n
        invariant
            i <= n,
            n == src@.len(),
            dst@ == old(dst)@ + src@.subrange(0, i as int),
        decreases n - i,
    {
        dst.push(src[i]);
        i += 1;
        proof {
            assert(dst@ =~= old(dst)@ + src@.subrange(0, i as int));
        }
    }
    proof {
        assert(src@.subrange(0, n as int) =~= src@);
    }
}

/// The first 32 bytes of a string, as an owned array.
pub fn take32(bytes: &[u8]) -> (r: [u8; 32])
    requires
        bytes@.len() >= 32,
    ensures
        r@ == bytes@.subrange(0, 32),
{
    let r: [u8; 32] = [
        bytes[0], bytes[1], bytes[2], bytes[3], bytes[4], bytes[5], bytes[6], bytes[7], bytes[8],
        bytes[9], bytes[10], bytes[11], bytes[12], bytes[13], bytes[14], bytes[15], bytes[16],
        bytes[17], bytes[18], bytes[19], bytes[20], bytes[21], bytes[22], bytes[23], bytes[24],
        bytes[25], bytes[26], bytes[27], bytes[28], bytes[29], bytes[30], bytes[31],
    ];
    proof {
        assert(r@ =~= bytes@.subrange(0, 32));
    }
    r
}

/// The coordinate of `b` starting at `start` is in range of the base
/// field.
pub fn coordinate_check(b: &[u8], start: usize) -> (r: bool)
    requires
        start + 48 <= b@.len(),
    ensures
        r == coordinate_in_range(b@, start as int),
{
    let coord = extract_coordinate(b, start);
    be_lt_bytes(coord.as_slice(), vstd::array::array_as_slice(&FP_MODULUS_BE))
}

} // verus!
