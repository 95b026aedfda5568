//! Elements of the two point groups of the pairing engine.
//!
//! A point is held in the engine's projective form together with the
//! canonical compressed encoding of the point it denotes.  Contracts
//! speak of that encoding: since the encoding is canonical, two points
//! are equal exactly when their encodings are.  The group operations
//! are performed by the outside arithmetic engine behind trusted
//! wrappers; each wrapper states the algebraic facts its callers rely
//! on as laws of a prime-order group.

use bls12_381::hash_to_curve::{ExpandMsgXof, HashToCurve};
use vstd::prelude::*;
use crate::scalars::{Fr, group_order};

verus! {

// ---------------------------------------------------------------- //
// Names for the results of the outside group operations.
//
// `g1_mul(k, b)` is the canonical compressed encoding of `k` times the
// point that the valid encoding `b` denotes; `g1_base(k)` that of `k`
// times the fixed generator; `g1_add` and `g1_sub` the encodings of
// sum and difference; `g1_uncompressed` the canonical uncompressed
// serialization of the same point.  `g1_valid(b)` says that `b` is the
// canonical compressed encoding of a point of the prime-order
// subgroup; `g1_parses(b)` that `b` decodes to a curve point, whether
// or not it lies in the subgroup.  Likewise for the second group.
// ---------------------------------------------------------------- //

pub uninterp spec fn g1_valid(b: Seq<u8>) -> bool;

pub uninterp spec fn g1_parses(b: Seq<u8>) -> bool;

pub uninterp spec fn g1_mul(k: nat, b: Seq<u8>) -> Seq<u8>;

pub uninterp spec fn g1_add(a: Seq<u8>, b: Seq<u8>) -> Seq<u8>;

pub uninterp spec fn g1_sub(a: Seq<u8>, b: Seq<u8>) -> Seq<u8>;

pub uninterp spec fn g1_base(k: nat) -> Seq<u8>;

pub uninterp spec fn g1_uncompressed(b: Seq<u8>) -> Seq<u8>;

pub uninterp spec fn g2_valid(b: Seq<u8>) -> bool;

pub uninterp spec fn g2_parses(b: Seq<u8>) -> bool;

pub uninterp spec fn g2_mul(k: nat, b: Seq<u8>) -> Seq<u8>;

pub uninterp spec fn g2_add(a: Seq<u8>, b: Seq<u8>) -> Seq<u8>;

pub uninterp spec fn g2_sub(a: Seq<u8>, b: Seq<u8>) -> Seq<u8>;

pub uninterp spec fn g2_base(k: nat) -> Seq<u8>;

pub uninterp spec fn g2_uncompressed(b: Seq<u8>) -> Seq<u8>;

/// `b` encodes the multiple of the first group's generator by exactly
/// the scalars congruent to `s`: in a cyclic group of prime order,
/// every element is the generator's multiple by one scalar class.
pub open spec fn g1_dlog_is(b: Seq<u8>, s: nat) -> bool {
    s < group_order() && forall|t: nat| (#[trigger] g1_base(t) == b) <==> t % group_order() == s
}

/// `b` encodes the multiple of the second group's generator by exactly
/// the scalars congruent to `s`.
pub open spec fn g2_dlog_is(b: Seq<u8>, s: nat) -> bool {
    s < group_order() && forall|t: nat| (#[trigger] g2_base(t) == b) <==> t % group_order() == s
}

#[verifier::external_type_specification]
#[verifier::external_body]
pub struct ExG1Projective(bls12_381::G1Projective);

#[verifier::external_type_specification]
#[verifier::external_body]
pub struct ExG2Projective(bls12_381::G2Projective);

/// A point of the first (48-byte encoded) group.
#[derive(Clone, Copy, Debug)]
pub struct G1Point {
    raw: bls12_381::G1Projective,
    bytes: [u8; 48],
}

/// A point of the second (96-byte encoded) group.
#[derive(Clone, Copy, Debug)]
pub struct G2Point {
    raw: bls12_381::G2Projective,
    bytes: [u8; 96],
}

impl G1Point {
    /// Canonical compressed encoding of the point.
    pub closed spec fn spec_enc(&self) -> Seq<u8> {
        self.bytes@
    }

    pub open spec fn wf(&self) -> bool {
        g1_valid(self.spec_enc())
    }
}

impl G2Point {
    /// Canonical compressed encoding of the point.
    pub closed spec fn spec_enc(&self) -> Seq<u8> {
        self.bytes@
    }

    pub open spec fn wf(&self) -> bool {
        g2_valid(self.spec_enc())
    }
}

pub broadcast proof fn lemma_g1_enc_len(p: G1Point)
    ensures
        (#[trigger] p.spec_enc()).len() == 48,
{
}

pub broadcast proof fn lemma_g2_enc_len(p: G2Point)
    ensures
        (#[trigger] p.spec_enc()).len() == 96,
{
}

// ---------------------------------------------------------------- //
// First group
// ---------------------------------------------------------------- //

/// Relies on `core::ops::Add for bls12_381::G1Projective` and the
/// canonical compressed encoding: the result encodes the sum, sums of
/// multiples of one point are multiples of it, sums of multiples of
/// the generator are multiples of the generator, and adding `s` times
/// `u` to `s` times `h - u` yields `s` times `h` (laws of a
/// prime-order group).
#[verifier::external_body]
pub(crate) fn g1_add_points(a: &G1Point, b: &G1Point) -> (r: G1Point)
    requires
        a.wf(),
        b.wf(),
    ensures
        r.wf(),
        r.spec_enc() == g1_add(a.spec_enc(), b.spec_enc()),
        forall|x: nat, y: nat, q: Seq<u8>|
            g1_valid(q) && a.spec_enc() == #[trigger] g1_mul(x, q) && b.spec_enc()
                == #[trigger] g1_mul(y, q) ==> r.spec_enc() == g1_mul(
                (x + y) % group_order(),
                q,
            ),
        forall|x: nat, y: nat|
            a.spec_enc() == #[trigger] g1_base(x) && b.spec_enc() == #[trigger] g1_base(y)
                ==> r.spec_enc() == g1_base((x + y) % group_order()),
        forall|s: nat, h: Seq<u8>, u: Seq<u8>|
            g1_valid(h) && g1_valid(u) && a.spec_enc() == #[trigger] g1_mul(s, g1_sub(h, u))
                && b.spec_enc() == g1_mul(s, u) ==> r.spec_enc() == g1_mul(s, h),
{
    let raw = a.raw + b.raw;
    G1Point { raw, bytes: bls12_381::G1Affine::from(&raw).to_compressed() }
}

/// Relies on `core::ops::Sub for bls12_381::G1Projective`: the result
/// encodes the difference of the two points.
#[verifier::external_body]
pub(crate) fn g1_sub_points(a: &G1Point, b: &G1Point) -> (r: G1Point)
    requires
        a.wf(),
        b.wf(),
    ensures
        r.wf(),
        r.spec_enc() == g1_sub(a.spec_enc(), b.spec_enc()),
{
    let raw = a.raw - b.raw;
    G1Point { raw, bytes: bls12_381::G1Affine::from(&raw).to_compressed() }
}

/// Relies on `core::ops::Mul<Scalar> for bls12_381::G1Projective`: the
/// result encodes the scalar multiple of the point.
#[verifier::external_body]
pub(crate) fn g1_mul_point(k: &Fr, p: &G1Point) -> (r: G1Point)
    requires
        k.wf(),
        p.wf(),
    ensures
        r.wf(),
        r.spec_enc() == g1_mul(k.spec_val(), p.spec_enc()),
{
    let raw = p.raw * k.raw;
    G1Point { raw, bytes: bls12_381::G1Affine::from(&raw).to_compressed() }
}

/// Relies on `bls12_381::G1Projective::generator` and scalar
/// multiplication: the result encodes the scalar multiple of the fixed
/// generator of the group.
#[verifier::external_body]
pub(crate) fn g1_base_mul(k: &Fr) -> (r: G1Point)
    requires
        k.wf(),
    ensures
        r.wf(),
        r.spec_enc() == g1_base(k.spec_val()),
{
    let raw = bls12_381::G1Projective::generator() * k.raw;
    G1Point { raw, bytes: bls12_381::G1Affine::from(&raw).to_compressed() }
}

/// Relies on `bls12_381::G1Projective::identity`: the identity element
/// absorbs scalar multiplication.
#[verifier::external_body]
pub(crate) fn g1_zero_point() -> (r: G1Point)
    ensures
        r.wf(),
        forall|k: nat| #[trigger] g1_mul(k, r.spec_enc()) == r.spec_enc(),
{
    let raw = bls12_381::G1Projective::identity();
    G1Point { raw, bytes: bls12_381::G1Affine::from(&raw).to_compressed() }
}

/// Relies on `group::Group::random` for `bls12_381::G1Projective`: a
/// uniformly sampled group element.  Nothing is assumed of the value
/// beyond well-formedness.
#[verifier::external_body]
pub(crate) fn g1_random_point(rng: &mut rand_chacha::ChaCha8Rng) -> (r: G1Point)
    ensures
        r.wf(),
{
    let raw = <bls12_381::G1Projective as group::Group>::random(&mut *rng);
    G1Point { raw, bytes: bls12_381::G1Affine::from(&raw).to_compressed() }
}

/// Relies on `bls12_381::G1Affine::from_compressed`: decoding succeeds
/// exactly on canonical encodings of prime-subgroup points, and then
/// returns the encoded point.  The subgroup is cyclic of prime order,
/// so the decoded point is the generator's multiple by exactly one
/// scalar class.
#[verifier::external_body]
pub(crate) fn g1_decompress(bytes: &[u8]) -> (r: Option<G1Point>)
    requires
        bytes@.len() == 48,
    ensures
        r is Some <==> g1_valid(bytes@),
        r matches Some(p) ==> p.wf() && p.spec_enc() == bytes@,
        r matches Some(p) ==> exists|s: nat| #[trigger] g1_dlog_is(p.spec_enc(), s),
{
    let arr: &[u8; 48] = bytes.try_into().unwrap();
    let ct = bls12_381::G1Affine::from_compressed(arr);
    let parsed: Option<bls12_381::G1Affine> = ct.into();
    match parsed {
        Some(affine) => Some(
            G1Point { raw: bls12_381::G1Projective::from(&affine), bytes: *arr },
        ),
        None => None,
    }
}

/// Relies on `bls12_381::G1Affine::from_compressed_unchecked`: decoding
/// succeeds exactly on well-formed encodings of curve points, without
/// the subgroup check; every valid encoding decodes.
#[verifier::external_body]
pub(crate) fn g1_decompress_unchecked(bytes: &[u8]) -> (r: Option<G1Point>)
    requires
        bytes@.len() == 48,
    ensures
        r is Some <==> g1_parses(bytes@),
        r matches Some(p) ==> p.spec_enc() == bytes@,
        g1_valid(bytes@) ==> r is Some,
{
    let arr: &[u8; 48] = bytes.try_into().unwrap();
    let ct = bls12_381::G1Affine::from_compressed_unchecked(arr);
    let parsed: Option<bls12_381::G1Affine> = ct.into();
    match parsed {
        Some(affine) => Some(
            G1Point { raw: bls12_381::G1Projective::from(&affine), bytes: *arr },
        ),
        None => None,
    }
}

/// Relies on `bls12_381::G1Affine::to_uncompressed`: the canonical
/// uncompressed serialization, a function of the point alone.
#[verifier::external_body]
pub(crate) fn g1_uncompressed_bytes(p: &G1Point) -> (r: [u8; 96])
    ensures
        r@ == g1_uncompressed(p.spec_enc()),
{
    bls12_381::G1Affine::from(&p.raw).to_uncompressed()
}

/// The compressed encoding held alongside the point.
pub(crate) fn g1_enc_bytes(p: &G1Point) -> (r: [u8; 48])
    ensures
        r@ == p.spec_enc(),
{
    p.bytes
}

/// Equality of points, decided on the canonical encodings.
pub(crate) fn g1_eq_points(a: &G1Point, b: &G1Point) -> (r: bool)
    ensures
        r == (a.spec_enc() == b.spec_enc()),
{
    let mut i: usize = 0;
    while i < 48
        invariant
            i <= 48,
            forall|j: int| 0 <= j < i ==> a.bytes@[j] == b.bytes@[j],
        decreases 48 - i,
    {
        if a.bytes[i] != b.bytes[i] {
            return false;
        }
        i += 1;
    }
    proof {
        assert(a.bytes@ =~= b.bytes@);
    }
    true
}

// ---------------------------------------------------------------- //
// Second group
// ---------------------------------------------------------------- //

/// Relies on `core::ops::Add for bls12_381::G2Projective` and the
/// canonical compressed encoding: the result encodes the sum, sums of
/// multiples of one point are multiples of it, sums of multiples of
/// the generator are multiples of the generator, and adding `s` times
/// `u` to `s` times `h - u` yields `s` times `h` (laws of a
/// prime-order group).
#[verifier::external_body]
pub(crate) fn g2_add_points(a: &G2Point, b: &G2Point) -> (r: G2Point)
    requires
        a.wf(),
        b.wf(),
    ensures
        r.wf(),
        r.spec_enc() == g2_add(a.spec_enc(), b.spec_enc()),
        forall|x: nat, y: nat, q: Seq<u8>|
            g2_valid(q) && a.spec_enc() == #[trigger] g2_mul(x, q) && b.spec_enc()
                == #[trigger] g2_mul(y, q) ==> r.spec_enc() == g2_mul(
                (x + y) % group_order(),
                q,
            ),
        forall|x: nat, y: nat|
            a.spec_enc() == #[trigger] g2_base(x) && b.spec_enc() == #[trigger] g2_base(y)
                ==> r.spec_enc() == g2_base((x + y) % group_order()),
        forall|s: nat, h: Seq<u8>, u: Seq<u8>|
            g2_valid(h) && g2_valid(u) && a.spec_enc() == #[trigger] g2_mul(s, g2_sub(h, u))
                && b.spec_enc() == g2_mul(s, u) ==> r.spec_enc() == g2_mul(s, h),
{
    let raw = a.raw + b.raw;
    G2Point { raw, bytes: bls12_381::G2Affine::from(&raw).to_compressed() }
}

/// Relies on `core::ops::Sub for bls12_381::G2Projective`: the result
/// encodes the difference of the two points.
#[verifier::external_body]
pub(crate) fn g2_sub_points(a: &G2Point, b: &G2Point) -> (r: G2Point)
    requires
        a.wf(),
        b.wf(),
    ensures
        r.wf(),
        r.spec_enc() == g2_sub(a.spec_enc(), b.spec_enc()),
{
    let raw = a.raw - b.raw;
    G2Point { raw, bytes: bls12_381::G2Affine::from(&raw).to_compressed() }
}

/// Relies on `core::ops::Mul<Scalar> for bls12_381::G2Projective`: the
/// result encodes the scalar multiple of the point.
#[verifier::external_body]
pub(crate) fn g2_mul_point(k: &Fr, p: &G2Point) -> (r: G2Point)
    requires
        k.wf(),
        p.wf(),
    ensures
        r.wf(),
        r.spec_enc() == g2_mul(k.spec_val(), p.spec_enc()),
{
    let raw = p.raw * k.raw;
    G2Point { raw, bytes: bls12_381::G2Affine::from(&raw).to_compressed() }
}

/// Relies on `bls12_381::G2Projective::generator` and scalar
/// multiplication: the result encodes the scalar multiple of the fixed
/// generator of the group.
#[verifier::external_body]
pub(crate) fn g2_base_mul(k: &Fr) -> (r: G2Point)
    requires
        k.wf(),
    ensures
        r.wf(),
        r.spec_enc() == g2_base(k.spec_val()),
{
    let raw = bls12_381::G2Projective::generator() * k.raw;
    G2Point { raw, bytes: bls12_381::G2Affine::from(&raw).to_compressed() }
}

/// Relies on `bls12_381::G2Projective::identity`: the identity element
/// absorbs scalar multiplication.
#[verifier::external_body]
pub(crate) fn g2_zero_point() -> (r: G2Point)
    ensures
        r.wf(),
        forall|k: nat| #[trigger] g2_mul(k, r.spec_enc()) == r.spec_enc(),
{
    let raw = bls12_381::G2Projective::identity();
    G2Point { raw, bytes: bls12_381::G2Affine::from(&raw).to_compressed() }
}

/// Relies on `group::Group::random` for `bls12_381::G2Projective`: a
/// uniformly sampled group element.  Nothing is assumed of the value
/// beyond well-formedness.
#[verifier::external_body]
pub(crate) fn g2_random_point(rng: &mut rand_chacha::ChaCha8Rng) -> (r: G2Point)
    ensures
        r.wf(),
{
    let raw = <bls12_381::G2Projective as group::Group>::random(&mut *rng);
    G2Point { raw, bytes: bls12_381::G2Affine::from(&raw).to_compressed() }
}

/// Relies on `bls12_381::G2Affine::from_compressed`: decoding succeeds
/// exactly on canonical encodings of prime-subgroup points, and then
/// returns the encoded point.  The subgroup is cyclic of prime order,
/// so the decoded point is the generator's multiple by exactly one
/// scalar class.
#[verifier::external_body]
pub(crate) fn g2_decompress(bytes: &[u8]) -> (r: Option<G2Point>)
    requires
        bytes@.len() == 96,
    ensures
        r is Some <==> g2_valid(bytes@),
        r matches Some(p) ==> p.wf() && p.spec_enc() == bytes@,
        r matches Some(p) ==> exists|s: nat| #[trigger] g2_dlog_is(p.spec_enc(), s),
{
    let arr: &[u8; 96] = bytes.try_into().unwrap();
    let ct = bls12_381::G2Affine::from_compressed(arr);
    let parsed: Option<bls12_381::G2Affine> = ct.into();
    match parsed {
        Some(affine) => Some(
            G2Point { raw: bls12_381::G2Projective::from(&affine), bytes: *arr },
        ),
        None => None,
    }
}

/// Relies on `bls12_381::G2Affine::from_compressed_unchecked`: decoding
/// succeeds exactly on well-formed encodings of curve points, without
/// the subgroup check; every valid encoding decodes.
#[verifier::external_body]
pub(crate) fn g2_decompress_unchecked(bytes: &[u8]) -> (r: Option<G2Point>)
    requires
        bytes@.len() == 96,
    ensures
        r is Some <==> g2_parses(bytes@),
        r matches Some(p) ==> p.spec_enc() == bytes@,
        g2_valid(bytes@) ==> r is Some,
{
    let arr: &[u8; 96] = bytes.try_into().unwrap();
    let ct = bls12_381::G2Affine::from_compressed_unchecked(arr);
    let parsed: Option<bls12_381::G2Affine> = ct.into();
    match parsed {
        Some(affine) => Some(
            G2Point { raw: bls12_381::G2Projective::from(&affine), bytes: *arr },
        ),
        None => None,
    }
}

/// Relies on `bls12_381::G2Affine::to_uncompressed`: the canonical
/// uncompressed serialization, a function of the point alone.
#[verifier::external_body]
pub(crate) fn g2_uncompressed_bytes(p: &G2Point) -> (r: [u8; 192])
    ensures
        r@ == g2_uncompressed(p.spec_enc()),
{
    bls12_381::G2Affine::from(&p.raw).to_uncompressed()
}

/// The compressed encoding held alongside the point.
pub(crate) fn g2_enc_bytes(p: &G2Point) -> (r: [u8; 96])
    ensures
        r@ == p.spec_enc(),
{
    p.bytes
}

/// Equality of points, decided on the canonical encodings.
pub(crate) fn g2_eq_points(a: &G2Point, b: &G2Point) -> (r: bool)
    ensures
        r == (a.spec_enc() == b.spec_enc()),
{
    let mut i: usize = 0;
    while i < 96
        invariant
            i <= 96,
            forall|j: int| 0 <= j < i ==> a.bytes@[j] == b.bytes@[j],
        decreases 96 - i,
    {
        if a.bytes[i] != b.bytes[i] {
            return false;
        }
        i += 1;
    }
    proof {
        assert(a.bytes@ =~= b.bytes@);
    }
    true
}

// ---------------------------------------------------------------- //
// Hashing to the groups and pairing evaluation
// ---------------------------------------------------------------- //

/// Encoding of the hash of `(dst, msg)` onto the first group: a
/// function of the two byte strings alone.
pub uninterp spec fn hash_to_g1(dst: Seq<u8>, msg: Seq<u8>) -> Seq<u8>;

/// Encoding of the hash of `(dst, msg)` onto the second group: a
/// function of the two byte strings alone.
pub uninterp spec fn hash_to_g2(dst: Seq<u8>, msg: Seq<u8>) -> Seq<u8>;

/// Relies on `bls12_381::hash_to_curve::HashToCurve::hash_to_curve`
/// for the first group: a deterministic map from the domain tag and
/// message onto the prime-order subgroup.
#[verifier::external_body]
pub(crate) fn hash_to_g1_point(dst: &[u8], msg: &[u8]) -> (r: G1Point)
    ensures
        r.wf(),
        r.spec_enc() == hash_to_g1(dst@, msg@),
{
    let raw = <bls12_381::G1Projective as HashToCurve<ExpandMsgXof<sha3::Shake128>>>::hash_to_curve(
        msg,
        dst,
    );
    G1Point { raw, bytes: bls12_381::G1Affine::from(&raw).to_compressed() }
}

/// Relies on `bls12_381::hash_to_curve::HashToCurve::hash_to_curve`
/// for the second group: a deterministic map from the domain tag and
/// message onto the prime-order subgroup.
#[verifier::external_body]
pub(crate) fn hash_to_g2_point(dst: &[u8], msg: &[u8]) -> (r: G2Point)
    ensures
        r.wf(),
        r.spec_enc() == hash_to_g2(dst@, msg@),
{
    let raw = <bls12_381::G2Projective as HashToCurve<ExpandMsgXof<sha3::Shake128>>>::hash_to_curve(
        msg,
        dst,
    );
    G2Point { raw, bytes: bls12_381::G2Affine::from(&raw).to_compressed() }
}

/// Truth of the pairing identity for a public key in the first group,
/// a hashed message and a signature in the second: a function of the
/// three encodings alone.
pub uninterp spec fn usual_pairing_ok(pk: Seq<u8>, m: Seq<u8>, sig: Seq<u8>) -> bool;

/// Truth of the pairing identity for a public key in the second group,
/// a hashed message and a signature in the first: a function of the
/// three encodings alone.
pub uninterp spec fn tiny_pairing_ok(pk: Seq<u8>, m: Seq<u8>, sig: Seq<u8>) -> bool;

/// Relies on `bls12_381::pairing`: the check holds exactly when the
/// pairing of the generator with the signature equals the pairing of
/// the public key with the hashed message.  By bilinearity and
/// non-degeneracy of the pairing on the prime-order groups, when the
/// public key is `s` times the generator this holds exactly when the
/// signature is `s` times the hashed message; and since
/// multiplication by a scalar nonzero modulo the group order is
/// injective, a signature that is `s` times any other point never
/// passes; and a signature that is `s` times the hashed message never
/// passes against a public key of a different scalar class, unless
/// the hashed message is the identity.
#[verifier::external_body]
pub(crate) fn usual_pairing_check(pk: &G1Point, m: &G2Point, sig: &G2Point) -> (r: bool)
    ensures
        r == usual_pairing_ok(pk.spec_enc(), m.spec_enc(), sig.spec_enc()),
        forall|s: nat|
            pk.spec_enc() == #[trigger] g1_base(s) && g2_valid(m.spec_enc())
                && g2_valid(sig.spec_enc()) ==> (r <==> sig.spec_enc() == g2_mul(
                s,
                m.spec_enc(),
            )),
        forall|s: nat, h: Seq<u8>|
            pk.spec_enc() == #[trigger] g1_base(s) && s % group_order() != 0
                && g2_valid(m.spec_enc()) && g2_valid(h) && g2_valid(sig.spec_enc())
                && sig.spec_enc() == #[trigger] g2_mul(s, h) && h != m.spec_enc() ==> !r,
        forall|s: nat, t: nat|
            pk.spec_enc() == #[trigger] g1_base(t) && g2_valid(m.spec_enc())
                && g2_valid(sig.spec_enc()) && sig.spec_enc() == #[trigger] g2_mul(
                s,
                m.spec_enc(),
            ) && s % group_order() != t % group_order() && g2_mul(0, m.spec_enc())
                != m.spec_enc() ==> !r,
{
    let gen = bls12_381::G1Affine::generator();
    let lhs = bls12_381::pairing(&gen, &bls12_381::G2Affine::from(&sig.raw));
    let rhs = bls12_381::pairing(
        &bls12_381::G1Affine::from(&pk.raw),
        &bls12_381::G2Affine::from(&m.raw),
    );
    lhs == rhs
}

/// Relies on `bls12_381::pairing`: the check holds exactly when the
/// pairing of the signature with the generator equals the pairing of
/// the hashed message with the public key.  By bilinearity and
/// non-degeneracy of the pairing on the prime-order groups, when the
/// public key is `s` times the generator this holds exactly when the
/// signature is `s` times the hashed message; and since
/// multiplication by a scalar nonzero modulo the group order is
/// injective, a signature that is `s` times any other point never
/// passes; and a signature that is `s` times the hashed message never
/// passes against a public key of a different scalar class, unless
/// the hashed message is the identity.
#[verifier::external_body]
pub(crate) fn tiny_pairing_check(pk: &G2Point, m: &G1Point, sig: &G1Point) -> (r: bool)
    ensures
        r == tiny_pairing_ok(pk.spec_enc(), m.spec_enc(), sig.spec_enc()),
        forall|s: nat|
            pk.spec_enc() == #[trigger] g2_base(s) && g1_valid(m.spec_enc())
                && g1_valid(sig.spec_enc()) ==> (r <==> sig.spec_enc() == g1_mul(
                s,
                m.spec_enc(),
            )),
        forall|s: nat, h: Seq<u8>|
            pk.spec_enc() == #[trigger] g2_base(s) && s % group_order() != 0
                && g1_valid(m.spec_enc()) && g1_valid(h) && g1_valid(sig.spec_enc())
                && sig.spec_enc() == #[trigger] g1_mul(s, h) && h != m.spec_enc() ==> !r,
        forall|s: nat, t: nat|
            pk.spec_enc() == #[trigger] g2_base(t) && g1_valid(m.spec_enc())
                && g1_valid(sig.spec_enc()) && sig.spec_enc() == #[trigger] g1_mul(
                s,
                m.spec_enc(),
            ) && s % group_order() != t % group_order() && g1_mul(0, m.spec_enc())
                != m.spec_enc() ==> !r,
{
    let gen = bls12_381::G2Affine::generator();
    let lhs = bls12_381::pairing(&bls12_381::G1Affine::from(&sig.raw), &gen);
    let rhs = bls12_381::pairing(
        &bls12_381::G1Affine::from(&m.raw),
        &bls12_381::G2Affine::from(&pk.raw),
    );
    lhs == rhs
}

} // verus!
