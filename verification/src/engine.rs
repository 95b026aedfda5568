//! The curve-variant abstraction.
//!
//! `CurvePoint` gives both point groups one interface: encodings,
//! group operations, sampling and the compressed codec.  `EngineBLS`
//! assigns the two groups their roles: one carries signatures, the
//! other public keys.  `UsualBLS` puts signatures in the large
//! (96-byte) group and public keys in the small (48-byte) one;
//! `TinyBLS` swaps the roles.  The assignment is a type-level choice:
//! keys and signatures of different variants cannot be mixed.

use vstd::prelude::*;
use vstd::slice::slice_to_vec;
use crate::codec::{
    compression_bit, coordinate_in_range, infinity_bit, infinity_rest_zero, coordinate_check,
    rest_is_zero_check,
};
use crate::errors::GroupDecodingError;
use crate::messages::Message;
use crate::points::{
    g1_add, g1_add_points, g1_base, g1_base_mul, g1_decompress, g1_decompress_unchecked, g1_enc_bytes,
    g1_eq_points, g1_mul, g1_mul_point, g1_parses, g1_random_point, g1_sub, g1_sub_points,
    g1_dlog_is, g1_uncompressed, g1_uncompressed_bytes, g1_valid, g1_zero_point, g2_add, g2_add_points,
    g2_base, g2_base_mul, g2_decompress, g2_decompress_unchecked, g2_enc_bytes, g2_eq_points,
    g2_dlog_is, g2_mul, g2_mul_point, g2_parses, g2_random_point, g2_sub, g2_sub_points, g2_uncompressed,
    g2_uncompressed_bytes, g2_valid, g2_zero_point, hash_to_g1, hash_to_g1_point, hash_to_g2,
    hash_to_g2_point, tiny_pairing_check, tiny_pairing_ok, usual_pairing_check, usual_pairing_ok,
    G1Point, G2Point,
};
use crate::scalars::{group_order, Fr};

verus! {

/// A group of prime order `group_order`, seen through the canonical
/// compressed encodings of its elements.
pub trait CurvePoint: Sized + Clone + Copy {
    /// Canonical compressed encoding of the point.
    spec fn enc(&self) -> Seq<u8>;

    /// `b` is the canonical compressed encoding of a point of the
    /// prime-order subgroup.
    spec fn spec_valid(b: Seq<u8>) -> bool;

    /// `b` decodes to a curve point, in the subgroup or not.
    spec fn spec_parses(b: Seq<u8>) -> bool;

    /// Encoding of `k` times the point encoded by `b`.
    spec fn spec_mul(k: nat, b: Seq<u8>) -> Seq<u8>;

    /// Encoding of the sum of the points encoded by `a` and `b`.
    spec fn spec_add(a: Seq<u8>, b: Seq<u8>) -> Seq<u8>;

    /// Encoding of the difference of the points encoded by `a` and `b`.
    spec fn spec_sub(a: Seq<u8>, b: Seq<u8>) -> Seq<u8>;

    /// Encoding of `k` times the fixed generator of the group.
    spec fn spec_base(k: nat) -> Seq<u8>;

    /// Canonical uncompressed serialization of the point encoded by `b`.
    spec fn spec_uncompressed(b: Seq<u8>) -> Seq<u8>;

    /// Length of a compressed encoding.
    spec fn spec_size() -> nat;

    /// The error kind with which a byte string is rejected.
    spec fn spec_decode_err(b: Seq<u8>) -> GroupDecodingError;

    /// `b` encodes the multiple of the group's generator by exactly
    /// the scalars congruent to `s`.
    spec fn spec_dlog_is(b: Seq<u8>, s: nat) -> bool;

    proof fn lemma_enc_len(&self)
        ensures
            self.enc().len() == Self::spec_size(),
    ;

    fn compressed_size() -> (n: usize)
        ensures
            n == Self::spec_size(),
    ;

    /// Group addition.  Besides encoding the sum, the contract records
    /// the laws of a prime-order group that callers rely on: sums of
    /// multiples of one point, sums of multiples of the generator, and
    /// the recombination of a blinded multiple.
    fn add_point(&self, other: &Self) -> (r: Self)
        requires
            Self::spec_valid(self.enc()),
            Self::spec_valid(other.enc()),
        ensures
            Self::spec_valid(r.enc()),
            r.enc() == Self::spec_add(self.enc(), other.enc()),
            forall|x: nat, y: nat, q: Seq<u8>|
                Self::spec_valid(q) && self.enc() == #[trigger] Self::spec_mul(x, q)
                    && other.enc() == #[trigger] Self::spec_mul(y, q) ==> r.enc()
                    == Self::spec_mul((x + y) % group_order(), q),
            forall|x: nat, y: nat|
                self.enc() == #[trigger] Self::spec_base(x) && other.enc()
                    == #[trigger] Self::spec_base(y) ==> r.enc() == Self::spec_base(
                    (x + y) % group_order(),
                ),
            forall|s: nat, h: Seq<u8>, u: Seq<u8>|
                Self::spec_valid(h) && Self::spec_valid(u) && self.enc()
                    == #[trigger] Self::spec_mul(s, Self::spec_sub(h, u)) && other.enc()
                    == Self::spec_mul(s, u) ==> r.enc() == Self::spec_mul(s, h),
    ;

    /// Group subtraction.
    fn sub_point(&self, other: &Self) -> (r: Self)
        requires
            Self::spec_valid(self.enc()),
            Self::spec_valid(other.enc()),
        ensures
            Self::spec_valid(r.enc()),
            r.enc() == Self::spec_sub(self.enc(), other.enc()),
    ;

    /// Scalar multiplication.
    fn mul_scalar(&self, k: &Fr) -> (r: Self)
        requires
            Self::spec_valid(self.enc()),
            k.wf(),
        ensures
            Self::spec_valid(r.enc()),
            r.enc() == Self::spec_mul(k.spec_val(), self.enc()),
    ;

    /// Scalar multiple of the fixed generator.
    fn base_mul(k: &Fr) -> (r: Self)
        requires
            k.wf(),
        ensures
            Self::spec_valid(r.enc()),
            r.enc() == Self::spec_base(k.spec_val()),
    ;

    /// The identity element, which absorbs scalar multiplication.
    fn zero() -> (r: Self)
        ensures
            Self::spec_valid(r.enc()),
            forall|k: nat| #[trigger] Self::spec_mul(k, r.enc()) == r.enc(),
    ;

    /// A uniformly sampled group element.
    fn sample(rng: &mut rand_chacha::ChaCha8Rng) -> (r: Self)
        ensures
            Self::spec_valid(r.enc()),
    ;

    /// Equality, decided on the canonical encodings.
    fn eq_point(&self, other: &Self) -> (r: bool)
        ensures
            r == (self.enc() == other.enc()),
    ;

    /// The compressed wire form.
    fn compress(&self) -> (r: Vec<u8>)
        ensures
            r@ == self.enc(),
            r@.len() == Self::spec_size(),
    ;

    /// Decode a compressed wire form, validating curve and subgroup
    /// membership.  Succeeds exactly on canonical encodings of
    /// subgroup points of the right length; everything else is
    /// rejected with the kind that `spec_decode_err` assigns.
    fn decompress(bytes: &[u8]) -> (r: Result<Self, GroupDecodingError>)
        ensures
            r is Ok <==> bytes@.len() == Self::spec_size() && Self::spec_valid(bytes@),
            r matches Ok(p) ==> p.enc() == bytes@ && Self::spec_valid(bytes@),
            r matches Ok(p) ==> exists|s: nat| #[trigger] Self::spec_dlog_is(p.enc(), s),
            r matches Err(e) ==> e == Self::spec_decode_err(bytes@),
    ;

    /// Decode a compressed wire form without the subgroup check.  The
    /// caller accepts responsibility for the invariants it skips.
    fn decompress_unchecked(bytes: &[u8]) -> (r: Result<Self, GroupDecodingError>)
        ensures
            r is Ok <==> bytes@.len() == Self::spec_size() && Self::spec_parses(bytes@),
            r matches Ok(p) ==> p.enc() == bytes@,
            r matches Err(e) ==> e == Self::spec_decode_err(bytes@),
    ;

    /// The canonical uncompressed serialization of the point.
    fn uncompressed(&self) -> (r: Vec<u8>)
        ensures
            r@ == Self::spec_uncompressed(self.enc()),
    ;
}

/// The error kind with which a byte string is rejected as a point of
/// the first group.
pub open spec fn g1_decode_err_spec(b: Seq<u8>) -> GroupDecodingError {
    if b.len() != 48 {
        GroupDecodingError::UnexpectedInformation
    } else if !compression_bit(b) {
        GroupDecodingError::UnexpectedCompressionMode
    } else if infinity_bit(b) && !infinity_rest_zero(b) {
        GroupDecodingError::UnexpectedInformation
    } else if !coordinate_in_range(b, 0) {
        GroupDecodingError::CoordinateDecodingError
    } else if !g1_parses(b) {
        GroupDecodingError::NotOnCurve
    } else {
        GroupDecodingError::NotInSubgroup
    }
}

/// The error kind with which a byte string is rejected as a point of
/// the second group.  Its encoding carries two coordinates of the
/// quadratic extension field, each of which must be in range.
pub open spec fn g2_decode_err_spec(b: Seq<u8>) -> GroupDecodingError {
    if b.len() != 96 {
        GroupDecodingError::UnexpectedInformation
    } else if !compression_bit(b) {
        GroupDecodingError::UnexpectedCompressionMode
    } else if infinity_bit(b) && !infinity_rest_zero(b) {
        GroupDecodingError::UnexpectedInformation
    } else if !coordinate_in_range(b, 0) || !coordinate_in_range(b, 48) {
        GroupDecodingError::CoordinateDecodingError
    } else if !g2_parses(b) {
        GroupDecodingError::NotOnCurve
    } else {
        GroupDecodingError::NotInSubgroup
    }
}

/// Sort an unparseable first-group encoding of the right length into
/// its error kind.
fn g1_classify(bytes: &[u8]) -> (e: GroupDecodingError)
    requires
        bytes@.len() == 48,
    ensures
        e == g1_decode_err_spec(bytes@),
{
    if bytes[0] & 0x80 != 0x80 {
        return GroupDecodingError::UnexpectedCompressionMode;
    }
    if bytes[0] & 0x40 == 0x40 && !rest_is_zero_check(bytes) {
        return GroupDecodingError::UnexpectedInformation;
    }
    if !coordinate_check(bytes, 0) {
        return GroupDecodingError::CoordinateDecodingError;
    }
    match g1_decompress_unchecked(bytes) {
        Some(_) => GroupDecodingError::NotInSubgroup,
        None => GroupDecodingError::NotOnCurve,
    }
}

/// Sort an unparseable second-group encoding of the right length into
/// its error kind.
fn g2_classify(bytes: &[u8]) -> (e: GroupDecodingError)
    requires
        bytes@.len() == 96,
    ensures
        e == g2_decode_err_spec(bytes@),
{
    if bytes[0] & 0x80 != 0x80 {
        return GroupDecodingError::UnexpectedCompressionMode;
    }
    if bytes[0] & 0x40 == 0x40 && !rest_is_zero_check(bytes) {
        return GroupDecodingError::UnexpectedInformation;
    }
    if !coordinate_check(bytes, 0) || !coordinate_check(bytes, 48) {
        return GroupDecodingError::CoordinateDecodingError;
    }
    match g2_decompress_unchecked(bytes) {
        Some(_) => GroupDecodingError::NotInSubgroup,
        None => GroupDecodingError::NotOnCurve,
    }
}

impl CurvePoint for G1Point {
    open spec fn enc(&self) -> Seq<u8> {
        self.spec_enc()
    }

    open spec fn spec_valid(b: Seq<u8>) -> bool {
        g1_valid(b)
    }

    open spec fn spec_parses(b: Seq<u8>) -> bool {
        g1_parses(b)
    }

    open spec fn spec_mul(k: nat, b: Seq<u8>) -> Seq<u8> {
        g1_mul(k, b)
    }

    open spec fn spec_add(a: Seq<u8>, b: Seq<u8>) -> Seq<u8> {
        g1_add(a, b)
    }

    open spec fn spec_sub(a: Seq<u8>, b: Seq<u8>) -> Seq<u8> {
        g1_sub(a, b)
    }

    open spec fn spec_base(k: nat) -> Seq<u8> {
        g1_base(k)
    }

    open spec fn spec_uncompressed(b: Seq<u8>) -> Seq<u8> {
        g1_uncompressed(b)
    }

    open spec fn spec_size() -> nat {
        48
    }

    open spec fn spec_decode_err(b: Seq<u8>) -> GroupDecodingError {
        g1_decode_err_spec(b)
    }

    open spec fn spec_dlog_is(b: Seq<u8>, s: nat) -> bool {
        g1_dlog_is(b, s)
    }

    proof fn lemma_enc_len(&self) {
        crate::points::lemma_g1_enc_len(*self);
    }

    fn compressed_size() -> (n: usize) {
        48
    }

    fn add_point(&self, other: &Self) -> (r: Self) {
        g1_add_points(self, other)
    }

    fn sub_point(&self, other: &Self) -> (r: Self) {
        g1_sub_points(self, other)
    }

    fn mul_scalar(&self, k: &Fr) -> (r: Self) {
        g1_mul_point(k, self)
    }

    fn base_mul(k: &Fr) -> (r: Self) {
        g1_base_mul(k)
    }

    fn zero() -> (r: Self) {
        g1_zero_point()
    }

    fn sample(rng: &mut rand_chacha::ChaCha8Rng) -> (r: Self) {
        g1_random_point(rng)
    }

    fn eq_point(&self, other: &Self) -> (r: bool) {
        g1_eq_points(self, other)
    }

    fn compress(&self) -> (r: Vec<u8>) {
        let bytes = g1_enc_bytes(self);
        slice_to_vec(vstd::array::array_as_slice(&bytes))
    }

    fn decompress(bytes: &[u8]) -> (r: Result<Self, GroupDecodingError>) {
        if bytes.len() != 48 {
            return Err(GroupDecodingError::UnexpectedInformation);
        }
        match g1_decompress(bytes) {
            Some(p) => {
                proof {
                    let s = choose|s: nat| g1_dlog_is(p.spec_enc(), s);
                    assert(<G1Point as CurvePoint>::spec_dlog_is(p.enc(), s));
                }
                Ok(p)
            },
            None => Err(g1_classify(bytes)),
        }
    }

    fn decompress_unchecked(bytes: &[u8]) -> (r: Result<Self, GroupDecodingError>) {
        if bytes.len() != 48 {
            return Err(GroupDecodingError::UnexpectedInformation);
        }
        match g1_decompress_unchecked(bytes) {
            Some(p) => Ok(p),
            None => Err(g1_classify(bytes)),
        }
    }

    fn uncompressed(&self) -> (r: Vec<u8>) {
        let bytes = g1_uncompressed_bytes(self);
        slice_to_vec(vstd::array::array_as_slice(&bytes))
    }
}

impl CurvePoint for G2Point {
    open spec fn enc(&self) -> Seq<u8> {
        self.spec_enc()
    }

    open spec fn spec_valid(b: Seq<u8>) -> bool {
        g2_valid(b)
    }

    open spec fn spec_parses(b: Seq<u8>) -> bool {
        g2_parses(b)
    }

    open spec fn spec_mul(k: nat, b: Seq<u8>) -> Seq<u8> {
        g2_mul(k, b)
    }

    open spec fn spec_add(a: Seq<u8>, b: Seq<u8>) -> Seq<u8> {
        g2_add(a, b)
    }

    open spec fn spec_sub(a: Seq<u8>, b: Seq<u8>) -> Seq<u8> {
        g2_sub(a, b)
    }

    open spec fn spec_base(k: nat) -> Seq<u8> {
        g2_base(k)
    }

    open spec fn spec_uncompressed(b: Seq<u8>) -> Seq<u8> {
        g2_uncompressed(b)
    }

    open spec fn spec_size() -> nat {
        96
    }

    open spec fn spec_decode_err(b: Seq<u8>) -> GroupDecodingError {
        g2_decode_err_spec(b)
    }

    open spec fn spec_dlog_is(b: Seq<u8>, s: nat) -> bool {
        g2_dlog_is(b, s)
    }

    proof fn lemma_enc_len(&self) {
        crate::points::lemma_g2_enc_len(*self);
    }

    fn compressed_size() -> (n: usize) {
        96
    }

    fn add_point(&self, other: &Self) -> (r: Self) {
        g2_add_points(self, other)
    }

    fn sub_point(&self, other: &Self) -> (r: Self) {
        g2_sub_points(self, other)
    }

    fn mul_scalar(&self, k: &Fr) -> (r: Self) {
        g2_mul_point(k, self)
    }

    fn base_mul(k: &Fr) -> (r: Self) {
        g2_base_mul(k)
    }

    fn zero() -> (r: Self) {
        g2_zero_point()
    }

    fn sample(rng: &mut rand_chacha::ChaCha8Rng) -> (r: Self) {
        g2_random_point(rng)
    }

    fn eq_point(&self, other: &Self) -> (r: bool) {
        g2_eq_points(self, other)
    }

    fn compress(&self) -> (r: Vec<u8>) {
        let bytes = g2_enc_bytes(self);
        slice_to_vec(vstd::array::array_as_slice(&bytes))
    }

    fn decompress(bytes: &[u8]) -> (r: Result<Self, GroupDecodingError>) {
        if bytes.len() != 96 {
            return Err(GroupDecodingError::UnexpectedInformation);
        }
        match g2_decompress(bytes) {
            Some(p) => {
                proof {
                    let s = choose|s: nat| g2_dlog_is(p.spec_enc(), s);
                    assert(<G2Point as CurvePoint>::spec_dlog_is(p.enc(), s));
                }
                Ok(p)
            },
            None => Err(g2_classify(bytes)),
        }
    }

    fn decompress_unchecked(bytes: &[u8]) -> (r: Result<Self, GroupDecodingError>) {
        if bytes.len() != 96 {
            return Err(GroupDecodingError::UnexpectedInformation);
        }
        match g2_decompress_unchecked(bytes) {
            Some(p) => Ok(p),
            None => Err(g2_classify(bytes)),
        }
    }

    fn uncompressed(&self) -> (r: Vec<u8>) {
        let bytes = g2_uncompressed_bytes(self);
        slice_to_vec(vstd::array::array_as_slice(&bytes))
    }
}

/// Assignment of the two groups to their roles, and the operations
/// that depend on it: hashing a message onto the signature group and
/// evaluating the pairing identity.
pub trait EngineBLS: Sized {
    type SignatureGroup: CurvePoint;

    type PublicKeyGroup: CurvePoint;

    /// Encoding of the hash of a message onto the signature group.
    spec fn spec_hash(ctx: Seq<u8>, payload: Seq<u8>) -> Seq<u8>;

    /// Truth of the pairing identity for the three encodings.
    spec fn spec_pairing_ok(pk: Seq<u8>, m: Seq<u8>, sig: Seq<u8>) -> bool;

    /// Hash a message onto the signature group, using the context as
    /// the domain-separation tag.
    fn hash_to_signature_curve(message: &Message) -> (r: Self::SignatureGroup)
        ensures
            <Self::SignatureGroup as CurvePoint>::spec_valid(r.enc()),
            r.enc() == Self::spec_hash(message.context@, message.payload@),
    ;

    /// Evaluate the pairing identity on a public key, a hashed message
    /// and a signature.  When the public key is `s` times the
    /// generator of its group, the identity holds exactly when the
    /// signature is `s` times the hashed message; a signature that is
    /// `s` times any other point never passes, since multiplication by
    /// a scalar nonzero modulo the group order is injective.
    fn verify_prepared(
        pk: &Self::PublicKeyGroup,
        m: &Self::SignatureGroup,
        sig: &Self::SignatureGroup,
    ) -> (r: bool)
        ensures
            r == Self::spec_pairing_ok(pk.enc(), m.enc(), sig.enc()),
            forall|s: nat|
                pk.enc() == #[trigger] <Self::PublicKeyGroup as CurvePoint>::spec_base(s)
                    && <Self::SignatureGroup as CurvePoint>::spec_valid(m.enc())
                    && <Self::SignatureGroup as CurvePoint>::spec_valid(sig.enc()) ==> (r
                    <==> sig.enc() == <Self::SignatureGroup as CurvePoint>::spec_mul(
                    s,
                    m.enc(),
                )),
            forall|s: nat, h: Seq<u8>|
                pk.enc() == #[trigger] <Self::PublicKeyGroup as CurvePoint>::spec_base(s)
                    && s % group_order() != 0
                    && <Self::SignatureGroup as CurvePoint>::spec_valid(m.enc())
                    && <Self::SignatureGroup as CurvePoint>::spec_valid(h)
                    && <Self::SignatureGroup as CurvePoint>::spec_valid(sig.enc())
                    && sig.enc() == #[trigger] <Self::SignatureGroup as CurvePoint>::spec_mul(
                    s,
                    h,
                ) && h != m.enc() ==> !r,
            forall|s: nat, t: nat|
                pk.enc() == #[trigger] <Self::PublicKeyGroup as CurvePoint>::spec_base(t)
                    && <Self::SignatureGroup as CurvePoint>::spec_valid(m.enc())
                    && <Self::SignatureGroup as CurvePoint>::spec_valid(sig.enc())
                    && sig.enc() == #[trigger] <Self::SignatureGroup as CurvePoint>::spec_mul(
                    s,
                    m.enc(),
                ) && s % group_order() != t % group_order()
                    && <Self::SignatureGroup as CurvePoint>::spec_mul(0, m.enc()) != m.enc()
                    ==> !r,
    ;
}

/// The usual assignment: 96-byte signatures, 48-byte public keys.
#[derive(Debug)]
pub struct UsualBLS;

/// The swapped assignment: 48-byte signatures, 96-byte public keys.
#[derive(Debug)]
pub struct TinyBLS;

/// The default variant.
pub type ZBLS = UsualBLS;

impl EngineBLS for UsualBLS {
    type SignatureGroup = G2Point;

    type PublicKeyGroup = G1Point;

    open spec fn spec_hash(ctx: Seq<u8>, payload: Seq<u8>) -> Seq<u8> {
        hash_to_g2(ctx, payload)
    }

    open spec fn spec_pairing_ok(pk: Seq<u8>, m: Seq<u8>, sig: Seq<u8>) -> bool {
        usual_pairing_ok(pk, m, sig)
    }

    fn hash_to_signature_curve(message: &Message) -> (r: G2Point) {
        hash_to_g2_point(message.context.as_slice(), message.payload.as_slice())
    }

    fn verify_prepared(pk: &G1Point, m: &G2Point, sig: &G2Point) -> (r: bool) {
        usual_pairing_check(pk, m, sig)
    }
}

impl EngineBLS for TinyBLS {
    type SignatureGroup = G1Point;

    type PublicKeyGroup = G2Point;

    open spec fn spec_hash(ctx: Seq<u8>, payload: Seq<u8>) -> Seq<u8> {
        hash_to_g1(ctx, payload)
    }

    open spec fn spec_pairing_ok(pk: Seq<u8>, m: Seq<u8>, sig: Seq<u8>) -> bool {
        tiny_pairing_ok(pk, m, sig)
    }

    fn hash_to_signature_curve(message: &Message) -> (r: G1Point) {
        hash_to_g1_point(message.context.as_slice(), message.payload.as_slice())
    }

    fn verify_prepared(pk: &G2Point, m: &G1Point, sig: &G1Point) -> (r: bool) {
        tiny_pairing_check(pk, m, sig)
    }
}

} // verus!
