//! Detached signatures and public keys.
//!
//! Each wraps one group element of its curve variant.  Equality is
//! structural on the underlying element, and each type compresses to
//! the fixed-size canonical wire form of its group and decompresses
//! from it with full validation.

use vstd::prelude::*;
use crate::engine::{CurvePoint, EngineBLS};
use crate::scalars::group_order;
use crate::errors::GroupDecodingError;
use crate::messages::Message;

verus! {

/// Detached BLS signature: one element of the signature group.
#[derive(Debug)]
pub struct Signature<E: EngineBLS>(pub E::SignatureGroup);

/// BLS public key: one element of the public-key group.
#[derive(Debug)]
pub struct PublicKey<E: EngineBLS>(pub E::PublicKeyGroup);

impl<E: EngineBLS> Clone for Signature<E> {
    fn clone(&self) -> (r: Self)
        ensures
            r.0 == self.0,
    {
        Signature(self.0)
    }
}

impl<E: EngineBLS> Copy for Signature<E> {

}

impl<E: EngineBLS> Clone for PublicKey<E> {
    fn clone(&self) -> (r: Self)
        ensures
            r.0 == self.0,
    {
        PublicKey(self.0)
    }
}

impl<E: EngineBLS> Copy for PublicKey<E> {

}

impl<E: EngineBLS> PartialEq for Signature<E> {
    fn eq(&self, other: &Self) -> (r: bool) {
        self.0.eq_point(&other.0)
    }
}

impl<E: EngineBLS> Eq for Signature<E> {

}

impl<E: EngineBLS> vstd::std_specs::cmp::PartialEqSpecImpl for Signature<E> {
    open spec fn obeys_eq_spec() -> bool {
        true
    }

    open spec fn eq_spec(&self, other: &Self) -> bool {
        self.0.enc() == other.0.enc()
    }
}

impl<E: EngineBLS> PartialEq for PublicKey<E> {
    fn eq(&self, other: &Self) -> (r: bool) {
        self.0.eq_point(&other.0)
    }
}

impl<E: EngineBLS> Eq for PublicKey<E> {

}

impl<E: EngineBLS> vstd::std_specs::cmp::PartialEqSpecImpl for PublicKey<E> {
    open spec fn obeys_eq_spec() -> bool {
        true
    }

    open spec fn eq_spec(&self, other: &Self) -> bool {
        self.0.enc() == other.0.enc()
    }
}

impl<E: EngineBLS> Signature<E> {
    /// The wrapped element is a valid point of the signature group.
    pub open spec fn wf(&self) -> bool {
        <E::SignatureGroup as CurvePoint>::spec_valid(self.0.enc())
    }

    /// Verify the signature on a message against a public key: the
    /// pairing identity over the prepared public key, hashed message
    /// and signature.  When the public key is `s` times the generator
    /// and the signature a valid group element, the check accepts
    /// exactly the encoding of `s` times the hashed message; a
    /// signature that is `s` times any other point than this message's
    /// hash is rejected, since multiplication by a scalar nonzero
    /// modulo the group order is injective; and the same signature is
    /// rejected against a public key of a different scalar class,
    /// unless the hashed message is the identity.
    pub fn verify(&self, message: &Message, publickey: &PublicKey<E>) -> (r: bool)
        ensures
            r == E::spec_pairing_ok(
                publickey.0.enc(),
                E::spec_hash(message.context@, message.payload@),
                self.0.enc(),
            ),
            forall|s: nat|
                publickey.0.enc()
                    == #[trigger] <E::PublicKeyGroup as CurvePoint>::spec_base(s) && self.wf()
                    ==> (r <==> self.0.enc() == <E::SignatureGroup as CurvePoint>::spec_mul(
                    s,
                    E::spec_hash(message.context@, message.payload@),
                )),
            forall|s: nat, h: Seq<u8>|
                publickey.0.enc()
                    == #[trigger] <E::PublicKeyGroup as CurvePoint>::spec_base(s)
                    && s % group_order() != 0
                    && <E::SignatureGroup as CurvePoint>::spec_valid(h) && self.wf()
                    && self.0.enc() == #[trigger] <E::SignatureGroup as CurvePoint>::spec_mul(
                    s,
                    h,
                ) && h != E::spec_hash(message.context@, message.payload@) ==> !r,
            forall|s: nat, t: nat|
                publickey.0.enc()
                    == #[trigger] <E::PublicKeyGroup as CurvePoint>::spec_base(t) && self.wf()
                    && self.0.enc() == #[trigger] <E::SignatureGroup as CurvePoint>::spec_mul(
                    s,
                    E::spec_hash(message.context@, message.payload@),
                ) && s % group_order() != t % group_order()
                    && <E::SignatureGroup as CurvePoint>::spec_mul(
                    0,
                    E::spec_hash(message.context@, message.payload@),
                ) != E::spec_hash(message.context@, message.payload@) ==> !r,
    {
        let m = E::hash_to_signature_curve(message);
        E::verify_prepared(&publickey.0, &m, &self.0)
    }

    /// The compressed wire form of the signature.
    pub fn compress(&self) -> (r: Vec<u8>)
        ensures
            r@ == self.0.enc(),
            r@.len() == <E::SignatureGroup as CurvePoint>::spec_size(),
    {
        self.0.compress()
    }

    /// Decode a compressed wire form, validating curve and subgroup
    /// membership.
    pub fn decompress(bytes: &[u8]) -> (r: Result<Self, GroupDecodingError>)
        ensures
            r is Ok <==> bytes@.len() == <E::SignatureGroup as CurvePoint>::spec_size()
                && <E::SignatureGroup as CurvePoint>::spec_valid(bytes@),
            r matches Ok(p) ==> p.0.enc() == bytes@ && p.wf(),
            r matches Err(e) ==> e == <E::SignatureGroup as CurvePoint>::spec_decode_err(bytes@),
    {
        match <E::SignatureGroup as CurvePoint>::decompress(bytes) {
            Ok(p) => Ok(Signature(p)),
            Err(e) => Err(e),
        }
    }

    /// Decode a compressed wire form of the right length, without the
    /// subgroup validation.  Misuse can break the signature-group
    /// invariants; callers accept that responsibility.
    pub fn decompress_unchecked(bytes: &[u8]) -> (r: Result<Self, GroupDecodingError>)
        ensures
            r is Ok <==> bytes@.len() == <E::SignatureGroup as CurvePoint>::spec_size()
                && <E::SignatureGroup as CurvePoint>::spec_parses(bytes@),
            r matches Ok(p) ==> p.0.enc() == bytes@,
            r matches Err(e) ==> e == <E::SignatureGroup as CurvePoint>::spec_decode_err(bytes@),
    {
        match <E::SignatureGroup as CurvePoint>::decompress_unchecked(bytes) {
            Ok(p) => Ok(Signature(p)),
            Err(e) => Err(e),
        }
    }
}

impl<E: EngineBLS> PublicKey<E> {
    /// The wrapped element is a valid point of the public-key group.
    pub open spec fn wf(&self) -> bool {
        <E::PublicKeyGroup as CurvePoint>::spec_valid(self.0.enc())
    }

    /// Symmetric entry point to `Signature::verify`.
    pub fn verify(&self, message: &Message, signature: &Signature<E>) -> (r: bool)
        ensures
            r == E::spec_pairing_ok(
                self.0.enc(),
                E::spec_hash(message.context@, message.payload@),
                signature.0.enc(),
            ),
            forall|s: nat|
                self.0.enc()
                    == #[trigger] <E::PublicKeyGroup as CurvePoint>::spec_base(s)
                    && signature.wf() ==> (r <==> signature.0.enc() == <E::SignatureGroup as CurvePoint>::spec_mul(
                    s,
                    E::spec_hash(message.context@, message.payload@),
                )),
            forall|s: nat, h: Seq<u8>|
                self.0.enc() == #[trigger] <E::PublicKeyGroup as CurvePoint>::spec_base(s)
                    && s % group_order() != 0
                    && <E::SignatureGroup as CurvePoint>::spec_valid(h) && signature.wf()
                    && signature.0.enc() == #[trigger] <E::SignatureGroup as CurvePoint>::spec_mul(
                    s,
                    h,
                ) && h != E::spec_hash(message.context@, message.payload@) ==> !r,
            forall|s: nat, t: nat|
                self.0.enc() == #[trigger] <E::PublicKeyGroup as CurvePoint>::spec_base(t)
                    && signature.wf()
                    && signature.0.enc() == #[trigger] <E::SignatureGroup as CurvePoint>::spec_mul(
                    s,
                    E::spec_hash(message.context@, message.payload@),
                ) && s % group_order() != t % group_order()
                    && <E::SignatureGroup as CurvePoint>::spec_mul(
                    0,
                    E::spec_hash(message.context@, message.payload@),
                ) != E::spec_hash(message.context@, message.payload@) ==> !r,
    {
        signature.verify(message, self)
    }

    /// The compressed wire form of the public key.
    pub fn compress(&self) -> (r: Vec<u8>)
        ensures
            r@ == self.0.enc(),
            r@.len() == <E::PublicKeyGroup as CurvePoint>::spec_size(),
    {
        self.0.compress()
    }

    /// Decode a compressed wire form, validating curve and subgroup
    /// membership.
    pub fn decompress(bytes: &[u8]) -> (r: Result<Self, GroupDecodingError>)
        ensures
            r is Ok <==> bytes@.len() == <E::PublicKeyGroup as CurvePoint>::spec_size()
                && <E::PublicKeyGroup as CurvePoint>::spec_valid(bytes@),
            r matches Ok(p) ==> p.0.enc() == bytes@ && p.wf(),
            r matches Ok(p) ==> exists|s: nat|
                #[trigger] <E::PublicKeyGroup as CurvePoint>::spec_dlog_is(p.0.enc(), s),
            r matches Err(e) ==> e == <E::PublicKeyGroup as CurvePoint>::spec_decode_err(bytes@),
    {
        match <E::PublicKeyGroup as CurvePoint>::decompress(bytes) {
            Ok(p) => Ok(PublicKey(p)),
            Err(e) => Err(e),
        }
    }

    /// Decode a compressed wire form of the right length, without the
    /// subgroup validation.  Misuse can break the public-key-group
    /// invariants; callers accept that responsibility.
    pub fn decompress_unchecked(bytes: &[u8]) -> (r: Result<Self, GroupDecodingError>)
        ensures
            r is Ok <==> bytes@.len() == <E::PublicKeyGroup as CurvePoint>::spec_size()
                && <E::PublicKeyGroup as CurvePoint>::spec_parses(bytes@),
            r matches Ok(p) ==> p.0.enc() == bytes@,
            r matches Err(e) ==> e == <E::PublicKeyGroup as CurvePoint>::spec_decode_err(bytes@),
    {
        match <E::PublicKeyGroup as CurvePoint>::decompress_unchecked(bytes) {
            Ok(p) => Ok(PublicKey(p)),
            Err(e) => Err(e),
        }
    }
}

/// The byte string to which a compressed point of `P`'s group
/// decompresses: itself, when it is a valid encoding of the right
/// length.
pub open spec fn spec_decompress<P: CurvePoint>(b: Seq<u8>) -> Option<Seq<u8>> {
    if b.len() == P::spec_size() && P::spec_valid(b) {
        Some(b)
    } else {
        None
    }
}

/// Round trip of the wire codec: the compressed form of a valid point
/// decompresses, to the point itself.
pub proof fn lemma_compress_roundtrip<P: CurvePoint>(p: P)
    requires
        P::spec_valid(p.enc()),
    ensures
        spec_decompress::<P>(p.enc()) == Some(p.enc()),
{
    p.lemma_enc_len();
}

} // verus!
