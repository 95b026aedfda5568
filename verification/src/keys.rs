//! The secret-key lifecycle: a plain single-scalar form and a
//! protected split form, with side-channel-resistant signing.
//!
//! The split form keeps two shares whose sum is the secret, and a
//! point-mutation state: the last point processed (`old_unsigned`) and
//! its image under the secret (`old_signed`).  Signing applies the
//! current shares only to the difference between the fresh hashed
//! message and the remembered point, then recombines with the
//! remembered image; the result still encodes the secret times the
//! hashed message, which is what the contracts state and the proofs
//! establish.

use core::marker::PhantomData;
use vstd::arithmetic::div_mod::{
    lemma_add_mod_noop, lemma_mod_add_multiples_vanish, lemma_small_mod,
};
use vstd::prelude::*;
use crate::codec::append_bytes;
use crate::engine::{CurvePoint, EngineBLS};
use crate::messages::Message;
use crate::scalars::{
    group_order, le_bytes_to_nat, scalar_add, scalar_from_bytes, scalar_random, scalar_sub,
    scalar_to_bytes, scalar_zero, Fr,
};
use crate::sig::{PublicKey, Signature};

verus! {

/// Secret signing key lacking the side-channel protections of key
/// splitting.  Avoid using directly where an adversary can observe
/// timing or power.
pub struct SecretKeyVT<E: EngineBLS>(pub Fr, pub PhantomData<E>);

impl<E: EngineBLS> Clone for SecretKeyVT<E> {
    fn clone(&self) -> (r: Self)
        ensures
            r.0 == self.0,
    {
        SecretKeyVT(self.0, PhantomData)
    }
}

impl<E: EngineBLS> SecretKeyVT<E> {
    /// Generate a secret key without side-channel protections.
    pub fn generate(rng: &mut rand_chacha::ChaCha8Rng) -> (r: Self)
        ensures
            r.0.wf(),
    {
        SecretKeyVT(scalar_random(rng), PhantomData)
    }

    /// The canonical little-endian representation of the scalar.
    pub fn to_repr(&self) -> (r: [u8; 32])
        ensures
            r@ == self.0.spec_bytes(),
            le_bytes_to_nat(r@) == self.0.spec_val(),
    {
        scalar_to_bytes(&self.0)
    }

    /// Append the canonical little-endian representation to a buffer.
    pub fn write(&self, writer: &mut Vec<u8>)
        ensures
            final(writer)@ == old(writer)@ + self.0.spec_bytes(),
    {
        let repr = self.to_repr();
        append_bytes(writer, vstd::array::array_as_slice(&repr));
    }

    /// Recover a secret key from its representation, which succeeds
    /// exactly when the value is a canonical field element.
    pub fn from_repr(repr: [u8; 32]) -> (r: Option<Self>)
        ensures
            r is Some <==> le_bytes_to_nat(repr@) < group_order(),
            r matches Some(s) ==> s.0.wf() && s.0.spec_val() == le_bytes_to_nat(repr@),
    {
        match scalar_from_bytes(&repr) {
            Some(k) => Some(SecretKeyVT(k, PhantomData)),
            None => None,
        }
    }

    /// Read a representation back from the front of a buffer, which
    /// succeeds exactly when the buffer holds enough bytes.
    pub fn read(reader: &[u8]) -> (r: Option<[u8; 32]>)
        ensures
            r is Some <==> reader@.len() >= 32,
            r matches Some(a) ==> a@ == reader@.subrange(0, 32),
    {
        if reader.len() < 32 {
            return None;
        }
        Some(crate::codec::take32(reader))
    }

    /// Sign without side-channel protections: the signature encodes
    /// the secret times the hashed message.
    pub fn sign(&self, message: &Message) -> (sig: Signature<E>)
        requires
            self.0.wf(),
        ensures
            sig.wf(),
            sig.0.enc() == <E::SignatureGroup as CurvePoint>::spec_mul(
                self.0.spec_val(),
                E::spec_hash(message.context@, message.payload@),
            ),
    {
        let h = E::hash_to_signature_curve(message);
        Signature(h.mul_scalar(&self.0))
    }

    /// Convert into a split key without resplitting or point mutation:
    /// the first share is the whole secret, the second zero, and both
    /// remembered points are the identity, which absorbs scalar
    /// multiplication.
    pub fn into_split_dirty(&self) -> (r: SecretKey<E>)
        requires
            self.0.wf(),
        ensures
            r.wf(),
            r.secret_val() == self.0.spec_val(),
            r.spec_shares().0 == self.0,
            r.spec_shares().1.spec_val() == 0,
            forall|k: nat|
                #[trigger] <E::SignatureGroup as CurvePoint>::spec_mul(k, r.spec_unsigned_enc())
                    == r.spec_unsigned_enc(),
            r.spec_signed_enc() == r.spec_unsigned_enc(),
    {
        let z = <E::SignatureGroup as CurvePoint>::zero();
        let key1 = scalar_zero();
        proof {
            lemma_small_mod(self.0.spec_val(), group_order());
        }
        SecretKey { key0: self.0, key1, old_unsigned: z, old_signed: z }
    }

    /// Convert into a split key, applying the side-channel
    /// protections: resplit the shares and blind the remembered point.
    pub fn into_split(&self, rng: &mut rand_chacha::ChaCha8Rng) -> (r: SecretKey<E>)
        requires
            self.0.wf(),
        ensures
            r.wf(),
            r.secret_val() == self.0.spec_val(),
    {
        let mut s = self.into_split_dirty();
        s.resplit(rng);
        s.init_point_mutation(rng);
        s
    }

    /// Derive the public key: the secret times the generator of the
    /// public-key group.
    pub fn into_public(&self) -> (r: PublicKey<E>)
        requires
            self.0.wf(),
        ensures
            r.wf(),
            r.0.enc() == <E::PublicKeyGroup as CurvePoint>::spec_base(self.0.spec_val()),
    {
        PublicKey(<E::PublicKeyGroup as CurvePoint>::base_mul(&self.0))
    }
}

/// Secret signing key split into two shares for side-channel
/// protection, with the point-mutation state that keeps the shares
/// from ever multiplying an externally predictable point.
///
/// Signing mutates this state and therefore needs exclusive mutable
/// access for the duration of a resplit and signing; callers that
/// share one key across threads must serialize through a lock or a
/// dedicated owner.
pub struct SecretKey<E: EngineBLS> {
    key0: Fr,
    key1: Fr,
    old_unsigned: E::SignatureGroup,
    old_signed: E::SignatureGroup,
}

impl<E: EngineBLS> Clone for SecretKey<E> {
    fn clone(&self) -> (r: Self)
        ensures
            r == *self,
    {
        SecretKey {
            key0: self.key0,
            key1: self.key1,
            old_unsigned: self.old_unsigned,
            old_signed: self.old_signed,
        }
    }
}

impl<E: EngineBLS> SecretKey<E> {
    /// The secret scalar: the sum of the two shares.
    pub closed spec fn secret_val(&self) -> nat {
        (self.key0.spec_val() + self.key1.spec_val()) % group_order()
    }

    /// The two shares.
    pub closed spec fn spec_shares(&self) -> (Fr, Fr) {
        (self.key0, self.key1)
    }

    /// Encoding of the remembered point.
    pub closed spec fn spec_unsigned_enc(&self) -> Seq<u8> {
        self.old_unsigned.enc()
    }

    /// Encoding of the remembered image.
    pub closed spec fn spec_signed_enc(&self) -> Seq<u8> {
        self.old_signed.enc()
    }

    /// Both shares are field elements, both remembered points are
    /// valid group elements, and the remembered image is the secret
    /// times the remembered point.
    pub closed spec fn wf(&self) -> bool {
        &&& self.key0.wf()
        &&& self.key1.wf()
        &&& <E::SignatureGroup as CurvePoint>::spec_valid(self.old_unsigned.enc())
        &&& <E::SignatureGroup as CurvePoint>::spec_valid(self.old_signed.enc())
        &&& self.old_signed.enc() == <E::SignatureGroup as CurvePoint>::spec_mul(
            self.secret_val(),
            self.old_unsigned.enc(),
        )
    }

    /// Generate a split key without the initial point mutation: both
    /// remembered points are the identity, which absorbs scalar
    /// multiplication.
    pub fn generate_dirty(rng: &mut rand_chacha::ChaCha8Rng) -> (r: Self)
        ensures
            r.wf(),
            forall|k: nat|
                #[trigger] <E::SignatureGroup as CurvePoint>::spec_mul(k, r.spec_unsigned_enc())
                    == r.spec_unsigned_enc(),
            r.spec_signed_enc() == r.spec_unsigned_enc(),
    {
        let key0 = scalar_random(rng);
        let key1 = scalar_random(rng);
        let z = <E::SignatureGroup as CurvePoint>::zero();
        SecretKey { key0, key1, old_unsigned: z, old_signed: z }
    }

    /// Generate a split key with the point mutation initialized.
    pub fn generate(rng: &mut rand_chacha::ChaCha8Rng) -> (r: Self)
        ensures
            r.wf(),
    {
        let mut s = Self::generate_dirty(rng);
        s.init_point_mutation(rng);
        s
    }

    /// Blind the point-mutation state with a fresh random point: both
    /// shares sign the same random point, so that no adversary can
    /// foresee the first point the shares later multiply.
    pub fn init_point_mutation(&mut self, rng: &mut rand_chacha::ChaCha8Rng)
        requires
            old(self).wf(),
        ensures
            final(self).wf(),
            final(self).secret_val() == old(self).secret_val(),
            final(self).spec_shares() == old(self).spec_shares(),
    {
        let s = <E::SignatureGroup as CurvePoint>::sample(rng);
        let t0 = s.mul_scalar(&self.key0);
        let t1 = s.mul_scalar(&self.key1);
        let signed = t0.add_point(&t1);
        self.old_unsigned = s;
        self.old_signed = signed;
    }

    /// Collapse the shares into a single scalar, losing the
    /// side-channel protections.
    pub fn into_vartime(&self) -> (r: SecretKeyVT<E>)
        requires
            self.wf(),
        ensures
            r.0.wf(),
            r.0.spec_val() == self.secret_val(),
    {
        SecretKeyVT(scalar_add(&self.key0, &self.key1), PhantomData)
    }

    /// Randomly adjust how the secret is split between the two
    /// shares.  The sum of the shares is unchanged.
    #[inline(never)]
    pub fn resplit(&mut self, rng: &mut rand_chacha::ChaCha8Rng)
        requires
            old(self).wf(),
        ensures
            final(self).wf(),
            final(self).secret_val() == old(self).secret_val(),
            final(self).spec_unsigned_enc() == old(self).spec_unsigned_enc(),
            final(self).spec_signed_enc() == old(self).spec_signed_enc(),
    {
        let x = scalar_random(rng);
        let ghost k0: nat = self.key0.spec_val();
        let ghost k1: nat = self.key1.spec_val();
        self.key0 = scalar_add(&self.key0, &x);
        self.key1 = scalar_sub(&self.key1, &x);
        proof {
            let r = group_order() as int;
            let xv = x.spec_val() as int;
            let a = k0 as int + xv;
            let b = k1 as int + r - xv;
            lemma_add_mod_noop(a, b, r);
            lemma_mod_add_multiples_vanish(k0 as int + k1 as int, r);
            assert(final(self).secret_val() == old(self).secret_val());
        }
    }

    /// Sign without the resplit that provides side-channel
    /// protection.  The shares multiply only the difference between
    /// the hashed message and the remembered point; recombining with
    /// the remembered image yields the secret times the hashed
    /// message, exactly as the plain path.  The shares are untouched;
    /// the difference becomes the new remembered point and its image
    /// under the secret the new remembered image.
    pub fn sign_once(&mut self, message: &Message) -> (sig: Signature<E>)
        requires
            old(self).wf(),
        ensures
            final(self).wf(),
            final(self).secret_val() == old(self).secret_val(),
            final(self).spec_shares() == old(self).spec_shares(),
            final(self).spec_unsigned_enc() == <E::SignatureGroup as CurvePoint>::spec_sub(
                E::spec_hash(message.context@, message.payload@),
                old(self).spec_unsigned_enc(),
            ),
            final(self).spec_signed_enc() == <E::SignatureGroup as CurvePoint>::spec_mul(
                old(self).secret_val(),
                final(self).spec_unsigned_enc(),
            ),
            sig.wf(),
            sig.0.enc() == <E::SignatureGroup as CurvePoint>::spec_mul(
                old(self).secret_val(),
                E::spec_hash(message.context@, message.payload@),
            ),
    {
        let ghost sec: nat = self.secret_val();
        let ghost u_enc = self.old_unsigned.enc();
        let h = E::hash_to_signature_curve(message);
        let z = h.sub_point(&self.old_unsigned);
        let t0 = z.mul_scalar(&self.key0);
        let t1 = z.mul_scalar(&self.key1);
        let signed_delta = t0.add_point(&t1);
        proof {
            assert(signed_delta.enc() == <E::SignatureGroup as CurvePoint>::spec_mul(
                sec,
                z.enc(),
            ));
            assert(signed_delta.enc() == <E::SignatureGroup as CurvePoint>::spec_mul(
                sec,
                <E::SignatureGroup as CurvePoint>::spec_sub(h.enc(), u_enc),
            ));
        }
        let result = signed_delta.add_point(&self.old_signed);
        proof {
            assert(result.enc() == <E::SignatureGroup as CurvePoint>::spec_mul(sec, h.enc()));
        }
        self.old_unsigned = z;
        self.old_signed = signed_delta;
        Signature(result)
    }

    /// Sign after resplitting the shares: the public protected-signing
    /// entry point.  The signature is the same as the plain path
    /// produces for the same secret and message.
    pub fn sign(&mut self, message: &Message, rng: &mut rand_chacha::ChaCha8Rng) -> (sig:
        Signature<E>)
        requires
            old(self).wf(),
        ensures
            final(self).wf(),
            final(self).secret_val() == old(self).secret_val(),
            final(self).spec_unsigned_enc() == <E::SignatureGroup as CurvePoint>::spec_sub(
                E::spec_hash(message.context@, message.payload@),
                old(self).spec_unsigned_enc(),
            ),
            final(self).spec_signed_enc() == <E::SignatureGroup as CurvePoint>::spec_mul(
                old(self).secret_val(),
                final(self).spec_unsigned_enc(),
            ),
            sig.wf(),
            sig.0.enc() == <E::SignatureGroup as CurvePoint>::spec_mul(
                old(self).secret_val(),
                E::spec_hash(message.context@, message.payload@),
            ),
    {
        self.resplit(rng);
        self.sign_once(message)
    }

    /// Derive the public key from the shares: each share multiplies
    /// the generator, and the sum is the secret times the generator.
    pub fn into_public(&self) -> (r: PublicKey<E>)
        requires
            self.wf(),
        ensures
            r.wf(),
            r.0.enc() == <E::PublicKeyGroup as CurvePoint>::spec_base(self.secret_val()),
    {
        let p0 = <E::PublicKeyGroup as CurvePoint>::base_mul(&self.key0);
        let p1 = <E::PublicKeyGroup as CurvePoint>::base_mul(&self.key1);
        PublicKey(p0.add_point(&p1))
    }
}

/// For one secret and one message, the protected and the plain signing
/// paths agree: whatever point-mutation state the split key carries
/// and however often it was resplit, both `SecretKey::sign` and
/// `SecretKeyVT::sign` return the encoding of the secret times the
/// hashed message.
pub proof fn lemma_sign_equivalence<E: EngineBLS>(
    vt: SecretKeyVT<E>,
    sk: SecretKey<E>,
    ctx: Seq<u8>,
    payload: Seq<u8>,
)
    requires
        vt.0.wf(),
        sk.wf(),
        sk.secret_val() == vt.0.spec_val(),
    ensures
        <E::SignatureGroup as CurvePoint>::spec_mul(sk.secret_val(), E::spec_hash(ctx, payload))
            == <E::SignatureGroup as CurvePoint>::spec_mul(
            vt.0.spec_val(),
            E::spec_hash(ctx, payload),
        ),
{
}

/// Resplitting leaves the sum of the shares unchanged — stated by
/// `resplit`'s contract — so a signing after any sequence of resplits
/// returns the same signature as one before them: both encode the
/// unchanged secret times the hashed message.
pub proof fn lemma_resplit_invariance<E: EngineBLS>(
    before: SecretKey<E>,
    after: SecretKey<E>,
    ctx: Seq<u8>,
    payload: Seq<u8>,
)
    requires
        before.wf(),
        after.wf(),
        after.secret_val() == before.secret_val(),
    ensures
        <E::SignatureGroup as CurvePoint>::spec_mul(
            after.secret_val(),
            E::spec_hash(ctx, payload),
        ) == <E::SignatureGroup as CurvePoint>::spec_mul(
            before.secret_val(),
            E::spec_hash(ctx, payload),
        ),
{
}

} // verus!
