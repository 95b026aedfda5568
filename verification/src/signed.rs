//! Keypairs and signed messages.
//!
//! A keypair caches the public key beside the secret so that signing
//! need not recompute it; the cache always equals the derivation from
//! the secret.  Signing produces a `SignedMessage` that carries the
//! message, the public key and the signature, and verification
//! recomputes the pairing identity.

use vstd::prelude::*;
use crate::engine::{CurvePoint, EngineBLS};
use crate::keys::{SecretKey, SecretKeyVT};
use crate::messages::Message;
use crate::rng::fresh_rng;
use crate::scalars::group_order;
use crate::sig::{PublicKey, Signature};

verus! {

/// Keypair in the unprotected single-scalar form.
pub struct KeypairVT<E: EngineBLS> {
    pub secret: SecretKeyVT<E>,
    pub public: PublicKey<E>,
}

impl<E: EngineBLS> Clone for KeypairVT<E> {
    fn clone(&self) -> (r: Self)
        ensures
            r.secret.0 == self.secret.0,
            r.public.0 == self.public.0,
    {
        KeypairVT { secret: self.secret.clone(), public: self.public.clone() }
    }
}

impl<E: EngineBLS> KeypairVT<E> {
    /// The cached public key is derived from the secret.
    pub open spec fn wf(&self) -> bool {
        &&& self.secret.0.wf()
        &&& <E::PublicKeyGroup as CurvePoint>::spec_valid(self.public.0.enc())
        &&& self.public.0.enc() == <E::PublicKeyGroup as CurvePoint>::spec_base(
            self.secret.0.spec_val(),
        )
    }

    /// Generate a keypair without side-channel protections.
    pub fn generate(rng: &mut rand_chacha::ChaCha8Rng) -> (r: Self)
        ensures
            r.wf(),
    {
        let secret = SecretKeyVT::generate(rng);
        let public = secret.into_public();
        KeypairVT { secret, public }
    }

    /// Convert into a protected keypair, applying the side-channel
    /// protections.  The secret and the public key are unchanged.
    pub fn into_split(&self, rng: &mut rand_chacha::ChaCha8Rng) -> (r: Keypair<E>)
        requires
            self.wf(),
        ensures
            r.wf(),
            r.secret.secret_val() == self.secret.0.spec_val(),
            r.public.0.enc() == self.public.0.enc(),
    {
        let secret = self.secret.into_split(rng);
        let public = self.public;
        Keypair { secret, public }
    }

    /// Sign a message on the unprotected path: the signature encodes
    /// the secret times the hashed message.
    pub fn sign(&self, message: &Message) -> (r: SignedMessage<E>)
        requires
            self.wf(),
        ensures
            r.message.context@ == message.context@,
            r.message.payload@ == message.payload@,
            r.publickey.0.enc() == self.public.0.enc(),
            r.signature.wf(),
            r.signature.0.enc() == <E::SignatureGroup as CurvePoint>::spec_mul(
                self.secret.0.spec_val(),
                E::spec_hash(message.context@, message.payload@),
            ),
    {
        let signature = self.secret.sign(message);
        SignedMessage { message: message.clone(), publickey: self.public, signature }
    }
}

/// Keypair in the protected split form.
pub struct Keypair<E: EngineBLS> {
    pub secret: SecretKey<E>,
    pub public: PublicKey<E>,
}

impl<E: EngineBLS> Clone for Keypair<E> {
    fn clone(&self) -> (r: Self)
        ensures
            r.secret == self.secret,
            r.public.0 == self.public.0,
    {
        Keypair { secret: self.secret.clone(), public: self.public.clone() }
    }
}

impl<E: EngineBLS> Keypair<E> {
    /// The cached public key is derived from the secret.
    pub open spec fn wf(&self) -> bool {
        &&& self.secret.wf()
        &&& <E::PublicKeyGroup as CurvePoint>::spec_valid(self.public.0.enc())
        &&& self.public.0.enc() == <E::PublicKeyGroup as CurvePoint>::spec_base(
            self.secret.secret_val(),
        )
    }

    /// Generate a protected keypair.
    pub fn generate(rng: &mut rand_chacha::ChaCha8Rng) -> (r: Self)
        ensures
            r.wf(),
    {
        let secret = SecretKey::generate(rng);
        let public = secret.into_public();
        Keypair { secret, public }
    }

    /// Collapse into the unprotected form.  The secret and the public
    /// key are unchanged.
    pub fn into_vartime(&self) -> (r: KeypairVT<E>)
        requires
            self.wf(),
        ensures
            r.wf(),
            r.secret.0.spec_val() == self.secret.secret_val(),
            r.public.0.enc() == self.public.0.enc(),
    {
        let secret = self.secret.into_vartime();
        let public = self.public;
        KeypairVT { secret, public }
    }

    /// Sign a message on the protected path with a caller-supplied
    /// generator for the key resplit.  The signature is the same as
    /// the unprotected path produces for the same secret and message.
    pub fn sign_with_rng(&mut self, message: &Message, rng: &mut rand_chacha::ChaCha8Rng) -> (r:
        SignedMessage<E>)
        requires
            old(self).wf(),
        ensures
            final(self).wf(),
            final(self).secret.secret_val() == old(self).secret.secret_val(),
            final(self).public.0.enc() == old(self).public.0.enc(),
            r.message.context@ == message.context@,
            r.message.payload@ == message.payload@,
            r.publickey.0.enc() == old(self).public.0.enc(),
            r.signature.wf(),
            r.signature.0.enc() == <E::SignatureGroup as CurvePoint>::spec_mul(
                old(self).secret.secret_val(),
                E::spec_hash(message.context@, message.payload@),
            ),
    {
        let signature = self.secret.sign(message, rng);
        SignedMessage { message: message.clone(), publickey: self.public, signature }
    }

    /// Sign a message on the protected path, drawing the resplit
    /// randomness from a freshly seeded generator.
    pub fn sign(&mut self, message: &Message) -> (r: SignedMessage<E>)
        requires
            old(self).wf(),
        ensures
            final(self).wf(),
            final(self).secret.secret_val() == old(self).secret.secret_val(),
            final(self).public.0.enc() == old(self).public.0.enc(),
            r.message.context@ == message.context@,
            r.message.payload@ == message.payload@,
            r.publickey.0.enc() == old(self).public.0.enc(),
            r.signature.wf(),
            r.signature.0.enc() == <E::SignatureGroup as CurvePoint>::spec_mul(
                old(self).secret.secret_val(),
                E::spec_hash(message.context@, message.payload@),
            ),
    {
        let mut rng = fresh_rng();
        self.sign_with_rng(message, &mut rng)
    }
}

/// A message with its signature and the signing public key attached.
pub struct SignedMessage<E: EngineBLS> {
    pub message: Message,
    pub publickey: PublicKey<E>,
    pub signature: Signature<E>,
}

impl<E: EngineBLS> Clone for SignedMessage<E> {
    fn clone(&self) -> (r: Self)
        ensures
            r.message.context@ == self.message.context@,
            r.message.payload@ == self.message.payload@,
            r.publickey.0 == self.publickey.0,
            r.signature.0 == self.signature.0,
    {
        SignedMessage {
            message: self.message.clone(),
            publickey: self.publickey.clone(),
            signature: self.signature.clone(),
        }
    }
}

impl<E: EngineBLS> PartialEq for SignedMessage<E> {
    fn eq(&self, other: &Self) -> (r: bool) {
        self.message == other.message && self.publickey == other.publickey && self.signature
            == other.signature
    }
}

impl<E: EngineBLS> Eq for SignedMessage<E> {

}

impl<E: EngineBLS> vstd::std_specs::cmp::PartialEqSpecImpl for SignedMessage<E> {
    open spec fn obeys_eq_spec() -> bool {
        true
    }

    open spec fn eq_spec(&self, other: &Self) -> bool {
        &&& self.message.context@ == other.message.context@
        &&& self.message.payload@ == other.message.payload@
        &&& self.publickey.0.enc() == other.publickey.0.enc()
        &&& self.signature.0.enc() == other.signature.0.enc()
    }
}

impl<E: EngineBLS> SignedMessage<E> {
    /// Verify the attached signature on the attached message against
    /// the attached public key.
    pub fn verify(&self) -> (r: bool)
        ensures
            r == E::spec_pairing_ok(
                self.publickey.0.enc(),
                E::spec_hash(self.message.context@, self.message.payload@),
                self.signature.0.enc(),
            ),
            forall|s: nat|
                self.publickey.0.enc()
                    == #[trigger] <E::PublicKeyGroup as CurvePoint>::spec_base(s)
                    && self.signature.wf() ==> (r <==> self.signature.0.enc()
                    == <E::SignatureGroup as CurvePoint>::spec_mul(
                    s,
                    E::spec_hash(self.message.context@, self.message.payload@),
                )),
            forall|s: nat, h: Seq<u8>|
                self.publickey.0.enc()
                    == #[trigger] <E::PublicKeyGroup as CurvePoint>::spec_base(s)
                    && s % group_order() != 0
                    && <E::SignatureGroup as CurvePoint>::spec_valid(h) && self.signature.wf()
                    && self.signature.0.enc() == #[trigger] <E::SignatureGroup as CurvePoint>::spec_mul(
                    s,
                    h,
                ) && h != E::spec_hash(self.message.context@, self.message.payload@) ==> !r,
            forall|s: nat, t: nat|
                self.publickey.0.enc()
                    == #[trigger] <E::PublicKeyGroup as CurvePoint>::spec_base(t)
                    && self.signature.wf()
                    && self.signature.0.enc() == #[trigger] <E::SignatureGroup as CurvePoint>::spec_mul(
                    s,
                    E::spec_hash(self.message.context@, self.message.payload@),
                ) && s % group_order() != t % group_order()
                    && <E::SignatureGroup as CurvePoint>::spec_mul(
                    0,
                    E::spec_hash(self.message.context@, self.message.payload@),
                ) != E::spec_hash(self.message.context@, self.message.payload@) ==> !r,
    {
        self.signature.verify(&self.message, &self.publickey)
    }

    /// Verify through the unprepared pairing evaluation.  The result
    /// is the same as `verify`'s.
    pub fn verify_slow(&self) -> (r: bool)
        ensures
            r == E::spec_pairing_ok(
                self.publickey.0.enc(),
                E::spec_hash(self.message.context@, self.message.payload@),
                self.signature.0.enc(),
            ),
    {
        let m = E::hash_to_signature_curve(&self.message);
        E::verify_prepared(&self.publickey.0, &m, &self.signature.0)
    }
}

} // verus!
