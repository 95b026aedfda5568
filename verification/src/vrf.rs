//! Pseudorandom output derived from a verified signature.
//!
//! The hash input binds both the message payload and the signature's
//! canonical uncompressed serialization, the 2Hash-DH construction.
//! Output is deterministic in (payload, signature, context, length);
//! a caller that is not the signer must verify the signature before
//! trusting the output as unpredictable.

use sha3::digest::{ExtendableOutput, Update, XofReader};
use vstd::prelude::*;
use vstd::slice::slice_to_vec;
use crate::codec::{append_bytes, take32};
use crate::engine::{CurvePoint, EngineBLS};
use crate::rng::{chacha_of, rng_from_seed};
use crate::signed::SignedMessage;

verus! {

/// The byte string a signed message feeds to the output hash: the tag
/// `msg`, the raw payload, the tag `out`, and the canonical
/// uncompressed serialization of the signature.
pub open spec fn vrf_input_spec<E: EngineBLS>(payload: Seq<u8>, sig_enc: Seq<u8>) -> Seq<u8> {
    seq![0x6du8, 0x73u8, 0x67u8] + payload + seq![0x6fu8, 0x75u8, 0x74u8]
        + <E::SignatureGroup as CurvePoint>::spec_uncompressed(sig_enc)
}

/// The extendable hash output on an input: a function of the absorbed
/// bytes and the requested length alone.
pub uninterp spec fn shake_of(input: Seq<u8>, n: nat) -> Seq<u8>;

/// Relies on `sha3::Shake128` through `Update`, `ExtendableOutput` and
/// `XofReader`: `n` bytes of extendable output, a deterministic
/// function of the absorbed bytes; absorbing in pieces equals
/// absorbing their concatenation.
#[verifier::external_body]
fn shake128_bytes(input: &[u8], n: usize) -> (r: Vec<u8>)
    ensures
        r@ == shake_of(input@, n as nat),
        r@.len() == n,
{
    let mut h = sha3::Shake128::default();
    h.update(input);
    let mut reader = h.finalize_xof();
    let mut out = vec![0u8; n];
    reader.read(&mut out);
    out
}

impl<E: EngineBLS> SignedMessage<E> {
    /// The hash input that binds this signed message: tagged payload
    /// and uncompressed signature, as fed to the output hash.
    pub fn vrf_hash(&self) -> (r: Vec<u8>)
        ensures
            r@ == vrf_input_spec::<E>(self.message.payload@, self.signature.0.enc()),
    {
        let mut v: Vec<u8> = Vec::new();
        v.push(0x6d);
        v.push(0x73);
        v.push(0x67);
        append_bytes(&mut v, self.message.payload.as_slice());
        v.push(0x6f);
        v.push(0x75);
        v.push(0x74);
        let unc = self.signature.0.uncompressed();
        append_bytes(&mut v, unc.as_slice());
        proof {
            assert(v@ =~= vrf_input_spec::<E>(self.message.payload@, self.signature.0.enc()));
        }
        v
    }

    /// Raw pseudorandom bytes from the signature regarded as a VRF:
    /// absorb the context, then the bound hash input, and squeeze
    /// `out_len` bytes.  Deterministic in (payload, signature,
    /// context, length); distinct contexts give independent outputs.
    pub fn make_bytes(&self, context: &[u8], out_len: usize) -> (r: Vec<u8>)
        ensures
            r@.len() == out_len,
            r@ == shake_of(
                context@ + vrf_input_spec::<E>(self.message.payload@, self.signature.0.enc()),
                out_len as nat,
            ),
    {
        let mut input = slice_to_vec(context);
        let bound = self.vrf_hash();
        append_bytes(&mut input, bound.as_slice());
        shake128_bytes(input.as_slice(), out_len)
    }

    /// The VRF output as a seeded deterministic generator: a 32-byte
    /// output of `make_bytes` used as a stream-cipher seed.  Like
    /// `make_bytes`, deterministic in (payload, signature, context).
    pub fn make_chacharng(&self, context: &[u8]) -> (r: rand_chacha::ChaCha8Rng)
        ensures
            r == chacha_of(
                shake_of(
                    context@ + vrf_input_spec::<E>(
                        self.message.payload@,
                        self.signature.0.enc(),
                    ),
                    32,
                ),
            ),
    {
        let bytes = self.make_bytes(context, 32);
        let seed = take32(bytes.as_slice());
        proof {
            assert(seed@ =~= bytes@);
        }
        rng_from_seed(seed)
    }
}

/// The VRF output is a pure function of message payload, signature,
/// context and length: two signed messages that agree on payload and
/// signature yield the same output for the same context and length.
pub proof fn lemma_vrf_deterministic<E: EngineBLS>(
    a: SignedMessage<E>,
    b: SignedMessage<E>,
    context: Seq<u8>,
    n: nat,
)
    requires
        a.message.payload@ == b.message.payload@,
        a.signature.0.enc() == b.signature.0.enc(),
    ensures
        shake_of(context + vrf_input_spec::<E>(a.message.payload@, a.signature.0.enc()), n)
            == shake_of(context + vrf_input_spec::<E>(b.message.payload@, b.signature.0.enc()), n),
{
}

} // verus!
