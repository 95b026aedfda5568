//! Elements of the scalar field of the pairing engine.
//!
//! A scalar is held together with its canonical little-endian byte
//! encoding, and contracts speak of the natural number that this
//! encoding denotes.  All field arithmetic is performed by the outside
//! arithmetic engine behind trusted wrappers whose contracts state the
//! result modulo the group order.

use vstd::prelude::*;

verus! {

/// Order of the scalar field, and of both point groups, of the
/// pairing engine (a 255-bit prime).
pub open spec fn group_order() -> nat {
    0x73eda753299d7d483339d80809a1d80553bda402fffe5bfeffffffff00000001nat
}

/// The natural number denoted by a little-endian byte string.
pub open spec fn le_bytes_to_nat(s: Seq<u8>) -> nat
    decreases s.len(),
{
    if s.len() == 0 {
        0
    } else {
        (s[0] as nat) + 256 * le_bytes_to_nat(s.skip(1))
    }
}

#[verifier::external_type_specification]
#[verifier::external_body]
pub struct ExScalar(bls12_381::Scalar);

/// An element of the scalar field, paired with its canonical
/// little-endian encoding.
#[derive(Clone, Copy)]
pub struct Fr {
    pub(crate) raw: bls12_381::Scalar,
    bytes: [u8; 32],
}

impl Fr {
    /// The field element as a natural number below `group_order`.
    pub closed spec fn spec_val(&self) -> nat {
        le_bytes_to_nat(self.bytes@)
    }

    /// The canonical little-endian encoding.
    pub closed spec fn spec_bytes(&self) -> Seq<u8> {
        self.bytes@
    }

    pub open spec fn wf(&self) -> bool {
        self.spec_val() < group_order()
    }
}

/// Relies on `bls12_381::Scalar::zero` and `Scalar::to_bytes`: the
/// canonical encoding of the zero element denotes the value zero.
#[verifier::external_body]
pub(crate) fn scalar_zero() -> (r: Fr)
    ensures
        r.wf(),
        r.spec_val() == 0,
{
    let raw = bls12_381::Scalar::zero();
    Fr { raw, bytes: raw.to_bytes() }
}

/// Relies on `core::ops::Add for bls12_381::Scalar` (addition modulo
/// the group order) and `Scalar::to_bytes` (canonical encoding).
#[verifier::external_body]
pub(crate) fn scalar_add(a: &Fr, b: &Fr) -> (r: Fr)
    requires
        a.wf(),
        b.wf(),
    ensures
        r.wf(),
        r.spec_val() == (a.spec_val() + b.spec_val()) % group_order(),
{
    let raw = a.raw + b.raw;
    Fr { raw, bytes: raw.to_bytes() }
}

/// Relies on `core::ops::Sub for bls12_381::Scalar` (subtraction modulo
/// the group order) and `Scalar::to_bytes` (canonical encoding).
#[verifier::external_body]
pub(crate) fn scalar_sub(a: &Fr, b: &Fr) -> (r: Fr)
    requires
        a.wf(),
        b.wf(),
    ensures
        r.wf(),
        r.spec_val() == ((a.spec_val() + group_order() - b.spec_val()) as nat) % group_order(),
{
    let raw = a.raw - b.raw;
    Fr { raw, bytes: raw.to_bytes() }
}

/// Relies on `ff::Field::random` for `bls12_381::Scalar`: a uniformly
/// sampled field element.  Nothing is assumed of the value beyond
/// well-formedness.
#[verifier::external_body]
pub(crate) fn scalar_random(rng: &mut rand_chacha::ChaCha8Rng) -> (r: Fr)
    ensures
        r.wf(),
{
    let raw = <bls12_381::Scalar as ff::Field>::random(&mut *rng);
    Fr { raw, bytes: raw.to_bytes() }
}

/// Relies on `bls12_381::Scalar::from_bytes`: the decoding succeeds
/// exactly when the little-endian value is below the group order, and
/// then denotes that value.
#[verifier::external_body]
pub(crate) fn scalar_from_bytes(bytes: &[u8; 32]) -> (r: Option<Fr>)
    ensures
        r is Some <==> le_bytes_to_nat(bytes@) < group_order(),
        r matches Some(s) ==> s.wf() && s.spec_val() == le_bytes_to_nat(bytes@)
            && s.spec_bytes() == bytes@,
{
    let ct = bls12_381::Scalar::from_bytes(bytes);
    let parsed: Option<bls12_381::Scalar> = ct.into();
    match parsed {
        Some(raw) => Some(Fr { raw, bytes: *bytes }),
        None => None,
    }
}

/// The canonical little-endian encoding of a scalar, as owned bytes.
pub fn scalar_to_bytes(s: &Fr) -> (r: [u8; 32])
    ensures
        r@ == s.spec_bytes(),
        le_bytes_to_nat(r@) == s.spec_val(),
{
    s.bytes
}

impl PartialEq for Fr {
    fn eq(&self, other: &Self) -> (r: bool) {
        scalar_eq(self, other)
    }
}

impl Eq for Fr {

}

impl vstd::std_specs::cmp::PartialEqSpecImpl for Fr {
    open spec fn obeys_eq_spec() -> bool {
        true
    }

    open spec fn eq_spec(&self, other: &Self) -> bool {
        self.spec_bytes() == other.spec_bytes()
    }
}

/// Equality of scalars, decided on the canonical encodings.
pub fn scalar_eq(a: &Fr, b: &Fr) -> (r: bool)
    ensures
        r == (a.spec_bytes() == b.spec_bytes()),
        r == (a.spec_val() == b.spec_val()),
{
    let mut i: usize = 0;
    while i < 32
        invariant
            i <= 32,
            forall|j: int| 0 <= j < i ==> a.bytes@[j] == b.bytes@[j],
        decreases 32 - i,
    {
        if a.bytes[i] != b.bytes[i] {
            proof {
                assert(a.bytes@ != b.bytes@);
                if a.spec_val() == b.spec_val() {
                    lemma_le_bytes_to_nat_injective(a.bytes@, b.bytes@);
                    assert(a.bytes@ =~= b.bytes@);
                }
            }
            return false;
        }
        i += 1;
    }
    proof {
        assert(a.bytes@ =~= b.bytes@);
    }
    true
}

/// Two little-endian byte strings of equal length that denote the same
/// value are equal.
pub proof fn lemma_le_bytes_to_nat_injective(a: Seq<u8>, b: Seq<u8>)
    requires
        a.len() == b.len(),
    ensures
        le_bytes_to_nat(a) == le_bytes_to_nat(b) ==> a =~= b,
    decreases a.len(),
{
    if a.len() > 0 && le_bytes_to_nat(a) == le_bytes_to_nat(b) {
        let ra = le_bytes_to_nat(a.skip(1));
        let rb = le_bytes_to_nat(b.skip(1));
        assert((a[0] as nat) + 256 * ra == (b[0] as nat) + 256 * rb);
        assert(a[0] == b[0] && ra == rb) by (nonlinear_arith)
            requires
                (a[0] as nat) + 256 * ra == (b[0] as nat) + 256 * rb,
                a[0] < 256,
                b[0] < 256,
        ;
        lemma_le_bytes_to_nat_injective(a.skip(1), b.skip(1));
        assert(a.skip(1) =~= b.skip(1));
        assert forall|i: int| 0 <= i < a.len() implies a[i] == b[i] by {
            if i > 0 {
                assert(a.skip(1)[i - 1] == a[i]);
                assert(b.skip(1)[i - 1] == b[i]);
            }
        }
        assert(a =~= b);
    }
}

} // verus!
