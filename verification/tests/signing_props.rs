use bls_like::{Keypair, KeypairVT, Message, TinyBLS, ZBLS};
use rand::{RngCore, SeedableRng};
use rand_chacha::ChaCha8Rng;

#[test]
fn protected_and_plain_paths_agree() {
    let mut rng = ChaCha8Rng::seed_from_u64(21);
    let vt = KeypairVT::<ZBLS>::generate(&mut rng);
    let mut split = vt.into_split(&mut rng);
    let message = Message::new(b"ctx", b"equivalence");
    let plain = vt.sign(&message);
    let protected = split.sign_with_rng(&message, &mut rng);
    assert!(plain.signature == protected.signature);
    // Repeated protected signings of one message keep producing the
    // same signature, whatever the internal mutation state.
    for _ in 0..4 {
        assert!(split.sign_with_rng(&message, &mut rng).signature == plain.signature);
    }
}

#[test]
fn protected_and_plain_paths_agree_tiny() {
    let mut rng = ChaCha8Rng::seed_from_u64(23);
    let vt = KeypairVT::<TinyBLS>::generate(&mut rng);
    let mut split = vt.into_split(&mut rng);
    let message = Message::new(b"ctx", b"equivalence");
    let plain = vt.sign(&message);
    assert!(plain.signature == split.sign_with_rng(&message, &mut rng).signature);
    assert!(plain.verify());
}

#[test]
fn resplit_preserves_secret_and_signature() {
    let mut rng = ChaCha8Rng::seed_from_u64(25);
    let mut keypair = Keypair::<ZBLS>::generate(&mut rng);
    let message = Message::new(b"ctx", b"resplit");
    let before_repr = keypair.into_vartime().secret.to_repr();
    let before_sig = keypair.sign_with_rng(&message, &mut rng);
    for _ in 0..5 {
        keypair.secret.resplit(&mut rng);
    }
    assert_eq!(keypair.into_vartime().secret.to_repr(), before_repr);
    let after_sig = keypair.sign_with_rng(&message, &mut rng);
    assert!(after_sig.signature == before_sig.signature);
}

#[test]
fn init_point_mutation_keeps_signatures() {
    let mut rng = ChaCha8Rng::seed_from_u64(27);
    let mut keypair = Keypair::<ZBLS>::generate(&mut rng);
    let message = Message::new(b"ctx", b"mutation");
    let first = keypair.sign_with_rng(&message, &mut rng);
    keypair.secret.init_point_mutation(&mut rng);
    let second = keypair.sign_with_rng(&message, &mut rng);
    assert!(first.signature == second.signature);
}

#[test]
fn signing_scenario() {
    let mut rng = ChaCha8Rng::seed_from_u64(29);
    let mut keypair = Keypair::<ZBLS>::generate(&mut rng);
    let message = Message::new(b"ctx", b"test message");
    let signed = keypair.sign(&message);
    assert!(keypair.public.verify(&message, &signed.signature));
    let wrong = Message::new(b"ctx", b"wrong message");
    assert!(!keypair.public.verify(&wrong, &signed.signature));
    let wrong_signed = keypair.sign(&wrong);
    assert!(!keypair.public.verify(&message, &wrong_signed.signature));
}

#[test]
fn tampered_values_fail_verification() {
    let mut rng = ChaCha8Rng::seed_from_u64(31);
    let mut keypair = Keypair::<ZBLS>::generate(&mut rng);
    let mut other = Keypair::<ZBLS>::generate(&mut rng);
    let message = Message::new(b"ctx", b"tamper");
    let signed = keypair.sign(&message);
    assert!(signed.verify());

    // Another message under the same key.
    assert!(!keypair.public.verify(&Message::new(b"ctx", b"tampered"), &signed.signature));
    // Another public key for the same message and signature.
    assert!(!other.public.verify(&message, &signed.signature));
    // Another valid signature of the same type for the same message.
    let other_sig = other.sign(&message).signature;
    assert!(!keypair.public.verify(&message, &other_sig));
}

#[test]
fn vrf_output_is_deterministic() {
    let mut rng = ChaCha8Rng::seed_from_u64(33);
    let mut keypair = Keypair::<ZBLS>::generate(&mut rng);
    let message = Message::new(b"ctx", b"vrf input");
    let signed = keypair.sign(&message);
    assert!(signed.verify());

    let a = signed.make_bytes(b"context-a", 64);
    let b = signed.make_bytes(b"context-a", 64);
    assert_eq!(a, b);
    assert_eq!(a.len(), 64);
    // Signing the same message again yields the same signature and so
    // the same output.
    let again = keypair.sign(&message);
    assert_eq!(again.make_bytes(b"context-a", 64), a);
    // A different non-empty context yields different output.
    let c = signed.make_bytes(b"context-b", 64);
    assert_ne!(a, c);
    // The output is not the hash input handed back unchanged.
    assert_ne!(a.as_slice(), signed.vrf_hash().as_slice());
    // The bound input commits to the payload and the signature.
    let other = keypair.sign(&Message::new(b"ctx", b"other vrf input"));
    assert_ne!(other.make_bytes(b"context-a", 64), a);
}

#[test]
fn vrf_chacharng_is_seeded_from_output() {
    let mut rng = ChaCha8Rng::seed_from_u64(35);
    let mut keypair = Keypair::<ZBLS>::generate(&mut rng);
    let signed = keypair.sign(&Message::new(b"ctx", b"vrf rng"));

    let mut r1 = signed.make_chacharng(b"stream");
    let mut r2 = signed.make_chacharng(b"stream");
    let mut r3 = signed.make_chacharng(b"other stream");
    let (a, b, c) = (r1.next_u64(), r2.next_u64(), r3.next_u64());
    assert_eq!(a, b);
    assert_ne!(a, c);
}
