use bls_like::{Keypair, Message, PublicKey, Signature, SignedMessage, ZBLS};
use rand::SeedableRng;
use rand_chacha::ChaCha8Rng;

fn zbls_usual_bytes_test(x: SignedMessage<ZBLS>) -> SignedMessage<ZBLS> {
    let SignedMessage { message, publickey, signature } = x;
    let publickey = PublicKey::<ZBLS>::decompress(publickey.compress().as_slice()).unwrap();
    let signature = Signature::<ZBLS>::decompress(signature.compress().as_slice()).unwrap();
    SignedMessage { message, publickey, signature }
}

#[test]
fn single_messages() {
    let good = Message::new(b"ctx", b"test message");

    let mut rng = ChaCha8Rng::seed_from_u64(0x1234);
    let mut keypair = Keypair::<ZBLS>::generate(&mut rng);
    let good_sig = zbls_usual_bytes_test(keypair.sign(&good));
    assert!(good_sig.verify_slow());

    let keypair_vt = keypair.into_vartime();
    assert!(keypair_vt.secret.0 == keypair_vt.into_split(&mut rng).into_vartime().secret.0);
    assert!(good_sig == keypair.sign(&good));
    assert!(good_sig == keypair_vt.sign(&good));

    let bad = Message::new(b"ctx", b"wrong message");
    let bad_sig = zbls_usual_bytes_test(keypair.sign(&bad));
    assert!(bad_sig == keypair.into_vartime().sign(&bad));
    assert!(bad_sig.verify());

    let another = Message::new(b"ctx", b"another message");
    let another_sig = keypair.sign(&another);
    assert!(another_sig == keypair.into_vartime().sign(&another));
    assert!(another_sig.verify());

    assert!(
        keypair.public.verify(&good, &good_sig.signature),
        "Verification of a valid signature failed!"
    );

    assert!(
        !keypair.public.verify(&good, &bad_sig.signature),
        "Verification of a signature on a different message passed!"
    );
    assert!(
        !keypair.public.verify(&bad, &good_sig.signature),
        "Verification of a signature on a different message passed!"
    );
    assert!(
        !keypair.public.verify(&Message::new(b"other", b"test message"), &good_sig.signature),
        "Verification of a signature on a different message passed!"
    );
}
