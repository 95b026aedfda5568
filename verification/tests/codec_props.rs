use bls_like::{GroupDecodingError, Keypair, Message, PublicKey, SecretKeyVT, Signature, TinyBLS, ZBLS};
use rand::SeedableRng;
use rand_chacha::ChaCha8Rng;

fn test_keypair() -> Keypair<ZBLS> {
    let mut rng = ChaCha8Rng::seed_from_u64(7);
    Keypair::<ZBLS>::generate(&mut rng)
}

#[test]
fn compress_roundtrip_publickey() {
    let keypair = test_keypair();
    let bytes = keypair.public.compress();
    assert_eq!(bytes.len(), 48);
    let back = PublicKey::<ZBLS>::decompress(bytes.as_slice()).unwrap();
    assert!(back == keypair.public);
    assert_eq!(back.compress(), bytes);
}

#[test]
fn compress_roundtrip_signature() {
    let mut keypair = test_keypair();
    let sm = keypair.sign(&Message::new(b"ctx", b"roundtrip"));
    let bytes = sm.signature.compress();
    assert_eq!(bytes.len(), 96);
    let back = Signature::<ZBLS>::decompress(bytes.as_slice()).unwrap();
    assert!(back == sm.signature);
    assert_eq!(back.compress(), bytes);
}

#[test]
fn compress_roundtrip_tiny_variant() {
    let mut rng = ChaCha8Rng::seed_from_u64(9);
    let mut keypair = Keypair::<TinyBLS>::generate(&mut rng);
    let pk_bytes = keypair.public.compress();
    assert_eq!(pk_bytes.len(), 96);
    let sm = keypair.sign(&Message::new(b"ctx", b"tiny"));
    assert!(sm.verify());
    let sig_bytes = sm.signature.compress();
    assert_eq!(sig_bytes.len(), 48);
    let pk = PublicKey::<TinyBLS>::decompress(pk_bytes.as_slice()).unwrap();
    let sig = Signature::<TinyBLS>::decompress(sig_bytes.as_slice()).unwrap();
    assert!(pk == keypair.public);
    assert!(sig == sm.signature);
}

#[test]
fn decompress_rejects_wrong_length() {
    let keypair = test_keypair();
    let bytes = keypair.public.compress();
    assert_eq!(
        PublicKey::<ZBLS>::decompress(&bytes[..47]),
        Err(GroupDecodingError::UnexpectedInformation)
    );
    assert_eq!(
        Signature::<ZBLS>::decompress(&bytes),
        Err(GroupDecodingError::UnexpectedInformation)
    );
    assert_eq!(
        PublicKey::<ZBLS>::decompress(&[]),
        Err(GroupDecodingError::UnexpectedInformation)
    );
}

#[test]
fn decompress_rejects_cleared_compression_flag() {
    let keypair = test_keypair();
    let mut bytes = keypair.public.compress();
    bytes[0] &= 0x7f;
    assert_eq!(
        PublicKey::<ZBLS>::decompress(bytes.as_slice()),
        Err(GroupDecodingError::UnexpectedCompressionMode)
    );
}

#[test]
fn decompress_rejects_out_of_range_coordinate() {
    let mut bytes = [0xffu8; 48];
    bytes[0] = 0x9f;
    assert_eq!(
        PublicKey::<ZBLS>::decompress(&bytes),
        Err(GroupDecodingError::CoordinateDecodingError)
    );
    let mut wide = [0xffu8; 96];
    wide[0] = 0x9f;
    assert_eq!(
        Signature::<ZBLS>::decompress(&wide),
        Err(GroupDecodingError::CoordinateDecodingError)
    );
}

#[test]
fn decompress_rejects_malformed_infinity() {
    let mut bytes = [0u8; 48];
    bytes[0] = 0xc0;
    bytes[47] = 1;
    assert_eq!(
        PublicKey::<ZBLS>::decompress(&bytes),
        Err(GroupDecodingError::UnexpectedInformation)
    );
    let canonical_infinity = {
        let mut b = [0u8; 48];
        b[0] = 0xc0;
        b
    };
    let identity = PublicKey::<ZBLS>::decompress(&canonical_infinity).unwrap();
    assert_eq!(identity.compress().as_slice(), &canonical_infinity);
}

#[test]
fn decompress_rejects_off_curve_and_off_subgroup() {
    // Scan small x-coordinates: each is rejected, some off the curve,
    // some on the curve but outside the prime-order subgroup.
    let mut saw_off_curve = false;
    let mut saw_off_subgroup = false;
    for x in 0u8..=40 {
        let mut bytes = [0u8; 48];
        bytes[0] = 0x80;
        bytes[47] = x;
        match PublicKey::<ZBLS>::decompress(&bytes) {
            Ok(_) => {}
            Err(GroupDecodingError::NotOnCurve) => saw_off_curve = true,
            Err(GroupDecodingError::NotInSubgroup) => {
                saw_off_subgroup = true;
                // The unchecked path accepts what only the subgroup
                // check rejects.
                assert!(PublicKey::<ZBLS>::decompress_unchecked(&bytes).is_ok());
            }
            Err(e) => panic!("unexpected error kind for x-scan: {:?}", e),
        }
    }
    assert!(saw_off_curve);
    assert!(saw_off_subgroup);
}

#[test]
fn secret_key_repr_roundtrip() {
    let mut rng = ChaCha8Rng::seed_from_u64(11);
    let secret = SecretKeyVT::<ZBLS>::generate(&mut rng);
    let repr = secret.to_repr();
    let back = SecretKeyVT::<ZBLS>::from_repr(repr).unwrap();
    assert_eq!(back.to_repr(), repr);

    let mut buffer: Vec<u8> = Vec::new();
    secret.write(&mut buffer);
    assert_eq!(buffer.as_slice(), &repr);
    let read_back = SecretKeyVT::<ZBLS>::read(buffer.as_slice()).unwrap();
    assert_eq!(read_back, repr);
    assert!(SecretKeyVT::<ZBLS>::read(&buffer[..31]).is_none());
}

#[test]
fn secret_key_repr_rejects_out_of_range() {
    assert!(SecretKeyVT::<ZBLS>::from_repr([0xff; 32]).is_none());
    let zero = SecretKeyVT::<ZBLS>::from_repr([0; 32]).unwrap();
    assert_eq!(zero.to_repr(), [0; 32]);
}
