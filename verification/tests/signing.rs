use ed25519_blake2b::derive_public_key;
use ed25519_blake2b::sign;
use ed25519_blake2b::verify;
use ed25519_blake2b::Error;

fn hex_to_bytes(s: &str) -> Vec<u8> {
    let digits: Vec<u8> = s
        .bytes()
        .map(|c| match c {
            b'0'..=b'9' => c - b'0',
            b'a'..=b'f' => c - b'a' + 10,
            b'A'..=b'F' => c - b'A' + 10,
            _ => panic!("not a hex digit"),
        })
        .collect();
    digits.chunks(2).map(|p| p[0] * 16 + p[1]).collect()
}

fn bytes_to_hex(b: &[u8]) -> String {
    let mut s = String::new();
    for x in b {
        s.push_str(&format!("{:02x}", x));
    }
    s
}

/// The non-canonical encoding of the field value zero: the little-endian
/// bytes of the field prime itself, which decodes to a curve point but does
/// not re-encode to itself.
fn non_canonical_point() -> Vec<u8> {
    let mut b = vec![0xffu8; 32];
    b[0] = 0xed;
    b[31] = 0x7f;
    b
}

#[test]
fn derive_zero_secret_golden() {
    let pk = derive_public_key(&[0u8; 32]).unwrap();
    assert_eq!(
        bytes_to_hex(&pk),
        "19d3d919475deed4696b5d13018151d1af88b2bd3bcff048b45031c1f36d1858"
    );
}

#[test]
fn derive_public_key_deterministic() {
    let secret = [7u8; 32];
    let a = derive_public_key(&secret).unwrap();
    let b = derive_public_key(&secret).unwrap();
    assert_eq!(a, b);
}

#[test]
fn derive_rejects_bad_lengths() {
    assert_eq!(derive_public_key(&[0u8; 31]), Err(Error::InvalidSecretKey));
    assert_eq!(derive_public_key(&[0u8; 33]), Err(Error::InvalidSecretKey));
    assert_eq!(derive_public_key(&[]), Err(Error::InvalidSecretKey));
}

#[test]
fn sign_zero_secret_empty_message_golden() {
    let sig = sign(&[0u8; 32], &[]).unwrap();
    assert_eq!(
        bytes_to_hex(&sig),
        "6f87f830a160312ecfb07091b4c6eeb51ed4ea330cb6a400bf4e00d8cca26fbb\
         c818d94aa17ae0e671d1db8496758a7d0f2c49be8f28a3175a1f1e5c5e8ab503"
    );
    let pk = derive_public_key(&[0u8; 32]).unwrap();
    assert_eq!(verify(&[], &sig, &pk), Ok(()));
}

#[test]
fn sign_deterministic() {
    let secret = [3u8; 32];
    let msg = b"determinism check";
    let a = sign(&secret, msg).unwrap();
    let b = sign(&secret, msg).unwrap();
    assert_eq!(a, b);
    assert_eq!(a.len(), 64);
}

#[test]
fn sign_then_verify_succeeds() {
    let secret = [42u8; 32];
    let msg = b"a message worth signing";
    let pk = derive_public_key(&secret).unwrap();
    let sig = sign(&secret, msg).unwrap();
    assert_eq!(verify(msg, &sig, &pk), Ok(()));
}

#[test]
fn sign_accepts_matching_keypair() {
    let secret = [9u8; 32];
    let pk = derive_public_key(&secret).unwrap();
    let mut keypair = secret.to_vec();
    keypair.extend_from_slice(&pk);
    let msg = b"keypair input";
    let from_pair = sign(&keypair, msg).unwrap();
    let from_secret = sign(&secret, msg).unwrap();
    assert_eq!(from_pair, from_secret);
}

#[test]
fn sign_rejects_mismatched_keypair() {
    let secret = [9u8; 32];
    let other = derive_public_key(&[10u8; 32]).unwrap();
    let mut keypair = secret.to_vec();
    keypair.extend_from_slice(&other);
    assert_eq!(sign(&keypair, b"m"), Err(Error::InvalidKeypair));
}

#[test]
fn sign_rejects_bad_lengths() {
    assert_eq!(sign(&[0u8; 31], b"m"), Err(Error::InvalidKeypair));
    assert_eq!(sign(&[0u8; 33], b"m"), Err(Error::InvalidKeypair));
    assert_eq!(sign(&[0u8; 63], b"m"), Err(Error::InvalidKeypair));
    assert_eq!(sign(&[0u8; 65], b"m"), Err(Error::InvalidKeypair));
}

#[test]
fn verify_rejects_flipped_signature_last_byte() {
    let secret = [0u8; 32];
    let pk = derive_public_key(&secret).unwrap();
    let mut sig = sign(&secret, &[]).unwrap();
    let last = sig.len() - 1;
    sig[last] ^= 0x01;
    assert_eq!(verify(&[], &sig, &pk), Err(Error::InvalidSignature));
}

#[test]
fn verify_rejects_any_message_bit_flip() {
    let secret = [5u8; 32];
    let msg = b"bits".to_vec();
    let pk = derive_public_key(&secret).unwrap();
    let sig = sign(&secret, &msg).unwrap();
    for byte in 0..msg.len() {
        for bit in 0..8 {
            let mut flipped = msg.clone();
            flipped[byte] ^= 1 << bit;
            assert_eq!(verify(&flipped, &sig, &pk), Err(Error::InvalidSignature));
        }
    }
}

#[test]
fn verify_rejects_any_signature_byte_flip() {
    let secret = [6u8; 32];
    let msg = b"sig flip";
    let pk = derive_public_key(&secret).unwrap();
    let sig = sign(&secret, msg).unwrap();
    for byte in 0..sig.len() {
        let mut flipped = sig.clone();
        flipped[byte] ^= 0x01;
        let outcome = verify(msg, &flipped, &pk);
        assert_eq!(outcome, Err(Error::InvalidSignature));
    }
}

#[test]
fn verify_rejects_bad_public_key() {
    let secret = [1u8; 32];
    let msg = b"m";
    let sig = sign(&secret, msg).unwrap();
    assert_eq!(verify(msg, &sig, &[0u8; 31]), Err(Error::InvalidPublicKey));
    assert_eq!(verify(msg, &sig, &[0u8; 33]), Err(Error::InvalidPublicKey));
    assert_eq!(
        verify(msg, &sig, &non_canonical_point()),
        Err(Error::InvalidPublicKey)
    );
}

#[test]
fn verify_rejects_non_canonical_signature_point() {
    let secret = [1u8; 32];
    let pk = derive_public_key(&secret).unwrap();
    let mut sig = non_canonical_point();
    sig.extend_from_slice(&[0u8; 32]);
    assert_eq!(verify(b"m", &sig, &pk), Err(Error::InvalidSignature));
}

#[test]
fn verify_rejects_out_of_range_scalar() {
    let secret = [1u8; 32];
    let pk = derive_public_key(&secret).unwrap();
    let sig = sign(&secret, b"m").unwrap();
    // replace S with the group order itself: the smallest non-canonical value
    let order = hex_to_bytes("edd3f55c1a631258d69cf7a2def9de1400000000000000000000000000000010");
    let mut bad = sig.clone();
    bad[32..64].copy_from_slice(&order);
    assert_eq!(verify(b"m", &bad, &pk), Err(Error::InvalidSignature));
    // and with every scalar byte at its maximum
    let mut high = sig.clone();
    for b in &mut high[32..64] {
        *b = 0xff;
    }
    assert_eq!(verify(b"m", &high, &pk), Err(Error::InvalidSignature));
}

#[test]
fn verify_rejects_bad_signature_lengths() {
    let secret = [1u8; 32];
    let pk = derive_public_key(&secret).unwrap();
    assert_eq!(verify(b"m", &[0u8; 63], &pk), Err(Error::InvalidSignature));
    assert_eq!(verify(b"m", &[0u8; 65], &pk), Err(Error::InvalidSignature));
    assert_eq!(verify(b"m", &[], &pk), Err(Error::InvalidSignature));
}

#[test]
fn verify_accepts_only_the_signed_message() {
    let secret = [77u8; 32];
    let pk = derive_public_key(&secret).unwrap();
    let sig = sign(&secret, b"right").unwrap();
    assert_eq!(verify(b"right", &sig, &pk), Ok(()));
    assert_eq!(verify(b"wrong", &sig, &pk), Err(Error::InvalidSignature));
}
