use ed25519_blake2b::derive_public_key;
use ed25519_blake2b::sign;
use ed25519_blake2b::verify_batch;
use ed25519_blake2b::Error;

fn make_batch(n: usize) -> (Vec<Vec<u8>>, Vec<Vec<u8>>, Vec<Vec<u8>>) {
    let mut messages = Vec::new();
    let mut signatures = Vec::new();
    let mut public_keys = Vec::new();
    for i in 0..n {
        let secret = [i as u8 + 1; 32];
        let msg = format!("message number {}", i).into_bytes();
        let pk = derive_public_key(&secret).unwrap();
        let sig = sign(&secret, &msg).unwrap();
        messages.push(msg);
        signatures.push(sig);
        public_keys.push(pk);
    }
    (messages, signatures, public_keys)
}

fn non_canonical_point() -> Vec<u8> {
    let mut b = vec![0xffu8; 32];
    b[0] = 0xed;
    b[31] = 0x7f;
    b
}

#[test]
fn batch_of_valid_triples_succeeds() {
    let (messages, signatures, public_keys) = make_batch(4);
    assert_eq!(verify_batch(&messages, &signatures, &public_keys), Ok(()));
}

#[test]
fn batch_of_one_succeeds() {
    let (messages, signatures, public_keys) = make_batch(1);
    assert_eq!(verify_batch(&messages, &signatures, &public_keys), Ok(()));
}

#[test]
fn batch_rejects_flipped_message_byte() {
    let (mut messages, signatures, public_keys) = make_batch(4);
    messages[2][0] ^= 0x40;
    assert_eq!(
        verify_batch(&messages, &signatures, &public_keys),
        Err(Error::InvalidSignature)
    );
}

#[test]
fn batch_rejects_flipped_signature_byte() {
    let (messages, mut signatures, public_keys) = make_batch(3);
    signatures[1][5] ^= 0x02;
    assert_eq!(
        verify_batch(&messages, &signatures, &public_keys),
        Err(Error::InvalidSignature)
    );
}

#[test]
fn batch_rejects_mismatched_lengths() {
    let (messages, signatures, mut public_keys) = make_batch(3);
    public_keys.pop();
    assert_eq!(
        verify_batch(&messages, &signatures, &public_keys),
        Err(Error::InvalidBatchLength)
    );
    let (messages, mut signatures, public_keys) = make_batch(2);
    signatures.push(vec![0u8; 64]);
    assert_eq!(
        verify_batch(&messages, &signatures, &public_keys),
        Err(Error::InvalidBatchLength)
    );
}

#[test]
fn batch_length_check_precedes_decoding() {
    // every element is garbage, but the length mismatch must win
    let messages = vec![b"m".to_vec()];
    let signatures: Vec<Vec<u8>> = Vec::new();
    let public_keys = vec![vec![0u8; 5]];
    assert_eq!(
        verify_batch(&messages, &signatures, &public_keys),
        Err(Error::InvalidBatchLength)
    );
}

#[test]
fn batch_rejects_empty_input() {
    let empty: Vec<Vec<u8>> = Vec::new();
    assert_eq!(
        verify_batch(&empty, &empty.clone(), &empty.clone()),
        Err(Error::InvalidBatchLength)
    );
}

#[test]
fn batch_rejects_bad_public_key() {
    let (messages, signatures, mut public_keys) = make_batch(3);
    public_keys[1] = non_canonical_point();
    assert_eq!(
        verify_batch(&messages, &signatures, &public_keys),
        Err(Error::InvalidPublicKey)
    );
    public_keys[1] = vec![0u8; 31];
    assert_eq!(
        verify_batch(&messages, &signatures, &public_keys),
        Err(Error::InvalidPublicKey)
    );
}

#[test]
fn batch_rejects_bad_signature_encoding() {
    let (messages, mut signatures, public_keys) = make_batch(3);
    // out-of-range scalar half
    for b in &mut signatures[0][32..64] {
        *b = 0xff;
    }
    assert_eq!(
        verify_batch(&messages, &signatures, &public_keys),
        Err(Error::InvalidSignature)
    );
    let (messages, mut signatures, public_keys) = make_batch(3);
    signatures[2] = vec![0u8; 63];
    assert_eq!(
        verify_batch(&messages, &signatures, &public_keys),
        Err(Error::InvalidSignature)
    );
}
