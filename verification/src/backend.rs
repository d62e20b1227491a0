use vstd::prelude::*;

use crate::scalars::scalar_canonical;
use blake2::digest::Input;
use blake2::digest::VariableOutput;

verus! {

/// The Blake2b digest of `msg` with the requested output length encoded in
/// the hash's parameter block, for lengths in 1..=64.
pub uninterp spec fn blake2b_digest(msg: Seq<u8>, out_len: int) -> Seq<u8>;

/// The compressed public key that the scheme derives from a 32-byte secret:
/// Blake2b-512 of the secret, clamped lower half, times the basepoint.
pub uninterp spec fn derived_public_key(secret: Seq<u8>) -> Seq<u8>;

/// The deterministic signature `R || S` over `msg` under a 64-byte
/// `secret || public` keypair.
pub uninterp spec fn signature_of(keypair: Seq<u8>, msg: Seq<u8>) -> Seq<u8>;

/// Whether 32 bytes decompress to a point on the Edwards curve.
pub uninterp spec fn point_decodes(b: Seq<u8>) -> bool;

/// The re-compression of the point decoded from `b`: its unique canonical
/// encoding. Meaningful only where `point_decodes(b)` holds.
pub uninterp spec fn point_roundtrip(b: Seq<u8>) -> Seq<u8>;

/// Whether the single-signature verification equation holds for the message,
/// the 64-byte signature and the 32-byte compressed public key, with the
/// challenge recomputed as Blake2b-512 of `R || public key || message`.
pub uninterp spec fn verify_equation(msg: Seq<u8>, sig: Seq<u8>, pk: Seq<u8>) -> bool;

/// A 32-byte string is a canonical point encoding when it decodes to a curve
/// point whose re-compression reproduces the input exactly.
pub open spec fn point_canonical(b: Seq<u8>) -> bool {
    &&& b.len() == 32
    &&& point_decodes(b)
    &&& point_roundtrip(b) == b
}

/// Relies on blake2::VarBlake2b (new, input, vec_result): a digest of exactly
/// the requested length, with that length bound into the parameter block, a
/// function of the message and the length alone.
#[verifier::external_body]
pub(crate) fn blake2b_var(msg: &[u8], out_len: usize) -> (r: Vec<u8>)
    requires
        1 <= out_len <= 64,
    ensures
        r@ == blake2b_digest(msg@, out_len as int),
        r@.len() == out_len,
{
    let mut hasher = blake2::VarBlake2b::new(out_len).unwrap();
    hasher.input(msg);
    hasher.vec_result()
}

/// Relies on ed25519_dalek::PublicKey::from_secret with Blake2b: hashes the
/// 32-byte secret, clamps the lower half, multiplies the basepoint and
/// compresses; compression yields a canonical 32-byte encoding.
#[verifier::external_body]
pub(crate) fn dalek_derive(secret: &[u8]) -> (r: Vec<u8>)
    requires
        secret@.len() == 32,
    ensures
        r@ == derived_public_key(secret@),
        r@.len() == 32,
        point_canonical(r@),
{
    let sk = ed25519_dalek::SecretKey::from_bytes(secret).unwrap();
    let pk = ed25519_dalek::PublicKey::from_secret::<blake2::Blake2b>(&sk);
    pk.to_bytes().to_vec()
}

/// Relies on ed25519_dalek::Keypair::{from_bytes, sign} with Blake2b: the
/// deterministic signature R || S. R is a compression, hence canonical; S is
/// produced by scalar arithmetic modulo the group order, hence canonical; and
/// when the keypair's public half is the one derived from its secret half,
/// the signature satisfies the verification equation under that public key.
#[verifier::external_body]
pub(crate) fn dalek_sign(keypair: &[u8], msg: &[u8]) -> (r: Vec<u8>)
    requires
        keypair@.len() == 64,
    ensures
        r@ == signature_of(keypair@, msg@),
        r@.len() == 64,
        point_canonical(r@.subrange(0, 32)),
        scalar_canonical(r@.subrange(32, 64)),
        keypair@.subrange(32, 64) == derived_public_key(keypair@.subrange(0, 32))
            ==> verify_equation(msg@, r@, keypair@.subrange(32, 64)),
{
    let kp = ed25519_dalek::Keypair::from_bytes(keypair).unwrap();
    kp.sign::<blake2::Blake2b>(msg).to_bytes().to_vec()
}

/// Relies on curve25519_dalek::edwards::CompressedEdwardsY::{from_slice,
/// decompress} and EdwardsPoint::compress: decompression succeeds exactly on
/// curve points, and re-compression of the decoded point is its unique
/// canonical encoding; both are functions of the input bytes alone.
#[verifier::external_body]
pub(crate) fn decode_then_reencode(b: &[u8]) -> (r: Option<Vec<u8>>)
    requires
        b@.len() == 32,
    ensures
        r is Some <==> point_decodes(b@),
        r matches Some(enc) ==> enc@ == point_roundtrip(b@),
{
    curve25519_dalek::edwards::CompressedEdwardsY::from_slice(b)
        .decompress()
        .map(|p| p.compress().to_bytes().to_vec())
}

/// Relies on ed25519_dalek::{Signature::from_bytes, PublicKey::from_bytes,
/// PublicKey::verify} with Blake2b: recomputes the challenge from
/// `R || public key || message` and accepts exactly when the verification
/// equation holds, a deterministic function of the three byte strings.
#[verifier::external_body]
pub(crate) fn dalek_verify(msg: &[u8], sig: &[u8], pk: &[u8]) -> (r: bool)
    requires
        sig@.len() == 64,
        scalar_canonical(sig@.subrange(32, 64)),
        pk@.len() == 32,
        point_decodes(pk@),
    ensures
        r == verify_equation(msg@, sig@, pk@),
{
    let s = ed25519_dalek::Signature::from_bytes(sig).unwrap();
    let p = ed25519_dalek::PublicKey::from_bytes(pk).unwrap();
    p.verify::<blake2::Blake2b>(msg, &s).is_ok()
}

/// Relies on ed25519_dalek::verify_batch with Blake2b: draws a fresh random
/// weight per signature and checks one combined multiscalar equation. The
/// outcome may depend on the weights, but whenever every triple satisfies its
/// individual verification equation the combination is identically zero, so
/// the batch is accepted whatever weights were drawn.
#[verifier::external_body]
pub(crate) fn dalek_verify_batch(
    messages: &Vec<Vec<u8>>,
    signatures: &Vec<Vec<u8>>,
    public_keys: &Vec<Vec<u8>>,
) -> (r: bool)
    requires
        messages@.len() == signatures@.len(),
        messages@.len() == public_keys@.len(),
        forall|i: int| 0 <= i < signatures@.len() ==> {
            &&& (#[trigger] signatures@[i])@.len() == 64
            &&& point_decodes(signatures@[i]@.subrange(0, 32))
            &&& scalar_canonical(signatures@[i]@.subrange(32, 64))
        },
        forall|i: int| 0 <= i < public_keys@.len() ==> {
            &&& (#[trigger] public_keys@[i])@.len() == 32
            &&& point_decodes(public_keys@[i]@)
        },
    ensures
        (forall|i: int| 0 <= i < messages@.len()
            ==> verify_equation((#[trigger] messages@[i])@, signatures@[i]@, public_keys@[i]@))
            ==> r,
{
    let msgs: Vec<&[u8]> = messages.iter().map(|m| m.as_slice()).collect();
    let sigs: Vec<ed25519_dalek::Signature> =
        signatures.iter().map(|s| ed25519_dalek::Signature::from_bytes(s).unwrap()).collect();
    let pks: Vec<ed25519_dalek::PublicKey> =
        public_keys.iter().map(|p| ed25519_dalek::PublicKey::from_bytes(p).unwrap()).collect();
    ed25519_dalek::verify_batch::<blake2::Blake2b>(&msgs, &sigs, &pks).is_ok()
}

} // verus!
