use vstd::prelude::*;

use crate::backend;
use crate::backend::derived_public_key;
use crate::backend::point_canonical;
use crate::backend::signature_of;
use crate::backend::verify_equation;
use crate::keys::keypair_for;
use crate::keys::keypair_wf;
use crate::keys::lemma_keypair_for_wf;
use crate::keys::secret_key_wf;
use crate::scalars::scalar_canonical;
use crate::scalars::scalar_is_canonical;
use crate::util::bytes_eq;
use crate::util::concat_bytes;
use crate::Error;

verus! {

/// Whether a byte string is a well-formed public key: 32 bytes that are the
/// canonical encoding of a curve point.
pub open spec fn public_key_wf(pk: Seq<u8>) -> bool {
    &&& pk.len() == 32
    &&& point_canonical(pk)
}

/// Whether a byte string is a well-formed signature: 64 bytes `R || S` with
/// `R` a canonical point encoding and `S` a canonical scalar.
pub open spec fn signature_wf(sig: Seq<u8>) -> bool {
    &&& sig.len() == 64
    &&& point_canonical(sig.subrange(0, 32))
    &&& scalar_canonical(sig.subrange(32, 64))
}

/// Whether `sign` accepts the key material: a 32-byte secret key, or a
/// 64-byte consistent keypair.
pub open spec fn sign_key_wf(key: Seq<u8>) -> bool {
    secret_key_wf(key) || keypair_wf(key)
}

/// The keypair that `sign` signs under: the supplied 64-byte keypair, or the
/// one assembled from a 32-byte secret.
pub open spec fn sign_keypair(key: Seq<u8>) -> Seq<u8> {
    if key.len() == 32 {
        keypair_for(key)
    } else {
        key
    }
}

/// Decides whether 32 bytes are the canonical encoding of a curve point:
/// they must decode, and re-encoding the decoded point must reproduce them.
pub fn point_is_canonical(b: &[u8]) -> (r: bool)
    requires
        b@.len() == 32,
    ensures
        r == point_canonical(b@),
{
    match backend::decode_then_reencode(b) {
        None => false,
        Some(enc) => bytes_eq(enc.as_slice(), b),
    }
}

/// Signs a message with a 32-byte secret key or a 64-byte keypair. A 64-byte
/// blob is accepted only when its public half matches the one derivable from
/// its secret half. The signature is deterministic, well formed, and
/// satisfies the verification equation under the signer's public key.
pub fn sign(key: &[u8], message: &[u8]) -> (r: Result<Vec<u8>, Error>)
    ensures
        r is Ok <==> sign_key_wf(key@),
        r matches Ok(sig) ==> {
            &&& sig@ == signature_of(sign_keypair(key@), message@)
            &&& signature_wf(sig@)
            &&& verify_equation(message@, sig@, sign_keypair(key@).subrange(32, 64))
        },
        r matches Err(e) ==> e == Error::InvalidKeypair,
{
    if key.len() == 32 {
        let pk = backend::dalek_derive(key);
        let kp = concat_bytes(key, pk.as_slice());
        proof {
            lemma_keypair_for_wf(key@);
        }
        Ok(backend::dalek_sign(kp.as_slice(), message))
    } else if key.len() == 64 {
        let derived = backend::dalek_derive(&key[0..32]);
        if !bytes_eq(derived.as_slice(), &key[32..64]) {
            return Err(Error::InvalidKeypair);
        }
        Ok(backend::dalek_sign(key, message))
    } else {
        Err(Error::InvalidKeypair)
    }
}

/// The outcome `verify` owes for given message, signature and public key
/// bytes: a malformed public key is reported first, then a malformed
/// signature, and otherwise the verification equation decides.
pub open spec fn verify_outcome(msg: Seq<u8>, sig: Seq<u8>, pk: Seq<u8>) -> Result<(), Error> {
    if !public_key_wf(pk) {
        Err(Error::InvalidPublicKey)
    } else if !signature_wf(sig) {
        Err(Error::InvalidSignature)
    } else if verify_equation(msg, sig, pk) {
        Ok(())
    } else {
        Err(Error::InvalidSignature)
    }
}

/// Verifies a single signature. Decoding failures are rejected before any
/// curve arithmetic: a public key that is not a canonical point encoding,
/// then a signature whose `R` is non-canonical or whose `S` is out of range.
pub fn verify(message: &[u8], signature: &[u8], public_key: &[u8]) -> (r: Result<(), Error>)
    ensures
        r == verify_outcome(message@, signature@, public_key@),
{
    if public_key.len() != 32 || !point_is_canonical(public_key) {
        return Err(Error::InvalidPublicKey);
    }
    if signature.len() != 64 {
        return Err(Error::InvalidSignature);
    }
    if !point_is_canonical(&signature[0..32]) {
        return Err(Error::InvalidSignature);
    }
    if !scalar_is_canonical(&signature[32..64]) {
        return Err(Error::InvalidSignature);
    }
    if backend::dalek_verify(message, signature, public_key) {
        Ok(())
    } else {
        Err(Error::InvalidSignature)
    }
}

/// Key derivation is deterministic: the public key is a function of the
/// secret alone, so repeated derivations agree.
pub proof fn lemma_derive_deterministic(secret: Seq<u8>, pk1: Seq<u8>, pk2: Seq<u8>)
    requires
        pk1 == derived_public_key(secret),
        pk2 == derived_public_key(secret),
    ensures
        pk1 == pk2,
{
}

/// Signing is deterministic: the signature is a function of the key material
/// and the message alone, so repeated signings agree.
pub proof fn lemma_sign_deterministic(key: Seq<u8>, msg: Seq<u8>, sig1: Seq<u8>, sig2: Seq<u8>)
    requires
        sig1 == signature_of(sign_keypair(key), msg),
        sig2 == signature_of(sign_keypair(key), msg),
    ensures
        sig1 == sig2,
{
}

/// Round trip: re-encoding the curve point decoded from a well-formed public
/// key, or from the `R` half of a well-formed signature, reproduces the
/// original bytes exactly. Well-formedness asks for nothing less, which is
/// why encodings that decode but re-encode differently are rejected.
pub proof fn lemma_encoding_round_trip(pk: Seq<u8>, sig: Seq<u8>)
    requires
        public_key_wf(pk),
        signature_wf(sig),
    ensures
        backend::point_roundtrip(pk) == pk,
        backend::point_roundtrip(sig.subrange(0, 32)) == sig.subrange(0, 32),
{
}

/// A signature as `sign` produces it for a 32-byte secret — well formed and
/// satisfying the verification equation under the signer's public key, by
/// `sign`'s contract — is accepted by `verify` with the public key that
/// `derive_public_key` yields for the same secret.
pub proof fn lemma_sign_then_verify(secret: Seq<u8>, msg: Seq<u8>, sig: Seq<u8>, pk: Seq<u8>)
    requires
        secret_key_wf(secret),
        pk == derived_public_key(secret),
        public_key_wf(pk),
        signature_wf(sig),
        verify_equation(msg, sig, sign_keypair(secret).subrange(32, 64)),
    ensures
        verify_outcome(msg, sig, pk) == Ok::<(), Error>(()),
{
    lemma_keypair_for_wf(secret);
    assert(sign_keypair(secret) == keypair_for(secret));
}

} // verus!
