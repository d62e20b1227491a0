use vstd::prelude::*;

use crate::backend;
use crate::backend::derived_public_key;
use crate::backend::point_canonical;
use crate::Error;

verus! {

/// Whether a byte string is a well-formed secret key: exactly 32 bytes.
pub open spec fn secret_key_wf(secret: Seq<u8>) -> bool {
    secret.len() == 32
}

/// The 64-byte keypair belonging to a secret key: the secret followed by its
/// derived public key.
pub open spec fn keypair_for(secret: Seq<u8>) -> Seq<u8> {
    secret + derived_public_key(secret)
}

/// Whether 64 bytes are a consistent keypair: the second half is the public
/// key derivable from the first half.
pub open spec fn keypair_wf(k: Seq<u8>) -> bool {
    &&& k.len() == 64
    &&& k.subrange(32, 64) == derived_public_key(k.subrange(0, 32))
}

/// Derives the compressed public key belonging to a 32-byte secret key:
/// Blake2b-512 of the secret, clamped lower half, times the basepoint. The
/// result is the canonical 32-byte point encoding; any other input length is
/// rejected.
pub fn derive_public_key(secret: &[u8]) -> (r: Result<Vec<u8>, Error>)
    ensures
        r is Ok <==> secret_key_wf(secret@),
        r matches Ok(pk) ==> {
            &&& pk@ == derived_public_key(secret@)
            &&& pk@.len() == 32
            &&& point_canonical(pk@)
        },
        r matches Err(e) ==> e == Error::InvalidSecretKey,
{
    if secret.len() != 32 {
        Err(Error::InvalidSecretKey)
    } else {
        Ok(backend::dalek_derive(secret))
    }
}

/// A consistent keypair for a given secret is unique, and consists of the
/// secret and its derived public key.
pub proof fn lemma_keypair_for_wf(secret: Seq<u8>)
    requires
        secret_key_wf(secret),
        derived_public_key(secret).len() == 32,
    ensures
        keypair_wf(keypair_for(secret)),
        keypair_for(secret).subrange(0, 32) == secret,
        keypair_for(secret).subrange(32, 64) == derived_public_key(secret),
{
    let k = keypair_for(secret);
    assert(k.subrange(0, 32) =~= secret);
    assert(k.subrange(32, 64) =~= derived_public_key(secret));
}

} // verus!
