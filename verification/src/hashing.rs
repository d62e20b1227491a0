use vstd::prelude::*;

use crate::backend;
use crate::backend::blake2b_digest;
use crate::Error;

verus! {

/// Whether `n` is an output length the hash accepts.
pub open spec fn digest_len_ok(n: int) -> bool {
    1 <= n <= 64
}

/// One-shot Blake2b with a caller-chosen digest length in 1..=64. The digest
/// has exactly the requested length; lengths outside the range are rejected.
pub fn hash(message: &[u8], digest_size: usize) -> (r: Result<Vec<u8>, Error>)
    ensures
        r is Ok <==> digest_len_ok(digest_size as int),
        r matches Ok(d) ==> {
            &&& d@ == blake2b_digest(message@, digest_size as int)
            &&& d@.len() == digest_size
        },
        r matches Err(e) ==> e == Error::InvalidDigestLength,
{
    if digest_size == 0 || digest_size > 64 {
        Err(Error::InvalidDigestLength)
    } else {
        Ok(backend::blake2b_var(message, digest_size))
    }
}

} // verus!
