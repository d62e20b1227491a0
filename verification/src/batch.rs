use vstd::prelude::*;

use crate::backend;
use crate::backend::verify_equation;
use crate::scalars::scalar_is_canonical;
use crate::scheme::point_is_canonical;
use crate::scheme::public_key_wf;
use crate::scheme::signature_wf;
use crate::Error;

verus! {

/// Whether the three batch inputs have equal, positive length.
pub open spec fn batch_lengths_ok(n_msgs: int, n_sigs: int, n_pks: int) -> bool {
    n_msgs == n_sigs && n_msgs == n_pks && n_msgs > 0
}

/// Whether every public key of the batch is well formed.
pub open spec fn batch_keys_wf(pks: Seq<Vec<u8>>) -> bool {
    forall|i: int| 0 <= i < pks.len() ==> public_key_wf((#[trigger] pks[i])@)
}

/// Whether every signature of the batch is well formed.
pub open spec fn batch_sigs_wf(sigs: Seq<Vec<u8>>) -> bool {
    forall|i: int| 0 <= i < sigs.len() ==> signature_wf((#[trigger] sigs[i])@)
}

/// Whether every triple of the batch satisfies its individual verification
/// equation.
pub open spec fn batch_equations_hold(
    msgs: Seq<Vec<u8>>,
    sigs: Seq<Vec<u8>>,
    pks: Seq<Vec<u8>>,
) -> bool {
    forall|i: int| 0 <= i < msgs.len()
        ==> verify_equation((#[trigger] msgs[i])@, sigs[i]@, pks[i]@)
}

/// Verifies a batch of signatures with one randomly weighted combined check.
/// Mismatched or empty inputs are rejected before any decoding; every public
/// key and signature is decoded with the same canonical-form checks as single
/// verification, and any decoding failure aborts the whole batch. A batch in
/// which every triple satisfies its verification equation is always accepted;
/// a failing combined check rejects the whole batch without naming a triple.
pub fn verify_batch(
    messages: &Vec<Vec<u8>>,
    signatures: &Vec<Vec<u8>>,
    public_keys: &Vec<Vec<u8>>,
) -> (r: Result<(), Error>)
    ensures
        !batch_lengths_ok(messages@.len() as int, signatures@.len() as int, public_keys@.len() as int)
            <==> r == Err::<(), Error>(Error::InvalidBatchLength),
        batch_lengths_ok(messages@.len() as int, signatures@.len() as int, public_keys@.len() as int)
            && !batch_keys_wf(public_keys@)
            ==> r == Err::<(), Error>(Error::InvalidPublicKey),
        batch_lengths_ok(messages@.len() as int, signatures@.len() as int, public_keys@.len() as int)
            && batch_keys_wf(public_keys@) && !batch_sigs_wf(signatures@)
            ==> r == Err::<(), Error>(Error::InvalidSignature),
        batch_lengths_ok(messages@.len() as int, signatures@.len() as int, public_keys@.len() as int)
            && batch_keys_wf(public_keys@) && batch_sigs_wf(signatures@)
            ==> r is Ok || r == Err::<(), Error>(Error::InvalidSignature),
        batch_lengths_ok(messages@.len() as int, signatures@.len() as int, public_keys@.len() as int)
            && batch_keys_wf(public_keys@) && batch_sigs_wf(signatures@)
            && batch_equations_hold(messages@, signatures@, public_keys@)
            ==> r is Ok,
{
    let n = messages.len();
    if n == 0 || signatures.len() != n || public_keys.len() != n {
        return Err(Error::InvalidBatchLength);
    }
    let mut i: usize = 0;
    while i < n
        invariant
            i <= n,
            n > 0,
            messages@.len() == n,
            signatures@.len() == n,
            public_keys@.len() == n,
            forall|j: int| 0 <= j < i ==> public_key_wf((#[trigger] public_keys@[j])@),
        decreases n - i,
    {
        let pk = &public_keys[i];
        if pk.len() != 32 {
            return Err(Error::InvalidPublicKey);
        }
        if !point_is_canonical(pk.as_slice()) {
            return Err(Error::InvalidPublicKey);
        }
        i += 1;
    }
    let mut i: usize = 0;
    while i < n
        invariant
            i <= n,
            n > 0,
            messages@.len() == n,
            signatures@.len() == n,
            public_keys@.len() == n,
            batch_keys_wf(public_keys@),
            forall|j: int| 0 <= j < i ==> signature_wf((#[trigger] signatures@[j])@),
        decreases n - i,
    {
        let sig = &signatures[i];
        if sig.len() != 64 {
            return Err(Error::InvalidSignature);
        }
        if !point_is_canonical(&sig.as_slice()[0..32]) {
            return Err(Error::InvalidSignature);
        }
        if !scalar_is_canonical(&sig.as_slice()[32..64]) {
            return Err(Error::InvalidSignature);
        }
        i += 1;
    }
    if backend::dalek_verify_batch(messages, signatures, public_keys) {
        Ok(())
    } else {
        Err(Error::InvalidSignature)
    }
}

} // verus!
