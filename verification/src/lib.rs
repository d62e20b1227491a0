//! An EdDSA-style signature scheme over the Edwards form of Curve25519 that
//! uses Blake2b in place of SHA-512 for every internal hashing step, plus a
//! standalone variable-length Blake2b hash. The curve and hash computations
//! are carried out by outside crates behind trusted wrappers; everything
//! around them — input validation, canonical-form rejection, keypair
//! assembly, error taxonomy, and the batch protocol's bookkeeping — is
//! verified, with the byte-level behaviour of each operation pinned in its
//! contract.

use vstd::prelude::*;

pub mod backend;
pub mod batch;
pub mod hashing;
pub mod keys;
pub mod scalars;
pub mod scheme;
pub mod util;

pub use batch::verify_batch;
pub use hashing::hash;
pub use keys::derive_public_key;
pub use scheme::sign;
pub use scheme::verify;

verus! {

/// The failure cases of the signature and hashing operations, one variant for
/// each distinguishable way an input can be rejected.
#[derive(Clone, Copy, Debug, PartialEq, Eq, Structural)]
pub enum Error {
    /// A secret key whose length is not 32 bytes.
    InvalidSecretKey,
    /// A public key of the wrong length, off the curve, or non-canonical.
    InvalidPublicKey,
    /// Key material of the wrong length, or a 64-byte blob whose public half
    /// does not match the one derivable from its secret half.
    InvalidKeypair,
    /// A signature of the wrong length, with an out-of-range scalar, with a
    /// non-canonical point encoding, or failing the verification equation.
    InvalidSignature,
    /// Batch inputs whose three sequences do not have equal, positive length.
    InvalidBatchLength,
    /// A requested digest length outside 1..=64.
    InvalidDigestLength,
}

} // verus!
