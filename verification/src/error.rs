//! The kinds of failure a session can end with.

use vstd::prelude::*;

verus! {

/// Why an operation of the library, or a whole session, failed.
#[derive(Clone, Copy, Debug, PartialEq, Eq, Structural)]
pub enum ErrorKind {
    /// The key or the initialisation vector is not exactly 16 bytes long.
    InvalidKeyMaterial,
    /// The ciphertext is empty, not a whole number of blocks, or its padding
    /// does not validate after decryption.
    InvalidCiphertext,
    /// Opening, reading, writing or deleting a file failed.
    IoFailure,
    /// The change-notification watch on the plaintext could not be set up.
    WatchSetupFailure,
}

} // verus!
