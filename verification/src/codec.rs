//! The cipher codec: AES-128 in CBC mode with PKCS#7 padding over whole
//! byte buffers.
//!
//! The codec never touches the filesystem. It is deterministic: the same
//! plaintext, key and initialisation vector always give the same ciphertext.
//! That is a property callers must accept, not a recommendation.

use crate::error::ErrorKind;
use aes::Aes128;
use block_modes::block_padding::Pkcs7;
use block_modes::{BlockMode, BlockModeError, Cbc, InvalidKeyIvLength};
use vstd::prelude::*;

verus! {

/// Length in bytes of one cipher block.
pub const BLOCK_LEN: usize = 16;

/// Length in bytes of the key, and of the initialisation vector.
pub const KEY_LEN: usize = 16;

/// The error `block_modes` gives for a key or IV of the wrong length.
#[verifier::external_type_specification]
#[verifier::external_body]
pub struct ExInvalidKeyIvLength(InvalidKeyIvLength);

/// The error `block_modes` gives for a ciphertext it cannot decrypt.
#[verifier::external_type_specification]
#[verifier::external_body]
pub struct ExBlockModeError(BlockModeError);

/// The ciphertext that `Cbc<Aes128, Pkcs7>` produces for a plaintext under a
/// 16-byte key and a 16-byte initialisation vector.
pub uninterp spec fn aes128_cbc_pkcs7_encrypted(plaintext: Seq<u8>, key: Seq<u8>, iv: Seq<u8>) -> Seq<u8>;

/// The plaintext that `Cbc<Aes128, Pkcs7>` recovers from a ciphertext under a
/// 16-byte key and a 16-byte initialisation vector, or `None` where it
/// rejects the ciphertext.
pub uninterp spec fn aes128_cbc_pkcs7_decrypted(ciphertext: Seq<u8>, key: Seq<u8>, iv: Seq<u8>) -> Option<Seq<u8>>;

/// Whether a key and an initialisation vector have the lengths the cipher takes.
pub open spec fn key_material_valid(key: Seq<u8>, iv: Seq<u8>) -> bool {
    key.len() == KEY_LEN && iv.len() == BLOCK_LEN
}

/// Length of the ciphertext for a plaintext of `n` bytes: the plaintext is
/// always padded, by 1 to 16 bytes, up to the next whole block.
pub open spec fn padded_len(n: nat) -> nat {
    ((n / (BLOCK_LEN as nat)) + 1) * (BLOCK_LEN as nat)
}

/// What `encrypt` returns for given inputs.
pub open spec fn encrypt_outcome(plaintext: Seq<u8>, key: Seq<u8>, iv: Seq<u8>) -> Result<Seq<u8>, ErrorKind> {
    if !key_material_valid(key, iv) {
        Err(ErrorKind::InvalidKeyMaterial)
    } else {
        Ok(aes128_cbc_pkcs7_encrypted(plaintext, key, iv))
    }
}

/// What `decrypt` returns for given inputs.
pub open spec fn decrypt_outcome(ciphertext: Seq<u8>, key: Seq<u8>, iv: Seq<u8>) -> Result<Seq<u8>, ErrorKind> {
    if !key_material_valid(key, iv) {
        Err(ErrorKind::InvalidKeyMaterial)
    } else if ciphertext.len() == 0 || ciphertext.len() % (BLOCK_LEN as nat) != 0 {
        Err(ErrorKind::InvalidCiphertext)
    } else {
        match aes128_cbc_pkcs7_decrypted(ciphertext, key, iv) {
            Some(plaintext) => Ok(plaintext),
            None => Err(ErrorKind::InvalidCiphertext),
        }
    }
}

/// The view of a codec result: the bytes of the buffer, or the error.
pub open spec fn outcome_view(r: Result<Vec<u8>, ErrorKind>) -> Result<Seq<u8>, ErrorKind> {
    match r {
        Ok(bytes) => Ok(bytes@),
        Err(e) => Err(e),
    }
}

/// Calls `Cbc::<Aes128, Pkcs7>::new_from_slices`, then `encrypt_vec` on the
/// cipher it gives.
///
/// Trusted, not proved: construction succeeds exactly for a 16-byte key and
/// a 16-byte IV; the ciphertext is a function of the three inputs alone; it
/// is the plaintext padded up to the next whole block, so one block longer
/// than the plaintext rounded down; and `decrypt_vec` under the same key and
/// IV recovers the plaintext from it.
#[verifier::external_body]
fn cbc_encrypt(plaintext: &[u8], key: &[u8], iv: &[u8]) -> (r: Result<Vec<u8>, InvalidKeyIvLength>)
    requires
        plaintext@.len() + BLOCK_LEN <= isize::MAX,
    ensures
        r is Ok <==> key_material_valid(key@, iv@),
        r matches Ok(c) ==> c@ == aes128_cbc_pkcs7_encrypted(plaintext@, key@, iv@),
        r matches Ok(c) ==> c@.len() == padded_len(plaintext@.len()),
        r matches Ok(c) ==> aes128_cbc_pkcs7_decrypted(c@, key@, iv@) == Some(plaintext@),
{
    match Cbc::<Aes128, Pkcs7>::new_from_slices(key, iv) {
        Ok(cipher) => Ok(cipher.encrypt_vec(plaintext)),
        Err(e) => Err(e),
    }
}

/// Calls `Cbc::<Aes128, Pkcs7>::new_from_slices`, then `decrypt_vec` on the
/// cipher it gives.
///
/// Trusted, not proved: construction succeeds exactly for a 16-byte key and
/// a 16-byte IV; whether the ciphertext is accepted, and the plaintext
/// recovered from it, are a function of the three inputs alone.
#[verifier::external_body]
fn cbc_decrypt(ciphertext: &[u8], key: &[u8], iv: &[u8]) -> (r: Result<Result<Vec<u8>, BlockModeError>, InvalidKeyIvLength>)
    ensures
        r is Ok <==> key_material_valid(key@, iv@),
        r matches Ok(Ok(p)) ==> aes128_cbc_pkcs7_decrypted(ciphertext@, key@, iv@) == Some(p@),
        r matches Ok(Err(_)) ==> aes128_cbc_pkcs7_decrypted(ciphertext@, key@, iv@) is None,
{
    match Cbc::<Aes128, Pkcs7>::new_from_slices(key, iv) {
        Ok(cipher) => Ok(cipher.decrypt_vec(ciphertext)),
        Err(e) => Err(e),
    }
}

/// Whether `key` and `iv` are each exactly 16 bytes long.
pub fn valid_key_material(key: &[u8], iv: &[u8]) -> (ok: bool)
    ensures
        ok == key_material_valid(key@, iv@),
{
    key.len() == KEY_LEN && iv.len() == BLOCK_LEN
}

/// Encrypts a whole buffer.
///
/// Fails with `InvalidKeyMaterial`, and with nothing else, exactly when the
/// key or the IV is not 16 bytes long. The ciphertext is never empty, is a
/// whole number of blocks, and decrypts under the same key and IV to the
/// plaintext it was made from.
pub fn encrypt(plaintext: &[u8], key: &[u8], iv: &[u8]) -> (r: Result<Vec<u8>, ErrorKind>)
    requires
        plaintext@.len() + BLOCK_LEN <= isize::MAX,
    ensures
        outcome_view(r) == encrypt_outcome(plaintext@, key@, iv@),
        r matches Ok(c) ==> c@.len() == padded_len(plaintext@.len()),
        r matches Ok(c) ==> decrypt_outcome(c@, key@, iv@) == Ok::<Seq<u8>, ErrorKind>(plaintext@),
{
    if !valid_key_material(key, iv) {
        return Err(ErrorKind::InvalidKeyMaterial);
    }
    match cbc_encrypt(plaintext, key, iv) {
        Ok(ciphertext) => {
            proof {
                lemma_padded_len_is_whole_blocks(plaintext@.len());
            }
            Ok(ciphertext)
        },
        Err(_) => Err(ErrorKind::InvalidKeyMaterial),
    }
}

/// Decrypts a whole buffer.
///
/// Fails with `InvalidKeyMaterial` exactly when the key or the IV is not 16
/// bytes long; otherwise with `InvalidCiphertext` exactly when the
/// ciphertext is empty, is not a whole number of blocks, or is rejected by
/// the cipher because its padding does not validate.
pub fn decrypt(ciphertext: &[u8], key: &[u8], iv: &[u8]) -> (r: Result<Vec<u8>, ErrorKind>)
    ensures
        outcome_view(r) == decrypt_outcome(ciphertext@, key@, iv@),
{
    if !valid_key_material(key, iv) {
        return Err(ErrorKind::InvalidKeyMaterial);
    }
    if ciphertext.len() == 0 || ciphertext.len() % BLOCK_LEN != 0 {
        return Err(ErrorKind::InvalidCiphertext);
    }
    match cbc_decrypt(ciphertext, key, iv) {
        Ok(Ok(plaintext)) => Ok(plaintext),
        Ok(Err(_)) => Err(ErrorKind::InvalidCiphertext),
        Err(_) => Err(ErrorKind::InvalidKeyMaterial),
    }
}

/// Whether a buffer decrypts under a key and an initialisation vector.
pub open spec fn is_valid_ciphertext(ciphertext: Seq<u8>, key: Seq<u8>, iv: Seq<u8>) -> bool {
    decrypt_outcome(ciphertext, key, iv) is Ok
}

/// Encryption is deterministic: inputs that agree byte for byte give the
/// same outcome. No random nonce enters the ciphertext.
pub proof fn lemma_encrypt_deterministic(
    plaintext_a: Seq<u8>,
    key_a: Seq<u8>,
    iv_a: Seq<u8>,
    plaintext_b: Seq<u8>,
    key_b: Seq<u8>,
    iv_b: Seq<u8>,
)
    requires
        plaintext_a =~= plaintext_b,
        key_a =~= key_b,
        iv_a =~= iv_b,
    ensures
        encrypt_outcome(plaintext_a, key_a, iv_a) == encrypt_outcome(plaintext_b, key_b, iv_b),
{
}

/// A key or an initialisation vector of any length but 16 makes both
/// directions fail with `InvalidKeyMaterial`, whatever the buffer holds.
pub proof fn lemma_bad_key_material_rejected(buffer: Seq<u8>, key: Seq<u8>, iv: Seq<u8>)
    requires
        key.len() != 16 || iv.len() != 16,
    ensures
        encrypt_outcome(buffer, key, iv) == Err::<Seq<u8>, ErrorKind>(ErrorKind::InvalidKeyMaterial),
        decrypt_outcome(buffer, key, iv) == Err::<Seq<u8>, ErrorKind>(ErrorKind::InvalidKeyMaterial),
{
}

/// A valid ciphertext with its last byte cut off is no longer valid:
/// decrypting it fails with `InvalidCiphertext`.
pub proof fn lemma_truncated_ciphertext_rejected(ciphertext: Seq<u8>, key: Seq<u8>, iv: Seq<u8>)
    requires
        is_valid_ciphertext(ciphertext, key, iv),
    ensures
        decrypt_outcome(ciphertext.drop_last(), key, iv) == Err::<Seq<u8>, ErrorKind>(
            ErrorKind::InvalidCiphertext,
        ),
{
}

/// A padded length is positive and a whole number of blocks.
pub proof fn lemma_padded_len_is_whole_blocks(n: nat)
    ensures
        padded_len(n) > n,
        padded_len(n) <= n + BLOCK_LEN,
        padded_len(n) % (BLOCK_LEN as nat) == 0,
{
    assert(((n / 16) + 1) * 16 == (n / 16) * 16 + 16) by (nonlinear_arith);
    assert(((n / 16) * 16 + 16) % 16 == 0) by (nonlinear_arith);
}

} // verus!
