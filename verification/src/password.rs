use vstd::prelude::*;

use argon2::password_hash::SaltString;
use argon2::{Argon2, PasswordHash, PasswordHasher, PasswordVerifier};
use vstd::utf8::encode_utf8;

use crate::token::{base64_std_no_pad, fill_random, lemma_base64_no_pad_shape};

verus! {

/// Whether `PasswordHash::new` reads the text as a PHC string.
pub uninterp spec fn phc_parses(phc: Seq<char>) -> bool;

/// Whether `Argon2::default().verify_password` accepts the password bytes for
/// the hash that `PasswordHash::new` reads from the PHC text.
pub uninterp spec fn argon2_verifies(password: Seq<u8>, phc: Seq<char>) -> bool;

/// The raw Argon2id digest that `Argon2::default()` computes for the password
/// bytes and the salt bytes.
pub uninterp spec fn argon2id_digest(password: Seq<u8>, salt: Seq<u8>) -> Seq<u8>;

/// The head of every PHC string that `Argon2::default()` writes: algorithm
/// Argon2id, version 0x13, 19 MiB of memory, two passes, one lane.
pub open spec fn argon2_default_phc_head() -> Seq<char> {
    "$argon2id$v=19$m=19456,t=2,p=1$"@
}

/// The PHC string of an Argon2id hash with the default parameters: the head,
/// the salt in B64, `$`, and the digest in B64.
pub open spec fn argon2_phc_text(password: Seq<u8>, salt: Seq<u8>) -> Seq<char> {
    argon2_default_phc_head() + base64_std_no_pad(salt) + seq!['$'] + base64_std_no_pad(
        argon2id_digest(password, salt),
    )
}

/// The stored text is a PHC string and the password (as UTF-8 bytes) verifies
/// against it.
pub open spec fn password_accepted(password: Seq<char>, phc: Seq<char>) -> bool {
    phc_parses(phc) && argon2_verifies(encode_utf8(password), phc)
}

/// A hash as `hash_new_password` writes it: the Argon2id PHC string of the
/// password's UTF-8 bytes with some 16-byte salt, whose digest has 32 bytes.
pub open spec fn is_new_password_hash(password: Seq<char>, phc: Seq<char>) -> bool {
    exists|salt: Seq<u8>|
        salt.len() == 16 && phc == argon2_phc_text(encode_utf8(password), salt)
            && #[trigger] argon2id_digest(encode_utf8(password), salt).len() == 32
}

/// `SaltString::encode_b64(salt)` (the salt in B64, as `SaltString::generate`
/// makes it from its random bytes), then `Argon2::default().hash_password`,
/// written out with `Display`. That text is the head of the default
/// parameters, the salt, and the 32-byte default output, each part after a `$`
/// (`PasswordHash`'s `Display`; `Params::DEFAULT_OUTPUT_LEN`). As the crate's
/// documentation shows, `PasswordHash::new` reads it back and `verify_password`
/// accepts the same password for it. The digest itself is not stated. The
/// salt's bounds keep `encode_b64` within its 64 characters and `hash_password`
/// above `MIN_SALT_LEN`; the password's keeps it within `MAX_PWD_LEN`: outside
/// them the calls fail, and this panics.
#[verifier::external_body]
fn argon2_hash(password: &[u8], salt: &[u8]) -> (r: String)
    requires
        password@.len() <= 0xFFFF_FFFF,
        8 <= salt@.len() <= 48,
    ensures
        r@ == argon2_default_phc_head() + base64_std_no_pad(salt@) + seq!['$'] + base64_std_no_pad(
            argon2id_digest(password@, salt@),
        ),
        r@.len() == 75 + (4 * salt@.len() + 2) / 3,
        phc_parses(r@),
        argon2_verifies(password@, r@),
{
    let salt = SaltString::encode_b64(salt).unwrap();
    Argon2::default().hash_password(password, &salt).unwrap().to_string()
}

/// `PasswordHash::new(phc).is_ok()`.
#[verifier::external_body]
fn phc_is_well_formed(phc: &str) -> (r: bool)
    ensures
        r == phc_parses(phc@),
{
    PasswordHash::new(phc).is_ok()
}

/// `Argon2::default().verify_password(password, &parsed).is_ok()`, where
/// `parsed` is what `PasswordHash::new` reads from `phc`.
#[verifier::external_body]
fn argon2_verify(password: &[u8], phc: &str) -> (r: bool)
    requires
        phc_parses(phc@),
    ensures
        r == argon2_verifies(password@, phc@),
{
    match PasswordHash::new(phc) {
        Ok(parsed) => Argon2::default().verify_password(password, &parsed).is_ok(),
        Err(_) => false,
    }
}

/// Whether the password a user posted matches the hash stored for that user:
/// false when the stored text is no PHC string.
pub fn password_check(user_post_password: &String, data_base_password_hash: &String) -> (r: bool)
    ensures
        r == password_accepted(user_post_password@, data_base_password_hash@),
{
    let stored = data_base_password_hash.as_str();
    let mut checked = false;
    if phc_is_well_formed(stored) {
        checked = argon2_verify(user_post_password.as_str().as_bytes(), stored);
    }
    checked
}

/// The PHC text of the Argon2id hash of the password's UTF-8 bytes with the
/// given salt bytes (`hash_new_password` draws them at random).
pub fn hash_password_with_salt(password: &String, salt: &[u8]) -> (r: String)
    requires
        encode_utf8(password@).len() <= 0xFFFF_FFFF,
        8 <= salt@.len() <= 48,
    ensures
        r@ == argon2_phc_text(encode_utf8(password@), salt@),
        r@.len() == 75 + (4 * salt@.len() + 2) / 3,
        password_accepted(password@, r@),
{
    argon2_hash(password.as_str().as_bytes(), salt)
}

/// The PHC text to store for a new password: an Argon2 hash of its UTF-8 bytes
/// with a fresh random salt of 16 bytes.
pub fn hash_new_password(password: &String) -> (r: String)
    requires
        encode_utf8(password@).len() <= 0xFFFF_FFFF,
    ensures
        password_accepted(password@, r@),
        is_new_password_hash(password@, r@),
{
    let mut salt: Vec<u8> = vec![0u8; 16];
    fill_random(&mut salt);
    let r = hash_password_with_salt(password, salt.as_slice());
    proof {
        let digest = argon2id_digest(encode_utf8(password@), salt@);
        reveal_strlit("$argon2id$v=19$m=19456,t=2,p=1$");
        lemma_base64_no_pad_shape(salt@, false);
        lemma_base64_no_pad_shape(digest, false);
        assert((4 * digest.len() + 2) / 3 == 43);
        assert(digest.len() == 32) by (nonlinear_arith)
            requires
                (4 * digest.len() + 2) / 3 == 43,
        ;
    }
    r
}

/// A new password hash has 97 characters and begins with the head of the
/// default parameters.
pub proof fn lemma_new_password_hash_shape(password: Seq<char>, phc: Seq<char>)
    requires
        is_new_password_hash(password, phc),
    ensures
        phc.len() == 97,
        phc.subrange(0, 31) == argon2_default_phc_head(),
{
    let salt = choose|salt: Seq<u8>|
        salt.len() == 16 && phc == argon2_phc_text(encode_utf8(password), salt)
            && #[trigger] argon2id_digest(encode_utf8(password), salt).len() == 32;
    let digest = argon2id_digest(encode_utf8(password), salt);
    reveal_strlit("$argon2id$v=19$m=19456,t=2,p=1$");
    lemma_base64_no_pad_shape(salt, false);
    lemma_base64_no_pad_shape(digest, false);
    assert(phc.subrange(0, 31) =~= argon2_default_phc_head());
}

} // verus!
