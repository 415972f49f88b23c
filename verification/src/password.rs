//! Password hashing and verification, through the `password-auth` crate.

use vstd::prelude::*;
use vstd::string::StringSliceAdditionalSpecFns;

verus! {

/// The error type of `password_auth::verify_password`.
#[verifier::external_type_specification]
#[verifier::external_body]
pub struct ExVerifyError(password_auth::VerifyError);

/// Whether `password_auth::verify_password` accepts `password` against the
/// stored PHC `hash` string. Verification is a deterministic function of the
/// two strings (the algorithm, its parameters and the salt are all read from
/// the hash itself).
pub uninterp spec fn password_matches(password: Seq<char>, hash: Seq<char>) -> bool;

/// The start of every hash `password_auth::generate_hash` makes: the PHC
/// string of Argon2id, version 19 (0x13), with the default parameters of the
/// `argon2` crate (19 MiB of memory, two passes, one lane), followed by the
/// salt and the hash output.
pub open spec fn default_hash_prefix() -> Seq<char> {
    "$argon2id$v=19$m=19456,t=2,p=1$"@
}

/// Calls `password_auth::generate_hash`.
///
/// The hash is salted with fresh random bytes, so two calls on one password
/// give different strings; the contract says what holds of every outcome: the
/// password verifies against the hash (the crate's own round-trip test states
/// exactly this), and the hash is a PHC string of Argon2id with the default
/// parameters (`Argon2::default()` hashes it, and `PasswordHash` writes the
/// algorithm, version and parameters first). The salt and the output that
/// follow that prefix are left unsaid. The crate panics when Argon2 refuses a
/// password longer than `u32::MAX` bytes, and `requires` leaves such passwords
/// out; it also panics when the operating system's random source fails, which
/// no input causes and no `requires` can exclude.
#[verifier::external_body]
pub(crate) fn hash_password(password: &str) -> (hash: String)
    requires
        password.spec_bytes().len() <= 0xFFFF_FFFF,
    ensures
        password_matches(password@, hash@),
        default_hash_prefix().is_prefix_of(hash@),
{
    password_auth::generate_hash(password)
}

/// Calls `password_auth::verify_password`: `Ok(())` exactly when the password
/// verifies against the hash; an error both when the hash does not parse and
/// when the password is wrong.
#[verifier::external_body]
pub(crate) fn check_password(password: &str, hash: &str) -> (r: Result<(), password_auth::VerifyError>)
    ensures
        r is Ok <==> password_matches(password@, hash@),
{
    password_auth::verify_password(password, hash)
}

} // verus!
