//! Derivation of the digest that is stored in place of a password.

use vstd::prelude::*;
use crate::error::UserError;
use crate::text::same_text;

verus! {

/// The error of the password hasher. Nothing is read from it.
#[verifier::external_type_specification]
#[verifier::external_body]
pub struct ExPasswordHashError(::argon2::password_hash::Error);

/// The Argon2 digest of `password` under `salt`, as a PHC string that names
/// the algorithm, its parameters and the salt; `None` where the hasher
/// rejects the password or the salt.
pub uninterp spec fn argon2_digest(password: Seq<char>, salt: Seq<char>) -> Option<Seq<char>>;

/// Whether `c` is a character of Base64: a letter, a digit, `+` or `/`.
pub open spec fn is_base64_char(c: char) -> bool {
    ('a' <= c && c <= 'z') || ('A' <= c && c <= 'Z') || ('0' <= c && c <= '9') || c == '+'
        || c == '/'
}

/// Whether `salt` has the form of a salt drawn for one password: the
/// twenty-two Base64 characters that sixteen bytes are written as. The last
/// of them stands for the two bits that are left over, followed by four
/// zero bits.
pub open spec fn is_fresh_salt(salt: Seq<char>) -> bool {
    &&& salt.len() == 22
    &&& forall|i: int| 0 <= i < salt.len() ==> is_base64_char(#[trigger] salt[i])
    &&& salt[21] == 'A' || salt[21] == 'Q' || salt[21] == 'g' || salt[21] == 'w'
}

/// The most characters of a password that the hasher is known to take: it
/// counts the bytes of a password in 32 bits, and a character takes four
/// bytes at most.
pub const PASSWORD_MAX_LEN: usize = 0x3FFF_FFFF;

/// Calls `argon2::password_hash::SaltString::generate` on the operating
/// system's random number generator.
///
/// Trusted: whatever bytes were drawn, the salt is sixteen of them written
/// as Base64 without padding. The call panics where the operating system
/// gives no random bytes, which no `requires` can leave out.
#[verifier::external_body]
pub(crate) fn random_salt() -> (salt: String)
    ensures
        is_fresh_salt(salt@),
{
    ::argon2::password_hash::SaltString::generate(&mut ::rand_core::OsRng).as_str().to_string()
}

/// Calls `argon2::PasswordHasher::hash_password` on the default `Argon2`,
/// with the salt read by `SaltString::from_b64`, and the `Display` of the
/// hash it returns.
///
/// Trusted: whether a digest comes back, and which, is a function of the
/// password and the salt alone, named [`argon2_digest`]; and one comes back
/// for a salt of the form drawn and a password of at most
/// [`PASSWORD_MAX_LEN`] characters. The hasher fails only on a salt that it
/// cannot decode or that is too short, and on a password of 2^32 bytes or
/// more.
#[verifier::external_body]
fn argon2_hash(password: &str, salt: &str) -> (digest: Result<
    String,
    ::argon2::password_hash::Error,
>)
    ensures
        match digest {
            Ok(text) => argon2_digest(password@, salt@) == Some(text@),
            Err(_) => argon2_digest(password@, salt@) is None,
        },
        is_fresh_salt(salt@) && password@.len() <= PASSWORD_MAX_LEN ==> digest is Ok,
{
    let salt = ::argon2::password_hash::SaltString::from_b64(salt)?;
    let hash = ::argon2::PasswordHasher::hash_password(
        &::argon2::Argon2::default(),
        password.as_bytes(),
        &salt,
    )?;
    Ok(hash.to_string())
}

/// The digest that is stored for `password` under `salt`: the Argon2 digest,
/// unless there is none or it reads exactly as the password does.
pub open spec fn stored_digest(password: Seq<char>, salt: Seq<char>) -> Option<Seq<char>> {
    match argon2_digest(password, salt) {
        Some(digest) => if digest == password {
            None
        } else {
            Some(digest)
        },
        None => None,
    }
}

/// Whether the hasher has a digest for `password` under `salt`, where the
/// salt has the form drawn and the password is not too long.
pub open spec fn hashes(password: Seq<char>, salt: Seq<char>) -> bool {
    is_fresh_salt(salt) && password.len() <= PASSWORD_MAX_LEN ==> argon2_digest(password, salt)
        is Some
}

/// Derives the digest of `password` under `salt`.
///
/// Fails with [`UserError::HashingError`] where the hasher rejects its
/// input, which it does not for a salt of the form drawn and a password of
/// at most [`PASSWORD_MAX_LEN`] characters. A digest is never the password
/// itself: one that read the same would be refused in the same way.
pub fn hash_password(password: &str, salt: &str) -> (digest: Result<String, UserError>)
    ensures
        match digest {
            Ok(text) => stored_digest(password@, salt@) == Some(text@) && text@ != password@,
            Err(e) => stored_digest(password@, salt@) is None && e == UserError::HashingError,
        },
        hashes(password@, salt@),
{
    match argon2_hash(password, salt) {
        Ok(text) => {
            if same_text(text.as_str(), password) {
                Err(UserError::HashingError)
            } else {
                Ok(text)
            }
        },
        Err(_) => Err(UserError::HashingError),
    }
}

} // verus!
