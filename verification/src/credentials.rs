//! API keys and their hashes.

use vstd::prelude::*;
use vstd::utf8::encode_utf8;
use crate::errors::ServiceError;
use crate::text::join_text;

verus! {

/// The secrets that hashing needs. They are fixed once, at startup.
#[derive(Debug, Clone, PartialEq, Eq)]
pub struct Config {
    /// The key that is mixed into every hash.
    pub secret_key: String,
    /// The salt of every hash.
    pub salt: String,
}

/// The number of random characters in an API key.
pub const KEY_LENGTH: usize = 32;

/// The largest length that the hash function takes for any of its inputs.
pub const MAX_INPUT: usize = 0xffff_ffff;

/// The shortest salt that the hash function takes.
pub const MIN_SALT: usize = 8;

/// The secret key that is used where none is set.
pub open spec fn default_secret_key() -> Seq<char> {
    "0123012301230123012301230123012301230123012301230123012301230123"@
}

/// The salt that is used where none is set.
pub open spec fn default_salt() -> Seq<char> {
    "supersecuresalt"@
}

/// How every API key begins.
pub open spec fn key_prefix() -> Seq<char> {
    "tr-"@
}

/// What is reported when a password cannot be hashed.
pub open spec fn hashing_failed() -> Seq<char> {
    "Error processing password, try again"@
}

/// Whether the character is an ASCII letter or digit.
pub open spec fn is_alphanumeric(c: char) -> bool {
    ||| '0' as u32 <= c as u32 <= '9' as u32
    ||| 'a' as u32 <= c as u32 <= 'z' as u32
    ||| 'A' as u32 <= c as u32 <= 'Z' as u32
}

/// Whether the text is a token of `length` ASCII letters and digits.
pub open spec fn is_token(text: Seq<char>, length: nat) -> bool {
    text.len() == length && forall|i: int| 0 <= i < text.len() ==> is_alphanumeric(#[trigger] text[i])
}

/// Whether `key` is the API key with the random part `token`.
pub open spec fn is_key_with(key: Seq<char>, token: Seq<char>) -> bool {
    is_token(token, KEY_LENGTH as nat) && key == key_prefix() + token
}

/// Whether `key` is an API key: `tr-`, then 32 ASCII letters and digits.
pub open spec fn is_api_key(key: Seq<char>) -> bool {
    exists|token: Seq<char>| is_key_with(key, token)
}

/// Whether inputs of these lengths, in bytes, can be hashed: the salt has at
/// least eight bytes, and no input is longer than the hash function takes.
pub open spec fn hashable(password: nat, salt: nat, secret: nat) -> bool {
    password <= MAX_INPUT && MIN_SALT <= salt <= MAX_INPUT && secret <= MAX_INPUT
}

/// The encoded Argon2i hash of a password with a salt and a secret key, in
/// the original parameters of Argon2 (version 1.3, one lane, 4096 KiB, three
/// passes, 32 bytes of output); nothing where the inputs cannot be hashed.
pub uninterp spec fn argon2i_encoded(password: Seq<u8>, salt: Seq<u8>, secret: Seq<u8>) -> Option<
    Seq<char>,
>;

/// `rand::Rng::sample_iter` with `rand::distributions::Alphanumeric` on the
/// thread's generator: `length` random characters. Whatever comes back, it
/// has that many characters and each is an ASCII letter or digit.
#[verifier::external_body]
fn random_token(length: usize) -> (token: String)
    ensures
        is_token(token@, length as nat),
{
    rand::Rng::sample_iter(rand::thread_rng(), &rand::distributions::Alphanumeric)
        .take(length)
        .map(char::from)
        .collect()
}

/// `argon2::hash_encoded` with `argon2::Config::original()` and the secret
/// key: the encoded hash, or nothing where the crate refuses the inputs. It
/// refuses them exactly when they are not [`hashable`].
#[verifier::external_body]
fn argon2_hash(password: &[u8], salt: &[u8], secret: &[u8]) -> (encoded: Option<String>)
    ensures
        match encoded {
            Some(e) => argon2i_encoded(password@, salt@, secret@) == Some(e@),
            None => argon2i_encoded(password@, salt@, secret@) is None,
        },
        encoded is Some <==> hashable(password@.len(), salt@.len(), secret@.len()),
{
    let config = argon2::Config { secret, ..argon2::Config::original() };
    argon2::hash_encoded(password, salt, &config).ok()
}

impl Config {
    /// The secrets as they were set, with the defaults where they were not.
    pub fn new(secret_key: Option<String>, salt: Option<String>) -> (config: Config)
        ensures
            config.secret_key@ == match secret_key {
                Some(k) => k@,
                None => default_secret_key(),
            },
            config.salt@ == match salt {
                Some(s) => s@,
                None => default_salt(),
            },
    {
        Config {
            secret_key: match secret_key {
                Some(k) => k,
                None => String::from_str(
                    "0123012301230123012301230123012301230123012301230123012301230123",
                ),
            },
            salt: match salt {
                Some(s) => s,
                None => String::from_str("supersecuresalt"),
            },
        }
    }
}

/// The API key with the random part `token`: `tr-`, then the token.
pub fn api_key_of(token: &str) -> (key: String)
    ensures
        key@ == key_prefix() + token@,
{
    join_text("tr-", token)
}

/// Makes a new API key: `tr-`, then 32 random ASCII letters and digits.
pub fn generate_api_key() -> (key: String)
    ensures
        is_api_key(key@),
{
    let token = random_token(KEY_LENGTH);
    let key = api_key_of(token.as_str());
    assert(is_key_with(key@, token@));
    key
}

/// Hashes a password, or an API key, with the salt and the secret key of
/// `config`.
///
/// The hash is the encoded Argon2i hash of the three. Hashing fails, with a
/// rejected request, exactly when the inputs are not [`hashable`].
pub fn hash_password(password: &str, config: &Config) -> (hashed: Result<String, ServiceError>)
    ensures
        hashed is Ok <==> hashable(
            encode_utf8(password@).len(),
            encode_utf8(config.salt@).len(),
            encode_utf8(config.secret_key@).len(),
        ),
        match hashed {
            Ok(h) => argon2i_encoded(
                encode_utf8(password@),
                encode_utf8(config.salt@),
                encode_utf8(config.secret_key@),
            ) == Some(h@),
            Err(e) => e matches ServiceError::BadRequest(m) && m@ == hashing_failed(),
        },
{
    let encoded = argon2_hash(
        password.as_bytes(),
        config.salt.as_str().as_bytes(),
        config.secret_key.as_str().as_bytes(),
    );
    match encoded {
        Some(h) => Ok(h),
        None => Err(
            ServiceError::BadRequest(String::from_str("Error processing password, try again")),
        ),
    }
}

} // verus!
