//! Calls into std and hotaru_lib whose results Verus takes on trust.
use vstd::prelude::*;
use crate::validate::is_ascii_alnum;

verus! {

/// Relies on `SystemTime::now` and `duration_since(UNIX_EPOCH)`: whole
/// seconds since the Unix epoch, zero for a clock set before it. Nothing is
/// promised of the value.
#[verifier::external_body]
pub(crate) fn unix_now() -> (r: u64) {
    std::time::SystemTime::now().duration_since(std::time::UNIX_EPOCH).unwrap_or_default().as_secs()
}

/// Relies on `hotaru_lib::random::random_alphanumeric_string`: `len`
/// characters, each drawn from `A-Z`, `a-z` and `0-9`.
#[verifier::external_body]
pub(crate) fn random_alphanumeric(len: usize) -> (r: String)
    ensures
        r@.len() == len,
        forall|i: int| 0 <= i < r@.len() ==> is_ascii_alnum(#[trigger] r@[i]),
{
    hotaru_lib::random::random_alphanumeric_string(len)
}

/// What `hotaru_lib::ende::aes::decrypt(data, key)` yields: the plaintext, or
/// nothing where the data does not decrypt under the key.
pub uninterp spec fn aes_decrypt_of(data: Seq<char>, key: Seq<char>) -> Option<Seq<char>>;

/// Relies on `hotaru_lib::ende::aes::decrypt`, which depends on its arguments
/// alone.
#[verifier::external_body]
pub(crate) fn aes_decrypt(data: &str, key: &str) -> (r: Option<String>)
    ensures
        match r {
            Some(p) => aes_decrypt_of(data@, key@) == Some(p@),
            None => aes_decrypt_of(data@, key@) is None,
        },
{
    hotaru_lib::ende::aes::decrypt(data, key).ok()
}

/// Relies on `hotaru_lib::ende::aes::encrypt`: it draws a fresh salt and
/// nonce, so its output is not fixed, but what it returns decrypts under the
/// same key to the plaintext.
#[verifier::external_body]
pub(crate) fn aes_encrypt(plain: &str, key: &str) -> (r: Option<String>)
    ensures
        r matches Some(c) ==> aes_decrypt_of(c@, key@) == Some(plain@),
{
    hotaru_lib::ende::aes::encrypt(plain, key).ok()
}

} // verus!
