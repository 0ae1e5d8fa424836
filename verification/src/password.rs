//! The password hasher: a salted one-way hash with a fixed work factor, and
//! the check of a password against a stored hash.

use vstd::prelude::*;

verus! {

/// The work factor of every hash that the gateway makes.
pub const HASH_COST: u32 = 10;

/// Whether a stored hash admits a password: `Some(true)` where it does,
/// `Some(false)` where it does not, `None` where the text is not a hash
/// that the hasher can read.
pub uninterp spec fn password_verdict(password: Seq<char>, hash: Seq<char>) -> Option<bool>;

/// The digit of a number below ten.
pub open spec fn digit(value: int) -> char {
    if value == 0 {
        '0'
    } else if value == 1 {
        '1'
    } else if value == 2 {
        '2'
    } else if value == 3 {
        '3'
    } else if value == 4 {
        '4'
    } else if value == 5 {
        '5'
    } else if value == 6 {
        '6'
    } else if value == 7 {
        '7'
    } else if value == 8 {
        '8'
    } else {
        '9'
    }
}

/// Whether a text has the shape of a hash made with the given work factor:
/// sixty characters that begin with `$2b$`, the work factor in two digits
/// and `$`.
pub open spec fn made_with_cost(hash: Seq<char>, cost: u32) -> bool {
    &&& hash.len() == 60
    &&& hash[0] == '$'
    &&& hash[1] == '2'
    &&& hash[2] == 'b'
    &&& hash[3] == '$'
    &&& hash[4] == digit(cost as int / 10)
    &&& hash[5] == digit(cost as int % 10)
    &&& hash[6] == '$'
}

/// Calls `bcrypt::hash`, which salts from the system's random source. The
/// claims: whatever hash comes back, it has the shape of a hash made with
/// the given work factor, and `bcrypt::verify` admits the same password
/// against it. Nothing is promised when the random source fails or the
/// cost is out of bcrypt's range: then there is no hash.
#[verifier::external_body]
fn bcrypt_hash(password: &str, cost: u32) -> (hash: Option<String>)
    ensures
        hash matches Some(text) ==> {
            &&& made_with_cost(text@, cost)
            &&& password_verdict(password@, text@) == Some(true)
        },
{
    bcrypt::hash(password, cost).ok()
}

/// Calls `bcrypt::verify`. The claim: the verdict depends on the password
/// and the hash text alone. A text that bcrypt cannot take apart gives no
/// verdict.
#[verifier::external_body]
fn bcrypt_verify(password: &str, hash: &str) -> (verdict: Option<bool>)
    ensures
        verdict == password_verdict(password@, hash@),
{
    bcrypt::verify(password, hash).ok()
}

/// Hashes a password for storage. Two calls on one password give different
/// hashes; each of them admits the password. `None` reports a fault of the
/// hasher.
pub fn hash(plaintext: &str) -> (hash: Option<String>)
    ensures
        hash matches Some(text) ==> {
            &&& made_with_cost(text@, HASH_COST)
            &&& password_verdict(plaintext@, text@) == Some(true)
        },
{
    bcrypt_hash(plaintext, HASH_COST)
}

/// Checks a password against a stored hash, without deriving anything to
/// compare in the clear. `None` reports a stored text that is no hash.
pub fn verify(plaintext: &str, hash: &str) -> (verdict: Option<bool>)
    ensures
        verdict == password_verdict(plaintext@, hash@),
{
    bcrypt_verify(plaintext, hash)
}

} // verus!
