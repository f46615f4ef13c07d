//! Hashing passwords and checking them.

use vstd::prelude::*;
use vstd::string::*;
use crate::error::{WebSocketError, WebSocketErrorKind};
use crate::exchange::{Answer, Query};

verus! {

/// The error type of the password hashing crates.
#[verifier::external_type_specification]
#[verifier::external_body]
pub struct ExPasswordHashError(argon2::password_hash::Error);

/// Kibibytes of memory that a hash takes.
pub const MEMORY_COST: u32 = 65536;

/// Passes over the memory that a hash takes.
pub const TIME_COST: u32 = 8;

/// Lanes that a hash is computed in.
pub const PARALLELISM: u32 = 4;

/// The most lanes that a hash may be computed in.
pub const MAX_PARALLELISM: u32 = 0xFFFFFF;

/// True of the bytes that stand for the ten digits.
pub open spec fn digit(byte: u8) -> bool {
    48 <= byte <= 57
}

/// The number that the digits from `at` on spell, up to the first byte
/// that is no digit, after the digits that spelt `so_far`.
pub open spec fn number_from(bytes: Seq<u8>, at: int, so_far: nat) -> nat
    decreases bytes.len() - at,
{
    if at < 0 || at >= bytes.len() || !digit(bytes[at]) {
        so_far
    } else {
        number_from(bytes, at + 1, so_far * 10 + (bytes[at] - 48) as nat)
    }
}

/// True when a parameter named `p`, the number of lanes, begins at `at`:
/// the letter follows a `$` or a `,` and is followed by `=`.
pub open spec fn names_lanes(bytes: Seq<u8>, at: int) -> bool {
    &&& 1 <= at
    &&& at + 1 < bytes.len()
    &&& (bytes[at - 1] == 36 || bytes[at - 1] == 44)
    &&& bytes[at] == 112
    &&& bytes[at + 1] == 61
}

/// True when no parameter of the bytes names more lanes than a hash may be
/// computed in.
pub open spec fn lanes_fit(bytes: Seq<u8>) -> bool {
    forall|at: int| #[trigger]
        names_lanes(bytes, at) ==> number_from(bytes, at + 2, 0) <= MAX_PARALLELISM
}

/// True when the hash string names no more lanes than a hash may be
/// computed in. A string that does not is no hash that could ever verify,
/// and is not handed to the hasher.
pub open spec fn costs_fit(password_hash: Seq<char>) -> bool {
    lanes_fit(vstd::utf8::encode_utf8(password_hash))
}

/// Digits never make a number smaller.
proof fn lemma_number_grows(bytes: Seq<u8>, at: int, so_far: nat)
    ensures
        number_from(bytes, at, so_far) >= so_far,
    decreases bytes.len() - at,
{
    if !(at < 0 || at >= bytes.len() || !digit(bytes[at])) {
        lemma_number_grows(bytes, at + 1, so_far * 10 + (bytes[at] - 48) as nat);
    }
}

fn number_fits(bytes: &[u8], at: usize) -> (r: bool)
    ensures
        r == (number_from(bytes@, at as int, 0) <= MAX_PARALLELISM),
{
    let mut i: usize = at;
    let mut value: u32 = 0;
    while i < bytes.len()
        invariant
            at <= i,
            value <= MAX_PARALLELISM,
            number_from(bytes@, at as int, 0) == number_from(bytes@, i as int, value as nat),
        decreases bytes.len() - i,
    {
        let byte: u8 = bytes[i];
        if byte < 48 || byte > 57 {
            return true;
        }
        value = value * 10 + (byte - 48) as u32;
        if value > MAX_PARALLELISM {
            proof {
                lemma_number_grows(bytes@, i + 1, value as nat);
            }
            return false;
        }
        i += 1;
    }
    true
}

/// Checks that a hash string names no more lanes than a hash may be
/// computed in.
pub fn check_costs(password_hash: &str) -> (r: bool)
    ensures
        r == costs_fit(password_hash@),
{
    let bytes = password_hash.as_bytes();
    let n = bytes.len();
    if n < 3 {
        return true;
    }
    let mut at: usize = 1;
    while at + 1 < n
        invariant
            1 <= at,
            at + 1 <= n,
            n == bytes@.len(),
            bytes@ == vstd::utf8::encode_utf8(password_hash@),
            forall|j: int|
                1 <= j < at && #[trigger] names_lanes(bytes@, j) ==> number_from(bytes@, j + 2, 0)
                    <= MAX_PARALLELISM,
        decreases n - at,
    {
        if (bytes[at - 1] == 36 || bytes[at - 1] == 44) && bytes[at] == 112 && bytes[at + 1] == 61 {
            if !number_fits(bytes, at + 2) {
                assert(names_lanes(bytes@, at as int));
                assert(number_from(bytes@, at as int + 2, 0) > MAX_PARALLELISM);
                assert(!lanes_fit(bytes@));
                return false;
            }
        }
        at += 1;
    }
    true
}

/// Whether Argon2 finds that a password matches a hash in the PHC string
/// format: the hash parses, and hashing the password with the algorithm,
/// version, parameters and salt that the hash names gives the output that
/// the hash holds.
pub uninterp spec fn argon2_accepts(password: Seq<char>, password_hash: Seq<char>) -> bool;

/// `PasswordHash::new` followed by `verify_password` on the default
/// `Argon2`. The outcome is a function of the two strings: the hash string
/// itself names everything that goes into the computation. The hasher
/// multiplies the number of lanes that the string names by eight before it
/// looks at its size, so the string may name no more lanes than a hash may
/// be computed in. The memory that the computation takes is the memory
/// that the hash string names.
#[verifier::external_body]
fn argon2_verify(password: &str, password_hash: &str) -> (r: Result<
    (),
    argon2::password_hash::Error,
>)
    requires
        costs_fit(password_hash@),
    ensures
        r is Ok <==> argon2_accepts(password@, password_hash@),
{
    let parsed = argon2::PasswordHash::new(password_hash)?;
    argon2::PasswordVerifier::verify_password(
        &argon2::Argon2::default(),
        password.as_bytes(),
        &parsed,
    )
}

/// `hash_password` of Argon2id, version 0x13, with the given costs and a
/// salt from `SaltString::generate` on the system's random numbers. The
/// salt differs from call to call, and so does the hash; what holds of
/// every hash that comes back is that it verifies against the password it
/// was made from. The hasher multiplies the number of lanes by eight
/// before it looks at its size, so the number may not be larger than a
/// hash may be computed in.
#[verifier::external_body]
fn argon2_hash(password: &str, m_cost: u32, t_cost: u32, p_cost: u32) -> (r: Result<
    String,
    argon2::password_hash::Error,
>)
    requires
        p_cost <= MAX_PARALLELISM,
    ensures
        r is Ok ==> argon2_accepts(password@, r->Ok_0@),
{
    let salt = argon2::password_hash::SaltString::generate(
        &mut argon2::password_hash::rand_core::OsRng,
    );
    let params = argon2::Params::new(m_cost, t_cost, p_cost, None)?;
    let hasher = argon2::Argon2::new(argon2::Algorithm::Argon2id, argon2::Version::V0x13, params);
    let hashed = argon2::PasswordHasher::hash_password(&hasher, password.as_bytes(), &salt)?;
    Ok(hashed.to_string())
}

/// The words in which the hashing crate describes an error.
#[verifier::external_body]
fn describe(error: &argon2::password_hash::Error) -> String {
    format!("{error}")
}

/// Why a password could not be hashed or did not verify.
#[derive(Debug)]
pub struct PasswordError {
    /// The hashing crate's description of what went wrong.
    pub description: String,
}

/// What comes of an answer of the hasher: what it gave, where it gave
/// something, and else its error put into words.
pub fn settle<T>(outcome: Result<T, argon2::password_hash::Error>) -> (r: Result<T, PasswordError>)
    ensures
        match outcome {
            Ok(value) => r is Ok && r->Ok_0 == value,
            Err(_) => r is Err,
        },
{
    match outcome {
        Ok(value) => Ok(value),
        Err(error) => Err(PasswordError { description: describe(&error) }),
    }
}

/// Hashes a password under a fresh salt. Whether a hash comes back lies
/// with the hasher and the system's random numbers; a hash that comes back
/// verifies against the password.
pub fn hash(password: &str) -> (r: Result<String, PasswordError>)
    ensures
        r is Ok ==> argon2_accepts(password@, r->Ok_0@),
{
    settle(argon2_hash(password, MEMORY_COST, TIME_COST, PARALLELISM))
}

/// Checks a password against a hash. A hash string that names more lanes
/// than a hash may be computed in never verifies, and the hasher is not
/// asked about it.
pub fn verify(password: &str, password_hash: &str) -> (r: Result<(), PasswordError>)
    ensures
        r is Ok <==> costs_fit(password_hash@) && argon2_accepts(password@, password_hash@),
{
    if !check_costs(password_hash) {
        return Err(PasswordError { description: String::from_str("too many lanes") });
    }
    settle(argon2_verify(password, password_hash))
}

/// What the library can answer by itself: whether a password matches a
/// hash, and the hash of a password.
pub open spec fn answered_locally(query: Query, r: Option<Answer>) -> bool {
    match query {
        Query::PasswordVerify { password, password_hash } => r == Some(
            Answer::Verdict(
                costs_fit(password_hash@) && argon2_accepts(password@, password_hash@),
            ),
        ),
        Query::PasswordHash { password } => match r {
            Some(Answer::Text(hashed)) => argon2_accepts(password@, hashed@),
            Some(Answer::Failed(error)) => {
                &&& error.http_code == 500
                &&& error.json_code == 500
                &&& error.kind is Argon2PasswordHashError
                &&& WebSocketErrorKind::Argon2PasswordHashError.label().is_prefix_of(error.message@)
            },
            _ => false,
        },
        _ => r is None,
    }
}

/// Answers the queries that need no collaborator: those about passwords.
/// Every other query is left to the caller.
pub fn answer_locally(query: &Query) -> (r: Option<Answer>)
    ensures
        answered_locally(*query, r),
{
    match query {
        Query::PasswordVerify { password, password_hash } => Some(
            Answer::Verdict(verify(password.as_str(), password_hash.as_str()).is_ok()),
        ),
        Query::PasswordHash { password } => match hash(password.as_str()) {
            Ok(hashed) => Some(Answer::Text(hashed)),
            Err(error) => {
                let wrapped = WebSocketError::from_source(
                    WebSocketErrorKind::Argon2PasswordHashError,
                    false,
                    error.description.as_str(),
                );
                assert(wrapped.message@ == WebSocketErrorKind::Argon2PasswordHashError.label()
                    + error.description@);
                assert(wrapped.message@.subrange(
                    0,
                    WebSocketErrorKind::Argon2PasswordHashError.label().len() as int,
                ) =~= WebSocketErrorKind::Argon2PasswordHashError.label());
                Some(Answer::Failed(wrapped))
            },
        },
        _ => None,
    }
}

} // verus!
