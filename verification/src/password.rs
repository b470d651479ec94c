//! Password hashing and verification with Argon2id, done by the `argon2`
//! crate. Hashes are PHC strings.

use crate::text::{decimal, decimal_value, is_digit, lemma_decimal_value_prefix};
use argon2::{PasswordHasher, PasswordVerifier};
use vstd::prelude::*;
use vstd::string::*;

verus! {

/// Memory cost of a new hash, in kibibytes.
pub const HASH_MEMORY_COST: u32 = 15_000;

/// Number of passes of a new hash.
pub const HASH_TIME_COST: u32 = 2;

/// Degree of parallelism of a new hash.
pub const HASH_PARALLELISM: u32 = 1;

/// The greatest degree of parallelism that Argon2 allows.
pub const MAX_PARALLELISM: u32 = 0xff_ffff;

/// Why a password was not accepted, or could not be hashed.
#[derive(Debug, Clone, Copy, PartialEq, Eq, Structural)]
pub enum AuthError {
    /// The password does not match the hash.
    InvalidCredentials,
    /// The hash is not a PHC string, or hashing failed.
    UnexpectedError,
}

impl AuthError {
    pub open spec fn message_text(self) -> Seq<char> {
        match self {
            AuthError::InvalidCredentials => "ユーザークレデンシャルが不正です。"@,
            AuthError::UnexpectedError => "Failed to parse hash in PHC string format."@,
        }
    }

    /// The message shown to a caller.
    pub fn message(&self) -> (text: String)
        ensures
            text@ == self.message_text(),
    {
        match self {
            AuthError::InvalidCredentials => "ユーザークレデンシャルが不正です。".to_owned(),
            AuthError::UnexpectedError => "Failed to parse hash in PHC string format.".to_owned(),
        }
    }
}

/// What `argon2` makes of a stored hash and a presented password: `None`
/// where `PasswordHash::new` cannot parse the hash as a PHC string, otherwise
/// whether `Argon2::default().verify_password` accepts the password.
pub uninterp spec fn argon2_verdict(expected_hashed: Seq<char>, raw_password: Seq<char>) -> Option<
    bool,
>;

/// How a PHC string of Argon2id, version 19, begins: the algorithm, the
/// version, and the three costs in decimal, each field led by `$`, up to the
/// `$` that leads the salt.
pub open spec fn phc_header(memory_cost: u32, time_cost: u32, parallelism: u32) -> Seq<char> {
    "$argon2id$v=19$m="@ + decimal(memory_cost as nat) + ",t="@ + decimal(time_cost as nat)
        + ",p="@ + decimal(parallelism as nat) + "$"@
}

/// Whether a parameter named `p` begins at `at`: a `$` or a `,`, then `p=`.
pub open spec fn names_parallelism(text: Seq<char>, at: int) -> bool {
    &&& 0 <= at
    &&& at + 3 <= text.len()
    &&& (text[at] == '$' || text[at] == ',')
    &&& text[at + 1] == 'p'
    &&& text[at + 2] == '='
}

/// Where the digits that begin at `from` end: the first position from there
/// on that holds no digit, or the end of the text.
pub open spec fn digits_end(text: Seq<char>, from: int) -> int
    decreases text.len() - from,
{
    if 0 <= from < text.len() && is_digit(text[from]) {
        digits_end(text, from + 1)
    } else {
        from
    }
}

/// The number that the digits beginning at `from` denote.
pub open spec fn number_at(text: Seq<char>, from: int) -> nat {
    decimal_value(text.subrange(from, digits_end(text, from)))
}

/// Whether every degree of parallelism that a stored hash names is one that
/// Argon2 allows: wherever a parameter named `p` begins, the number that
/// follows does not exceed `MAX_PARALLELISM`.
pub open spec fn parallelism_fits(text: Seq<char>) -> bool {
    forall|at: int| #[trigger]
        names_parallelism(text, at) ==> number_at(text, at + 3) <= MAX_PARALLELISM
}

/// The digits that begin at `from` end at or after `from`, within the text,
/// and all that lies between is digits.
pub proof fn lemma_digits_end(text: Seq<char>, from: int)
    requires
        0 <= from <= text.len(),
    ensures
        from <= digits_end(text, from) <= text.len(),
        forall|i: int| from <= i < digits_end(text, from) ==> is_digit(#[trigger] text[i]),
        digits_end(text, from) < text.len() ==> !is_digit(text[digits_end(text, from)]),
    decreases text.len() - from,
{
    if from < text.len() && is_digit(text[from]) {
        lemma_digits_end(text, from + 1);
    }
}

/// Whether the number that the digits beginning at `from` denote exceeds
/// `limit`.
fn number_exceeds(text: &str, from: usize, limit: u32) -> (exceeds: bool)
    requires
        from <= text@.len(),
    ensures
        exceeds == (number_at(text@, from as int) > limit),
{
    let n = text.unicode_len();
    proof {
        lemma_digits_end(text@, from as int);
        assert(text@.subrange(from as int, from as int) =~= Seq::<char>::empty());
    }
    let ghost end = digits_end(text@, from as int);
    let ghost run = text@.subrange(from as int, end);
    let mut acc: u64 = 0;
    let mut i: usize = from;
    while i < n
        invariant
            n == text@.len(),
            from <= i <= end <= n,
            end == digits_end(text@, from as int),
            end == digits_end(text@, i as int),
            run == text@.subrange(from as int, end),
            acc as nat == decimal_value(text@.subrange(from as int, i as int)),
            acc <= limit,
        decreases n - i,
    {
        let c = text.get_char(i);
        if !(c >= '0' && c <= '9') {
            assert(digits_end(text@, i as int) == i);
            return false;
        }
        let d: u64 = (c as u32 - '0' as u32) as u64;
        proof {
            lemma_digits_end(text@, i + 1);
            let longer = text@.subrange(from as int, i + 1);
            assert(longer.drop_last() =~= text@.subrange(from as int, i as int));
            assert(longer.last() == c);
            assert(decimal_value(longer) == acc as nat * 10 + d as nat);
            assert(run.take(i + 1 - from) =~= longer);
            lemma_decimal_value_prefix(run, i + 1 - from);
        }
        if acc * 10 + d > limit as u64 {
            return true;
        }
        acc = acc * 10 + d;
        i += 1;
    }
    false
}

/// Whether every degree of parallelism that a stored hash names is one that
/// Argon2 allows.
pub fn parallelism_within_limit(text: &str) -> (fits: bool)
    ensures
        fits == parallelism_fits(text@),
{
    let n = text.unicode_len();
    let mut at: usize = 0;
    while at < n && n - at >= 3
        invariant
            n == text@.len(),
            at <= n,
            forall|j: int|
                0 <= j < at && #[trigger] names_parallelism(text@, j) ==> number_at(text@, j + 3)
                    <= MAX_PARALLELISM,
        decreases n - at,
    {
        let lead = text.get_char(at);
        if (lead == '$' || lead == ',') && text.get_char(at + 1) == 'p' && text.get_char(at + 2)
            == '=' {
            assert(names_parallelism(text@, at as int));
            if number_exceeds(text, at + 3, MAX_PARALLELISM) {
                return false;
            }
        }
        at += 1;
    }
    true
}

/// Hashes a password with Argon2id, version 0x13, under a salt drawn from
/// `rand::thread_rng()` by `SaltString::generate`: `Params::new`, `Argon2::new`
/// and `PasswordHasher::hash_password`, the result written as a PHC string.
/// `None` where the parameters are refused or hashing fails. `Params::new`
/// multiplies the parallelism by eight in 32 bits before it checks its range,
/// so a parallelism beyond `MAX_PARALLELISM` is left out.
///
/// The salt is random, so the text that comes back is not named. Three things
/// are claimed of it. It begins as `PasswordHash`'s `Display` writes it: the
/// algorithm, the version and the costs that were handed in, then the `$`
/// before the salt. It names no other parallelism, the salt and the output
/// being written in an alphabet without `$`, `,` and `=`. And it is accepted
/// for the password it was made of, which is what
/// `PasswordVerifier::verify_password` is documented to do: it computes the
/// hash anew with the parameters and the salt that the string states, and
/// compares.
#[verifier::external_body]
fn argon2id_hash(password: &str, memory_cost: u32, time_cost: u32, parallelism: u32) -> (hashed:
    Option<String>)
    requires
        parallelism <= MAX_PARALLELISM,
    ensures
        hashed matches Some(text) ==> phc_header(memory_cost, time_cost, parallelism).is_prefix_of(
            text@,
        ),
        hashed matches Some(text) ==> parallelism_fits(text@),
        hashed matches Some(text) ==> argon2_verdict(text@, password@) == Some(true),
{
    let salt = argon2::password_hash::SaltString::generate(&mut rand::thread_rng());
    let params = argon2::Params::new(memory_cost, time_cost, parallelism, None).ok()?;
    let hasher = argon2::Argon2::new(argon2::Algorithm::Argon2id, argon2::Version::V0x13, params);
    match hasher.hash_password(password.as_bytes(), &salt) {
        Ok(hash) => Some(hash.to_string()),
        Err(_) => None,
    }
}

/// Parses the stored hash with `PasswordHash::new` and checks the password
/// against it with `Argon2::default().verify_password`. The contract names the
/// result. Verification rebuilds the parameters that the stored hash states
/// with `Params::new`, which multiplies the parallelism by eight in 32 bits
/// before it checks its range: a hash that names a parallelism beyond
/// `MAX_PARALLELISM` is left out. It needs the memory that the stated
/// parameters ask for.
#[verifier::external_body]
fn argon2_verify(expected_hashed: &str, raw_password: &str) -> (verdict: Option<bool>)
    requires
        parallelism_fits(expected_hashed@),
    ensures
        verdict == argon2_verdict(expected_hashed@, raw_password@),
{
    match argon2::PasswordHash::new(expected_hashed) {
        Ok(parsed) => Some(
            argon2::Argon2::default().verify_password(raw_password.as_bytes(), &parsed).is_ok(),
        ),
        Err(_) => None,
    }
}

/// What verification answers, from what the Argon2 check found.
pub open spec fn verification_outcome(verdict: Option<bool>) -> Result<(), AuthError> {
    match verdict {
        Some(true) => Ok(()),
        Some(false) => Err(AuthError::InvalidCredentials),
        None => Err(AuthError::UnexpectedError),
    }
}

/// What verification answers for a stored hash and a presented password. A
/// hash that names a parallelism beyond what Argon2 allows is not handed to
/// Argon2: it is an unexpected error. For any other hash the Argon2 check
/// decides.
pub open spec fn verification_of(expected_hashed: Seq<char>, raw_password: Seq<char>) -> Result<
    (),
    AuthError,
> {
    if parallelism_fits(expected_hashed) {
        verification_outcome(argon2_verdict(expected_hashed, raw_password))
    } else {
        Err(AuthError::UnexpectedError)
    }
}

/// Turns the finding of the Argon2 check into the answer of verification:
/// accepted, wrong password, or unreadable hash.
pub fn outcome_of_verdict(verdict: Option<bool>) -> (outcome: Result<(), AuthError>)
    ensures
        outcome == verification_outcome(verdict),
{
    match verdict {
        Some(true) => Ok(()),
        Some(false) => Err(AuthError::InvalidCredentials),
        None => Err(AuthError::UnexpectedError),
    }
}

/// Hashes a password under a fresh random salt and returns the PHC string: an
/// Argon2id hash of version 19 with the costs `HASH_MEMORY_COST`,
/// `HASH_TIME_COST` and `HASH_PARALLELISM`, which verification accepts for
/// the password. The only error is `UnexpectedError`.
pub fn compute_hashed_password(password: &str) -> (hashed: Result<String, AuthError>)
    ensures
        hashed matches Ok(text) ==> phc_header(
            HASH_MEMORY_COST,
            HASH_TIME_COST,
            HASH_PARALLELISM,
        ).is_prefix_of(text@),
        hashed matches Ok(text) ==> verification_of(text@, password@) is Ok,
        hashed matches Err(e) ==> e == AuthError::UnexpectedError,
{
    match argon2id_hash(password, HASH_MEMORY_COST, HASH_TIME_COST, HASH_PARALLELISM) {
        Some(text) => Ok(text),
        None => Err(AuthError::UnexpectedError),
    }
}

/// Checks a presented password against a stored PHC string.
pub fn verify_password(expected_hashed: &str, raw_password: &str) -> (outcome: Result<
    (),
    AuthError,
>)
    ensures
        outcome == verification_of(expected_hashed@, raw_password@),
{
    if !parallelism_within_limit(expected_hashed) {
        return Err(AuthError::UnexpectedError);
    }
    outcome_of_verdict(argon2_verify(expected_hashed, raw_password))
}

} // verus!
