//! The credential hash: salted, adaptive and one-way.

use vstd::prelude::*;
use crate::config::{MAX_HASH_COST, MIN_HASH_COST};

verus! {

/// Why no digest came out.
#[derive(Debug, Clone, Copy, PartialEq, Eq, Structural)]
pub enum HashFailure {
    /// The cost factor lies outside the accepted range.
    CostNotAllowed(u32),
    /// A digest to compare with is malformed.
    InvalidHash,
    /// The system gave no randomness for the salt.
    Random,
    /// The credential is longer than the hash can take in.
    Truncation(usize),
    /// The digest came out equal to the credential, and was discarded.
    DigestEqualsPlaintext,
}

/// The number of characters of every digest.
pub const DIGEST_LENGTH: usize = 60;

/// `cost` lies in the range that the hash accepts.
pub open spec fn cost_allowed(cost: u32) -> bool {
    MIN_HASH_COST <= cost <= MAX_HASH_COST
}

/// Calls `bcrypt::hash`, which draws a fresh salt on every call and writes
/// cost, salt and hash into the digest. A digest comes out only for a cost
/// factor from 4 to 31, has 60 characters, and is one that `bcrypt::verify`
/// accepts for the same credential: that check reads cost and salt back from
/// the digest, hashes again and compares. The call fails in two ways only:
/// for the cost, which the failure then names and which then lies outside
/// the range, and for want of randomness, which is left open.
#[verifier::external_body]
fn bcrypt_hash(password: &str, cost: u32) -> (res: Result<String, HashFailure>)
    ensures
        res matches Ok(digest) ==> {
            &&& cost_allowed(cost)
            &&& digest@.len() == DIGEST_LENGTH
            &&& bcrypt_verdict(password@, digest@) == Some(true)
        },
        res matches Err(failure) ==> failure is CostNotAllowed || failure is Random,
        res matches Err(HashFailure::CostNotAllowed(refused)) ==> refused == cost && !cost_allowed(
            cost,
        ),
{
    match bcrypt::hash(password, cost) {
        Ok(digest) => Ok(digest),
        Err(bcrypt::BcryptError::CostNotAllowed(refused)) => Err(HashFailure::CostNotAllowed(refused)),
        Err(bcrypt::BcryptError::InvalidHash(_)) => Err(HashFailure::InvalidHash),
        Err(bcrypt::BcryptError::Rand(_)) => Err(HashFailure::Random),
        Err(bcrypt::BcryptError::Truncation(length)) => Err(HashFailure::Truncation(length)),
    }
}

/// What `bcrypt::verify` answers on a credential and a digest: whether the
/// digest was made from the credential, or nothing where the digest is
/// malformed.
pub uninterp spec fn bcrypt_verdict(password: Seq<char>, digest: Seq<char>) -> Option<bool>;

/// Calls `bcrypt::verify`, whose answer is a function of the credential and
/// the digest alone. An error becomes `None`. There is an answer only for a
/// digest of 60 characters.
#[verifier::external_body]
fn bcrypt_verify(password: &str, digest: &str) -> (res: Option<bool>)
    ensures
        res == bcrypt_verdict(password@, digest@),
        res is Some ==> digest@.len() == DIGEST_LENGTH,
{
    bcrypt::verify(password, digest).ok()
}

/// What becomes of the outcome of hashing `plaintext`: a digest is kept unless
/// it equals the credential, and a failure is passed on.
pub open spec fn accepted(plaintext: Seq<char>, outcome: Result<Seq<char>, HashFailure>) -> Result<
    Seq<char>,
    HashFailure,
> {
    match outcome {
        Ok(digest) => if digest == plaintext {
            Err(HashFailure::DigestEqualsPlaintext)
        } else {
            Ok(digest)
        },
        Err(failure) => Err(failure),
    }
}

/// The outcome of a hash as a value of the contracts.
pub open spec fn outcome_view(outcome: Result<String, HashFailure>) -> Result<
    Seq<char>,
    HashFailure,
> {
    match outcome {
        Ok(digest) => Ok(digest@),
        Err(failure) => Err(failure),
    }
}

/// Keeps a digest only if it differs from the credential it was made from.
pub fn accept_digest(plaintext: &str, outcome: Result<String, HashFailure>) -> (res: Result<
    String,
    HashFailure,
>)
    ensures
        outcome_view(res) == accepted(plaintext@, outcome_view(outcome)),
{
    match outcome {
        Ok(digest) => {
            let same = digest == plaintext.to_owned();
            if same {
                Err(HashFailure::DigestEqualsPlaintext)
            } else {
                Ok(digest)
            }
        },
        Err(failure) => Err(failure),
    }
}

/// The failures that hashing a credential can end in: a cost factor outside
/// the range, no randomness for the salt, or a digest equal to the credential.
pub open spec fn hashing_failure(failure: HashFailure) -> bool {
    failure is CostNotAllowed || failure is Random || failure is DigestEqualsPlaintext
}

/// Hashes `plaintext` at cost factor `cost`, with a fresh salt.
///
/// A digest that comes out is one that [`verify_password`] accepts for
/// `plaintext`; it differs from the credential and has 60 characters. None
/// comes out for a cost factor outside 4 to 31. Beyond that, success rests on
/// the randomness of the system. Of a credential longer than 72 bytes only
/// the first 72 enter the digest.
pub fn hash_password(plaintext: &str, cost: u32) -> (res: Result<String, HashFailure>)
    ensures
        res matches Ok(digest) ==> {
            &&& bcrypt_verdict(plaintext@, digest@) == Some(true)
            &&& digest@ != plaintext@
            &&& digest@.len() == DIGEST_LENGTH
            &&& cost_allowed(cost)
        },
        !cost_allowed(cost) ==> res is Err,
        res matches Err(failure) ==> hashing_failure(failure),
        res matches Err(HashFailure::CostNotAllowed(refused)) ==> refused == cost && !cost_allowed(
            cost,
        ),
{
    accept_digest(plaintext, bcrypt_hash(plaintext, cost))
}

/// Whether a verdict on a credential and a digest is a match.
pub fn verdict_accepts(verdict: Option<bool>) -> (res: bool)
    ensures
        res == (verdict == Some(true)),
{
    match verdict {
        Some(matched) => matched,
        None => false,
    }
}

/// Whether `digest` was made from `plaintext`. A malformed digest matches no
/// credential.
pub fn verify_password(plaintext: &str, digest: &str) -> (res: bool)
    ensures
        res == (bcrypt_verdict(plaintext@, digest@) == Some(true)),
        res ==> digest@.len() == DIGEST_LENGTH,
{
    verdict_accepts(bcrypt_verify(plaintext, digest))
}

} // verus!
