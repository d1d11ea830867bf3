//! What a transaction does to the ledger and what it answers.

use vstd::prelude::*;

use crate::id::Id;
use crate::state::Ledger;

verus! {

/// The ledger after a transaction, with its statement or the reason for which
/// it was refused.
#[verifier::ext_equal]
pub struct Outcome {
    pub ledger: Ledger,
    pub result: Result<Id, Seq<char>>,
}

/// The transaction was carried out.
pub open spec fn accepted(ledger: Ledger, statement: Id) -> Outcome {
    Outcome { ledger, result: Ok(statement) }
}

/// The transaction was refused.
pub open spec fn refused(ledger: Ledger, message: Seq<char>) -> Outcome {
    Outcome { ledger, result: Err(message) }
}

/// The transaction is refused for the reason given, if there is one, and
/// otherwise goes on to `next`.
pub open spec fn unless(refusal: Option<Seq<char>>, ledger: Ledger, next: Outcome) -> Outcome {
    match refusal {
        Some(message) => refused(ledger, message),
        None => next,
    }
}

/// A ledger on the way through a transaction, with the reason for which the
/// transaction stopped there, if it did.
#[verifier::ext_equal]
pub struct Progress {
    pub ledger: Ledger,
    pub refusal: Option<Seq<char>>,
}

/// The step was carried out.
pub open spec fn done(ledger: Ledger) -> Progress {
    Progress { ledger, refusal: None }
}

/// The step failed, and left the ledger like this.
pub open spec fn stopped(ledger: Ledger, message: Seq<char>) -> Progress {
    Progress { ledger, refusal: Some(message) }
}

/// Whether a step answered and left the ledger as the progress says.
pub open spec fn advances(result: Result<(), String>, ledger: Ledger, progress: Progress) -> bool {
    &&& ledger == progress.ledger
    &&& verdict(result, progress.refusal)
}

/// Whether a call answered and left the ledger as the outcome says.
pub open spec fn meets(result: Result<Id, String>, ledger: Ledger, outcome: Outcome) -> bool {
    &&& ledger == outcome.ledger
    &&& match result {
        Ok(statement) => outcome.result == Ok::<Id, Seq<char>>(statement),
        Err(message) => outcome.result == Err::<Id, Seq<char>>(message@),
    }
}

/// Whether a check answered as the refusal says.
pub open spec fn verdict(result: Result<(), String>, refusal: Option<Seq<char>>) -> bool {
    match result {
        Ok(_) => refusal is None,
        Err(message) => refusal == Some(message@),
    }
}

/// The refusal that a verdict carries.
pub open spec fn refusal_of(result: Result<(), String>) -> Option<Seq<char>> {
    match result {
        Ok(_) => None,
        Err(message) => Some(message@),
    }
}

/// The first refusal of two.
pub open spec fn first(left: Option<Seq<char>>, right: Option<Seq<char>>) -> Option<Seq<char>> {
    if left is Some {
        left
    } else {
        right
    }
}

/// A copy of a verdict.
pub fn repeat(result: &Result<(), String>) -> (r: Result<(), String>)
    ensures
        verdict(r, refusal_of(*result)),
{
    match result {
        Ok(_) => Ok(()),
        Err(message) => Err(message.clone()),
    }
}

/// A refusal for the reason given.
pub fn refuse<T>(message: &str) -> (r: Result<T, String>)
    ensures
        r is Err,
        r->Err_0@ == message@,
{
    Err(message.to_owned())
}

} // verus!
