//! The identifier service and the clock.
//!
//! Both answer differently from call to call, so nothing is claimed of what
//! they return: the model is verified for every identifier and every time.

use vstd::prelude::*;
use super::errors::{failure, ErrorKind, FunctionResponseError};

verus! {

/// `sonyflake::Sonyflake`: a generator of identifiers.
#[verifier::external_type_specification]
#[verifier::external_body]
pub struct ExSonyflake(sonyflake::Sonyflake);

/// `sonyflake::Id`: an identifier as the generator hands it out.
#[verifier::external_type_specification]
#[verifier::external_body]
pub struct ExId(sonyflake::Id);

/// `sonyflake::Error`: why no generator or no identifier could be had.
#[verifier::external_type_specification]
#[verifier::external_body]
pub struct ExIdError(sonyflake::Error);

/// `time::OffsetDateTime`: a point in time, carried through without being
/// read.
#[verifier::external_type_specification]
#[verifier::external_body]
pub struct ExOffsetDateTime(time::OffsetDateTime);

/// `Sonyflake::new` sets up a generator with the default configuration, or
/// reports why it could not.
pub assume_specification[ sonyflake::Sonyflake::new ]() -> (generator: Result<
    sonyflake::Sonyflake,
    sonyflake::Error,
>)
;

/// `Sonyflake::next_id` hands out an identifier, or reports why it could not.
pub assume_specification[ sonyflake::Sonyflake::next_id ](
    generator: &sonyflake::Sonyflake,
) -> (id: Result<sonyflake::Id, sonyflake::Error>)
;

/// The number inside an identifier: what `Id::to_u64` returns.
pub uninterp spec fn id_number(id: sonyflake::Id) -> u64;

/// `Id::to_u64` gives the number inside an identifier.
pub assume_specification[ sonyflake::Id::to_u64 ](id: sonyflake::Id) -> (number: u64)
    ensures
        number == id_number(id),
;

/// `OffsetDateTime::now_utc` reads the clock.
pub assume_specification[ time::OffsetDateTime::now_utc ]() -> (now: time::OffsetDateTime)
;

/// `Clone::clone` on `time::OffsetDateTime` returns the same point in time.
pub assume_specification[ <time::OffsetDateTime as Clone>::clone ](
    at: &time::OffsetDateTime,
) -> (copy: time::OffsetDateTime)
    ensures
        copy == *at,
;

/// The identity of a new audit entry: its identifier and its time.
#[derive(Debug, Clone, Copy, PartialEq)]
pub struct Stamp {
    pub id: u64,
    pub timestamp: time::OffsetDateTime,
}

/// The failure to report when the identifier service gives no identifier to
/// the operation `function`.
pub fn id_unavailable(function: &str) -> (error: FunctionResponseError)
    ensures
        error@ == failure(
            ErrorKind::IdUnavailable,
            function@,
            "No identifier could be generated"@,
        ),
{
    FunctionResponseError::new(
        ErrorKind::IdUnavailable,
        function.to_owned(),
        "No identifier could be generated".to_owned(),
    )
}

/// Asks the identifier service for a fresh identifier. An identifier is a
/// positive number: where the service gives none, or gives zero, there is
/// no identifier.
pub fn fresh_id() -> (id: Option<u64>)
    ensures
        id matches Some(number) ==> number > 0,
{
    match sonyflake::Sonyflake::new() {
        Ok(generator) => identifier(generator.next_id()),
        Err(_) => None,
    }
}

/// Draws the identity of a new audit entry: a fresh identifier, which is a
/// positive number, and the current time.
pub fn fresh_stamp() -> (stamp: Option<Stamp>)
    ensures
        stamp matches Some(stamp) ==> stamp.id > 0,
{
    match fresh_id() {
        Some(id) => Some(Stamp { id, timestamp: time::OffsetDateTime::now_utc() }),
        None => None,
    }
}

/// The identifier in an answer of the service: its number, where the
/// service gave one and the number is positive.
pub open spec fn identifier_of(answer: Result<sonyflake::Id, sonyflake::Error>) -> Option<u64> {
    match answer {
        Ok(id) => if id_number(id) > 0 {
            Some(id_number(id))
        } else {
            None
        },
        Err(_) => None,
    }
}

/// Reads an answer of the identifier service: the number of the identifier,
/// or nothing where the service reported an error or gave zero.
pub fn identifier(answer: Result<sonyflake::Id, sonyflake::Error>) -> (id: Option<u64>)
    ensures
        id == identifier_of(answer),
{
    match answer {
        Ok(id) => {
            let number = id.to_u64();
            if number > 0 {
                Some(number)
            } else {
                None
            }
        },
        Err(_) => None,
    }
}

} // verus!
