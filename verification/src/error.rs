//! Error types of the library.
//!
//! Codec and transport failures surface to the immediate caller of a single
//! fetch; a rejected coop is reported as a typed outcome so a leaderboard
//! assembly loop can log it and continue with the remaining codes.

use vstd::prelude::*;

verus! {

/// Failure of one layer of the wire decode: malformed base64, a missing or
/// malformed envelope, an inflate failure, or a schema-level decode failure
/// of the domain message (the last is raised by the caller that holds the
/// schema, not by the codec itself).
#[derive(Clone, Copy, PartialEq, Eq, Structural, Debug)]
pub enum CodecError {
    EncodingError,
    EnvelopeError,
    CompressionError,
    SchemaError,
}

/// Failure of the prediction engine: the contract carries no grade spec for
/// the coop's grade, or a definite prediction was demanded of a coop that
/// ships no eggs per second.
#[derive(Clone, Copy, PartialEq, Eq, Structural, Debug)]
pub enum ComputationError {
    NoMatchingGrade,
    ZeroShippingRate,
}

/// Failure when turning a status report into a coop session: the server
/// rejected the coop code / contract pairing, or the engine cannot match
/// the coop's grade.
#[derive(Clone, Copy, PartialEq, Eq, Structural, Debug)]
pub enum CoopError {
    DomainRejection,
    NoMatchingGrade,
}

/// A builder was asked to build before every required field was supplied.
#[derive(Clone, Copy, PartialEq, Eq, Structural, Debug)]
pub enum MissingField {
    Contract,
    CoopCode,
    ContractId,
    CoopFlag,
}

/// The network exchange itself failed.  The send may still have been
/// processed server-side, so a caller must not assume a retry is safe.
#[derive(Clone, Copy, PartialEq, Eq, Structural, Debug)]
pub struct TransportError;

impl TransportError {
    pub fn message(&self) -> (r: String)
        ensures
            r@ == "API transport failure"@,
    {
        "API transport failure".to_owned()
    }
}

/// The server rejected a coop code.
#[derive(Clone, Copy, PartialEq, Eq, Structural, Debug)]
pub struct InvalidCoopCode;

impl InvalidCoopCode {
    pub fn message(&self) -> (r: String)
        ensures
            r@ == "Invalid coop code used"@,
    {
        "Invalid coop code used".to_owned()
    }
}

/// A contract identifier matched nothing in any source.
#[derive(Clone, Copy, PartialEq, Eq, Structural, Debug)]
pub struct InvalidContractId;

impl InvalidContractId {
    pub fn message(&self) -> (r: String)
        ensures
            r@ == "Invalid contract ID used"@,
    {
        "Invalid contract ID used".to_owned()
    }
}

/// The coop aggregation service answered with an empty list.
#[derive(Clone, Copy, PartialEq, Eq, Structural, Debug)]
pub struct EmptyMajResponse;

impl EmptyMajResponse {
    pub fn message(&self) -> (r: String)
        ensures
            r@ == "Empty Maj Wonky API response"@,
    {
        "Empty Maj Wonky API response".to_owned()
    }
}

/// The periodicals response carried no contracts.
#[derive(Clone, Copy, PartialEq, Eq, Structural, Debug)]
pub struct EmptyContractsResponse;

impl EmptyContractsResponse {
    pub fn message(&self) -> (r: String)
        ensures
            r@ == "Empty ContractsResponse"@,
    {
        "Empty ContractsResponse".to_owned()
    }
}

} // verus!
