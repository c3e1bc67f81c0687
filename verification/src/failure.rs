//! Why a unit of blocking work did not produce its value.

use vstd::prelude::*;

verus! {

/// The status every failure of blocking work is answered with.
pub const INTERNAL_SERVER_ERROR: u16 = 500;

/// The ways a unit of blocking work can fail. The kinds are told apart inside
/// the service only: towards the client they all collapse into one status.
#[derive(Clone, Copy, Debug, PartialEq, Eq, Structural)]
pub enum Failure {
    /// No connection could be leased from the pool.
    PoolExhausted,
    /// A lookup by primary key found no row.
    NotFound,
    /// The store refused a row that clashes with one it holds.
    Conflict,
    /// A value could not be carried to or from the store's representation.
    Serialization,
    /// The store failed to run the query for any other reason.
    Query,
    /// The worker that ran the blocking work went away before finishing it.
    Canceled,
}

impl Failure {
    /// The status a client sees for this failure: the same for every kind.
    pub open spec fn spec_status(self) -> u16 {
        INTERNAL_SERVER_ERROR
    }

    /// The status a client sees for this failure.
    #[verifier::when_used_as_spec(spec_status)]
    pub fn status(self) -> (code: u16)
        ensures
            code == self.spec_status(),
    {
        match self {
            Failure::PoolExhausted => INTERNAL_SERVER_ERROR,
            Failure::NotFound => INTERNAL_SERVER_ERROR,
            Failure::Conflict => INTERNAL_SERVER_ERROR,
            Failure::Serialization => INTERNAL_SERVER_ERROR,
            Failure::Query => INTERNAL_SERVER_ERROR,
            Failure::Canceled => INTERNAL_SERVER_ERROR,
        }
    }
}

} // verus!
