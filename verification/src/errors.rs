//! Error taxonomy of the indexing pipeline.

use vstd::prelude::*;

verus! {

/// Everything that can go wrong in one indexing cycle or at startup.
///
/// Transport and decode errors abort the current cycle and are retried
/// by the next tick; store errors likewise.  `StoreUnavailable` is the
/// fatal startup error after the bounded retry ceiling is exhausted.
#[derive(Clone, Copy, Debug, PartialEq, Eq, Structural)]
pub enum IndexError {
    /// The HTTP request against the upstream RPC could not be built.
    RequestBuildError,
    /// The network call to the upstream RPC failed.
    TransportError,
    /// A response body did not have the expected shape, or a numeric
    /// field was not a decimal string.
    DecodeError,
    /// Waiting on the parallel per-height fetches of one batch failed.
    CouldNotProcessResponsesInParallel,
    /// A store query (checkpoint read or insert) failed.
    StoreQueryError,
    /// The multi-row insert reported a row count different from the
    /// batch size: a concurrent writer or a checkpoint inconsistency.
    InsertedIncorrectNumberOfRows,
    /// The store could not be reached within the startup retry ceiling.
    StoreUnavailable,
}

impl IndexError {
    /// The report text of each error.
    pub open spec fn spec_describe(self) -> Seq<char> {
        match self {
            IndexError::RequestBuildError => "could not build http request"@,
            IndexError::TransportError => "could not reach upstream rpc"@,
            IndexError::DecodeError => "could not decode upstream response"@,
            IndexError::CouldNotProcessResponsesInParallel => "could not join parallel fetches"@,
            IndexError::StoreQueryError => "store query failed"@,
            IndexError::InsertedIncorrectNumberOfRows => "inserted incorrect number of rows"@,
            IndexError::StoreUnavailable => "store unavailable at startup"@,
        }
    }

    /// A short human-readable name for reporting.
    pub fn describe(&self) -> (r: String)
        ensures
            r@ == self.spec_describe(),
            r@.len() > 0,
    {
        let s = match self {
            IndexError::RequestBuildError => "could not build http request",
            IndexError::TransportError => "could not reach upstream rpc",
            IndexError::DecodeError => "could not decode upstream response",
            IndexError::CouldNotProcessResponsesInParallel => "could not join parallel fetches",
            IndexError::StoreQueryError => "store query failed",
            IndexError::InsertedIncorrectNumberOfRows => "inserted incorrect number of rows",
            IndexError::StoreUnavailable => "store unavailable at startup",
        };
        proof {
            reveal_strlit("could not build http request");
            reveal_strlit("could not reach upstream rpc");
            reveal_strlit("could not decode upstream response");
            reveal_strlit("could not join parallel fetches");
            reveal_strlit("store query failed");
            reveal_strlit("inserted incorrect number of rows");
            reveal_strlit("store unavailable at startup");
        }
        s.to_owned()
    }
}

} // verus!
