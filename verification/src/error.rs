//! The ways in which a request to the gateway fails.

use vstd::prelude::*;
use vstd::string::*;

verus! {

/// Why a request was given up. None of these is retried by the gateway.
#[derive(Debug)]
pub enum GatewayError {
    /// The ledger node could not be reached, or the session with it broke.
    Connection,
    /// Head, genesis, versions or nonce could not be fetched from one observed head.
    Metadata,
    /// The request's own input cannot be turned into a transaction.
    Build,
    /// The signature made for the transaction is not one the signer's account accepts.
    Signing,
    /// The node refused the transaction; the text is the node's reason.
    Submission(String),
    /// The transaction was included, but no event answering it was seen in time.
    /// The transaction may have taken effect all the same.
    CorrelationTimeout,
}

impl GatewayError {
    /// Whether the outcome of the transaction is unknown rather than a failure.
    pub open spec fn inconclusive(self) -> bool {
        self is CorrelationTimeout
    }

    /// Executable form of [`GatewayError::inconclusive`].
    pub fn is_inconclusive(&self) -> (r: bool)
        ensures
            r == self.inconclusive(),
    {
        match self {
            GatewayError::CorrelationTimeout => true,
            _ => false,
        }
    }

    /// A short name of the error's category, for a response body or a log line.
    pub fn category(&self) -> (name: &'static str)
        ensures
            name@ == match *self {
                GatewayError::Connection => "connection"@,
                GatewayError::Metadata => "metadata"@,
                GatewayError::Build => "build"@,
                GatewayError::Signing => "signing"@,
                GatewayError::Submission(_) => "submission"@,
                GatewayError::CorrelationTimeout => "correlation-timeout"@,
            },
    {
        match self {
            GatewayError::Connection => "connection",
            GatewayError::Metadata => "metadata",
            GatewayError::Build => "build",
            GatewayError::Signing => "signing",
            GatewayError::Submission(_) => "submission",
            GatewayError::CorrelationTimeout => "correlation-timeout",
        }
    }
}

} // verus!
