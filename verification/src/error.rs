//! The error surface of the admission pipeline.

use vstd::prelude::*;

verus! {

/// The finer-grained reasons a transaction is refused entry to the mempool,
/// as reported by the signature verifier and the mempool itself.
#[derive(Debug, Clone, Copy, PartialEq, Eq, Structural)]
pub enum TxAddError {
    NonceMismatch,
    TxDuplicate,
    EmptyBatch,
    MissingEthSignature,
    IncorrectEthSignature,
    TxFeeTooLow,
    TxBatchFeeTooLow,
    Other,
}

/// Why a submission was rejected, or failed.
///
/// Policy and authentication rejections are user-visible and recoverable;
/// communication and internal failures are opaque to the client.
#[derive(Debug, Clone, PartialEq, Eq)]
pub enum SubmitError {
    /// Account close transactions are disabled.
    AccountCloseDisabled,
    /// Invalid parameters; the message says which.
    InvalidParams(String),
    /// Fast processing is available only for withdrawals.
    UnsupportedFastProcessing,
    /// The transaction itself is malformed; the message says how.
    IncorrectTx(String),
    /// Adding to the mempool failed for the wrapped finer-grained reason.
    TxAdd(TxAddError),
    /// The chosen token is not suitable for paying fees.
    InappropriateFeeToken,
    /// The core server could not be reached, or answered out of protocol.
    CommunicationCoreServer(String),
    /// An internal storage or channel failure.
    Internal(String),
    /// An uncategorized failure; the message says what was being looked up.
    Other(String),
}

impl SubmitError {
    /// Wraps an internal storage or channel failure.
    pub fn internal(msg: String) -> (r: Self)
        ensures
            r == SubmitError::Internal(msg),
    {
        SubmitError::Internal(msg)
    }

    /// Wraps an uncategorized failure.
    pub fn other(msg: String) -> (r: Self)
        ensures
            r == SubmitError::Other(msg),
    {
        SubmitError::Other(msg)
    }

    /// Wraps a failure to reach the core server.
    pub fn communication_core_server(msg: String) -> (r: Self)
        ensures
            r == SubmitError::CommunicationCoreServer(msg),
    {
        SubmitError::CommunicationCoreServer(msg)
    }

    /// Wraps an invalid-parameters rejection.
    pub fn invalid_params(msg: String) -> (r: Self)
        ensures
            r == SubmitError::InvalidParams(msg),
    {
        SubmitError::InvalidParams(msg)
    }
}

} // verus!
