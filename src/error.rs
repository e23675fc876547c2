use vstd::prelude::*;

verus! {

/// Every way in which a request to the escrow can fail.
#[derive(Clone, Copy, Debug, PartialEq, Eq, Structural)]
pub enum ContractError {
    /// The vesting window is empty or inverted.
    InvalidWindow,
    /// The stream would start before the current time.
    InvalidStartTime,
    /// An owner or recipient is not a well-formed account.
    InvalidAddress,
    /// A deposit did not come from the configured token contract.
    Unauthorized,
    /// No stream is stored under the identifier.
    StreamNotFound,
    /// Only the recipient of a stream may withdraw from it.
    NotStreamRecipient,
    /// The whole amount of the stream has been withdrawn.
    StreamFullyClaimed,
    /// The vesting window has not opened yet.
    StreamNotStarted,
    /// Nothing has vested since the last withdrawal.
    NoFundsToClaim,
    /// An integer operation would overflow.
    ArithmeticOverflow,
}

} // verus!
