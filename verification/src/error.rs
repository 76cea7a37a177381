use vstd::prelude::*;

use crate::models::Status;

verus! {

/// Every way an action can be rejected. A rejection is pure: the handler
/// that returns one leaves the stored state exactly as it was.
#[derive(Clone, Copy, Debug, PartialEq, Eq, Structural)]
pub enum ContractError {
    Unauthorized,
    /// The caller must be the owner.
    OwnerExpected,
    /// The caller must be the courier.
    CourierExpected,
    /// The caller must be the owner or the courier.
    OwnerOrCourierExpected,
    AlreadyPaid,
    /// The owner may not take its own order.
    OwnerCannotBeACourier,
    /// No courier has applied for the order yet.
    CourierNotApplyYet,
    /// The confirmation public key is not a valid hex encoding.
    InvalidPublicKey,
    /// The delivery-confirmation signature is malformed or does not verify.
    InvalidSignature,
    /// The action was called with the wrong lifecycle status:
    /// (current status, required status).
    UnexpectedStatus(Status, Status),
}

impl ContractError {
    /// A short diagnostic text for each rejection.
    pub fn describe(&self) -> (r: &'static str) {
        match self {
            ContractError::Unauthorized => "unauthorized",
            ContractError::OwnerExpected => "method expects owner",
            ContractError::CourierExpected => "method expects courier",
            ContractError::OwnerOrCourierExpected => "method expects courier or owner",
            ContractError::AlreadyPaid => "already paid",
            ContractError::OwnerCannotBeACourier => "owner cannot be a courier",
            ContractError::CourierNotApplyYet => "the courier has not apply yet",
            ContractError::InvalidPublicKey => "invalid secp256k1 public key",
            ContractError::InvalidSignature => "invalid secp256k1 signature",
            ContractError::UnexpectedStatus(_, _) => {
                "invalid status, you can call this method only with expected status"
            },
        }
    }
}

/// Every way a confirmation callback can be rejected. A rejected callback
/// commits nothing: the deferred transition simply does not happen.
#[derive(Clone, Copy, Debug, PartialEq, Eq, Structural)]
pub enum ReplyError {
    /// The external ledger reported the requested transfer as failed; the
    /// whole transaction aborts with no state change.
    TransferFailed,
    /// A callback that needs the courier fired while none is recorded.
    CourierNotFound,
    /// A callback under a continuation id that was never issued.
    UnknownReplyId(u64),
}

impl ReplyError {
    /// A short diagnostic text for each rejection.
    pub fn describe(&self) -> (r: &'static str) {
        match self {
            ReplyError::TransferFailed => "transfer failed",
            ReplyError::CourierNotFound => "courier not found",
            ReplyError::UnknownReplyId(_) => "unknown reply id",
        }
    }
}

} // verus!
