use vstd::prelude::*;

use crate::models::{has_deadline, ExpirationTimes, ExpirationWindow, Status};
use crate::utils::is_hex_string;

verus! {

/// What the fungible-token ledger reported about the payment token when the
/// contract was created, kept for the read-only projections.
#[derive(Debug)]
pub struct TokenInfo {
    pub name: String,
    pub symbol: String,
    pub decimals: u8,
    pub total_supply: u128,
}

impl Clone for TokenInfo {
    fn clone(&self) -> (r: Self)
        ensures
            r == *self,
    {
        TokenInfo {
            name: self.name.clone(),
            symbol: self.symbol.clone(),
            decimals: self.decimals,
            total_supply: self.total_supply,
        }
    }
}

/// Whether a status may only hold while a courier is recorded.
pub open spec fn courier_required(status: Status) -> bool {
    has_deadline(status) || status is Delivered
}

/// The persisted record set: one field per stored slot, with optional
/// fields as explicit options rather than missing keys. Every handler
/// reads and writes this record through its own guards.
#[derive(Debug)]
pub struct ContractState {
    /// Current lifecycle status; the state machine is its sole writer.
    pub status: Status,
    /// The sender who created the order; immutable.
    pub owner: String,
    /// The accepted courier, unset until one is accepted and cleared again
    /// by a start-over cancellation.
    pub courier: Option<String>,
    /// Address of the fungible-token contract used for every transfer.
    pub token_address: String,
    /// Ledger metadata of that token, recorded at creation.
    pub token_info: TokenInfo,
    /// Hex-encoded public key that a delivery-confirmation coupon must
    /// verify against.
    pub confirm_public_key: String,
    /// Delivery fee owed to the courier, fixed at creation.
    pub payment_amount: u128,
    /// Collateral the courier must post, fixed at creation.
    pub deposit_amount: u128,
    /// The four configured deadline durations, fixed at creation.
    pub expiration_times: ExpirationTimes,
    /// The running deadline, present exactly in the deadline-bearing
    /// statuses.
    pub window: Option<ExpirationWindow>,
    /// Rough departure area, visible from creation on.
    pub rough_from_location: String,
    /// Rough destination area, visible from creation on.
    pub rough_to_location: String,
    /// Exact departure point, set by the sender with the details.
    pub exact_from_location: Option<String>,
    /// Exact destination point, set by the sender with the details.
    pub exact_to_location: Option<String>,
    /// Sender's comment, set with the details.
    pub comment: Option<String>,
}

impl ContractState {
    /// Well-formedness, established at creation and preserved by every
    /// handler: a deadline window is present exactly in the four statuses
    /// that carry one, a courier is recorded wherever one is owed money or
    /// work, the two fixed amounts sum without overflow, and the stored
    /// confirmation key is valid hex.
    pub open spec fn wf(self) -> bool {
        &&& (self.window is Some <==> has_deadline(self.status))
        &&& (courier_required(self.status) ==> self.courier is Some)
        &&& self.payment_amount + self.deposit_amount <= u128::MAX
        &&& is_hex_string(self.confirm_public_key@)
    }
}

} // verus!
