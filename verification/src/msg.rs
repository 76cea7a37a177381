use vstd::prelude::*;

use crate::error::ContractError;
use crate::models::{default_expiration_times, ExpirationTimes, Status};
use crate::state::{ContractState, TokenInfo};
use crate::utils::{check_and_serialize_public_key, is_hex_string};

verus! {

/// Rough departure and destination areas, given at creation and always
/// visible.
#[derive(Clone, Debug, PartialEq)]
pub struct InstantiateLocationInfo {
    pub from: String,
    pub to: String,
}

/// Exact departure and destination points, provided by the sender once a
/// courier has posted its deposit.
#[derive(Clone, Debug, PartialEq)]
pub struct DetailsLocationInfo {
    pub from: String,
    pub to: String,
}

/// Everything a fresh order is created from.
#[derive(Clone, Debug, PartialEq)]
pub struct InstantiateMsg {
    /// Approximate areas of delivery, from where and to.
    pub location: InstantiateLocationInfo,
    /// Address of the fungible-token contract used for payment.
    pub token_address: String,
    /// Public key of the coupon for delivery verification, hex encoded.
    pub confirm_public_key: String,
    /// Required deposit from the courier.
    pub deposit_amount: u128,
    /// Remuneration for delivery from the sender.
    pub payment_amount: u128,
    /// Deadline configuration; the documented defaults if not supplied.
    pub expiration_times: Option<ExpirationTimes>,
}

/// The record set a fresh order starts from: waiting for the sender's
/// payment, no courier, no details, no running deadline.
pub open spec fn initial_state(msg: InstantiateMsg, owner: String, token_info: TokenInfo) -> ContractState {
    ContractState {
        status: Status::WaitPaymentBySender,
        owner: owner,
        courier: None,
        token_address: msg.token_address,
        token_info: token_info,
        confirm_public_key: msg.confirm_public_key,
        payment_amount: msg.payment_amount,
        deposit_amount: msg.deposit_amount,
        expiration_times: (match msg.expiration_times {
            Some(t) => t,
            None => default_expiration_times(),
        }),
        window: None,
        rough_from_location: msg.location.from,
        rough_to_location: msg.location.to,
        exact_from_location: None,
        exact_to_location: None,
        comment: None,
    }
}

impl InstantiateMsg {
    /// Builds the stored record set of a fresh order, after checking the
    /// confirmation public key. The caller is recorded as the owner;
    /// `token_info` is what the token ledger reported about the payment
    /// token.
    pub fn setup(&self, owner: &String, token_info: TokenInfo) -> (r: Result<ContractState, ContractError>)
        requires
            self.payment_amount + self.deposit_amount <= u128::MAX,
        ensures
            is_hex_string(self.confirm_public_key@) ==> (r matches Ok(s) && s == initial_state(
                *self,
                *owner,
                token_info,
            ) && s.wf()),
            !is_hex_string(self.confirm_public_key@) ==> r == Err::<ContractState, ContractError>(
                ContractError::InvalidPublicKey,
            ),
    {
        let public_key = match check_and_serialize_public_key(self.confirm_public_key.clone()) {
            Ok(k) => k,
            Err(e) => {
                return Err(e);
            },
        };

        let expiration_times = match self.expiration_times {
            Some(t) => t,
            None => ExpirationTimes::default(),
        };

        Ok(ContractState {
            status: Status::WaitPaymentBySender,
            owner: owner.clone(),
            courier: None,
            token_address: self.token_address.clone(),
            token_info: token_info,
            confirm_public_key: public_key,
            payment_amount: self.payment_amount,
            deposit_amount: self.deposit_amount,
            expiration_times: expiration_times,
            window: None,
            rough_from_location: self.location.from.clone(),
            rough_to_location: self.location.to.clone(),
            exact_from_location: None,
            exact_to_location: None,
            comment: None,
        })
    }
}

/// The action surface: the logical operations of the delivery lifecycle,
/// independent of transport encoding.
#[derive(Clone, Debug, PartialEq)]
pub enum ExecuteMsg {
    /// The sender pays the shipping fee into the contract.
    MakePayForShipping {},
    /// A courier takes the order.
    AcceptApplication {},
    /// The courier posts its collateral deposit.
    MakeDepositForShipping {},
    /// The sender provides the exact locations and a comment.
    SetDetails { location: DetailsLocationInfo, comment: String },
    /// The owner or the courier asks to cancel the delivery.
    CancelDelivery {},
    /// The parcel was handed to the courier; delivery is under way.
    ParcelIssued {},
    /// The courier presents the signed coupon confirming delivery.
    ConfirmDelivery { sign: String },
}

/// The read-only projections of the stored record set.
#[derive(Clone, Debug, PartialEq)]
pub enum QueryMsg {
    /// Current delivery status.
    Status {},
    /// The payment token and its recorded metadata.
    TokenInfo {},
    /// The recorded courier.
    Courier {},
    /// The two fixed amounts.
    Funds {},
    /// The location and comment bundle.
    Locations {},
}

/// Carried by a migration call; nothing is configurable.
#[derive(Clone, Debug, PartialEq)]
pub struct MigrateMsg {}

} // verus!
