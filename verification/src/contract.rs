use vstd::prelude::*;

use crate::error::{ContractError, ReplyError};
use crate::methods::{
    accept_outcome, cancel_decision, cancel_outcome, confirm_check, courier_accept_application,
    courier_confirm_delivery, courier_make_deposit_for_shipping, deposit_outcome,
    handle_reply_transfer_deposit, handle_reply_transfer_payment,
    handle_reply_transfer_payment_to_courier, handle_reply_transfer_refund, parcel_issued_outcome,
    pay_outcome, reply_deposit_outcome, reply_payment_outcome, reply_payout_outcome,
    sender_gave_parcel_to_courier, sender_make_pay_for_shipping, sender_set_details,
    set_details_outcome, universal_cancel_delivery_and_payback,
    REPLY_DEPOSIT_RECEIVED_BY_COURIER, REPLY_COURIER_REFUND, REPLY_OWNER_REFUND,
    REPLY_PAYMENT_RECEIVED_BY_SENDER, REPLY_PAYMENT_TO_COURIER,
};
use crate::models::{Status, TransferRequest};
use crate::msg::ExecuteMsg;
use crate::state::ContractState;
use crate::utils::{hex_decoded, sha256_of, SignatureCheckInputs};

verus! {

/// What the host hands every action call: who calls, the block clock in
/// seconds, the contract's own address, and the balance the token ledger
/// currently holds for the contract.
pub struct CallInfo {
    pub sender: String,
    pub now: u64,
    pub contract_address: String,
    pub contract_balance: u128,
}

/// What an action call hands back to the host.
#[derive(Debug)]
pub enum ExecOutcome {
    /// The action went through; these transfer requests go to the ledger.
    Acted(Vec<TransferRequest>),
    /// A cancellation that is not allowed yet: the explicit negative
    /// answer, with nothing stored.
    Refused,
    /// Delivery confirmation wants the external signature verifier first;
    /// its verdict goes to `courier_confirm_delivery_payout`.
    SignatureCheck(SignatureCheckInputs),
}

/// The one status each action demands, or `None` for cancellation, which
/// consults its per-role table instead.
pub open spec fn required_status(msg: ExecuteMsg) -> Option<Status> {
    match msg {
        ExecuteMsg::MakePayForShipping {  } => Some(Status::WaitPaymentBySender),
        ExecuteMsg::AcceptApplication {  } => Some(Status::WaitForCourier),
        ExecuteMsg::MakeDepositForShipping {  } => Some(Status::WaitDepositByCourier),
        ExecuteMsg::SetDetails { .. } => Some(Status::WaitSenderDetails),
        ExecuteMsg::ParcelIssued {  } => Some(Status::WaitCourierInDepartment),
        ExecuteMsg::ConfirmDelivery { .. } => Some(Status::InProgress),
        ExecuteMsg::CancelDelivery {  } => None,
    }
}

/// Dispatches one inbound action to its handler. Every rejection leaves
/// the stored record set untouched.
pub fn execute(state: &mut ContractState, info: &CallInfo, msg: ExecuteMsg) -> (r: Result<
    ExecOutcome,
    ContractError,
>)
    requires
        old(state).wf(),
        // The "Both" refund split demands that the held balance covers the
        // deposit; the host checks this before a cancellation call.
        (msg matches ExecuteMsg::CancelDelivery {  } && cancel_decision(
            *old(state),
            info.sender,
            info.now,
        ) matches Some(d) && d.0 is Both ==> info.contract_balance >= old(state).deposit_amount),
    ensures
        final(state).wf(),
        r is Err ==> *final(state) == *old(state),
        // Law: an action called from the wrong lifecycle status fails with a
        // state error naming the current and the required status, and every
        // stored field keeps its value.
        (match required_status(msg) {
            Some(req) => old(state).status != req ==> (r matches Err(e) && e
                == ContractError::UnexpectedStatus(old(state).status, req) && *final(state) == *old(
                state,
            )),
            None => true,
        }),
        (match msg {
            ExecuteMsg::MakePayForShipping {  } => (match pay_outcome(
                *old(state),
                info.sender,
                info.contract_balance,
            ) {
                Ok(p) => r matches Ok(ExecOutcome::Acted(v)) && *final(state) == p.0 && v@ == p.1,
                Err(e) => r matches Err(e2) && e2 == e,
            }),
            ExecuteMsg::AcceptApplication {  } => (match accept_outcome(
                *old(state),
                info.sender,
                info.now,
            ) {
                Ok(p) => r matches Ok(ExecOutcome::Acted(v)) && *final(state) == p.0 && v@ == p.1,
                Err(e) => r matches Err(e2) && e2 == e,
            }),
            ExecuteMsg::MakeDepositForShipping {  } => (match deposit_outcome(
                *old(state),
                info.sender,
                info.contract_balance,
                info.now,
            ) {
                Ok(p) => r matches Ok(ExecOutcome::Acted(v)) && *final(state) == p.0 && v@ == p.1,
                Err(e) => r matches Err(e2) && e2 == e,
            }),
            ExecuteMsg::SetDetails { location, comment } => (match set_details_outcome(
                *old(state),
                info.sender,
                location,
                comment,
                info.now,
            ) {
                Ok(p) => r matches Ok(ExecOutcome::Acted(v)) && *final(state) == p.0 && v@ == p.1,
                Err(e) => r matches Err(e2) && e2 == e,
            }),
            ExecuteMsg::ParcelIssued {  } => (match parcel_issued_outcome(
                *old(state),
                info.sender,
                info.now,
            ) {
                Ok(p) => r matches Ok(ExecOutcome::Acted(v)) && *final(state) == p.0 && v@ == p.1,
                Err(e) => r matches Err(e2) && e2 == e,
            }),
            ExecuteMsg::ConfirmDelivery { sign } => (match confirm_check(
                *old(state),
                info.sender,
                sign,
            ) {
                Some(e) => r matches Err(e2) && e2 == e && *final(state) == *old(state),
                None => r matches Ok(ExecOutcome::SignatureCheck(v)) && *final(state) == *old(state)
                    && v.message_hash@ == sha256_of(info.contract_address@) && v.signature@
                    == hex_decoded(sign@) && v.public_key@ == hex_decoded(
                    old(state).confirm_public_key@,
                ),
            }),
            ExecuteMsg::CancelDelivery {  } => (match cancel_outcome(
                *old(state),
                info.sender,
                info.now,
                info.contract_balance,
            ) {
                Ok(p) => *final(state) == p.0 && (match p.1 {
                    Some(q) => r matches Ok(ExecOutcome::Acted(v)) && v@ == q,
                    None => r matches Ok(ExecOutcome::Refused),
                }),
                Err(e) => r matches Err(e2) && e2 == e,
            }),
        }),
{
    match msg {
        ExecuteMsg::MakePayForShipping {  } => {
            match sender_make_pay_for_shipping(state, &info.sender, info.contract_balance) {
                Ok(v) => Ok(ExecOutcome::Acted(v)),
                Err(e) => Err(e),
            }
        },
        ExecuteMsg::AcceptApplication {  } => {
            match courier_accept_application(state, &info.sender, info.now) {
                Ok(v) => Ok(ExecOutcome::Acted(v)),
                Err(e) => Err(e),
            }
        },
        ExecuteMsg::MakeDepositForShipping {  } => {
            match courier_make_deposit_for_shipping(
                state,
                &info.sender,
                info.contract_balance,
                info.now,
            ) {
                Ok(v) => Ok(ExecOutcome::Acted(v)),
                Err(e) => Err(e),
            }
        },
        ExecuteMsg::SetDetails { location, comment } => {
            match sender_set_details(state, &info.sender, location, comment, info.now) {
                Ok(v) => Ok(ExecOutcome::Acted(v)),
                Err(e) => Err(e),
            }
        },
        ExecuteMsg::ParcelIssued {  } => {
            match sender_gave_parcel_to_courier(state, &info.sender, info.now) {
                Ok(v) => Ok(ExecOutcome::Acted(v)),
                Err(e) => Err(e),
            }
        },
        ExecuteMsg::ConfirmDelivery { sign } => {
            match courier_confirm_delivery(state, &info.sender, &sign, &info.contract_address) {
                Ok(v) => Ok(ExecOutcome::SignatureCheck(v)),
                Err(e) => Err(e),
            }
        },
        ExecuteMsg::CancelDelivery {  } => {
            match universal_cancel_delivery_and_payback(
                state,
                &info.sender,
                info.now,
                info.contract_balance,
            ) {
                Ok(Some(v)) => Ok(ExecOutcome::Acted(v)),
                Ok(None) => Ok(ExecOutcome::Refused),
                Err(e) => Err(e),
            }
        },
    }
}

/// What one confirmation callback commits, by continuation id. The two
/// refund callbacks commit nothing: the cancellation already wrote its
/// follow-up state synchronously.
pub open spec fn reply_outcome(s: ContractState, reply_id: u64, success: bool, now: u64) -> Result<
    ContractState,
    ReplyError,
> {
    if reply_id == REPLY_PAYMENT_RECEIVED_BY_SENDER {
        reply_payment_outcome(s, success)
    } else if reply_id == REPLY_DEPOSIT_RECEIVED_BY_COURIER {
        reply_deposit_outcome(s, success, now)
    } else if reply_id == REPLY_PAYMENT_TO_COURIER {
        reply_payout_outcome(s, success)
    } else if reply_id == REPLY_OWNER_REFUND || reply_id == REPLY_COURIER_REFUND {
        if success {
            Ok(s)
        } else {
            Err(ReplyError::TransferFailed)
        }
    } else {
        Err(ReplyError::UnknownReplyId(reply_id))
    }
}

/// Dispatches one transfer confirmation to the callback of its
/// continuation id. Only a successful confirmation commits its deferred
/// transition; a failure or an unknown id changes nothing.
pub fn reply(state: &mut ContractState, reply_id: u64, success: bool, now: u64) -> (r: Result<
    (),
    ReplyError,
>)
    requires
        old(state).wf(),
    ensures
        final(state).wf(),
        (match reply_outcome(*old(state), reply_id, success, now) {
            Ok(s2) => r is Ok && *final(state) == s2,
            Err(e) => r == Err::<(), ReplyError>(e) && *final(state) == *old(state),
        }),
{
    if reply_id == REPLY_PAYMENT_TO_COURIER {
        handle_reply_transfer_payment_to_courier(state, success)
    } else if reply_id == REPLY_DEPOSIT_RECEIVED_BY_COURIER {
        handle_reply_transfer_deposit(state, success, now)
    } else if reply_id == REPLY_PAYMENT_RECEIVED_BY_SENDER {
        handle_reply_transfer_payment(state, success)
    } else if reply_id == REPLY_COURIER_REFUND || reply_id == REPLY_OWNER_REFUND {
        match handle_reply_transfer_refund(success, reply_id) {
            Ok(_) => Ok(()),
            Err(e) => Err(e),
        }
    } else {
        Err(ReplyError::UnknownReplyId(reply_id))
    }
}

} // verus!
