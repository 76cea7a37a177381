use vstd::prelude::*;

use crate::error::{ContractError, ReplyError};
use crate::models::{
    window_for, AfterRefund, RefundReceiver, Status, TransferKind, TransferRequest,
};
use crate::msg::DetailsLocationInfo;
use crate::state::ContractState;
use crate::utils::{
    check_courier_signature, check_is_courier, check_is_owner, courier_can_cancel,
    courier_cancel_policy, get_courier, get_owner, get_payments_info, hex_decoded, is_hex_string,
    is_time_over, owner_can_cancel, owner_cancel_policy, pay_from_contract,
    pay_to_contract_by_sender, sha256_of, window_elapsed, SignatureCheckInputs,
};

verus! {

// Continuation ids: every transfer request carries one, and the matching
// confirmation callback commits the deferred state change under it.
pub const REPLY_PAYMENT_RECEIVED_BY_SENDER: u64 = 1;
pub const REPLY_DEPOSIT_RECEIVED_BY_COURIER: u64 = 2;
pub const REPLY_PAYMENT_TO_COURIER: u64 = 3;
pub const REPLY_OWNER_REFUND: u64 = 4;
pub const REPLY_COURIER_REFUND: u64 = 5;

// --- sender pays ------------------------------------------------------------

/// What the sender's payment call does: demands `WaitPaymentBySender` and
/// the owner as caller; commits to `WaitForCourier` at once when the held
/// balance already covers the fee, else leaves the state alone and requests
/// one pull of the fee, deferring the transition to the confirmation.
pub open spec fn pay_outcome(s: ContractState, sender: String, contract_balance: u128) -> Result<
    (ContractState, Seq<TransferRequest>),
    ContractError,
> {
    if s.status != Status::WaitPaymentBySender {
        Err(ContractError::UnexpectedStatus(s.status, Status::WaitPaymentBySender))
    } else if sender@ != s.owner@ {
        Err(ContractError::OwnerExpected)
    } else if contract_balance >= s.payment_amount {
        Ok((ContractState { status: Status::WaitForCourier, ..s }, Seq::empty()))
    } else {
        Ok(
            (
                s,
                seq![
                    TransferRequest {
                        kind: TransferKind::ToContract,
                        party: sender,
                        amount: s.payment_amount,
                        reply_id: REPLY_PAYMENT_RECEIVED_BY_SENDER,
                    },
                ],
            ),
        )
    }
}

/// The sender pays the shipping fee in. `contract_balance` is the amount
/// the token ledger currently holds for this contract.
pub fn sender_make_pay_for_shipping(
    state: &mut ContractState,
    sender: &String,
    contract_balance: u128,
) -> (r: Result<Vec<TransferRequest>, ContractError>)
    requires
        old(state).wf(),
    ensures
        final(state).wf(),
        (match pay_outcome(*old(state), *sender, contract_balance) {
            Ok(p) => r matches Ok(reqs) && *final(state) == p.0 && reqs@ == p.1,
            Err(e) => r == Err::<Vec<TransferRequest>, ContractError>(e) && *final(state) == *old(
                state,
            ),
        }),
{
    let payment_amount = state.payment_amount;
    let status = state.status;

    match status.expected(Status::WaitPaymentBySender) {
        Ok(_) => (),
        Err(e) => {
            return Err(e);
        },
    }
    match check_is_owner(state, sender) {
        Ok(_) => (),
        Err(e) => {
            return Err(e);
        },
    }

    if contract_balance >= payment_amount {
        state.status = Status::WaitForCourier;
        let reqs: Vec<TransferRequest> = Vec::new();
        assert(reqs@ =~= Seq::<TransferRequest>::empty());
        return Ok(reqs);
    }

    let mut reqs: Vec<TransferRequest> = Vec::new();
    reqs.push(pay_to_contract_by_sender(sender, payment_amount, REPLY_PAYMENT_RECEIVED_BY_SENDER));
    assert(reqs@ =~= pay_outcome(*state, *sender, contract_balance)->Ok_0.1);
    Ok(reqs)
}

// --- courier accepts --------------------------------------------------------

/// What accepting the order does: demands `WaitForCourier`, forbids the
/// owner as courier, records the caller as courier, moves to
/// `WaitDepositByCourier` and starts the deposit window at `now`.
pub open spec fn accept_outcome(s: ContractState, sender: String, now: u64) -> Result<
    (ContractState, Seq<TransferRequest>),
    ContractError,
> {
    if s.status != Status::WaitForCourier {
        Err(ContractError::UnexpectedStatus(s.status, Status::WaitForCourier))
    } else if sender@ == s.owner@ {
        Err(ContractError::OwnerCannotBeACourier)
    } else {
        Ok(
            (
                ContractState {
                    courier: Some(sender),
                    status: Status::WaitDepositByCourier,
                    window: window_for(s.expiration_times, Status::WaitDepositByCourier, now),
                    ..s
                },
                Seq::empty(),
            ),
        )
    }
}

/// A courier takes the order. No value moves; the courier is recorded and
/// given the deposit window.
pub fn courier_accept_application(state: &mut ContractState, sender: &String, now: u64) -> (r:
    Result<Vec<TransferRequest>, ContractError>)
    requires
        old(state).wf(),
    ensures
        final(state).wf(),
        (match accept_outcome(*old(state), *sender, now) {
            Ok(p) => r matches Ok(reqs) && *final(state) == p.0 && reqs@ == p.1,
            Err(e) => r == Err::<Vec<TransferRequest>, ContractError>(e) && *final(state) == *old(
                state,
            ),
        }),
{
    let status = state.status;
    match status.expected(Status::WaitForCourier) {
        Ok(_) => (),
        Err(e) => {
            return Err(e);
        },
    }

    if check_is_owner(state, sender).is_ok() {
        return Err(ContractError::OwnerCannotBeACourier);
    }

    state.courier = Some(sender.clone());
    state.status = Status::WaitDepositByCourier;
    state.window = state.expiration_times.set_expiration_by_status(Status::WaitDepositByCourier, now);

    let reqs: Vec<TransferRequest> = Vec::new();
    assert(reqs@ =~= Seq::<TransferRequest>::empty());
    Ok(reqs)
}

// --- courier deposits -------------------------------------------------------

/// What the courier's deposit call does: demands `WaitDepositByCourier` and
/// the courier as caller; commits to `WaitSenderDetails` at once (starting
/// the details window) when the held balance already covers fee plus
/// deposit, else leaves the state alone and requests one pull of the
/// deposit, deferring the transition to the confirmation.
pub open spec fn deposit_outcome(s: ContractState, sender: String, contract_balance: u128, now: u64) -> Result<
    (ContractState, Seq<TransferRequest>),
    ContractError,
> {
    if s.status != Status::WaitDepositByCourier {
        Err(ContractError::UnexpectedStatus(s.status, Status::WaitDepositByCourier))
    } else {
        match s.courier {
            None => Err(ContractError::CourierNotApplyYet),
            Some(c) => if sender@ != c@ {
                Err(ContractError::CourierExpected)
            } else if contract_balance >= s.payment_amount + s.deposit_amount {
                Ok(
                    (
                        ContractState {
                            status: Status::WaitSenderDetails,
                            window: window_for(s.expiration_times, Status::WaitSenderDetails, now),
                            ..s
                        },
                        Seq::empty(),
                    ),
                )
            } else {
                Ok(
                    (
                        s,
                        seq![
                            TransferRequest {
                                kind: TransferKind::ToContract,
                                party: sender,
                                amount: s.deposit_amount,
                                reply_id: REPLY_DEPOSIT_RECEIVED_BY_COURIER,
                            },
                        ],
                    ),
                )
            },
        }
    }
}

/// The courier posts its collateral. `contract_balance` is the amount the
/// token ledger currently holds for this contract.
pub fn courier_make_deposit_for_shipping(
    state: &mut ContractState,
    sender: &String,
    contract_balance: u128,
    now: u64,
) -> (r: Result<Vec<TransferRequest>, ContractError>)
    requires
        old(state).wf(),
    ensures
        final(state).wf(),
        (match deposit_outcome(*old(state), *sender, contract_balance, now) {
            Ok(p) => r matches Ok(reqs) && *final(state) == p.0 && reqs@ == p.1,
            Err(e) => r == Err::<Vec<TransferRequest>, ContractError>(e) && *final(state) == *old(
                state,
            ),
        }),
{
    let status = state.status;
    match status.expected(Status::WaitDepositByCourier) {
        Ok(_) => (),
        Err(e) => {
            return Err(e);
        },
    }
    match check_is_courier(state, sender) {
        Ok(_) => (),
        Err(e) => {
            return Err(e);
        },
    }

    let (payment_amount, deposit_amount) = get_payments_info(state);

    if contract_balance >= payment_amount + deposit_amount {
        state.status = Status::WaitSenderDetails;
        state.window = state.expiration_times.set_expiration_by_status(Status::WaitSenderDetails, now);
        let reqs: Vec<TransferRequest> = Vec::new();
        assert(reqs@ =~= Seq::<TransferRequest>::empty());
        return Ok(reqs);
    }

    let mut reqs: Vec<TransferRequest> = Vec::new();
    reqs.push(pay_to_contract_by_sender(sender, deposit_amount, REPLY_DEPOSIT_RECEIVED_BY_COURIER));
    assert(reqs@ =~= deposit_outcome(*state, *sender, contract_balance, now)->Ok_0.1);
    Ok(reqs)
}

// --- sender sets details ----------------------------------------------------

/// The record after the sender provided the exact locations and comment:
/// details stored, status `WaitCourierInDepartment`, pickup window started
/// at `now`.
pub open spec fn details_set_of(
    s: ContractState,
    location: DetailsLocationInfo,
    comment: String,
    now: u64,
) -> ContractState {
    ContractState {
        exact_from_location: Some(location.from),
        exact_to_location: Some(location.to),
        comment: Some(comment),
        status: Status::WaitCourierInDepartment,
        window: window_for(s.expiration_times, Status::WaitCourierInDepartment, now),
        ..s
    }
}

/// What setting the details does: demands `WaitSenderDetails` and the owner
/// as caller, then stores the details and opens the pickup window.
pub open spec fn set_details_outcome(
    s: ContractState,
    sender: String,
    location: DetailsLocationInfo,
    comment: String,
    now: u64,
) -> Result<(ContractState, Seq<TransferRequest>), ContractError> {
    if s.status != Status::WaitSenderDetails {
        Err(ContractError::UnexpectedStatus(s.status, Status::WaitSenderDetails))
    } else if sender@ != s.owner@ {
        Err(ContractError::OwnerExpected)
    } else {
        Ok((details_set_of(s, location, comment, now), Seq::empty()))
    }
}

/// The sender provides the exact locations and a comment.
pub fn sender_set_details(
    state: &mut ContractState,
    sender: &String,
    location: DetailsLocationInfo,
    comment: String,
    now: u64,
) -> (r: Result<Vec<TransferRequest>, ContractError>)
    requires
        old(state).wf(),
    ensures
        final(state).wf(),
        (match set_details_outcome(*old(state), *sender, location, comment, now) {
            Ok(p) => r matches Ok(reqs) && *final(state) == p.0 && reqs@ == p.1,
            Err(e) => r == Err::<Vec<TransferRequest>, ContractError>(e) && *final(state) == *old(
                state,
            ),
        }),
{
    let status = state.status;
    match status.expected(Status::WaitSenderDetails) {
        Ok(_) => (),
        Err(e) => {
            return Err(e);
        },
    }
    match check_is_owner(state, sender) {
        Ok(_) => (),
        Err(e) => {
            return Err(e);
        },
    }

    state.exact_from_location = Some(location.from);
    state.exact_to_location = Some(location.to);
    state.comment = Some(comment);
    state.status = Status::WaitCourierInDepartment;
    state.window = state.expiration_times.set_expiration_by_status(
        Status::WaitCourierInDepartment,
        now,
    );

    let reqs: Vec<TransferRequest> = Vec::new();
    assert(reqs@ =~= Seq::<TransferRequest>::empty());
    Ok(reqs)
}

// --- parcel issued ----------------------------------------------------------

/// What marking the parcel as issued does: demands
/// `WaitCourierInDepartment` and the owner as caller, then moves to
/// `InProgress` and starts the delivery window at `now`.
pub open spec fn parcel_issued_outcome(s: ContractState, sender: String, now: u64) -> Result<
    (ContractState, Seq<TransferRequest>),
    ContractError,
> {
    if s.status != Status::WaitCourierInDepartment {
        Err(ContractError::UnexpectedStatus(s.status, Status::WaitCourierInDepartment))
    } else if sender@ != s.owner@ {
        Err(ContractError::OwnerExpected)
    } else {
        Ok(
            (
                ContractState {
                    status: Status::InProgress,
                    window: window_for(s.expiration_times, Status::InProgress, now),
                    ..s
                },
                Seq::empty(),
            ),
        )
    }
}

/// The sender hands the parcel to the courier; delivery is under way.
pub fn sender_gave_parcel_to_courier(state: &mut ContractState, sender: &String, now: u64) -> (r:
    Result<Vec<TransferRequest>, ContractError>)
    requires
        old(state).wf(),
    ensures
        final(state).wf(),
        (match parcel_issued_outcome(*old(state), *sender, now) {
            Ok(p) => r matches Ok(reqs) && *final(state) == p.0 && reqs@ == p.1,
            Err(e) => r == Err::<Vec<TransferRequest>, ContractError>(e) && *final(state) == *old(
                state,
            ),
        }),
{
    let status = state.status;
    match status.expected(Status::WaitCourierInDepartment) {
        Ok(_) => (),
        Err(e) => {
            return Err(e);
        },
    }
    match check_is_owner(state, sender) {
        Ok(_) => (),
        Err(e) => {
            return Err(e);
        },
    }

    state.status = Status::InProgress;
    state.window = state.expiration_times.set_expiration_by_status(Status::InProgress, now);

    let reqs: Vec<TransferRequest> = Vec::new();
    assert(reqs@ =~= Seq::<TransferRequest>::empty());
    Ok(reqs)
}

// --- courier confirms delivery ------------------------------------------------

/// The guard and decoding stage of delivery confirmation: the rejection it
/// ends in, or `None` when the coupon is ready for the external verifier.
pub open spec fn confirm_check(s: ContractState, sender: String, sign: String) -> Option<
    ContractError,
> {
    if s.status != Status::InProgress {
        Some(ContractError::UnexpectedStatus(s.status, Status::InProgress))
    } else {
        match s.courier {
            None => Some(ContractError::CourierNotApplyYet),
            Some(c) => if sender@ != c@ {
                Some(ContractError::CourierExpected)
            } else if !is_hex_string(sign@) {
                Some(ContractError::InvalidSignature)
            } else if !is_hex_string(s.confirm_public_key@) {
                Some(ContractError::InvalidPublicKey)
            } else {
                None
            },
        }
    }
}

/// The courier presents the signed delivery coupon. The call guards the
/// status and the caller, hashes the contract's own address into the fixed
/// message and decodes the signature and the registered key; the host's
/// secp256k1 verifier runs on the result and its verdict goes to
/// `courier_confirm_delivery_payout`. Nothing is stored by this call.
pub fn courier_confirm_delivery(
    state: &ContractState,
    sender: &String,
    sign: &String,
    contract_address: &String,
) -> (r: Result<SignatureCheckInputs, ContractError>)
    ensures
        (match confirm_check(*state, *sender, *sign) {
            Some(e) => r matches Err(e2) && e2 == e,
            None => r matches Ok(v) && v.message_hash@ == sha256_of(contract_address@)
                && v.signature@ == hex_decoded(sign@) && v.public_key@ == hex_decoded(
                state.confirm_public_key@,
            ),
        }),
{
    let status = state.status;
    match status.expected(Status::InProgress) {
        Ok(_) => (),
        Err(e) => {
            return Err(e);
        },
    }
    match check_is_courier(state, sender) {
        Ok(_) => (),
        Err(e) => {
            return Err(e);
        },
    }

    check_courier_signature(contract_address, sign, &state.confirm_public_key)
}

/// What settling a verified (or failed) confirmation does: with the guards
/// still holding, a failed verification aborts with a signature error; a
/// passed one requests the single payout of fee plus deposit to the
/// courier. The move to `Delivered` is deferred to that transfer's
/// confirmation callback.
pub open spec fn payout_outcome(s: ContractState, sender: String, verified: bool) -> Result<
    Seq<TransferRequest>,
    ContractError,
> {
    if s.status != Status::InProgress {
        Err(ContractError::UnexpectedStatus(s.status, Status::InProgress))
    } else {
        match s.courier {
            None => Err(ContractError::CourierNotApplyYet),
            Some(c) => if sender@ != c@ {
                Err(ContractError::CourierExpected)
            } else if !verified {
                Err(ContractError::InvalidSignature)
            } else {
                Ok(
                    seq![
                        TransferRequest {
                            kind: TransferKind::FromContract,
                            party: c,
                            amount: (s.payment_amount + s.deposit_amount) as u128,
                            reply_id: REPLY_PAYMENT_TO_COURIER,
                        },
                    ],
                )
            },
        }
    }
}

/// Settles a delivery confirmation once the external verifier has spoken:
/// `verified` is its verdict on the inputs `courier_confirm_delivery`
/// prepared. Re-validates the guards, then requests the payout; the state
/// itself is only changed by the payout's confirmation callback.
pub fn courier_confirm_delivery_payout(state: &ContractState, sender: &String, verified: bool) -> (r:
    Result<Vec<TransferRequest>, ContractError>)
    requires
        state.wf(),
    ensures
        (match payout_outcome(*state, *sender, verified) {
            Ok(q) => r matches Ok(reqs) && reqs@ == q,
            Err(e) => r == Err::<Vec<TransferRequest>, ContractError>(e),
        }),
{
    let status = state.status;
    match status.expected(Status::InProgress) {
        Ok(_) => (),
        Err(e) => {
            return Err(e);
        },
    }
    let courier = match check_is_courier(state, sender) {
        Ok(c) => c,
        Err(e) => {
            return Err(e);
        },
    };
    if !verified {
        return Err(ContractError::InvalidSignature);
    }

    let (payment_amount, deposit_amount) = get_payments_info(state);
    let amount = payment_amount + deposit_amount;
    let mut reqs: Vec<TransferRequest> = Vec::new();
    reqs.push(pay_from_contract(&courier, amount, REPLY_PAYMENT_TO_COURIER));
    assert(reqs@ =~= payout_outcome(*state, *sender, verified)->Ok_0);
    Ok(reqs)
}

// --- cancellation -------------------------------------------------------------

/// The record after a start-over outcome: the order reopens for couriers,
/// with courier, exact locations, comment and deadline cleared.
pub open spec fn start_over_of(s: ContractState) -> ContractState {
    ContractState {
        status: Status::WaitForCourier,
        courier: None,
        exact_from_location: None,
        exact_to_location: None,
        comment: None,
        window: None,
        ..s
    }
}

/// The record a granted cancellation leaves behind, by follow-up action.
/// Every outcome clears the running deadline.
pub open spec fn after_refund_state(s: ContractState, action: AfterRefund) -> ContractState {
    match action {
        AfterRefund::SetClosed => ContractState { status: Status::Closed, window: None, ..s },
        AfterRefund::SetFailed => ContractState { status: Status::Failed, window: None, ..s },
        AfterRefund::StartOver => start_over_of(s),
    }
}

/// Who may ask for a cancellation: the owner, or the recorded courier.
pub open spec fn cancel_authorized(s: ContractState, sender: String) -> bool {
    ||| sender@ == s.owner@
    ||| s.courier matches Some(c) && sender@ == c@
}

/// The decision an authorized cancellation call gets at `now`: the caller's
/// own per-state table, consulted with the elapsed-time fact of the running
/// window. `None` for an unauthorized caller.
pub open spec fn cancel_decision(s: ContractState, sender: String, now: u64) -> Option<
    (RefundReceiver, AfterRefund),
> {
    if sender@ == s.owner@ {
        owner_cancel_policy(s.status, window_elapsed(s, now))
    } else if s.courier matches Some(c) && sender@ == c@ {
        courier_cancel_policy(s.status, window_elapsed(s, now))
    } else {
        None
    }
}

/// The refund transfers a granted cancellation requests, by receiver: the
/// whole held balance to the owner, the deposit back to the courier, or
/// both at once split as deposit to the courier and remainder to the owner.
pub open spec fn refund_requests(s: ContractState, receiver: RefundReceiver, contract_balance: u128) -> Seq<
    TransferRequest,
> {
    match receiver {
        RefundReceiver::Owner => seq![
            TransferRequest {
                kind: TransferKind::FromContract,
                party: s.owner,
                amount: contract_balance,
                reply_id: REPLY_OWNER_REFUND,
            },
        ],
        RefundReceiver::Courier => (match s.courier {
            Some(c) => seq![
                TransferRequest {
                    kind: TransferKind::FromContract,
                    party: c,
                    amount: s.deposit_amount,
                    reply_id: REPLY_COURIER_REFUND,
                },
            ],
            None => Seq::empty(),
        }),
        RefundReceiver::Both => (match s.courier {
            Some(c) => seq![
                TransferRequest {
                    kind: TransferKind::FromContract,
                    party: s.owner,
                    amount: (contract_balance - s.deposit_amount) as u128,
                    reply_id: REPLY_OWNER_REFUND,
                },
                TransferRequest {
                    kind: TransferKind::FromContract,
                    party: c,
                    amount: s.deposit_amount,
                    reply_id: REPLY_COURIER_REFUND,
                },
            ],
            None => Seq::empty(),
        }),
        RefundReceiver::NoOne => Seq::empty(),
    }
}

/// What a cancellation call does: rejects a caller who is neither owner nor
/// courier; answers a negative result (and stores nothing) while the
/// caller's table does not allow cancelling yet; and otherwise requests the
/// refunds and commits the follow-up state synchronously.
pub open spec fn cancel_outcome(
    s: ContractState,
    sender: String,
    now: u64,
    contract_balance: u128,
) -> Result<(ContractState, Option<Seq<TransferRequest>>), ContractError> {
    if !cancel_authorized(s, sender) {
        Err(ContractError::OwnerOrCourierExpected)
    } else {
        match cancel_decision(s, sender, now) {
            None => Ok((s, None)),
            Some((receiver, action)) => Ok(
                (after_refund_state(s, action), Some(refund_requests(s, receiver, contract_balance))),
            ),
        }
    }
}

/// The owner or the courier asks to cancel the delivery. `Ok(None)` is the
/// explicit negative answer: cancelling is not allowed yet, nothing was
/// stored, the caller may retry once the window has elapsed. A granted
/// cancellation commits its follow-up state at once, alongside the refund
/// requests: unlike the deposit and payment flows, the refunds do not defer
/// the status to their callbacks.
pub fn universal_cancel_delivery_and_payback(
    state: &mut ContractState,
    sender: &String,
    now: u64,
    contract_balance: u128,
) -> (r: Result<Option<Vec<TransferRequest>>, ContractError>)
    requires
        old(state).wf(),
        // The "Both" split pays the owner the held balance less the deposit,
        // so the balance must cover the deposit.
        (cancel_decision(*old(state), *sender, now) matches Some(d) && d.0 is Both
            ==> contract_balance >= old(state).deposit_amount),
    ensures
        final(state).wf(),
        (match cancel_outcome(*old(state), *sender, now, contract_balance) {
            Ok(p) => r matches Ok(o) && *final(state) == p.0 && (match (o, p.1) {
                (Some(v), Some(q)) => v@ == q,
                (None, None) => true,
                _ => false,
            }),
            Err(e) => r == Err::<Option<Vec<TransferRequest>>, ContractError>(e) && *final(state)
                == *old(state),
        }),
        // Law: a cancellation that is not allowed now is a no-operation with
        // an explicit negative result, not an error.
        (cancel_authorized(*old(state), *sender) && cancel_decision(*old(state), *sender, now)
            is None ==> (r matches Ok(o) && o is None && *final(state) == *old(state))),
        // Law: the "Both" outcome conserves the held balance: the owner's
        // share and the courier's deposit sum to it exactly.
        (cancel_decision(*old(state), *sender, now) matches Some(d) && d.0 is Both ==> (r matches
        Ok(o) && o matches Some(v) && v@.len() == 2 && v@[0].amount + v@[1].amount
            == contract_balance)),
{
    let is_owner = sender.eq(&state.owner);
    let is_courier = match &state.courier {
        Some(c) => sender.eq(c),
        None => false,
    };

    if !is_owner && !is_courier {
        return Err(ContractError::OwnerOrCourierExpected);
    }

    let over = match &state.window {
        Some(w) => is_time_over(w.fixation, w.duration, now),
        None => true,
    };

    let decision = if is_owner {
        owner_can_cancel(state.status, over)
    } else {
        courier_can_cancel(state.status, over)
    };

    match decision {
        None => Ok(None),
        Some((receiver, action)) => {
            let deposit_amount = state.deposit_amount;
            let mut requests: Vec<TransferRequest> = Vec::new();

            match receiver {
                RefundReceiver::Owner => {
                    let owner = get_owner(state);
                    requests.push(pay_from_contract(&owner, contract_balance, REPLY_OWNER_REFUND));
                },
                RefundReceiver::Courier => {
                    let courier = match get_courier(state) {
                        Ok(c) => c,
                        Err(_) => unreached(),
                    };
                    requests.push(pay_from_contract(&courier, deposit_amount, REPLY_COURIER_REFUND));
                },
                RefundReceiver::Both => {
                    let courier = match get_courier(state) {
                        Ok(c) => c,
                        Err(_) => unreached(),
                    };
                    let owner = get_owner(state);
                    let owner_amount = contract_balance - deposit_amount;
                    requests.push(pay_from_contract(&owner, owner_amount, REPLY_OWNER_REFUND));
                    requests.push(pay_from_contract(&courier, deposit_amount, REPLY_COURIER_REFUND));
                },
                RefundReceiver::NoOne => {},
            }

            assert(requests@ =~= refund_requests(*state, receiver, contract_balance));

            match action {
                AfterRefund::SetClosed => {
                    state.status = Status::Closed;
                },
                AfterRefund::SetFailed => {
                    state.status = Status::Failed;
                },
                AfterRefund::StartOver => {
                    state.status = Status::WaitForCourier;
                    state.courier = None;
                    state.exact_from_location = None;
                    state.exact_to_location = None;
                    state.comment = None;
                },
            }
            state.window = None;

            Ok(Some(requests))
        },
    }
}

/// Law: a start-over cancellation granted after the sender set the exact
/// details clears the exact locations, the comment and the courier back to
/// their absent defaults, reopens the order for couriers and stops the
/// clock.
pub proof fn lemma_start_over_clears_details(
    s: ContractState,
    location: DetailsLocationInfo,
    comment: String,
    now: u64,
)
    ensures
        ({
            let cleared = start_over_of(details_set_of(s, location, comment, now));
            &&& cleared.exact_from_location is None
            &&& cleared.exact_to_location is None
            &&& cleared.comment is None
            &&& cleared.courier is None
            &&& cleared.status is WaitForCourier
            &&& cleared.window is None
        }),
{
}

// --- confirmation callbacks ---------------------------------------------------

/// What the payment confirmation commits: the ledger's success moves the
/// order to `WaitForCourier`; its failure aborts with no state change.
pub open spec fn reply_payment_outcome(s: ContractState, success: bool) -> Result<
    ContractState,
    ReplyError,
> {
    if !success {
        Err(ReplyError::TransferFailed)
    } else {
        Ok(ContractState { status: Status::WaitForCourier, window: None, ..s })
    }
}

/// Confirmation callback of the sender's payment transfer: commits the
/// deferred move to `WaitForCourier`.
pub fn handle_reply_transfer_payment(state: &mut ContractState, success: bool) -> (r: Result<
    (),
    ReplyError,
>)
    requires
        old(state).wf(),
    ensures
        final(state).wf(),
        (match reply_payment_outcome(*old(state), success) {
            Ok(s2) => r is Ok && *final(state) == s2,
            Err(e) => r == Err::<(), ReplyError>(e) && *final(state) == *old(state),
        }),
{
    if !success {
        return Err(ReplyError::TransferFailed);
    }
    state.status = Status::WaitForCourier;
    state.window = None;
    Ok(())
}

/// What the deposit confirmation commits: with a courier still recorded,
/// the ledger's success moves the order to `WaitSenderDetails` and starts
/// the details window at `now`.
pub open spec fn reply_deposit_outcome(s: ContractState, success: bool, now: u64) -> Result<
    ContractState,
    ReplyError,
> {
    if !success {
        Err(ReplyError::TransferFailed)
    } else if s.courier is None {
        Err(ReplyError::CourierNotFound)
    } else {
        Ok(
            ContractState {
                status: Status::WaitSenderDetails,
                window: window_for(s.expiration_times, Status::WaitSenderDetails, now),
                ..s
            },
        )
    }
}

/// Confirmation callback of the courier's deposit transfer: commits the
/// deferred move to `WaitSenderDetails` and starts the details window.
pub fn handle_reply_transfer_deposit(state: &mut ContractState, success: bool, now: u64) -> (r:
    Result<(), ReplyError>)
    requires
        old(state).wf(),
    ensures
        final(state).wf(),
        (match reply_deposit_outcome(*old(state), success, now) {
            Ok(s2) => r is Ok && *final(state) == s2,
            Err(e) => r == Err::<(), ReplyError>(e) && *final(state) == *old(state),
        }),
{
    if !success {
        return Err(ReplyError::TransferFailed);
    }
    if state.courier.is_none() {
        return Err(ReplyError::CourierNotFound);
    }
    state.status = Status::WaitSenderDetails;
    state.window = state.expiration_times.set_expiration_by_status(Status::WaitSenderDetails, now);
    Ok(())
}

/// Confirmation callback of a refund transfer: the follow-up state was
/// already committed when the cancellation was granted, so nothing is
/// stored; the call only reports who was refunded, by the continuation id.
pub fn handle_reply_transfer_refund(success: bool, reply_id: u64) -> (r: Result<
    &'static str,
    ReplyError,
>)
    ensures
        !success ==> r == Err::<&'static str, ReplyError>(ReplyError::TransferFailed),
        success && reply_id == REPLY_OWNER_REFUND ==> (r matches Ok(n) && n@ == "owner"@),
        success && reply_id != REPLY_OWNER_REFUND ==> (r matches Ok(n) && n@ == "courier"@),
{
    if !success {
        return Err(ReplyError::TransferFailed);
    }
    if reply_id == REPLY_OWNER_REFUND {
        Ok("owner")
    } else {
        Ok("courier")
    }
}

/// What the payout confirmation commits: with a courier still recorded,
/// the ledger's success settles the order as `Delivered` and stops the
/// clock.
pub open spec fn reply_payout_outcome(s: ContractState, success: bool) -> Result<
    ContractState,
    ReplyError,
> {
    if !success {
        Err(ReplyError::TransferFailed)
    } else if s.courier is None {
        Err(ReplyError::CourierNotFound)
    } else {
        Ok(ContractState { status: Status::Delivered, window: None, ..s })
    }
}

/// Confirmation callback of the courier's payout transfer: commits the
/// deferred move to `Delivered`.
pub fn handle_reply_transfer_payment_to_courier(state: &mut ContractState, success: bool) -> (r:
    Result<(), ReplyError>)
    requires
        old(state).wf(),
    ensures
        final(state).wf(),
        (match reply_payout_outcome(*old(state), success) {
            Ok(s2) => r is Ok && *final(state) == s2,
            Err(e) => r == Err::<(), ReplyError>(e) && *final(state) == *old(state),
        }),
{
    if !success {
        return Err(ReplyError::TransferFailed);
    }
    if state.courier.is_none() {
        return Err(ReplyError::CourierNotFound);
    }
    state.status = Status::Delivered;
    state.window = None;
    Ok(())
}

} // verus!
