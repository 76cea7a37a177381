use cosm_figaro::contract::{execute, reply, CallInfo, ExecOutcome};
use cosm_figaro::error::{ContractError, ReplyError};
use cosm_figaro::methods::{
    courier_confirm_delivery_payout, handle_reply_transfer_deposit, handle_reply_transfer_payment,
    handle_reply_transfer_payment_to_courier, handle_reply_transfer_refund,
    sender_make_pay_for_shipping, REPLY_COURIER_REFUND, REPLY_OWNER_REFUND,
    REPLY_PAYMENT_RECEIVED_BY_SENDER, REPLY_PAYMENT_TO_COURIER,
};
use cosm_figaro::models::{ExpirationTimes, ExpirationWindow, Status, TransferKind};
use cosm_figaro::msg::{DetailsLocationInfo, ExecuteMsg, InstantiateLocationInfo, InstantiateMsg};
use cosm_figaro::state::{ContractState, TokenInfo};

fn token_info() -> TokenInfo {
    TokenInfo {
        name: "Test Token".to_string(),
        symbol: "TT".to_string(),
        decimals: 6,
        total_supply: 1_000_000,
    }
}

fn fresh_msg() -> InstantiateMsg {
    InstantiateMsg {
        location: InstantiateLocationInfo { from: "9q8y".to_string(), to: "9q9p".to_string() },
        token_address: "token".to_string(),
        confirm_public_key: "00ff".to_string(),
        deposit_amount: 40,
        payment_amount: 100,
        expiration_times: None,
    }
}

fn fresh_state() -> ContractState {
    fresh_msg().setup(&"alice".to_string(), token_info()).unwrap()
}

fn state_at(status: Status, courier: Option<&str>, window: Option<(u64, u64)>) -> ContractState {
    let mut s = fresh_state();
    s.status = status;
    s.courier = courier.map(|c| c.to_string());
    s.window = window.map(|(fixation, duration)| ExpirationWindow { fixation, duration });
    s
}

fn call(sender: &str, now: u64, balance: u128) -> CallInfo {
    CallInfo {
        sender: sender.to_string(),
        now,
        contract_address: "abc".to_string(),
        contract_balance: balance,
    }
}

#[test]
fn setup_builds_fresh_order() {
    let s = fresh_state();
    assert_eq!(s.status, Status::WaitPaymentBySender);
    assert_eq!(s.owner, "alice");
    assert_eq!(s.courier, None);
    assert_eq!(s.payment_amount, 100);
    assert_eq!(s.deposit_amount, 40);
    assert_eq!(s.expiration_times, ExpirationTimes::default());
    assert_eq!(s.window, None);
    assert_eq!(s.exact_from_location, None);
    assert_eq!(s.exact_to_location, None);
    assert_eq!(s.comment, None);
    assert_eq!(s.rough_from_location, "9q8y");
    assert_eq!(s.rough_to_location, "9q9p");
}

#[test]
fn setup_rejects_malformed_public_key() {
    let mut msg = fresh_msg();
    msg.confirm_public_key = "0g".to_string();
    let r = msg.setup(&"alice".to_string(), token_info());
    assert_eq!(r.unwrap_err(), ContractError::InvalidPublicKey);
}

#[test]
fn scenario_payment_request_and_confirmation() {
    // Fresh contract; the owner pays while the held balance is short:
    // one pull of the fee is requested, tagged payment-received-by-sender,
    // and only the confirmation callback moves the order on.
    let mut s = fresh_state();
    let r = execute(&mut s, &call("alice", 0, 0), ExecuteMsg::MakePayForShipping {}).unwrap();
    match r {
        ExecOutcome::Acted(reqs) => {
            assert_eq!(reqs.len(), 1);
            assert_eq!(reqs[0].kind, TransferKind::ToContract);
            assert_eq!(reqs[0].party, "alice");
            assert_eq!(reqs[0].amount, 100);
            assert_eq!(reqs[0].reply_id, REPLY_PAYMENT_RECEIVED_BY_SENDER);
        }
        other => panic!("expected transfer requests, got {:?}", other),
    }
    // The transition is deferred: still waiting for the payment.
    assert_eq!(s.status, Status::WaitPaymentBySender);

    reply(&mut s, REPLY_PAYMENT_RECEIVED_BY_SENDER, true, 0).unwrap();
    assert_eq!(s.status, Status::WaitForCourier);
    assert_eq!(s.window, None);
}

#[test]
fn payment_fast_path_commits_at_once() {
    // The held balance already covers the fee: no transfer is requested and
    // the transition commits synchronously.
    let mut s = fresh_state();
    let reqs = sender_make_pay_for_shipping(&mut s, &"alice".to_string(), 100).unwrap();
    assert!(reqs.is_empty());
    assert_eq!(s.status, Status::WaitForCourier);
}

#[test]
fn accept_records_courier_and_starts_deposit_window() {
    let mut s = state_at(Status::WaitForCourier, None, None);
    let r = execute(&mut s, &call("bob", 1000, 100), ExecuteMsg::AcceptApplication {}).unwrap();
    match r {
        ExecOutcome::Acted(reqs) => assert!(reqs.is_empty()),
        other => panic!("expected an empty action, got {:?}", other),
    }
    assert_eq!(s.status, Status::WaitDepositByCourier);
    assert_eq!(s.courier, Some("bob".to_string()));
    assert_eq!(s.window, Some(ExpirationWindow { fixation: 1000, duration: 7200 }));
}

#[test]
fn owner_cannot_take_its_own_order() {
    let mut s = state_at(Status::WaitForCourier, None, None);
    let r = execute(&mut s, &call("alice", 0, 100), ExecuteMsg::AcceptApplication {});
    assert_eq!(r.unwrap_err(), ContractError::OwnerCannotBeACourier);
    assert_eq!(s.courier, None);
    assert_eq!(s.status, Status::WaitForCourier);
}

#[test]
fn deposit_request_and_confirmation() {
    let mut s = state_at(Status::WaitDepositByCourier, Some("bob"), Some((1000, 7200)));
    let r = execute(&mut s, &call("bob", 1500, 100), ExecuteMsg::MakeDepositForShipping {}).unwrap();
    match r {
        ExecOutcome::Acted(reqs) => {
            assert_eq!(reqs.len(), 1);
            assert_eq!(reqs[0].kind, TransferKind::ToContract);
            assert_eq!(reqs[0].party, "bob");
            assert_eq!(reqs[0].amount, 40);
        }
        other => panic!("expected transfer requests, got {:?}", other),
    }
    assert_eq!(s.status, Status::WaitDepositByCourier);

    let mut s2 = s;
    handle_reply_transfer_deposit(&mut s2, true, 2000).unwrap();
    assert_eq!(s2.status, Status::WaitSenderDetails);
    assert_eq!(s2.window, Some(ExpirationWindow { fixation: 2000, duration: 7200 }));
}

#[test]
fn deposit_fast_path_commits_at_once() {
    // Fee plus deposit already held: the transition commits synchronously
    // and the details window starts.
    let mut s = state_at(Status::WaitDepositByCourier, Some("bob"), Some((1000, 7200)));
    let r = execute(&mut s, &call("bob", 1500, 140), ExecuteMsg::MakeDepositForShipping {}).unwrap();
    match r {
        ExecOutcome::Acted(reqs) => assert!(reqs.is_empty()),
        other => panic!("expected an empty action, got {:?}", other),
    }
    assert_eq!(s.status, Status::WaitSenderDetails);
    assert_eq!(s.window, Some(ExpirationWindow { fixation: 1500, duration: 7200 }));
}

#[test]
fn set_details_stores_bundle_and_opens_pickup_window() {
    let mut s = state_at(Status::WaitSenderDetails, Some("bob"), Some((2000, 7200)));
    let msg = ExecuteMsg::SetDetails {
        location: DetailsLocationInfo { from: "exact-a".to_string(), to: "exact-b".to_string() },
        comment: "ring twice".to_string(),
    };
    execute(&mut s, &call("alice", 2500, 140), msg).unwrap();
    assert_eq!(s.status, Status::WaitCourierInDepartment);
    assert_eq!(s.exact_from_location, Some("exact-a".to_string()));
    assert_eq!(s.exact_to_location, Some("exact-b".to_string()));
    assert_eq!(s.comment, Some("ring twice".to_string()));
    assert_eq!(s.window, Some(ExpirationWindow { fixation: 2500, duration: 86400 }));
}

#[test]
fn parcel_issued_starts_delivery_window() {
    let mut s = state_at(Status::WaitCourierInDepartment, Some("bob"), Some((2500, 86400)));
    execute(&mut s, &call("alice", 3000, 140), ExecuteMsg::ParcelIssued {}).unwrap();
    assert_eq!(s.status, Status::InProgress);
    assert_eq!(s.window, Some(ExpirationWindow { fixation: 3000, duration: 604800 }));
}

#[test]
fn payout_and_delivery_confirmation() {
    let s = state_at(Status::InProgress, Some("bob"), Some((3000, 604800)));
    let reqs = courier_confirm_delivery_payout(&s, &"bob".to_string(), true).unwrap();
    assert_eq!(reqs.len(), 1);
    assert_eq!(reqs[0].kind, TransferKind::FromContract);
    assert_eq!(reqs[0].party, "bob");
    assert_eq!(reqs[0].amount, 140);
    assert_eq!(reqs[0].reply_id, REPLY_PAYMENT_TO_COURIER);

    let mut s2 = s;
    handle_reply_transfer_payment_to_courier(&mut s2, true).unwrap();
    assert_eq!(s2.status, Status::Delivered);
    assert_eq!(s2.window, None);
}

fn snapshot(s: &ContractState) -> (Status, Option<String>, Option<String>, Option<String>, Option<String>) {
    (
        s.status,
        s.courier.clone(),
        s.exact_from_location.clone(),
        s.exact_to_location.clone(),
        s.comment.clone(),
    )
}

#[test]
fn failed_transfer_confirmation_commits_nothing() {
    let mut s = fresh_state();
    let before = snapshot(&s);
    let r = handle_reply_transfer_payment(&mut s, false);
    assert_eq!(r.unwrap_err(), ReplyError::TransferFailed);
    assert_eq!(snapshot(&s), before);
}

#[test]
fn refund_confirmation_reports_receiver() {
    assert_eq!(handle_reply_transfer_refund(true, REPLY_OWNER_REFUND).unwrap(), "owner");
    assert_eq!(handle_reply_transfer_refund(true, REPLY_COURIER_REFUND).unwrap(), "courier");
    assert_eq!(
        handle_reply_transfer_refund(false, REPLY_OWNER_REFUND).unwrap_err(),
        ReplyError::TransferFailed
    );
}

#[test]
fn courier_callbacks_need_a_courier() {
    // A deposit or payout confirmation that fires while no courier is
    // recorded is rejected distinctly and commits nothing.
    let mut s = fresh_state();
    assert_eq!(
        handle_reply_transfer_deposit(&mut s, true, 0).unwrap_err(),
        ReplyError::CourierNotFound
    );
    assert_eq!(
        handle_reply_transfer_payment_to_courier(&mut s, true).unwrap_err(),
        ReplyError::CourierNotFound
    );
    assert_eq!(s.status, Status::WaitPaymentBySender);
}

#[test]
fn courier_lookup_before_any_application() {
    let s = fresh_state();
    assert_eq!(
        cosm_figaro::utils::get_courier(&s).unwrap_err(),
        ContractError::CourierNotApplyYet
    );
}

#[test]
fn errors_describe_themselves() {
    assert_eq!(ContractError::OwnerExpected.describe(), "method expects owner");
    assert_eq!(
        ContractError::UnexpectedStatus(Status::Delivered, Status::InProgress).describe(),
        "invalid status, you can call this method only with expected status"
    );
    assert_eq!(ReplyError::TransferFailed.describe(), "transfer failed");
    assert_eq!(ReplyError::UnknownReplyId(7).describe(), "unknown reply id");
}

#[test]
fn unknown_reply_id_is_rejected() {
    let mut s = fresh_state();
    let r = reply(&mut s, 9, true, 0);
    assert_eq!(r.unwrap_err(), ReplyError::UnknownReplyId(9));
    assert_eq!(s.status, Status::WaitPaymentBySender);
}
