use cosm_figaro::contract::{execute, CallInfo, ExecOutcome};
use cosm_figaro::error::ContractError;
use cosm_figaro::methods::universal_cancel_delivery_and_payback;
use cosm_figaro::models::{
    AfterRefund, ExpirationWindow, RefundReceiver, Status, TransferKind,
};
use cosm_figaro::msg::{DetailsLocationInfo, ExecuteMsg, InstantiateLocationInfo, InstantiateMsg};
use cosm_figaro::queries::{query_get_courier, query_get_locations};
use cosm_figaro::state::{ContractState, TokenInfo};
use cosm_figaro::utils::{courier_can_cancel, is_time_over, owner_can_cancel};

fn token_info() -> TokenInfo {
    TokenInfo {
        name: "Test Token".to_string(),
        symbol: "TT".to_string(),
        decimals: 6,
        total_supply: 1_000_000,
    }
}

fn fresh_state() -> ContractState {
    InstantiateMsg {
        location: InstantiateLocationInfo { from: "9q8y".to_string(), to: "9q9p".to_string() },
        token_address: "token".to_string(),
        confirm_public_key: "00ff".to_string(),
        deposit_amount: 40,
        payment_amount: 100,
        expiration_times: None,
    }
    .setup(&"alice".to_string(), token_info())
    .unwrap()
}

fn state_at(status: Status, courier: Option<&str>, window: Option<(u64, u64)>) -> ContractState {
    let mut s = fresh_state();
    s.status = status;
    s.courier = courier.map(|c| c.to_string());
    s.window = window.map(|(fixation, duration)| ExpirationWindow { fixation, duration });
    s
}

fn call(sender: &str, now: u64, balance: u128) -> CallInfo {
    CallInfo {
        sender: sender.to_string(),
        now,
        contract_address: "abc".to_string(),
        contract_balance: balance,
    }
}

fn snapshot(s: &ContractState) -> (Status, Option<String>, Option<ExpirationWindow>, Option<String>) {
    (s.status, s.courier.clone(), s.window, s.comment.clone())
}

#[test]
fn expiration_threshold_is_exact() {
    // Over exactly when now reaches fixation + duration.
    assert!(!is_time_over(10, 5, 14));
    assert!(is_time_over(10, 5, 15));
    assert!(is_time_over(10, 5, 16));
    // Zero-length windows are over at once.
    assert!(is_time_over(0, 0, 0));
    assert!(is_time_over(7, 0, 7));
    // No overflow at the top of the range: the deadline lies beyond any
    // representable instant.
    assert!(!is_time_over(u64::MAX, u64::MAX, u64::MAX));
}

#[test]
fn owner_policy_table() {
    let both_failed = Some((RefundReceiver::Both, AfterRefund::SetFailed));
    let owner_failed = Some((RefundReceiver::Owner, AfterRefund::SetFailed));
    let owner_closed = Some((RefundReceiver::Owner, AfterRefund::SetClosed));

    assert_eq!(owner_can_cancel(Status::WaitCourierInDepartment, false), None);
    assert_eq!(owner_can_cancel(Status::WaitCourierInDepartment, true), both_failed);
    assert_eq!(owner_can_cancel(Status::WaitSenderDetails, false), None);
    assert_eq!(owner_can_cancel(Status::WaitSenderDetails, true), both_failed);
    // No collateral posted yet: allowed at once, elapsed or not.
    assert_eq!(owner_can_cancel(Status::WaitDepositByCourier, false), owner_failed);
    assert_eq!(owner_can_cancel(Status::WaitDepositByCourier, true), owner_failed);
    assert_eq!(owner_can_cancel(Status::InProgress, false), None);
    assert_eq!(owner_can_cancel(Status::InProgress, true), owner_failed);
    // Before any courier: allowed at once.
    assert_eq!(owner_can_cancel(Status::WaitPaymentBySender, false), owner_closed);
    assert_eq!(owner_can_cancel(Status::WaitForCourier, false), owner_closed);
    assert_eq!(owner_can_cancel(Status::Delivered, true), None);
    assert_eq!(owner_can_cancel(Status::Failed, true), None);
    assert_eq!(owner_can_cancel(Status::Closed, true), None);
}

#[test]
fn courier_policy_table() {
    let courier_over = Some((RefundReceiver::Courier, AfterRefund::StartOver));
    let noone_over = Some((RefundReceiver::NoOne, AfterRefund::StartOver));
    let owner_failed = Some((RefundReceiver::Owner, AfterRefund::SetFailed));

    // The courier may give up before pickup without waiting.
    assert_eq!(courier_can_cancel(Status::WaitCourierInDepartment, false), courier_over);
    assert_eq!(courier_can_cancel(Status::WaitCourierInDepartment, true), courier_over);
    assert_eq!(courier_can_cancel(Status::WaitSenderDetails, false), None);
    assert_eq!(courier_can_cancel(Status::WaitSenderDetails, true), courier_over);
    assert_eq!(courier_can_cancel(Status::WaitDepositByCourier, false), noone_over);
    assert_eq!(courier_can_cancel(Status::InProgress, false), None);
    assert_eq!(courier_can_cancel(Status::InProgress, true), owner_failed);
    assert_eq!(courier_can_cancel(Status::WaitPaymentBySender, true), None);
    assert_eq!(courier_can_cancel(Status::WaitForCourier, true), None);
    assert_eq!(courier_can_cancel(Status::Delivered, true), None);
}

#[test]
fn scenario_owner_cancels_before_deposit() {
    // Status WaitDepositByCourier, the owner cancels: immediate refund of
    // the whole held balance to the owner, status Failed, no wait required.
    let mut s = state_at(Status::WaitDepositByCourier, Some("bob"), Some((1000, 7200)));
    // Well before the window elapses.
    let r = execute(&mut s, &call("alice", 1001, 100), ExecuteMsg::CancelDelivery {}).unwrap();
    match r {
        ExecOutcome::Acted(reqs) => {
            assert_eq!(reqs.len(), 1);
            assert_eq!(reqs[0].kind, TransferKind::FromContract);
            assert_eq!(reqs[0].party, "alice");
            assert_eq!(reqs[0].amount, 100);
        }
        other => panic!("expected refund requests, got {:?}", other),
    }
    assert_eq!(s.status, Status::Failed);
    assert_eq!(s.window, None);
}

#[test]
fn scenario_courier_cancels_before_pickup() {
    // Status WaitCourierInDepartment, the courier cancels before the window
    // elapses: allowed at once, deposit back to the courier, the order
    // reopens for couriers and the courier field clears.
    let mut s = state_at(Status::WaitCourierInDepartment, Some("bob"), Some((1000, 86400)));
    let r = execute(&mut s, &call("bob", 1001, 140), ExecuteMsg::CancelDelivery {}).unwrap();
    match r {
        ExecOutcome::Acted(reqs) => {
            assert_eq!(reqs.len(), 1);
            assert_eq!(reqs[0].kind, TransferKind::FromContract);
            assert_eq!(reqs[0].party, "bob");
            assert_eq!(reqs[0].amount, 40);
        }
        other => panic!("expected refund requests, got {:?}", other),
    }
    assert_eq!(s.status, Status::WaitForCourier);
    assert_eq!(s.courier, None);
    assert_eq!(s.window, None);
}

#[test]
fn courier_cancel_before_deposit_refunds_noone() {
    let mut s = state_at(Status::WaitDepositByCourier, Some("bob"), Some((1000, 7200)));
    let r = universal_cancel_delivery_and_payback(&mut s, &"bob".to_string(), 1001, 100).unwrap();
    let reqs = r.expect("cancellation is allowed at once");
    assert!(reqs.is_empty());
    assert_eq!(s.status, Status::WaitForCourier);
    assert_eq!(s.courier, None);
}

#[test]
fn refused_cancellation_is_a_noop() {
    // Owner in WaitSenderDetails before the window elapses: a negative
    // answer, not an error, and no storage write.
    let mut s = state_at(Status::WaitSenderDetails, Some("bob"), Some((1000, 7200)));
    let before = snapshot(&s);
    let r = execute(&mut s, &call("alice", 1001, 140), ExecuteMsg::CancelDelivery {}).unwrap();
    assert!(matches!(r, ExecOutcome::Refused));
    assert_eq!(snapshot(&s), before);

    // Retrying after the window elapsed succeeds.
    let r2 = execute(&mut s, &call("alice", 8200, 140), ExecuteMsg::CancelDelivery {}).unwrap();
    assert!(matches!(r2, ExecOutcome::Acted(_)));
    assert_eq!(s.status, Status::Failed);
}

#[test]
fn both_refund_conserves_balance() {
    // Owner cancels after the pickup window elapsed: the courier gets the
    // deposit back and the owner the exact remainder of the held balance.
    let mut s = state_at(Status::WaitCourierInDepartment, Some("bob"), Some((1000, 86400)));
    let r = universal_cancel_delivery_and_payback(&mut s, &"alice".to_string(), 90000, 150).unwrap();
    let reqs = r.expect("cancellation is allowed after expiration");
    assert_eq!(reqs.len(), 2);
    assert_eq!(reqs[0].party, "alice");
    assert_eq!(reqs[0].amount, 110);
    assert_eq!(reqs[1].party, "bob");
    assert_eq!(reqs[1].amount, 40);
    assert_eq!(reqs[0].amount + reqs[1].amount, 150);
    assert_eq!(s.status, Status::Failed);
}

#[test]
fn start_over_round_trip_clears_details() {
    // Set the exact details, then cancel with a start-over outcome: the
    // exact locations, the comment and the courier all return to their
    // absent defaults.
    let mut s = state_at(Status::WaitSenderDetails, Some("bob"), Some((2000, 7200)));
    let msg = ExecuteMsg::SetDetails {
        location: DetailsLocationInfo { from: "exact-a".to_string(), to: "exact-b".to_string() },
        comment: "ring twice".to_string(),
    };
    execute(&mut s, &call("alice", 2500, 140), msg).unwrap();
    assert_eq!(s.status, Status::WaitCourierInDepartment);

    // The courier backs out before pickup: a start-over cancellation.
    execute(&mut s, &call("bob", 2600, 140), ExecuteMsg::CancelDelivery {}).unwrap();
    assert_eq!(s.status, Status::WaitForCourier);
    assert_eq!(s.courier, None);
    assert_eq!(s.exact_from_location, None);
    assert_eq!(s.exact_to_location, None);
    assert_eq!(s.comment, None);
    assert_eq!(s.window, None);

    // The projections render the cleared fields as empty strings.
    assert_eq!(query_get_courier(&s), "");
    let locations = query_get_locations(&s);
    assert_eq!(locations.exact.from, "");
    assert_eq!(locations.exact.to, "");
    assert_eq!(locations.comment, "");
    assert_eq!(locations.rough.from, "9q8y");
    assert_eq!(locations.rough.to, "9q9p");
}

#[test]
fn stranger_cannot_cancel() {
    let mut s = state_at(Status::WaitDepositByCourier, Some("bob"), Some((1000, 7200)));
    let r = execute(&mut s, &call("mallory", 1001, 100), ExecuteMsg::CancelDelivery {});
    assert_eq!(r.unwrap_err(), ContractError::OwnerOrCourierExpected);
    assert_eq!(s.status, Status::WaitDepositByCourier);
}

#[test]
fn wrong_status_rejects_action_and_stores_nothing() {
    // Every action demanded from the wrong lifecycle status fails with a
    // state error naming the current and the required status.
    let cases: Vec<(ExecuteMsg, Status)> = vec![
        (ExecuteMsg::MakePayForShipping {}, Status::WaitPaymentBySender),
        (ExecuteMsg::AcceptApplication {}, Status::WaitForCourier),
        (ExecuteMsg::MakeDepositForShipping {}, Status::WaitDepositByCourier),
        (
            ExecuteMsg::SetDetails {
                location: DetailsLocationInfo { from: "a".to_string(), to: "b".to_string() },
                comment: "c".to_string(),
            },
            Status::WaitSenderDetails,
        ),
        (ExecuteMsg::ParcelIssued {}, Status::WaitCourierInDepartment),
        (ExecuteMsg::ConfirmDelivery { sign: "00".to_string() }, Status::InProgress),
    ];
    for (msg, required) in cases {
        // Delivered demands none of these actions, so each must fail.
        let mut s = state_at(Status::Delivered, Some("bob"), None);
        let before = snapshot(&s);
        let r = execute(&mut s, &call("alice", 0, 1000), msg);
        assert_eq!(
            r.unwrap_err(),
            ContractError::UnexpectedStatus(Status::Delivered, required)
        );
        assert_eq!(snapshot(&s), before);
    }
}

#[test]
fn wrong_caller_is_rejected() {
    let mut s = fresh_state();
    let r = execute(&mut s, &call("mallory", 0, 0), ExecuteMsg::MakePayForShipping {});
    assert_eq!(r.unwrap_err(), ContractError::OwnerExpected);

    let mut s2 = state_at(Status::WaitDepositByCourier, Some("bob"), Some((0, 7200)));
    let r2 = execute(&mut s2, &call("mallory", 0, 0), ExecuteMsg::MakeDepositForShipping {});
    assert_eq!(r2.unwrap_err(), ContractError::CourierExpected);
}
