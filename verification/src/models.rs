use vstd::prelude::*;

verus! {

/// Who receives a refund when a cancellation is granted.
#[derive(Clone, Copy, Debug, PartialEq, Eq, Structural)]
pub enum RefundReceiver {
    /// The courier gets its deposit back.
    Courier,
    /// Nobody is refunded.
    NoOne,
    /// The owner gets the whole contract balance.
    Owner,
    /// The courier gets the deposit back, the owner the remainder.
    Both,
}

/// What happens to the stored state once a cancellation is granted.
#[derive(Clone, Copy, Debug, PartialEq, Eq, Structural)]
pub enum AfterRefund {
    SetFailed,
    SetClosed,
    StartOver,
}

/// The delivery lifecycle. The main path runs from `WaitPaymentBySender`
/// to `Delivered`; `Failed` and `Closed` are terminal states reached
/// through cancellation.
#[derive(Clone, Copy, Debug, PartialEq, Eq, Structural)]
pub enum Status {
    /// Waiting for the shipping payment from the sender.
    WaitPaymentBySender,
    /// Payment received; couriers may now apply for the order.
    WaitForCourier,
    /// A courier was accepted; waiting for its collateral deposit.
    WaitDepositByCourier,
    /// Waiting for the sender to provide the exact locations and a comment.
    WaitSenderDetails,
    /// Waiting for the courier to pick the parcel up at the department.
    WaitCourierInDepartment,
    /// The courier is on its way to the recipient.
    InProgress,
    /// The parcel was delivered and the courier was paid out.
    Delivered,
    /// The delivery fell through; funds were returned.
    Failed,
    /// The order was closed by the sender before a courier took it.
    Closed,
}

impl Status {
    /// Status gate: every action handler first asserts that the current
    /// status equals the one the action requires.
    pub fn expected(&self, expected: Self) -> (r: Result<bool, crate::error::ContractError>)
        ensures
            *self == expected ==> r == Ok::<bool, crate::error::ContractError>(true),
            *self != expected ==> r == Err::<bool, crate::error::ContractError>(
                crate::error::ContractError::UnexpectedStatus(*self, expected),
            ),
    {
        let current = *self;
        if current != expected {
            Err(crate::error::ContractError::UnexpectedStatus(current, expected))
        } else {
            Ok(true)
        }
    }
}

/// Default deposit window: the courier has two hours to post collateral.
pub fn courier_deposit_time() -> (t: u64)
    ensures
        t == 7200,
{
    2 * 3600
}

/// Default details window: the sender has two hours to provide details.
pub fn set_details_time() -> (t: u64)
    ensures
        t == 7200,
{
    2 * 3600
}

/// Default in-department window: one day for the courier to pick up.
pub fn wait_courier_in_department_time() -> (t: u64)
    ensures
        t == 86400,
{
    24 * 3600
}

/// Default delivery window: seven days to deliver the parcel.
pub fn wait_delivery_time() -> (t: u64)
    ensures
        t == 604800,
{
    24 * 7 * 3600
}

/// The four configurable durations (in seconds), one per deadline-bearing
/// status, fixed at contract creation.
#[derive(Clone, Copy, Debug, PartialEq, Eq, Structural)]
pub struct ExpirationTimes {
    pub for_make_deposit: u64,
    pub for_set_details: u64,
    pub for_wait_courier_in_department: u64,
    pub for_wait_delivery: u64,
}

pub open spec fn default_expiration_times() -> ExpirationTimes {
    ExpirationTimes {
        for_make_deposit: 7200,
        for_set_details: 7200,
        for_wait_courier_in_department: 86400,
        for_wait_delivery: 604800,
    }
}

impl Default for ExpirationTimes {
    fn default() -> (r: Self)
        ensures
            r == default_expiration_times(),
    {
        Self {
            for_wait_courier_in_department: wait_courier_in_department_time(),
            for_make_deposit: courier_deposit_time(),
            for_wait_delivery: wait_delivery_time(),
            for_set_details: set_details_time(),
        }
    }
}

/// A running deadline: the instant (in seconds) at which it was fixed and
/// the number of seconds the pending party is given.
#[derive(Clone, Copy, Debug, PartialEq, Eq, Structural)]
pub struct ExpirationWindow {
    pub fixation: u64,
    pub duration: u64,
}

/// Whether a status carries a deadline. Exactly these four statuses keep
/// an expiration window while they last.
pub open spec fn has_deadline(status: Status) -> bool {
    match status {
        Status::WaitDepositByCourier => true,
        Status::WaitSenderDetails => true,
        Status::WaitCourierInDepartment => true,
        Status::InProgress => true,
        _ => false,
    }
}

/// The window that entering `status` at instant `now` starts, or `None`
/// for the statuses without a deadline.
pub open spec fn window_for(times: ExpirationTimes, status: Status, now: u64) -> Option<ExpirationWindow> {
    match status {
        Status::WaitDepositByCourier => Some(
            ExpirationWindow { fixation: now, duration: times.for_make_deposit },
        ),
        Status::WaitSenderDetails => Some(
            ExpirationWindow { fixation: now, duration: times.for_set_details },
        ),
        Status::WaitCourierInDepartment => Some(
            ExpirationWindow { fixation: now, duration: times.for_wait_courier_in_department },
        ),
        Status::InProgress => Some(
            ExpirationWindow { fixation: now, duration: times.for_wait_delivery },
        ),
        _ => None,
    }
}

impl ExpirationTimes {
    /// Starts the deadline that `status` calls for, fixed at `now`, and
    /// clears the deadline for the statuses without one.
    pub fn set_expiration_by_status(&self, status: Status, now: u64) -> (w: Option<ExpirationWindow>)
        ensures
            w == window_for(*self, status, now),
            w is Some <==> has_deadline(status),
    {
        match status {
            Status::WaitCourierInDepartment => Some(
                ExpirationWindow { fixation: now, duration: self.for_wait_courier_in_department },
            ),
            Status::WaitSenderDetails => Some(
                ExpirationWindow { fixation: now, duration: self.for_set_details },
            ),
            Status::WaitDepositByCourier => Some(
                ExpirationWindow { fixation: now, duration: self.for_make_deposit },
            ),
            Status::InProgress => Some(
                ExpirationWindow { fixation: now, duration: self.for_wait_delivery },
            ),
            _ => None,
        }
    }
}

/// Direction of a requested token transfer.
#[derive(Clone, Copy, Debug, PartialEq, Eq, Structural)]
pub enum TransferKind {
    /// Pull funds from `party` into the contract.
    ToContract,
    /// Push funds from the contract to `party`.
    FromContract,
}

/// One outbound transfer request for the external asset ledger, tagged with
/// the continuation id whose confirmation callback commits the follow-up
/// state change.
#[derive(Clone, Debug, PartialEq, Eq)]
pub struct TransferRequest {
    pub kind: TransferKind,
    /// The payer (for `ToContract`) or the receiver (for `FromContract`).
    pub party: String,
    /// Amount in the token's smallest unit.
    pub amount: u128,
    /// Continuation id carried back by the confirmation callback.
    pub reply_id: u64,
}

} // verus!
