use vstd::prelude::*;

use crate::error::ContractError;
use crate::models::{AfterRefund, RefundReceiver, Status, TransferKind, TransferRequest};
use crate::state::ContractState;

use hex::FromHex;
use sha2::Digest;

verus! {

// --- hex encoding ---------------------------------------------------------

/// A hexadecimal digit: `0-9`, `a-f` or `A-F`.
pub open spec fn is_hex_digit(c: char) -> bool {
    ||| '0' as u32 <= c as u32 <= '9' as u32
    ||| 'a' as u32 <= c as u32 <= 'f' as u32
    ||| 'A' as u32 <= c as u32 <= 'F' as u32
}

/// The value of one hexadecimal digit.
pub open spec fn hex_digit_value(c: char) -> int {
    if '0' as u32 <= c as u32 <= '9' as u32 {
        c as u32 - '0' as u32
    } else if 'a' as u32 <= c as u32 <= 'f' as u32 {
        c as u32 - 'a' as u32 + 10
    } else {
        c as u32 - 'A' as u32 + 10
    }
}

/// A well-formed hex encoding: an even number of hex digits.
pub open spec fn is_hex_string(s: Seq<char>) -> bool {
    &&& s.len() % 2 == 0
    &&& forall|i: int| 0 <= i < s.len() ==> is_hex_digit(#[trigger] s[i])
}

/// The bytes a well-formed hex encoding stands for: two digits per byte,
/// high digit first.
pub open spec fn hex_decoded(s: Seq<char>) -> Seq<u8> {
    Seq::new(s.len() / 2, |i: int| (hex_digit_value(s[2 * i]) * 16 + hex_digit_value(s[2 * i + 1])) as u8)
}

/// Relies on `hex::FromHex` for `Vec<u8>`: it accepts exactly the strings of
/// an even number of hex digits and decodes two digits into one byte, high
/// digit first.
#[verifier::external_body]
pub(crate) fn hex_decode(s: &str) -> (r: Result<Vec<u8>, ()>)
    ensures
        r is Ok <==> is_hex_string(s@),
        r matches Ok(b) ==> b@ == hex_decoded(s@),
{
    match <Vec<u8>>::from_hex(s) {
        Ok(b) => Ok(b),
        Err(_) => Err(()),
    }
}

// --- message digest -------------------------------------------------------

/// The SHA-256 digest of a message's UTF-8 bytes.
pub uninterp spec fn sha256_of(s: Seq<char>) -> Seq<u8>;

/// Relies on `sha2::Sha256`: the 32-byte digest depends on the message
/// alone.
#[verifier::external_body]
pub(crate) fn sha256_of_message(s: &str) -> (r: Vec<u8>)
    ensures
        r@ == sha256_of(s@),
        r@.len() == 32,
{
    let mut digest = sha2::Sha256::new();
    digest.update(s.as_bytes());
    digest.finalize().to_vec()
}

// --- expiration -----------------------------------------------------------

/// A window fixed at `fixation` for `duration` seconds is over once `now`
/// reaches `fixation + duration`.
pub open spec fn time_over(fixation: u64, duration: u64, now: u64) -> bool {
    now >= fixation + duration
}

/// Expiration check: false while `now < fixation + duration`, true once
/// `now >= fixation + duration`.
pub fn is_time_over(fixation: u64, duration: u64, now: u64) -> (r: bool)
    ensures
        r == time_over(fixation, duration, now),
{
    (now as u128) >= (fixation as u128) + (duration as u128)
}

/// Law: expiration is monotone in the clock. A window that is over stays
/// over at every later instant.
pub proof fn lemma_time_over_monotonic(fixation: u64, duration: u64, earlier: u64, later: u64)
    requires
        earlier <= later,
        time_over(fixation, duration, earlier),
    ensures
        time_over(fixation, duration, later),
{
}

/// Whether the running deadline of `state`, if any, has elapsed at `now`.
/// A state without a deadline counts as elapsed, as an absent window reads
/// as one fixed at zero for zero seconds.
pub open spec fn window_elapsed(state: ContractState, now: u64) -> bool {
    match state.window {
        Some(w) => time_over(w.fixation, w.duration, now),
        None => true,
    }
}

/// The two amounts fixed at creation: the delivery fee and the courier's
/// deposit.
pub fn get_payments_info(state: &ContractState) -> (r: (u128, u128))
    ensures
        r == (state.payment_amount, state.deposit_amount),
{
    (state.payment_amount, state.deposit_amount)
}

// --- roles ----------------------------------------------------------------

/// The recorded owner.
pub fn get_owner(state: &ContractState) -> (r: String)
    ensures
        r == state.owner,
{
    state.owner.clone()
}

/// Owner guard: the caller must be the recorded owner.
pub fn check_is_owner(state: &ContractState, sender: &String) -> (r: Result<String, ContractError>)
    ensures
        sender@ == state.owner@ ==> (r matches Ok(o) && o == state.owner),
        sender@ != state.owner@ ==> r == Err::<String, ContractError>(ContractError::OwnerExpected),
{
    let owner = get_owner(state);
    if !owner.eq(sender) {
        Err(ContractError::OwnerExpected)
    } else {
        Ok(owner)
    }
}

/// The recorded courier, or a distinct rejection while none has applied.
pub fn get_courier(state: &ContractState) -> (r: Result<String, ContractError>)
    ensures
        state.courier matches Some(c) ==> (r matches Ok(rc) && rc == c),
        state.courier is None ==> r == Err::<String, ContractError>(ContractError::CourierNotApplyYet),
{
    match &state.courier {
        Some(c) => Ok(c.clone()),
        None => Err(ContractError::CourierNotApplyYet),
    }
}

/// Courier guard: a courier must be recorded and the caller must be it.
pub fn check_is_courier(state: &ContractState, sender: &String) -> (r: Result<String, ContractError>)
    ensures
        (match state.courier {
            Some(c) => if sender@ == c@ {
                r matches Ok(rc) && rc == c
            } else {
                r == Err::<String, ContractError>(ContractError::CourierExpected)
            },
            None => r == Err::<String, ContractError>(ContractError::CourierNotApplyYet),
        }),
{
    let courier = get_courier(state)?;
    if !sender.eq(&courier) {
        Err(ContractError::CourierExpected)
    } else {
        Ok(courier)
    }
}

// --- cancellation policy --------------------------------------------------

/// The owner's per-state cancellation table. Before a courier is found the
/// owner may close the order at once; once one is involved the owner must
/// wait the running window out, except in `WaitDepositByCourier`, where no
/// collateral is at stake yet.
pub open spec fn owner_cancel_policy(status: Status, over: bool) -> Option<(RefundReceiver, AfterRefund)> {
    match status {
        Status::WaitCourierInDepartment => if over {
            Some((RefundReceiver::Both, AfterRefund::SetFailed))
        } else {
            None
        },
        Status::WaitSenderDetails => if over {
            Some((RefundReceiver::Both, AfterRefund::SetFailed))
        } else {
            None
        },
        Status::WaitDepositByCourier => Some((RefundReceiver::Owner, AfterRefund::SetFailed)),
        Status::InProgress => if over {
            Some((RefundReceiver::Owner, AfterRefund::SetFailed))
        } else {
            None
        },
        Status::WaitPaymentBySender => Some((RefundReceiver::Owner, AfterRefund::SetClosed)),
        Status::WaitForCourier => Some((RefundReceiver::Owner, AfterRefund::SetClosed)),
        _ => None,
    }
}

/// Decides whether the owner may cancel now, given the current status and
/// the elapsed-time fact, and what refund and follow-up state result.
pub fn owner_can_cancel(status: Status, over: bool) -> (r: Option<(RefundReceiver, AfterRefund)>)
    ensures
        r == owner_cancel_policy(status, over),
{
    match status {
        // The courier never picked the parcel up in time: everything back,
        // the order failed.
        Status::WaitCourierInDepartment => if over {
            Some((RefundReceiver::Both, AfterRefund::SetFailed))
        } else {
            None
        },
        // The sender itself is late with the details; still only after the
        // window, and the courier keeps nothing.
        Status::WaitSenderDetails => if over {
            Some((RefundReceiver::Both, AfterRefund::SetFailed))
        } else {
            None
        },
        // No collateral was posted yet: the owner may pull out at once.
        Status::WaitDepositByCourier => Some((RefundReceiver::Owner, AfterRefund::SetFailed)),
        // Delivery ran out of time: payment and deposit go to the owner.
        Status::InProgress => if over {
            Some((RefundReceiver::Owner, AfterRefund::SetFailed))
        } else {
            None
        },
        // No courier was ever involved: close the order and take the funds
        // back at once.
        Status::WaitPaymentBySender => Some((RefundReceiver::Owner, AfterRefund::SetClosed)),
        Status::WaitForCourier => Some((RefundReceiver::Owner, AfterRefund::SetClosed)),
        _ => None,
    }
}

/// The courier's per-state cancellation table. The courier may step back at
/// once while it owes the next move (deposit, pickup) and must wait the
/// window out where the sender owes one.
pub open spec fn courier_cancel_policy(status: Status, over: bool) -> Option<(RefundReceiver, AfterRefund)> {
    match status {
        Status::WaitCourierInDepartment => Some((RefundReceiver::Courier, AfterRefund::StartOver)),
        Status::WaitSenderDetails => if over {
            Some((RefundReceiver::Courier, AfterRefund::StartOver))
        } else {
            None
        },
        Status::WaitDepositByCourier => Some((RefundReceiver::NoOne, AfterRefund::StartOver)),
        Status::InProgress => if over {
            Some((RefundReceiver::Owner, AfterRefund::SetFailed))
        } else {
            None
        },
        _ => None,
    }
}

/// Decides whether the courier may cancel now, given the current status and
/// the elapsed-time fact, and what refund and follow-up state result.
pub fn courier_can_cancel(status: Status, over: bool) -> (r: Option<(RefundReceiver, AfterRefund)>)
    ensures
        r == courier_cancel_policy(status, over),
{
    match status {
        // The courier gives the parcel up before pickup: deposit back, the
        // order reopens for couriers; no waiting required.
        Status::WaitCourierInDepartment => Some((RefundReceiver::Courier, AfterRefund::StartOver)),
        // The sender is late with the details: deposit back once the window
        // has elapsed, the order reopens.
        Status::WaitSenderDetails => if over {
            Some((RefundReceiver::Courier, AfterRefund::StartOver))
        } else {
            None
        },
        // Nothing was posted yet: the courier may step back at once and
        // nobody is refunded.
        Status::WaitDepositByCourier => Some((RefundReceiver::NoOne, AfterRefund::StartOver)),
        // Delivery ran out of time: the courier concedes, everything goes
        // to the owner.
        Status::InProgress => if over {
            Some((RefundReceiver::Owner, AfterRefund::SetFailed))
        } else {
            None
        },
        // In every other status the courier is not involved yet, or the
        // order is settled.
        _ => None,
    }
}

// --- transfer requests ----------------------------------------------------

/// A request pulling `amount` from the sender into the contract, tagged
/// with the continuation id the ledger will confirm under.
pub fn pay_to_contract_by_sender(sender: &String, amount: u128, reply_id: u64) -> (r: TransferRequest)
    ensures
        r == (TransferRequest {
            kind: TransferKind::ToContract,
            party: *sender,
            amount,
            reply_id,
        }),
{
    TransferRequest { kind: TransferKind::ToContract, party: sender.clone(), amount, reply_id }
}

/// A request paying `amount` out of the contract to `receiver`, tagged with
/// the continuation id the ledger will confirm under.
pub fn pay_from_contract(receiver: &String, amount: u128, reply_id: u64) -> (r: TransferRequest)
    ensures
        r == (TransferRequest {
            kind: TransferKind::FromContract,
            party: *receiver,
            amount,
            reply_id,
        }),
{
    TransferRequest { kind: TransferKind::FromContract, party: receiver.clone(), amount, reply_id }
}

// --- signature plumbing ---------------------------------------------------

/// Checks that a confirmation public key is a well-formed hex encoding and
/// hands it back for storage.
pub fn check_and_serialize_public_key(source: String) -> (r: Result<String, ContractError>)
    ensures
        is_hex_string(source@) ==> (r matches Ok(k) && k == source),
        !is_hex_string(source@) ==> r == Err::<String, ContractError>(ContractError::InvalidPublicKey),
{
    match hex_decode(source.as_str()) {
        Ok(_) => Ok(source),
        Err(_) => Err(ContractError::InvalidPublicKey),
    }
}

/// Everything the external signature verifier needs: the digest of the
/// contract's own address as the message, and the decoded signature and
/// public key. The host's secp256k1 check runs on these and its verdict is
/// handed back to `courier_confirm_delivery_payout`.
#[derive(Debug)]
pub struct SignatureCheckInputs {
    pub message_hash: Vec<u8>,
    pub signature: Vec<u8>,
    pub public_key: Vec<u8>,
}

/// Decodes a delivery-confirmation coupon for verification: hashes the
/// contract address into the fixed message and decodes the hex of the
/// signature and of the registered public key, each malformed encoding
/// reported as its own error.
pub fn check_courier_signature(
    contract_address: &String,
    raw_signature: &String,
    confirm_key: &String,
) -> (r: Result<SignatureCheckInputs, ContractError>)
    ensures
        !is_hex_string(raw_signature@) ==> (r matches Err(e) && e == ContractError::InvalidSignature),
        is_hex_string(raw_signature@) && !is_hex_string(confirm_key@) ==> (r matches Err(e) && e
            == ContractError::InvalidPublicKey),
        is_hex_string(raw_signature@) && is_hex_string(confirm_key@) ==> (r matches Ok(v)
            && v.message_hash@ == sha256_of(contract_address@)
            && v.signature@ == hex_decoded(raw_signature@)
            && v.public_key@ == hex_decoded(confirm_key@)),
{
    let message_hash = sha256_of_message(contract_address.as_str());

    let signature = match hex_decode(raw_signature.as_str()) {
        Ok(b) => b,
        Err(_) => {
            return Err(ContractError::InvalidSignature);
        },
    };

    let public_key = match hex_decode(confirm_key.as_str()) {
        Ok(b) => b,
        Err(_) => {
            return Err(ContractError::InvalidPublicKey);
        },
    };

    Ok(SignatureCheckInputs { message_hash, signature, public_key })
}

} // verus!
