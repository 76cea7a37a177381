use vstd::prelude::*;

use crate::models::Status;
use crate::state::{ContractState, TokenInfo};

verus! {

/// The two fixed amounts of the order.
#[derive(Clone, Copy, Debug, PartialEq, Eq, Structural)]
pub struct FundsInfoResponse {
    pub deposit: u128,
    pub payment: u128,
}

/// A from/to pair of locations.
#[derive(Clone, Debug, PartialEq)]
pub struct Direction {
    pub from: String,
    pub to: String,
}

/// The full location and comment bundle, with absent optional entries
/// rendered as empty strings.
#[derive(Clone, Debug, PartialEq)]
pub struct LocationsResponse {
    pub exact: Direction,
    pub rough: Direction,
    pub comment: String,
}

/// Current delivery status.
pub fn query_get_status(state: &ContractState) -> (r: Status)
    ensures
        r == state.status,
{
    state.status
}

/// The payment token's address and its recorded ledger metadata.
pub fn query_get_token_info(state: &ContractState) -> (r: (String, TokenInfo))
    ensures
        r.0 == state.token_address,
        r.1 == state.token_info,
{
    (state.token_address.clone(), state.token_info.clone())
}

/// The recorded courier's address, or the empty string while none has
/// applied.
pub fn query_get_courier(state: &ContractState) -> (r: String)
    ensures
        (match state.courier {
            Some(c) => r == c,
            None => r@ == Seq::<char>::empty(),
        }),
{
    match &state.courier {
        Some(c) => c.clone(),
        None => String::new(),
    }
}

/// The two fixed amounts.
pub fn query_get_funds(state: &ContractState) -> (r: FundsInfoResponse)
    ensures
        r.deposit == state.deposit_amount,
        r.payment == state.payment_amount,
{
    FundsInfoResponse { deposit: state.deposit_amount, payment: state.payment_amount }
}

/// The location and comment bundle: the rough areas always, the exact
/// points and the comment as empty strings while unset.
pub fn query_get_locations(state: &ContractState) -> (r: LocationsResponse)
    ensures
        r.rough.from == state.rough_from_location,
        r.rough.to == state.rough_to_location,
        (match state.exact_from_location {
            Some(s) => r.exact.from == s,
            None => r.exact.from@ == Seq::<char>::empty(),
        }),
        (match state.exact_to_location {
            Some(s) => r.exact.to == s,
            None => r.exact.to@ == Seq::<char>::empty(),
        }),
        (match state.comment {
            Some(s) => r.comment == s,
            None => r.comment@ == Seq::<char>::empty(),
        }),
{
    let exact_from = match &state.exact_from_location {
        Some(s) => s.clone(),
        None => String::new(),
    };
    let exact_to = match &state.exact_to_location {
        Some(s) => s.clone(),
        None => String::new(),
    };
    let comment = match &state.comment {
        Some(s) => s.clone(),
        None => String::new(),
    };

    LocationsResponse {
        comment,
        exact: Direction { from: exact_from, to: exact_to },
        rough: Direction {
            from: state.rough_from_location.clone(),
            to: state.rough_to_location.clone(),
        },
    }
}

} // verus!
