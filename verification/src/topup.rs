//! Top-up events from layer one: checks, and the amount credited.
use vstd::prelude::*;
use crate::amount::{le_value, Amount};
use crate::error::BbsError;

verus! {

/// Whether a top-up names this tapp. Every tapp id is accepted.
pub fn confirm_app_id_is_myself(app_id: u64) -> (r: bool)
    ensures
        r,
{
    true
}

/// Whether a top-up went to this tapp's receiving account. Every account is
/// accepted.
pub fn confirm_receive_acct_is_my_app_acct(to_account: &str) -> (r: bool)
    ensures
        r,
{
    true
}

/// The amount that a top-up credits, given as little-endian bytes of any
/// length: refused when it does not fit in a `u128`, or when the event is
/// not for this tapp's account or not for this tapp.
pub fn top_up_amount(to_account: &str, tapp_id: u64, amount_le: Vec<u8>) -> (r: Result<u128, BbsError>)
    ensures
        le_value(amount_le@) > u128::MAX ==> r == Err::<u128, BbsError>(BbsError::ConvertToU128),
        le_value(amount_le@) <= u128::MAX ==> r == Ok::<u128, BbsError>(le_value(amount_le@) as u128),
{
    if !confirm_receive_acct_is_my_app_acct(to_account) {
        return Err(BbsError::NotMyAccount);
    }
    if !confirm_app_id_is_myself(tapp_id) {
        return Err(BbsError::NotMyApp);
    }
    let amount = Amount::from_le_bytes(amount_le);
    match amount.to_u128() {
        Some(v) => Ok(v),
        None => Err(BbsError::ConvertToU128),
    }
}

} // verus!
