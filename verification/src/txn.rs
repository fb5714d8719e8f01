//! Transactions of the tea party contract, and what executing one asks of the
//! state machine.
use vstd::prelude::*;
use vstd::string::*;
use crate::bytes::le_u128;
use crate::codec::{base64_decoded, decode_auth_key};
use crate::types::TappProfileRequest;

verus! {

/// An account: a thirty-two byte public key.
pub type Account = [u8; 32];

/// Name of the actor that handles these transactions.
pub const HANDLED_BY_ACTOR_NAME: &'static str = "TeapartyTxn";

/// Fee taken for a message that lives more than this many blocks.
pub const LONG_TTL_THRESHOLD: u64 = 5000;
/// Fee, in the smallest unit, for a long-lived message.
pub const LONG_TTL_FEE: u128 = 2000000000000;
/// Fee, in the smallest unit, for any other message.
pub const SHORT_TTL_FEE: u128 = 1000000000000;

/// Why a transaction could not be executed.
#[derive(Debug, Clone, PartialEq, Eq)]
pub enum TeapartyTxnError {
    ErrorMessage(String),
    Unknown,
    ParseFailed(String),
}

/// A transaction of the tea party contract.
#[derive(Debug, Clone, PartialEq, Eq)]
pub enum TeapartyTxn {
    PostMessage { token_id: u64, from: Account, ttl: u64, auth_b64: String },
    ExtendMessage { token_id: u64, from: Account, ttl: u64, auth_b64: String },
    DeleteMessage { token_id: u64, from: Account, auth_b64: String, is_tapp_owner: bool },
    UpdateProfile { acct: Account, token_id: u64, auth_b64: String, post_message_fee: u128 },
    AddNotificationMessage {
        token_id: u64,
        from: Account,
        to: Account,
        auth_b64: String,
        current: u32,
        ttl: u32,
    },
}

impl TeapartyTxn {
    /// Name of the actor that handles these transactions.
    pub fn get_handler_actor() -> (r: String)
        ensures
            r@ == HANDLED_BY_ACTOR_NAME@,
    {
        String::from_str(HANDLED_BY_ACTOR_NAME)
    }
}

/// What the state machine is asked to do for a transaction.
#[derive(Debug, Clone, PartialEq, Eq)]
pub enum TxnExecPlan {
    /// Take `amount` from account `from` of token `token_id`, authorized by
    /// `auth_key`.
    ConsumeFromAccount { token_id: u64, from: Account, amount: u128, auth_key: u128 },
    /// Update a tapp profile, authorized by `auth_key`.
    UpdateProfile { auth_key: u128 },
}

/// Fee for posting a message that lives `ttl` blocks.
pub open spec fn spec_post_message_fee(ttl: u64) -> u128 {
    if ttl > LONG_TTL_THRESHOLD {
        LONG_TTL_FEE
    } else {
        SHORT_TTL_FEE
    }
}

/// Fee for posting a message that lives `ttl` blocks: two tea above 5000
/// blocks, one tea otherwise.
pub fn post_message_fee(ttl: u64) -> (r: u128)
    ensures
        r == spec_post_message_fee(ttl),
{
    if ttl > LONG_TTL_THRESHOLD {
        LONG_TTL_FEE
    } else {
        SHORT_TTL_FEE
    }
}

/// Text of the error for transactions that this actor does not execute.
pub const UNHANDLED_TXN: &'static str = "Unhandled txn OP type";
/// Text of the error for an authorization key that cannot be read.
pub const BAD_AUTH_KEY: &'static str = "invalid auth key";

/// The authorization key of a transaction, or the error for it.
pub open spec fn spec_auth_key(auth_b64: Seq<char>) -> Option<u128> {
    match base64_decoded(auth_b64) {
        Some(b) => if b.len() >= 16 { Some(le_u128(b) as u128) } else { None },
        None => None,
    }
}

/// What executing a transaction asks of the state machine: a posted message
/// consumes its fee from the poster's account, a profile update only needs
/// its authorization, any other transaction is refused. An authorization key
/// that cannot be read refuses the transaction.
pub fn plan_txn_exec(txn: &TeapartyTxn) -> (r: Result<TxnExecPlan, TeapartyTxnError>)
    ensures
        match *txn {
            TeapartyTxn::PostMessage { token_id, from, ttl, auth_b64 } => match spec_auth_key(auth_b64@) {
                Some(k) => r == Ok::<TxnExecPlan, TeapartyTxnError>(TxnExecPlan::ConsumeFromAccount {
                    token_id,
                    from,
                    amount: spec_post_message_fee(ttl),
                    auth_key: k,
                }),
                None => r matches Err(TeapartyTxnError::ParseFailed(m)) && m@ == BAD_AUTH_KEY@,
            },
            TeapartyTxn::UpdateProfile { auth_b64, .. } => match spec_auth_key(auth_b64@) {
                Some(k) => r == Ok::<TxnExecPlan, TeapartyTxnError>(TxnExecPlan::UpdateProfile { auth_key: k }),
                None => r matches Err(TeapartyTxnError::ParseFailed(m)) && m@ == BAD_AUTH_KEY@,
            },
            _ => r matches Err(TeapartyTxnError::ErrorMessage(m)) && m@ == UNHANDLED_TXN@,
        },
{
    match txn {
        TeapartyTxn::PostMessage { token_id, from, ttl, auth_b64 } => {
            let amount = post_message_fee(*ttl);
            match decode_auth_key(auth_b64.as_str()) {
                Some(k) => Ok(TxnExecPlan::ConsumeFromAccount { token_id: *token_id, from: *from, amount, auth_key: k }),
                None => Err(TeapartyTxnError::ParseFailed(String::from_str(BAD_AUTH_KEY))),
            }
        },
        TeapartyTxn::UpdateProfile { auth_b64, .. } => {
            match decode_auth_key(auth_b64.as_str()) {
                Some(k) => Ok(TxnExecPlan::UpdateProfile { auth_key: k }),
                None => Err(TeapartyTxnError::ParseFailed(String::from_str(BAD_AUTH_KEY))),
            }
        },
        _ => Err(TeapartyTxnError::ErrorMessage(String::from_str(UNHANDLED_TXN))),
    }
}

/// Transaction that sets the message fee of a tapp's profile, for account
/// `acct`.
pub fn update_profile_txn(req: &TappProfileRequest, acct: Account) -> (r: TeapartyTxn)
    ensures
        r matches TeapartyTxn::UpdateProfile { acct: a, token_id, auth_b64, post_message_fee }
            && a == acct && token_id == req.tapp_id && auth_b64@ == req.auth_b64@
            && post_message_fee == req.post_message_fee,
{
    TeapartyTxn::UpdateProfile {
        acct,
        token_id: req.tapp_id,
        auth_b64: req.auth_b64.clone(),
        post_message_fee: req.post_message_fee,
    }
}

/// A posted message that lives more than 5000 blocks pays two tea
/// (2000000000000 in the smallest unit), any other pays one tea; so the fee
/// never falls as the lifetime grows.
pub proof fn law_post_message_fee(ttl: u64, longer: u64)
    ensures
        ttl > 5000 ==> spec_post_message_fee(ttl) == 2000000000000u128,
        ttl <= 5000 ==> spec_post_message_fee(ttl) == 1000000000000u128,
        ttl <= longer ==> spec_post_message_fee(ttl) <= spec_post_message_fee(longer),
{
}

} // verus!
