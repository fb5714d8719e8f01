//! What the actor answers when a query or a transaction it sent comes back.
use vstd::prelude::*;
use vstd::string::*;
use crate::bytes::{hex_bytes, hex_decode, hex_encode, hex_text, le_u128, u128_from_le_buffer};
use crate::types::QueryHashRequest;
use crate::codec::{base64_decoded, base64_encode, base64_encoded};
use crate::error::BbsError;
use crate::text::{decimal, u128_to_decimal};

verus! {

/// What to do once the transaction of a pending request has been executed,
/// by the request's action name.
#[derive(Debug, Clone, Copy, PartialEq, Eq)]
pub enum CallbackAction {
    /// Store the posted message.
    PostMessage,
    /// Move the message's expiry.
    ExtendMessage,
    /// Delete the message.
    DeleteMessage,
    /// Nothing more: the withdrawal is done.
    Withdraw,
    /// Store the notification.
    NotificationAddMessage,
    /// Ask the app store for the new session.
    LoginRequest,
    /// Nothing more.
    Other,
}

/// The callback of an action name.
pub open spec fn spec_callback_action(name: Seq<char>) -> CallbackAction {
    if name == "post_message"@ {
        CallbackAction::PostMessage
    } else if name == "extend_message"@ {
        CallbackAction::ExtendMessage
    } else if name == "delete_message"@ {
        CallbackAction::DeleteMessage
    } else if name == "withdraw"@ {
        CallbackAction::Withdraw
    } else if name == "notification_add_message"@ {
        CallbackAction::NotificationAddMessage
    } else if name == "login_request"@ {
        CallbackAction::LoginRequest
    } else {
        CallbackAction::Other
    }
}

/// The callback of an action name.
pub fn callback_action(name: &str) -> (r: CallbackAction)
    ensures
        r == spec_callback_action(name@),
{
    let n = String::from_str(name);
    if n == String::from_str("post_message") {
        CallbackAction::PostMessage
    } else if n == String::from_str("extend_message") {
        CallbackAction::ExtendMessage
    } else if n == String::from_str("delete_message") {
        CallbackAction::DeleteMessage
    } else if n == String::from_str("withdraw") {
        CallbackAction::Withdraw
    } else if n == String::from_str("notification_add_message") {
        CallbackAction::NotificationAddMessage
    } else if n == String::from_str("login_request") {
        CallbackAction::LoginRequest
    } else {
        CallbackAction::Other
    }
}

/// The callback of an action name as the state-machine workflow knows them:
/// it stores posted messages and notifications, finishes withdrawals and
/// logins, and does nothing more for any other action.
pub open spec fn spec_sm_callback_action(name: Seq<char>) -> CallbackAction {
    if name == "post_message"@ {
        CallbackAction::PostMessage
    } else if name == "withdraw"@ {
        CallbackAction::Withdraw
    } else if name == "notification_add_message"@ {
        CallbackAction::NotificationAddMessage
    } else if name == "login_request"@ {
        CallbackAction::LoginRequest
    } else {
        CallbackAction::Other
    }
}

/// The callback of an action name in the state-machine workflow.
pub fn sm_callback_action(name: &str) -> (r: CallbackAction)
    ensures
        r == spec_sm_callback_action(name@),
{
    let n = String::from_str(name);
    if n == String::from_str("post_message") {
        CallbackAction::PostMessage
    } else if n == String::from_str("withdraw") {
        CallbackAction::Withdraw
    } else if n == String::from_str("notification_add_message") {
        CallbackAction::NotificationAddMessage
    } else if n == String::from_str("login_request") {
        CallbackAction::LoginRequest
    } else {
        CallbackAction::Other
    }
}

/// Where a query about an executed transaction stands.
#[derive(Debug, Clone, Copy, PartialEq, Eq)]
pub enum TxnStatus {
    /// The transaction was found executed: run its callback.
    Executed,
    /// The query succeeded but the transaction is not executed yet.
    Wait,
    /// The query failed; its error message is the answer.
    Failed,
}

/// Where a query about an executed transaction stands.
pub fn executed_txn_status(success: bool, has_executed_txn: bool) -> (r: TxnStatus)
    ensures
        r == (if !success {
            TxnStatus::Failed
        } else if has_executed_txn {
            TxnStatus::Executed
        } else {
            TxnStatus::Wait
        }),
{
    if success {
        if has_executed_txn {
            TxnStatus::Executed
        } else {
            TxnStatus::Wait
        }
    } else {
        TxnStatus::Failed
    }
}

/// A balance as the app store reports it.
#[derive(Debug, Clone, PartialEq, Eq)]
pub struct BalanceReply {
    pub balance: String,
    pub ts: String,
    pub uuid: String,
}

/// A follow-up as the state receiver reports it.
#[derive(Debug, Clone, PartialEq, Eq)]
pub struct FollowupReply {
    pub ts: String,
    pub hash: String,
    pub sender: String,
    pub uuid: String,
}

/// The answer to a balance query: balance and time stamp in decimal, each
/// read from the first sixteen bytes of its buffer; refused when a buffer is
/// shorter.
pub fn balance_reply(balance: &[u8], ts: &[u8], uuid: &str) -> (r: Result<BalanceReply, BbsError>)
    ensures
        (balance@.len() < 16 || ts@.len() < 16) ==> r == Err::<BalanceReply, BbsError>(BbsError::U128TooShort),
        (balance@.len() >= 16 && ts@.len() >= 16) ==> (r matches Ok(v)
            && v.balance@ == decimal(le_u128(balance@))
            && v.ts@ == decimal(le_u128(ts@))
            && v.uuid@ == uuid@),
{
    let b = match u128_from_le_buffer(balance) {
        Ok(v) => v,
        Err(e) => return Err(e),
    };
    let t = match u128_from_le_buffer(ts) {
        Ok(v) => v,
        Err(e) => return Err(e),
    };
    Ok(BalanceReply { balance: u128_to_decimal(b), ts: u128_to_decimal(t), uuid: String::from_str(uuid) })
}

/// The answer to a follow-up: its time stamp in decimal, read from the first
/// sixteen bytes of its buffer (refused when shorter), hash and sender in
/// lower-case hex.
pub fn followup_reply(ts: &[u8], hash: &[u8], sender: &[u8], uuid: &str) -> (r: Result<FollowupReply, BbsError>)
    ensures
        ts@.len() < 16 ==> r == Err::<FollowupReply, BbsError>(BbsError::U128TooShort),
        ts@.len() >= 16 ==> (r matches Ok(v)
            && v.ts@ == decimal(le_u128(ts@))
            && v.hash@ == hex_text(hash@)
            && v.sender@ == hex_text(sender@)
            && v.uuid@ == uuid@),
{
    let t = match u128_from_le_buffer(ts) {
        Ok(v) => v,
        Err(e) => return Err(e),
    };
    Ok(FollowupReply {
        ts: u128_to_decimal(t),
        hash: hex_encode(hash),
        sender: hex_encode(sender),
        uuid: String::from_str(uuid),
    })
}

/// The session key given to a user who logged in: the base64 of the
/// authorization key that the app store sent.
pub fn session_auth_b64(auth_key: &[u8]) -> (r: String)
    ensures
        r@ == base64_encoded(auth_key@),
        base64_decoded(r@) == Some(auth_key@),
{
    base64_encode(auth_key)
}

/// The hash of the transaction that a query about an executed transaction
/// asks for: the request's hex text decoded; refused when it is not hex.
pub fn executed_txn_query_hash(req: &QueryHashRequest) -> (r: Result<Vec<u8>, BbsError>)
    ensures
        hex_bytes(req.hash@) matches Some(h) ==> (r matches Ok(v) && v@ == h),
        hex_bytes(req.hash@) is None ==> r == Err::<Vec<u8>, BbsError>(BbsError::InvalidHex),
{
    match hex_decode(req.hash.as_str()) {
        Some(h) => Ok(h),
        None => Err(BbsError::InvalidHex),
    }
}

/// A reply of the app store to a query, as the host decodes it.
#[derive(Debug, Clone, PartialEq, Eq)]
pub enum TappstoreResponse {
    /// The reply holds no message.
    NoMessage,
    TeaBalance { balance: Vec<u8>, ts: Vec<u8> },
    FindExecutedTxn { success: bool, has_executed_txn: bool, error_msg: String },
    CheckUserSession { aes_key: Vec<u8>, auth_key: Vec<u8>, token_id: u64, account: String },
    ConsumeAccountPubkey { address: String },
    TappstoreAccountPubkey { address: String },
    CommonSqlQuery { err: String, data: Vec<u8> },
    /// A reply of another kind.
    Other,
}

/// What the host found under a query's key, as it decodes it.
#[derive(Debug, Clone, PartialEq, Eq)]
pub enum QueryValue {
    /// A state-receiver reply, for query `uuid`, carrying an app-store reply.
    GeneralQuery { response: TappstoreResponse, uuid: String },
    /// A state-receiver reply, for query `uuid`, carrying a follow-up.
    CommandFollowup { ts: Vec<u8>, hash: Vec<u8>, sender: Vec<u8>, uuid: String },
    /// A state-receiver reply that is only an acknowledgement.
    Direct,
    /// A state-receiver reply of another kind.
    OtherReceiverMessage,
    /// A reply of the message database.
    OrbitBbs,
    /// Bytes that are neither.
    Undecodable,
}

/// The answer to a query, before it is written as JSON.
#[derive(Debug, Clone, PartialEq, Eq)]
pub enum QueryReply {
    /// The app-store reply held no message: `{"error": "none"}`.
    NoMessage,
    /// A balance.
    Balance(BalanceReply),
    /// The transaction of query `uuid` was executed: run its callback and
    /// answer its result.
    RunTxnCallback(String),
    /// The transaction is not executed yet: `{"status": false, "error": "wait"}`.
    TxnWait,
    /// The query failed with this message.
    TxnFailed(String),
    /// Keep the session key and the AES key of the account, and answer the
    /// session key: `{"auth_key": ...}`.
    SaveSession { auth_b64: String, aes_key: Vec<u8>, token_id: u64, account: String },
    /// An account address: `{"address": ...}`.
    Address(String),
    /// The SQL query failed with this message.
    SqlError(String),
    /// The SQL query succeeded; these are its encoded result rows.
    SqlRows(Vec<u8>),
    /// An app-store reply of an unknown kind.
    UnknownTappstoreResponse,
    /// A follow-up.
    Followup(FollowupReply),
    /// `{"status": "pending"}`.
    Pending,
    /// A state-receiver reply of an unknown kind.
    UnknownReceiverResponse,
    /// The message database answered: `{"status": "ok"}`.
    OrbitOk,
    /// Nothing known was found under the key.
    UnknownValue,
}

/// Whether `r` is the answer to the app-store reply `resp` for query `uuid`.
pub open spec fn tappstore_reply_is(resp: TappstoreResponse, uuid: Seq<char>, r: Result<QueryReply, BbsError>) -> bool {
    match resp {
        TappstoreResponse::NoMessage => r == Ok::<QueryReply, BbsError>(QueryReply::NoMessage),
        TappstoreResponse::TeaBalance { balance, ts } => if balance@.len() < 16 || ts@.len() < 16 {
            r == Err::<QueryReply, BbsError>(BbsError::U128TooShort)
        } else {
            r matches Ok(QueryReply::Balance(v)) && v.balance@ == decimal(le_u128(balance@))
                && v.ts@ == decimal(le_u128(ts@)) && v.uuid@ == uuid
        },
        TappstoreResponse::FindExecutedTxn { success, has_executed_txn, error_msg } => if !success {
            r == Ok::<QueryReply, BbsError>(QueryReply::TxnFailed(error_msg))
        } else if has_executed_txn {
            r matches Ok(QueryReply::RunTxnCallback(u)) && u@ == uuid
        } else {
            r == Ok::<QueryReply, BbsError>(QueryReply::TxnWait)
        },
        TappstoreResponse::CheckUserSession { aes_key, auth_key, token_id, account } =>
            r matches Ok(QueryReply::SaveSession { auth_b64, aes_key: k, token_id: t, account: a })
                && auth_b64@ == base64_encoded(auth_key@) && k == aes_key && t == token_id && a == account,
        TappstoreResponse::ConsumeAccountPubkey { address } => r == Ok::<QueryReply, BbsError>(QueryReply::Address(address)),
        TappstoreResponse::TappstoreAccountPubkey { address } => r == Ok::<QueryReply, BbsError>(QueryReply::Address(address)),
        TappstoreResponse::CommonSqlQuery { err, data } => if err@.len() > 0 {
            r == Ok::<QueryReply, BbsError>(QueryReply::SqlError(err))
        } else {
            r == Ok::<QueryReply, BbsError>(QueryReply::SqlRows(data))
        },
        TappstoreResponse::Other => r == Ok::<QueryReply, BbsError>(QueryReply::UnknownTappstoreResponse),
    }
}

/// The answer to a reply of the app store.
pub fn tappstore_reply(resp: TappstoreResponse, uuid: &str) -> (r: Result<QueryReply, BbsError>)
    ensures
        tappstore_reply_is(resp, uuid@, r),
{
    match resp {
        TappstoreResponse::NoMessage => Ok(QueryReply::NoMessage),
        TappstoreResponse::TeaBalance { balance, ts } => match balance_reply(balance.as_slice(), ts.as_slice(), uuid) {
            Ok(v) => Ok(QueryReply::Balance(v)),
            Err(e) => Err(e),
        },
        TappstoreResponse::FindExecutedTxn { success, has_executed_txn, error_msg } => {
            match executed_txn_status(success, has_executed_txn) {
                TxnStatus::Executed => Ok(QueryReply::RunTxnCallback(String::from_str(uuid))),
                TxnStatus::Wait => Ok(QueryReply::TxnWait),
                TxnStatus::Failed => Ok(QueryReply::TxnFailed(error_msg)),
            }
        },
        TappstoreResponse::CheckUserSession { aes_key, auth_key, token_id, account } => {
            let auth_b64 = session_auth_b64(auth_key.as_slice());
            Ok(QueryReply::SaveSession { auth_b64, aes_key, token_id, account })
        },
        TappstoreResponse::ConsumeAccountPubkey { address } => Ok(QueryReply::Address(address)),
        TappstoreResponse::TappstoreAccountPubkey { address } => Ok(QueryReply::Address(address)),
        TappstoreResponse::CommonSqlQuery { err, data } => {
            if err.as_str().unicode_len() > 0 {
                Ok(QueryReply::SqlError(err))
            } else {
                Ok(QueryReply::SqlRows(data))
            }
        },
        TappstoreResponse::Other => Ok(QueryReply::UnknownTappstoreResponse),
    }
}

/// The answer to what was found under a query's key; app-store replies and
/// follow-ups are answered for the query that they name.
pub fn query_reply(value: QueryValue) -> (r: Result<QueryReply, BbsError>)
    ensures
        match value {
            QueryValue::GeneralQuery { response, uuid } => tappstore_reply_is(response, uuid@, r),
            QueryValue::CommandFollowup { ts, hash, sender, uuid } => if ts@.len() < 16 {
                r == Err::<QueryReply, BbsError>(BbsError::U128TooShort)
            } else {
                r matches Ok(QueryReply::Followup(v)) && v.ts@ == decimal(le_u128(ts@))
                    && v.hash@ == hex_text(hash@) && v.sender@ == hex_text(sender@) && v.uuid@ == uuid@
            },
            QueryValue::Direct => r == Ok::<QueryReply, BbsError>(QueryReply::Pending),
            QueryValue::OtherReceiverMessage => r == Ok::<QueryReply, BbsError>(QueryReply::UnknownReceiverResponse),
            QueryValue::OrbitBbs => r == Ok::<QueryReply, BbsError>(QueryReply::OrbitOk),
            QueryValue::Undecodable => r == Ok::<QueryReply, BbsError>(QueryReply::UnknownValue),
        },
{
    match value {
        QueryValue::GeneralQuery { response, uuid } => tappstore_reply(response, uuid.as_str()),
        QueryValue::CommandFollowup { ts, hash, sender, uuid } => {
            match followup_reply(ts.as_slice(), hash.as_slice(), sender.as_slice(), uuid.as_str()) {
                Ok(v) => Ok(QueryReply::Followup(v)),
                Err(e) => Err(e),
            }
        },
        QueryValue::Direct => Ok(QueryReply::Pending),
        QueryValue::OtherReceiverMessage => Ok(QueryReply::UnknownReceiverResponse),
        QueryValue::OrbitBbs => Ok(QueryReply::OrbitOk),
        QueryValue::Undecodable => Ok(QueryReply::UnknownValue),
    }
}

/// A reply that carries an account address, of the consume account or of
/// the app store's own account, is answered with exactly that address; only
/// a reply of an unknown kind is answered as unknown.
pub proof fn law_address_replies(address: String, uuid: Seq<char>, resp: TappstoreResponse, r: Result<QueryReply, BbsError>)
    ensures
        tappstore_reply_is(TappstoreResponse::ConsumeAccountPubkey { address }, uuid, r)
            ==> r == Ok::<QueryReply, BbsError>(QueryReply::Address(address)),
        tappstore_reply_is(TappstoreResponse::TappstoreAccountPubkey { address }, uuid, r)
            ==> r == Ok::<QueryReply, BbsError>(QueryReply::Address(address)),
        tappstore_reply_is(resp, uuid, r) && r == Ok::<QueryReply, BbsError>(QueryReply::UnknownTappstoreResponse)
            ==> resp is Other,
{
}

/// Each action name of the general callback table has its own callback, and
/// every other name gets none.
pub proof fn law_callback_table(name: Seq<char>)
    ensures
        (spec_callback_action(name) == CallbackAction::PostMessage) == (name == "post_message"@),
        (spec_callback_action(name) == CallbackAction::ExtendMessage) == (name == "extend_message"@),
        (spec_callback_action(name) == CallbackAction::DeleteMessage) == (name == "delete_message"@),
        (spec_callback_action(name) == CallbackAction::Withdraw) == (name == "withdraw"@),
        (spec_callback_action(name) == CallbackAction::NotificationAddMessage) == (name == "notification_add_message"@),
        (spec_callback_action(name) == CallbackAction::LoginRequest) == (name == "login_request"@),
{
    reveal_strlit("post_message");
    reveal_strlit("extend_message");
    reveal_strlit("delete_message");
    reveal_strlit("withdraw");
    reveal_strlit("notification_add_message");
    reveal_strlit("login_request");
    assert("extend_message"@[0] != "delete_message"@[0]);
    assert("extend_message"@ != "delete_message"@);
    assert("post_message"@.len() == 12);
    assert("extend_message"@.len() == 14);
    assert("delete_message"@.len() == 14);
    assert("withdraw"@.len() == 8);
    assert("notification_add_message"@.len() == 24);
    assert("login_request"@.len() == 13);
}

/// The state-machine workflow handles post_message, withdraw,
/// notification_add_message and login_request with the same callback as the
/// general table, and gives every other name no callback.
pub proof fn law_sm_callback_agrees(name: Seq<char>)
    ensures
        (name == "post_message"@ || name == "withdraw"@ || name == "notification_add_message"@ || name == "login_request"@)
            ==> (spec_sm_callback_action(name) == spec_callback_action(name) && spec_sm_callback_action(name) != CallbackAction::Other),
        !(name == "post_message"@ || name == "withdraw"@ || name == "notification_add_message"@ || name == "login_request"@)
            ==> spec_sm_callback_action(name) == CallbackAction::Other,
{
    law_callback_table(name);
}

/// What each kind of app-store reply is answered with: a reply with no
/// message as such; a balance as the decimal values of its two sixteen-byte
/// buffers, refused when one is shorter; an executed transaction by running
/// the callback of the query that asked, a successful query that found none
/// by waiting, a failed one by its message; a session by keeping the standard
/// base64 text of its key; an SQL result by its error when
/// there is one, else by its rows.
pub proof fn law_tappstore_reply_kinds(resp: TappstoreResponse, uuid: Seq<char>, r: Result<QueryReply, BbsError>)
    requires
        tappstore_reply_is(resp, uuid, r),
    ensures
        resp is NoMessage ==> r == Ok::<QueryReply, BbsError>(QueryReply::NoMessage),
        resp matches TappstoreResponse::TeaBalance { balance, ts } ==> (
            (balance@.len() >= 16 && ts@.len() >= 16) == (r is Ok)
            && (r is Ok ==> (r matches Ok(QueryReply::Balance(v)) && v.balance@ == decimal(le_u128(balance@))
                && v.ts@ == decimal(le_u128(ts@)) && v.uuid@ == uuid))),
        resp matches TappstoreResponse::FindExecutedTxn { success, has_executed_txn, error_msg } ==> (
            ((success && has_executed_txn) ==> (r matches Ok(QueryReply::RunTxnCallback(u)) && u@ == uuid))
            && ((success && !has_executed_txn) ==> r == Ok::<QueryReply, BbsError>(QueryReply::TxnWait))
            && (!success ==> r == Ok::<QueryReply, BbsError>(QueryReply::TxnFailed(error_msg)))),
        resp matches TappstoreResponse::CheckUserSession { aes_key, auth_key, token_id, account } ==> (
            r matches Ok(QueryReply::SaveSession { auth_b64, aes_key: k, token_id: t, account: a })
            && auth_b64@ == base64_encoded(auth_key@) && k == aes_key && t == token_id && a == account),
        resp matches TappstoreResponse::CommonSqlQuery { err, data } ==> (
            (err@.len() > 0 ==> r == Ok::<QueryReply, BbsError>(QueryReply::SqlError(err)))
            && (err@.len() == 0 ==> r == Ok::<QueryReply, BbsError>(QueryReply::SqlRows(data)))),
{
}

} // verus!
