//! Requests and replies that the bulletin-board actor exchanges with its
//! callers.
use vstd::prelude::*;

verus! {

/// Name under which the actor keeps its cache entries.
pub const BINDING_NAME: &'static str = "tea_tapp_bbs";

#[derive(Debug, Clone, PartialEq, Eq)]
pub struct PostMessageRequest {
    pub tapp_id: u64,
    pub channel: String,
    /// Base64 encoded
    pub encrypted_message: String,
    pub address: String,
    pub uuid: String,
    pub auth_b64: String,
    pub ttl: Option<u64>,
}

#[derive(Debug, Clone, PartialEq, Eq)]
pub struct PostMessageResponse {
    pub success: bool,
}

#[derive(Debug, Clone, PartialEq, Eq)]
pub struct LoadMessageRequest {
    pub tapp_id: u64,
    pub channel: String,
    pub address: String,
}

#[derive(Debug, Clone, PartialEq, Eq)]
pub struct ExtendMessageRequest {
    pub tapp_id: u64,
    pub channel: String,
    pub address: String,
    pub uuid: String,
    pub auth_b64: String,
    pub msg_id: String,
    pub ttl: u64,
}

#[derive(Debug, Clone, PartialEq, Eq)]
pub struct DeleteMessageRequest {
    pub tapp_id: u64,
    pub channel: String,
    pub address: String,
    pub uuid: String,
    pub msg_id: String,
    pub auth_b64: String,
    pub is_tapp_owner: bool,
}

#[derive(Debug, Clone, PartialEq, Eq)]
pub struct HttpQueryBalanceRequest {
    pub tapp_id: u64,
    pub address: String,
    pub uuid: String,
    pub auth_b64: String,
}

#[derive(Debug, Clone, PartialEq, Eq)]
pub struct HttpQueryResultWithUuid {
    pub uuid: String,
}

#[derive(Debug, Clone, PartialEq, Eq)]
pub struct MessageItem {
    pub tapp_id: u64,
    pub content: String,
    pub utc: u64,
    pub utc_expired: u64,
    pub id: String,
    pub sender: String,
}

#[derive(Debug, Clone, PartialEq, Eq)]
pub struct LoadMessageResponse {
    pub messages: Vec<String>,
}

#[derive(Debug, Clone, PartialEq, Eq)]
pub struct PrepareLoginRequest {
    pub tapp_id: u64,
    pub address: String,
    /// Base64 encoded
    pub data: String,
    /// Base64 encoded
    pub signature: String,
    pub uuid: String,
}
#[derive(Debug, Clone, PartialEq, Eq)]
pub struct CheckLoginRequest {
    pub tapp_id: u64,
    pub address: String,
    pub auth_b64: String,
}

#[derive(Debug, Clone, PartialEq, Eq)]
pub struct PrepareLoginResponse {
    /// Base64 encoded
    pub ephemeral_public_key: String,
    /// Base64 encoded
    pub rsa_public_key: String,
    /// Base64 encoded
    pub sign_data: String,
    /// Base64 encoded
    pub signature: String,
}

#[derive(Debug, Clone, PartialEq, Eq)]
pub struct LoginRequest {
    pub tapp_id: u64,
    pub address: String,
    /// Base64 encoded
    pub encrypted_aes_key: String,
}

#[derive(Debug, Clone, PartialEq, Eq)]
pub struct LoginResponse {
    pub success: bool,
}

#[derive(Debug, Clone, PartialEq, Eq)]
pub struct LogoutRequest {
    pub address: String,
}

#[derive(Debug, Clone, PartialEq, Eq)]
pub struct LogoutResponse {
    pub success: bool,
}

#[derive(Debug, Clone, PartialEq, Eq)]
pub struct TappProfileRequest {
    pub tapp_id: u64,
    pub address: String,
    pub auth_b64: String,
    pub uuid: String,

    pub post_message_fee: u128,
}

#[derive(Debug, Clone, PartialEq, Eq)]
pub struct WithdrawRequest {
    pub tapp_id: u64,
    pub address: String,
    pub auth_b64: String,
    pub uuid: String,
    pub amount: u128,
}

#[derive(Debug, Clone, PartialEq, Eq)]
pub struct QueryHashRequest {
    pub uuid: String,
    pub hash: String,
}

#[derive(Debug, Clone, PartialEq, Eq)]
pub struct QueryTappAccountRequest {
    pub tapp_id: u64,
    pub uuid: String,
}

#[derive(Debug, Clone, PartialEq, Eq)]
pub struct QueryTappStoreAccountRequest {
    pub uuid: String,
}

// notification
#[derive(Debug, Clone, PartialEq, Eq)]
pub struct NotificationAddMessageRequest {
    pub tapp_id: u64,
    pub content_b64: String,
    pub from: String,
    pub to: String,
    pub uuid: String,
    pub auth_b64: String,
    pub from_tapp_id: u64,
    pub from_tapp_url: String,
}

#[derive(Debug, Clone, PartialEq, Eq)]
pub struct NotificationGetMessageRequest {
    pub tapp_id: u64,
    pub address: String,
    pub from: Option<String>,
    pub to: Option<String>,
    pub auth_b64: String,
}

#[derive(Debug, Clone, PartialEq, Eq)]
pub struct NotificationMessageItem {
    pub tapp_id: u64,
    pub content: String,
    pub utc: u64,
    pub utc_expired: u64,
    pub id: String,
    pub sender: String,
    pub to: String,
    pub from_tapp_id: u64,
    pub from_tapp_url: String,
}

#[derive(Debug, Clone, PartialEq, Eq)]
pub struct TestForSqlRequest {
    pub tapp_id: u64,
    pub sql: String,
    pub is_txn: bool,
    pub uuid: String,
}

#[derive(Debug, Clone, PartialEq, Eq)]
pub struct TestForComsumeDividend {
    pub tapp_id: u64,
    pub uuid: String,
}

} // verus!
