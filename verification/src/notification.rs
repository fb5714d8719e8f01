//! Notifications sent from one account to another.
use vstd::prelude::*;
use vstd::string::*;
use crate::txn::{Account, TeapartyTxn};
use crate::types::{NotificationAddMessageRequest, NotificationGetMessageRequest};

verus! {

/// Lifetime, in blocks, of a notification.
pub const NOTIFICATION_TTL: u32 = 2880;

/// Request to store a notification.
#[derive(Debug, Clone, PartialEq, Eq)]
pub struct NotificationAddData {
    pub tapp_id: u64,
    pub from_tapp_id: u64,
    pub sender: String,
    pub to: String,
    pub content: String,
    pub utc: u64,
    pub utc_expired: u64,
    pub from_tapp_url: String,
}

/// Request for notifications.
#[derive(Debug, Clone, PartialEq, Eq)]
pub struct NotificationGetData {
    pub utc: u64,
    pub sender: String,
    pub to: String,
}

/// Lifetime, in blocks, of a notification.
pub fn get_add_message_ttl(req: &NotificationAddMessageRequest) -> (r: u32)
    ensures
        r == NOTIFICATION_TTL,
{
    NOTIFICATION_TTL
}

/// Transaction that records a notification from `from` to `to` at `block`.
pub fn add_message_txn(req: &NotificationAddMessageRequest, from: Account, to: Account, block: u32) -> (r: TeapartyTxn)
    ensures
        r matches TeapartyTxn::AddNotificationMessage { token_id, from: f, to: t, auth_b64, current, ttl }
            && token_id == req.tapp_id && f == from && t == to && auth_b64@ == req.auth_b64@
            && current == block && ttl == NOTIFICATION_TTL,
{
    TeapartyTxn::AddNotificationMessage {
        token_id: req.tapp_id,
        from,
        to,
        current: block,
        ttl: get_add_message_ttl(req),
        auth_b64: req.auth_b64.clone(),
    }
}

/// Request to store a notification made at `block`; it expires after the
/// notification lifetime.
pub fn add_message_data(req: &NotificationAddMessageRequest, content: String, block: u32) -> (r: NotificationAddData)
    requires
        block + NOTIFICATION_TTL <= u32::MAX,
    ensures
        r.tapp_id == req.tapp_id,
        r.from_tapp_id == req.from_tapp_id,
        r.sender@ == req.from@,
        r.to@ == req.to@,
        r.content == content,
        r.utc == block,
        r.utc_expired == block + NOTIFICATION_TTL,
        r.from_tapp_url@ == req.from_tapp_url@,
{
    let ttl = get_add_message_ttl(req);
    NotificationAddData {
        tapp_id: req.tapp_id,
        from_tapp_id: req.from_tapp_id,
        sender: req.from.clone(),
        to: req.to.clone(),
        content,
        utc: block as u64,
        utc_expired: (block + ttl) as u64,
        from_tapp_url: req.from_tapp_url.clone(),
    }
}

/// The text of an optional filter: empty when there is none.
pub open spec fn filter_text(f: Option<String>) -> Seq<char> {
    match f {
        Some(v) => v@,
        None => Seq::empty(),
    }
}

/// Request for the notifications still alive one block before `block`,
/// between the given sender and receiver (any, when not given).
pub fn get_message_data(req: &NotificationGetMessageRequest, block: u32) -> (r: NotificationGetData)
    requires
        block >= 1,
    ensures
        r.utc == block - 1,
        r.sender@ == filter_text(req.from),
        r.to@ == filter_text(req.to),
{
    NotificationGetData {
        utc: (block - 1) as u64,
        sender: match &req.from {
            Some(v) => v.clone(),
            None => String::new(),
        },
        to: match &req.to {
            Some(v) => v.clone(),
            None => String::new(),
        },
    }
}

} // verus!
