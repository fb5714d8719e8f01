//! Channel messages posted through the HTTP adapter: a short fixed lifetime
//! in the shared channel and a longer default elsewhere.
use vstd::prelude::*;
use crate::message::{add_message_with_ttl, is_global_channel, spec_db_name, AddMessageData, GLOBAL_CHANNEL};
use crate::txn::{Account, TeapartyTxn};
use crate::types::PostMessageRequest;

verus! {

/// Lifetime, in blocks, of a message in the shared channel.
pub const GLOBAL_CHANNEL_TTL: u64 = 1200;
/// Lifetime, in blocks, of a message whose poster names none.
pub const DEFAULT_CHANNEL_TTL: u64 = 4800;

/// Lifetime of a posted message: fixed in the shared channel, else the
/// poster's choice or the default.
pub open spec fn spec_post_message_ttl(channel: Seq<char>, ttl: Option<u64>) -> u64 {
    if channel == GLOBAL_CHANNEL@ {
        GLOBAL_CHANNEL_TTL
    } else {
        match ttl {
            Some(n) => n,
            None => DEFAULT_CHANNEL_TTL,
        }
    }
}

/// Lifetime, in blocks, of a posted message.
pub fn get_post_message_ttl(req: &PostMessageRequest) -> (r: u64)
    ensures
        r == spec_post_message_ttl(req.channel@, req.ttl),
{
    if is_global_channel(req.channel.as_str()) {
        GLOBAL_CHANNEL_TTL
    } else {
        match req.ttl {
            Some(n) => n,
            None => DEFAULT_CHANNEL_TTL,
        }
    }
}

/// Request to store a posted message, made at `block`.
pub fn add_message_data(req: &PostMessageRequest, content: String, block: u32) -> (r: AddMessageData)
    requires
        block + spec_post_message_ttl(req.channel@, req.ttl) <= u64::MAX,
    ensures
        r.tapp_id == req.tapp_id,
        r.dbname@ == spec_db_name(req.tapp_id, req.channel@),
        r.sender@ == req.address@,
        r.content == content,
        r.utc == block,
        r.utc_expired == block + spec_post_message_ttl(req.channel@, req.ttl),
{
    let ttl = get_post_message_ttl(req);
    add_message_with_ttl(req, content, block, ttl)
}

/// Transaction that posts a message for account `from`.
pub fn post_message_txn(req: &PostMessageRequest, from: Account) -> (r: TeapartyTxn)
    ensures
        r matches TeapartyTxn::PostMessage { token_id, from: f, ttl, auth_b64 } && token_id == req.tapp_id
            && f == from && ttl == spec_post_message_ttl(req.channel@, req.ttl) && auth_b64@ == req.auth_b64@,
{
    TeapartyTxn::PostMessage {
        token_id: req.tapp_id,
        from,
        ttl: get_post_message_ttl(req),
        auth_b64: req.auth_b64.clone(),
    }
}

} // verus!
