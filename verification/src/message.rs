//! Board messages: channels, lifetimes, the transactions that post, extend
//! and delete them, and the requests sent to the message database.
use vstd::prelude::*;
use vstd::string::*;
use crate::auth::{aes_padded, pad_for_aes};
use crate::codec::{base64_decode, base64_decoded, base64_encode, base64_encoded};
use crate::error::BbsError;
use crate::text::{decimal, join3, lemma_decimal_digits, lemma_decimal_injective, u64_to_decimal};
use crate::txn::{Account, TeapartyTxn};
use crate::types::{DeleteMessageRequest, ExtendMessageRequest, LoadMessageRequest, PostMessageRequest};

verus! {

/// The channel shared by all tapps.
pub const GLOBAL_CHANNEL: &'static str = "test";
/// Lifetime, in blocks, of a message whose poster names none.
pub const DEFAULT_MESSAGE_TTL: u64 = 14400;
/// What a message that cannot be decrypted reads as.
pub const DECRYPT_FAILED: &'static str = "Failed to decrypt.";

/// Request to store a message.
#[derive(Debug, Clone, PartialEq, Eq)]
pub struct AddMessageData {
    pub tapp_id: u64,
    pub dbname: String,
    pub sender: String,
    pub content: String,
    pub utc: u64,
    pub utc_expired: u64,
}

/// Request for the messages of a channel.
#[derive(Debug, Clone, PartialEq, Eq)]
pub struct GetMessageData {
    pub tapp_id: u64,
    pub dbname: String,
    pub sender: String,
    pub utc: u64,
}

/// Request to move the expiry of a message.
#[derive(Debug, Clone, PartialEq, Eq)]
pub struct ExtendMessageData {
    pub tapp_id: u64,
    pub dbname: String,
    pub msg_id: String,
    pub utc_expired: u64,
}

/// Request to delete a message.
#[derive(Debug, Clone, PartialEq, Eq)]
pub struct DeleteMessageData {
    pub tapp_id: u64,
    pub dbname: String,
    pub msg_id: String,
}

/// Whether a channel is the one shared by all tapps.
pub fn is_global_channel(channel: &str) -> (r: bool)
    ensures
        r == (channel@ == GLOBAL_CHANNEL@),
{
    String::from_str(GLOBAL_CHANNEL) == String::from_str(channel)
}

/// Database name of a tapp's channel: the shared channel keeps its own
/// name, any other is `<tapp_id>_<channel>`.
pub open spec fn spec_db_name(tapp_id: u64, channel: Seq<char>) -> Seq<char> {
    if channel == GLOBAL_CHANNEL@ {
        channel
    } else {
        decimal(tapp_id as nat) + "_"@ + channel
    }
}

/// Database name of a tapp's channel.
pub fn db_name(tapp_id: u64, channel: &str) -> (r: String)
    ensures
        r@ == spec_db_name(tapp_id, channel@),
{
    if is_global_channel(channel) {
        return String::from_str(channel);
    }
    let id = u64_to_decimal(tapp_id);
    join3(id.as_str(), "_", channel)
}

/// Lifetime of a posted message: the default in the shared channel, else
/// the poster's choice or the default.
pub open spec fn spec_post_message_ttl(channel: Seq<char>, ttl: Option<u64>) -> u64 {
    if channel == GLOBAL_CHANNEL@ {
        DEFAULT_MESSAGE_TTL
    } else {
        match ttl {
            Some(n) => n,
            None => DEFAULT_MESSAGE_TTL,
        }
    }
}

/// Lifetime, in blocks, of a posted message.
pub fn get_post_message_ttl(req: &PostMessageRequest) -> (r: u64)
    ensures
        r == spec_post_message_ttl(req.channel@, req.ttl),
{
    if is_global_channel(req.channel.as_str()) {
        DEFAULT_MESSAGE_TTL
    } else {
        match req.ttl {
            Some(n) => n,
            None => DEFAULT_MESSAGE_TTL,
        }
    }
}

/// The bytes to encrypt for a message given as base64: decoded, then padded
/// for AES; refused when the text is not base64.
pub fn prepare_plaintext(encrypted_b64: &str) -> (r: Result<Vec<u8>, BbsError>)
    ensures
        base64_decoded(encrypted_b64@) is None ==> r == Err::<Vec<u8>, BbsError>(BbsError::Base64),
        base64_decoded(encrypted_b64@) matches Some(b) ==> (r matches Ok(v) && v@ == aes_padded(b)),
{
    match base64_decode(encrypted_b64) {
        Some(bytes) => Ok(pad_for_aes(bytes)),
        None => Err(BbsError::Base64),
    }
}

/// Stored text of an encrypted message: its base64, which decodes back to
/// the encrypted bytes.
pub fn stored_content(cipher: &[u8]) -> (r: String)
    ensures
        r@ == base64_encoded(cipher@),
        base64_decoded(r@) == Some(cipher@),
{
    base64_encode(cipher)
}

/// The encrypted bytes of a stored message or key, given as base64;
/// refused when the text is not base64.
pub fn ciphertext_of(stored: &str) -> (r: Result<Vec<u8>, BbsError>)
    ensures
        base64_decoded(stored@) is None ==> r == Err::<Vec<u8>, BbsError>(BbsError::Base64),
        base64_decoded(stored@) matches Some(b) ==> (r matches Ok(v) && v@ == b),
{
    match base64_decode(stored) {
        Some(bytes) => Ok(bytes),
        None => Err(BbsError::Base64),
    }
}

/// What a loaded message reads as: its decryption, or a notice when that
/// failed.
pub fn decrypted_or_notice(decrypted: Option<Vec<u8>>) -> (r: Vec<u8>)
    ensures
        decrypted matches Some(v) ==> r@ == v@,
        decrypted is None ==> r@ == DECRYPT_FAILED.spec_bytes(),
{
    match decrypted {
        Some(v) => v,
        None => DECRYPT_FAILED.as_bytes_vec(),
    }
}

/// Request to store a message with lifetime `ttl` posted at `block`.
pub(crate) fn add_message_with_ttl(req: &PostMessageRequest, content: String, block: u32, ttl: u64) -> (r: AddMessageData)
    requires
        block + ttl <= u64::MAX,
    ensures
        r.tapp_id == req.tapp_id,
        r.dbname@ == spec_db_name(req.tapp_id, req.channel@),
        r.sender@ == req.address@,
        r.content == content,
        r.utc == block,
        r.utc_expired == block + ttl,
{
    AddMessageData {
        tapp_id: req.tapp_id,
        dbname: db_name(req.tapp_id, req.channel.as_str()),
        sender: req.address.clone(),
        content,
        utc: block as u64,
        utc_expired: block as u64 + ttl,
    }
}

/// Request to store a posted message, made at `block`; it expires after the
/// message's lifetime.
pub fn add_message_data(req: &PostMessageRequest, content: String, block: u32) -> (r: AddMessageData)
    requires
        block + spec_post_message_ttl(req.channel@, req.ttl) <= u64::MAX,
    ensures
        r.tapp_id == req.tapp_id,
        r.dbname@ == spec_db_name(req.tapp_id, req.channel@),
        r.sender@ == req.address@,
        r.content == content,
        r.utc == block,
        r.utc_expired == block + spec_post_message_ttl(req.channel@, req.ttl),
{
    let ttl = get_post_message_ttl(req);
    add_message_with_ttl(req, content, block, ttl)
}

/// Request for the messages of a channel that are still alive two blocks
/// before `block`, from the given sender (all senders when it is empty).
pub fn get_message_data(req: &LoadMessageRequest, block: u32) -> (r: GetMessageData)
    requires
        block >= 2,
    ensures
        r.tapp_id == req.tapp_id,
        r.dbname@ == spec_db_name(req.tapp_id, req.channel@),
        r.sender@ == req.address@,
        r.utc == block - 2,
{
    GetMessageData {
        tapp_id: req.tapp_id,
        dbname: db_name(req.tapp_id, req.channel.as_str()),
        sender: req.address.clone(),
        utc: (block - 2) as u64,
    }
}

/// Request to set a message's expiry to the requested value.
pub fn extend_message_data(req: &ExtendMessageRequest) -> (r: ExtendMessageData)
    ensures
        r.tapp_id == req.tapp_id,
        r.dbname@ == spec_db_name(req.tapp_id, req.channel@),
        r.msg_id@ == req.msg_id@,
        r.utc_expired == req.ttl,
{
    ExtendMessageData {
        tapp_id: req.tapp_id,
        dbname: db_name(req.tapp_id, req.channel.as_str()),
        msg_id: req.msg_id.clone(),
        utc_expired: req.ttl,
    }
}

/// Request to delete a message.
pub fn delete_message_data(req: &DeleteMessageRequest) -> (r: DeleteMessageData)
    ensures
        r.tapp_id == req.tapp_id,
        r.dbname@ == spec_db_name(req.tapp_id, req.channel@),
        r.msg_id@ == req.msg_id@,
{
    DeleteMessageData {
        tapp_id: req.tapp_id,
        dbname: db_name(req.tapp_id, req.channel.as_str()),
        msg_id: req.msg_id.clone(),
    }
}

/// Transaction that posts a message for account `from`.
pub fn post_message_txn(req: &PostMessageRequest, from: Account) -> (r: TeapartyTxn)
    ensures
        r matches TeapartyTxn::PostMessage { token_id, from: f, ttl, auth_b64 } && token_id == req.tapp_id
            && f == from && ttl == spec_post_message_ttl(req.channel@, req.ttl) && auth_b64@ == req.auth_b64@,
{
    TeapartyTxn::PostMessage {
        token_id: req.tapp_id,
        from,
        ttl: get_post_message_ttl(req),
        auth_b64: req.auth_b64.clone(),
    }
}

/// Transaction that extends a message for account `from`.
pub fn extend_message_txn(req: &ExtendMessageRequest, from: Account) -> (r: TeapartyTxn)
    ensures
        r matches TeapartyTxn::ExtendMessage { token_id, from: f, ttl, auth_b64 } && token_id == req.tapp_id
            && f == from && ttl == req.ttl && auth_b64@ == req.auth_b64@,
{
    TeapartyTxn::ExtendMessage { token_id: req.tapp_id, from, ttl: req.ttl, auth_b64: req.auth_b64.clone() }
}

/// Transaction that deletes a message for account `from`.
pub fn delete_message_txn(req: &DeleteMessageRequest, from: Account) -> (r: TeapartyTxn)
    ensures
        r matches TeapartyTxn::DeleteMessage { token_id, from: f, auth_b64, is_tapp_owner } && token_id == req.tapp_id
            && f == from && auth_b64@ == req.auth_b64@ && is_tapp_owner == req.is_tapp_owner,
{
    TeapartyTxn::DeleteMessage {
        token_id: req.tapp_id,
        from,
        auth_b64: req.auth_b64.clone(),
        is_tapp_owner: req.is_tapp_owner,
    }
}

/// The shared channel's database is the same for every tapp; any other
/// channel's database is named by the decimal text of the full tapp id, `_`,
/// and the channel, so two different tapps, or two different channels, never
/// share a database outside the shared channel.
pub proof fn law_db_names(a: u64, c: Seq<char>, b: u64, d: Seq<char>)
    ensures
        spec_db_name(a, GLOBAL_CHANNEL@) == GLOBAL_CHANNEL@,
        c != GLOBAL_CHANNEL@ ==> spec_db_name(a, c) == decimal(a as nat) + "_"@ + c,
        (c != GLOBAL_CHANNEL@ && d != GLOBAL_CHANNEL@ && (a != b || c != d)) ==> spec_db_name(a, c) != spec_db_name(b, d),
{
    if c != GLOBAL_CHANNEL@ && d != GLOBAL_CHANNEL@ && spec_db_name(a, c) == spec_db_name(b, d) {
        reveal_strlit("_");
        let da = decimal(a as nat);
        let db = decimal(b as nat);
        let x = da + "_"@ + c;
        let y = db + "_"@ + d;
        lemma_decimal_digits(a as nat);
        lemma_decimal_digits(b as nat);
        assert(x == y);
        // the first '_' of each name ends the tapp id
        if da.len() < db.len() {
            assert(x[da.len() as int] == '_');
            assert(y[da.len() as int] == db[da.len() as int]);
            assert(false);
        } else if db.len() < da.len() {
            assert(y[db.len() as int] == '_');
            assert(x[db.len() as int] == da[db.len() as int]);
            assert(false);
        }
        assert(da =~= x.subrange(0, da.len() as int));
        assert(db =~= y.subrange(0, db.len() as int));
        lemma_decimal_injective(a as nat, b as nat);
        assert(c =~= x.subrange(da.len() as int + 1, x.len() as int));
        assert(d =~= y.subrange(db.len() as int + 1, y.len() as int));
    }
}

} // verus!
