//! Names of the entries that the actors keep in their key-value stores, and
//! the request identifiers derived from one another.
use vstd::prelude::*;
use vstd::string::*;
use crate::text::{decimal, lemma_decimal_injective, replace_all, u64_to_decimal, join3, replace_text};

verus! {

pub const BBS_OPERATION_ACCOUNT_KEY_PREFIX: &'static str = "bbs_operation_account_key";
pub const BBS_OPERATION_ACCOUNT_PUB_KEY_PREFIX: &'static str = "bbs_operation_account_pub_key";
pub const BBS_BALANCE_STATE_PREFIX: &'static str = "bbs_balance_state_prefix";
pub const COMMUNICATION_AES_KEY_PREFIX: &'static str = "tapp_bbs_aes";
pub const COMMUNICATION_RSA_KEY_PREFIX: &'static str = "tapp_bbs_rsa";
pub const CURRENT_BLOCK_NUMBER_KEY: &'static str = "tea_tapp_party_actor";

/// Key of the public key of a tapp's operation account: `<prefix>-<tapp_id>`.
pub fn bbs_operation_account_pub_key(tapp_id: u64) -> (r: String)
    ensures
        r@ == BBS_OPERATION_ACCOUNT_PUB_KEY_PREFIX@ + "-"@ + decimal(tapp_id as nat),
{
    let id = u64_to_decimal(tapp_id);
    join3(BBS_OPERATION_ACCOUNT_PUB_KEY_PREFIX, "-", id.as_str())
}

/// Key of the private key of a tapp's operation account: `<prefix>-<tapp_id>`.
pub fn bbs_operation_account_key(tapp_id: u64) -> (r: String)
    ensures
        r@ == BBS_OPERATION_ACCOUNT_KEY_PREFIX@ + "-"@ + decimal(tapp_id as nat),
{
    let id = u64_to_decimal(tapp_id);
    join3(BBS_OPERATION_ACCOUNT_KEY_PREFIX, "-", id.as_str())
}

/// Key of a tapp's balance ledger: `<prefix>-<tapp_id>`.
pub fn tapp_balance_state_key(tapp_id: u64) -> (r: String)
    ensures
        r@ == BBS_BALANCE_STATE_PREFIX@ + "-"@ + decimal(tapp_id as nat),
{
    let id = u64_to_decimal(tapp_id);
    join3(BBS_BALANCE_STATE_PREFIX, "-", id.as_str())
}

/// Key of the AES key agreed with a user: `tapp_bbs_aes-<key>`.
pub fn communication_aes_key(key: &str) -> (r: String)
    ensures
        r@ == COMMUNICATION_AES_KEY_PREFIX@ + "-"@ + key@,
{
    join3(COMMUNICATION_AES_KEY_PREFIX, "-", key)
}

/// Key of the RSA key offered to a user: `tapp_bbs_rsa-<key>`.
pub fn communication_rsa_key(key: &str) -> (r: String)
    ensures
        r@ == COMMUNICATION_RSA_KEY_PREFIX@ + "-"@ + key@,
{
    join3(COMMUNICATION_RSA_KEY_PREFIX, "-", key)
}

/// Key under which a callback keeps one piece of a pending request:
/// `<stype>_msg_<uuid>`.
pub fn uuid_cb_key(uuid: &str, stype: &str) -> (r: String)
    ensures
        r@ == stype@ + "_msg_"@ + uuid@,
{
    join3(stype, "_msg_", uuid)
}

/// Key of a user's session key: `session_key_<tapp_id>_<address>`.
pub fn session_key_name(tapp_id: u64, address: &str) -> (r: String)
    ensures
        r@ == "session_key_"@ + decimal(tapp_id as nat) + "_"@ + address@,
{
    let id = u64_to_decimal(tapp_id);
    let head = join3("session_key_", id.as_str(), "_");
    head.concat(address)
}

/// Key of a tapp's AES key: `aes_key_<tapp_id>`.
pub fn aes_key_name(tapp_id: u64) -> (r: String)
    ensures
        r@ == "aes_key_"@ + decimal(tapp_id as nat),
{
    let id = u64_to_decimal(tapp_id);
    String::from_str("aes_key_").concat(id.as_str())
}

/// Key of a message in a channel: `<channel>:<hash>`.
pub fn message_key(channel: &str, hash: u64) -> (r: String)
    ensures
        r@ == channel@ + ":"@ + decimal(hash as nat),
{
    let h = u64_to_decimal(hash);
    join3(channel, ":", h.as_str())
}

/// The request identifier with every `txn_` tag taken out.
pub fn uuid_without_txn_tag(uuid: &str) -> (r: String)
    ensures
        r@ == replace_all(uuid@, "txn_"@, ""@),
{
    proof { reveal_strlit("txn_"); }
    replace_text(uuid, "txn_", "")
}

/// The request identifier with every `hash_` tag taken out.
pub fn uuid_without_hash_tag(uuid: &str) -> (r: String)
    ensures
        r@ == replace_all(uuid@, "hash_"@, ""@),
{
    proof { reveal_strlit("hash_"); }
    replace_text(uuid, "hash_", "")
}

/// The identifier under which a query about a request is sent: the request's
/// identifier with its `txn_` tags and then its `hash_` tags taken out.
pub fn to_query_uuid(uuid: &str) -> (r: String)
    ensures
        r@ == replace_all(replace_all(uuid@, "txn_"@, ""@), "hash_"@, ""@),
{
    let q = uuid_without_txn_tag(uuid);
    uuid_without_hash_tag(q.as_str())
}

/// Keys under which a pending request keeps its action name and its
/// request bytes, for a request identifier whose tags are already removed:
/// `action_name_msg_<uuid>` and `action_req_msg_<uuid>`.
pub fn pending_request_keys(uuid: &str) -> (r: (String, String))
    ensures
        r.0@ == "action_name"@ + "_msg_"@ + uuid@,
        r.1@ == "action_req"@ + "_msg_"@ + uuid@,
{
    (uuid_cb_key(uuid, "action_name"), uuid_cb_key(uuid, "action_req"))
}

/// Keys of a request about to be sent as a transaction: its identifier
/// loses its `txn_` tags.
pub fn send_txn_keys(uuid: &str) -> (r: (String, String))
    ensures
        r.0@ == "action_name"@ + "_msg_"@ + replace_all(uuid@, "txn_"@, ""@),
        r.1@ == "action_req"@ + "_msg_"@ + replace_all(uuid@, "txn_"@, ""@),
{
    let ori = uuid_without_txn_tag(uuid);
    pending_request_keys(ori.as_str())
}

/// Keys of a request whose transaction has been executed: the identifier
/// of the query loses its `hash_` tags.
pub fn txn_callback_keys(uuid: &str) -> (r: (String, String))
    ensures
        r.0@ == "action_name"@ + "_msg_"@ + replace_all(uuid@, "hash_"@, ""@),
        r.1@ == "action_req"@ + "_msg_"@ + replace_all(uuid@, "hash_"@, ""@),
{
    let ori = uuid_without_hash_tag(uuid);
    pending_request_keys(ori.as_str())
}

/// Two different tapps never share a storage key: the keys of their
/// operation accounts, public keys and balance ledgers differ.
pub proof fn law_tapp_keys_distinct(a: u64, b: u64)
    requires
        a != b,
    ensures
        BBS_OPERATION_ACCOUNT_KEY_PREFIX@ + "-"@ + decimal(a as nat) != BBS_OPERATION_ACCOUNT_KEY_PREFIX@ + "-"@ + decimal(b as nat),
        BBS_OPERATION_ACCOUNT_PUB_KEY_PREFIX@ + "-"@ + decimal(a as nat) != BBS_OPERATION_ACCOUNT_PUB_KEY_PREFIX@ + "-"@ + decimal(b as nat),
        BBS_BALANCE_STATE_PREFIX@ + "-"@ + decimal(a as nat) != BBS_BALANCE_STATE_PREFIX@ + "-"@ + decimal(b as nat),
        "aes_key_"@ + decimal(a as nat) != "aes_key_"@ + decimal(b as nat),
{
    lemma_suffix_distinct(BBS_OPERATION_ACCOUNT_KEY_PREFIX@ + "-"@, decimal(a as nat), decimal(b as nat));
    lemma_suffix_distinct(BBS_OPERATION_ACCOUNT_PUB_KEY_PREFIX@ + "-"@, decimal(a as nat), decimal(b as nat));
    lemma_suffix_distinct(BBS_BALANCE_STATE_PREFIX@ + "-"@, decimal(a as nat), decimal(b as nat));
    lemma_suffix_distinct("aes_key_"@, decimal(a as nat), decimal(b as nat));
    if decimal(a as nat) == decimal(b as nat) {
        lemma_decimal_injective(a as nat, b as nat);
    }
}

proof fn lemma_suffix_distinct(p: Seq<char>, x: Seq<char>, y: Seq<char>)
    ensures
        p + x == p + y ==> x == y,
{
    if p + x == p + y {
        assert(x =~= (p + x).subrange(p.len() as int, (p + x).len() as int));
        assert(y =~= (p + y).subrange(p.len() as int, (p + y).len() as int));
    }
}

/// The two keys of a pending request never coincide.
pub proof fn law_pending_keys_distinct(uuid: Seq<char>)
    ensures
        "action_name"@ + "_msg_"@ + uuid != "action_req"@ + "_msg_"@ + uuid,
{
    reveal_strlit("action_name");
    reveal_strlit("action_req");
    let x = "action_name"@ + "_msg_"@ + uuid;
    let y = "action_req"@ + "_msg_"@ + uuid;
    assert(x[7] == 'n');
    assert(y[7] == 'r');
}

} // verus!
