use party::keys::{
    aes_key_name, bbs_operation_account_key, bbs_operation_account_pub_key, communication_aes_key,
    communication_rsa_key, message_key, pending_request_keys, send_txn_keys, session_key_name,
    tapp_balance_state_key, to_query_uuid, txn_callback_keys, uuid_cb_key, uuid_without_hash_tag,
    uuid_without_txn_tag,
};

#[test]
fn utility_methods_work() {
    let r1 = uuid_cb_key("uuid", "test");
    assert_eq!(r1, "test_msg_uuid");
}

#[test]
fn operation_account_keys() {
    assert_eq!(bbs_operation_account_pub_key(7), "bbs_operation_account_pub_key-7");
    assert_eq!(bbs_operation_account_key(1234), "bbs_operation_account_key-1234");
    assert_eq!(tapp_balance_state_key(0), "bbs_balance_state_prefix-0");
    assert_eq!(
        tapp_balance_state_key(u64::MAX),
        "bbs_balance_state_prefix-18446744073709551615"
    );
}

#[test]
fn communication_keys() {
    assert_eq!(communication_aes_key("5Grw"), "tapp_bbs_aes-5Grw");
    assert_eq!(communication_rsa_key("5Grw"), "tapp_bbs_rsa-5Grw");
    assert_eq!(communication_aes_key(""), "tapp_bbs_aes-");
}

#[test]
fn session_and_aes_key_names() {
    assert_eq!(session_key_name(3, "addr"), "session_key_3_addr");
    assert_eq!(aes_key_name(42), "aes_key_42");
    assert_eq!(message_key("general", 99), "general:99");
}

#[test]
fn query_uuid_drops_tags() {
    assert_eq!(to_query_uuid("txn_abc"), "abc");
    assert_eq!(to_query_uuid("hash_abc"), "abc");
    assert_eq!(to_query_uuid("txn_hash_abc"), "abc");
    assert_eq!(to_query_uuid("plain"), "plain");
    // a txn_ tag removed can leave a new one behind: removal is one pass
    assert_eq!(to_query_uuid("ttxn_xn_"), "txn_");
    assert_eq!(uuid_without_txn_tag("a_txn_b_txn_"), "a_b_");
    assert_eq!(uuid_without_hash_tag("hash_hash_x"), "x");
}

#[test]
fn pending_request_key_pairs() {
    let (a, r) = pending_request_keys("42");
    assert_eq!(a, "action_name_msg_42");
    assert_eq!(r, "action_req_msg_42");
    let (a, r) = send_txn_keys("txn_42");
    assert_eq!(a, "action_name_msg_42");
    assert_eq!(r, "action_req_msg_42");
    let (a, r) = txn_callback_keys("hash_42");
    assert_eq!(a, "action_name_msg_42");
    assert_eq!(r, "action_req_msg_42");
}
