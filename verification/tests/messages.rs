use party::auth::{account_from_public_key, check_auth, get_aes_key, get_aes_key_from_appstore, local_plaintext, pad_for_aes};
use party::channel;
use party::error::BbsError;
use party::message::{
    add_message_data, db_name, decrypted_or_notice, delete_message_data, delete_message_txn, extend_message_data,
    extend_message_txn, get_message_data, get_post_message_ttl, is_global_channel, post_message_txn,
    prepare_plaintext, stored_content,
};
use party::notification;
use party::txn::TeapartyTxn;
use party::types::{
    DeleteMessageRequest, ExtendMessageRequest, LoadMessageRequest, NotificationAddMessageRequest,
    NotificationGetMessageRequest, PostMessageRequest,
};

fn post_req(channel: &str, ttl: Option<u64>) -> PostMessageRequest {
    PostMessageRequest {
        tapp_id: 5,
        channel: channel.to_string(),
        encrypted_message: "aGk=".to_string(),
        address: "addr".to_string(),
        uuid: "txn_1".to_string(),
        auth_b64: "auth".to_string(),
        ttl,
    }
}

#[test]
fn global_channel_and_db_names() {
    assert!(is_global_channel("test"));
    assert!(!is_global_channel("tests"));
    assert!(!is_global_channel(""));
    assert_eq!(db_name(5, "test"), "test");
    assert_eq!(db_name(5, "news"), "5_news");
    assert_eq!(db_name(0, ""), "0_");
}

#[test]
fn message_lifetimes() {
    assert_eq!(get_post_message_ttl(&post_req("test", Some(7))), 14400);
    assert_eq!(get_post_message_ttl(&post_req("news", Some(7))), 7);
    assert_eq!(get_post_message_ttl(&post_req("news", None)), 14400);
    assert_eq!(channel::get_post_message_ttl(&post_req("test", Some(7))), 1200);
    assert_eq!(channel::get_post_message_ttl(&post_req("news", Some(7))), 7);
    assert_eq!(channel::get_post_message_ttl(&post_req("news", None)), 4800);
}

#[test]
fn padding_for_aes() {
    assert_eq!(pad_for_aes(vec![1, 2, 3]), vec![1, 2, 3, 0, 0, 0, 0, 0, 0, 0]);
    assert_eq!(pad_for_aes(vec![]), vec![0; 7]);
    assert_eq!(pad_for_aes(vec![9; 8]), vec![9; 8]);
    assert_eq!(local_plaintext("hello"), b"hello\0\0\0\0\0\0\0".to_vec());
    assert_eq!(local_plaintext("12345678"), b"12345678".to_vec());
}

#[test]
fn plaintext_from_base64() {
    assert_eq!(prepare_plaintext("aGk="), Ok(vec![b'h', b'i', 0, 0, 0, 0, 0, 0, 0]));
    assert_eq!(prepare_plaintext("AAECAwQFBgc="), Ok(vec![0, 1, 2, 3, 4, 5, 6, 7]));
    assert_eq!(prepare_plaintext("%%%"), Err(BbsError::Base64));
    assert_eq!(stored_content(&[1, 2, 3]), "AQID");
    assert_eq!(decrypted_or_notice(Some(vec![1])), vec![1]);
    assert_eq!(decrypted_or_notice(None), b"Failed to decrypt.".to_vec());
}

#[test]
fn board_aes_key() {
    assert_eq!(get_aes_key(&1), vec![8u8; 16]);
    assert_eq!(get_aes_key_from_appstore(), vec![8u8; 16]);
}

#[test]
fn session_check() {
    assert_eq!(check_auth(Some("k".to_string()), "k"), Ok(b"is_login".to_vec()));
    assert_eq!(check_auth(Some("k".to_string()), "j"), Err(BbsError::NotLogin));
    assert_eq!(check_auth(None, "k"), Err(BbsError::NotLogin));
}

#[test]
fn accounts_from_public_keys() {
    let key: Vec<u8> = (0u8..32).collect();
    let acct = account_from_public_key(&key).unwrap();
    assert_eq!(acct.to_vec(), key);
    assert_eq!(account_from_public_key(&vec![0u8; 31]), Err(BbsError::InvalidAccount));
    assert_eq!(account_from_public_key(&vec![0u8; 33]), Err(BbsError::InvalidAccount));
}

#[test]
fn database_requests() {
    let d = add_message_data(&post_req("news", Some(100)), "c".to_string(), 50);
    assert_eq!((d.tapp_id, d.dbname.as_str(), d.sender.as_str(), d.content.as_str(), d.utc, d.utc_expired), (5, "5_news", "addr", "c", 50, 150));
    let d = channel::add_message_data(&post_req("test", Some(100)), "c".to_string(), 50);
    assert_eq!((d.dbname.as_str(), d.utc_expired), ("test", 1250));
    let g = get_message_data(&LoadMessageRequest { tapp_id: 5, channel: "news".to_string(), address: String::new() }, 10);
    assert_eq!((g.tapp_id, g.dbname.as_str(), g.sender.as_str(), g.utc), (5, "5_news", "", 8));
    let e = extend_message_data(&ExtendMessageRequest {
        tapp_id: 5,
        channel: "test".to_string(),
        address: "a".to_string(),
        uuid: "u".to_string(),
        auth_b64: "x".to_string(),
        msg_id: "m1".to_string(),
        ttl: 77,
    });
    assert_eq!((e.dbname.as_str(), e.msg_id.as_str(), e.utc_expired), ("test", "m1", 77));
    let del = DeleteMessageRequest {
        tapp_id: 6,
        channel: "c".to_string(),
        address: "a".to_string(),
        uuid: "u".to_string(),
        msg_id: "m2".to_string(),
        auth_b64: "x".to_string(),
        is_tapp_owner: true,
    };
    let x = delete_message_data(&del);
    assert_eq!((x.tapp_id, x.dbname.as_str(), x.msg_id.as_str()), (6, "6_c", "m2"));
    assert_eq!(
        delete_message_txn(&del, [2u8; 32]),
        TeapartyTxn::DeleteMessage { token_id: 6, from: [2u8; 32], auth_b64: "x".to_string(), is_tapp_owner: true }
    );
}

#[test]
fn message_transactions() {
    assert_eq!(
        post_message_txn(&post_req("news", None), [1u8; 32]),
        TeapartyTxn::PostMessage { token_id: 5, from: [1u8; 32], ttl: 14400, auth_b64: "auth".to_string() }
    );
    assert_eq!(
        channel::post_message_txn(&post_req("news", None), [1u8; 32]),
        TeapartyTxn::PostMessage { token_id: 5, from: [1u8; 32], ttl: 4800, auth_b64: "auth".to_string() }
    );
    let ext = ExtendMessageRequest {
        tapp_id: 5,
        channel: "c".to_string(),
        address: "a".to_string(),
        uuid: "u".to_string(),
        auth_b64: "x".to_string(),
        msg_id: "m".to_string(),
        ttl: 9,
    };
    assert_eq!(
        extend_message_txn(&ext, [0u8; 32]),
        TeapartyTxn::ExtendMessage { token_id: 5, from: [0u8; 32], ttl: 9, auth_b64: "x".to_string() }
    );
}

#[test]
fn notifications() {
    let req = NotificationAddMessageRequest {
        tapp_id: 1,
        content_b64: "aGk=".to_string(),
        from: "f".to_string(),
        to: "t".to_string(),
        uuid: "u".to_string(),
        auth_b64: "x".to_string(),
        from_tapp_id: 2,
        from_tapp_url: "url".to_string(),
    };
    assert_eq!(notification::get_add_message_ttl(&req), 2880);
    let d = notification::add_message_data(&req, "c".to_string(), 100);
    assert_eq!((d.tapp_id, d.from_tapp_id, d.utc, d.utc_expired), (1, 2, 100, 2980));
    assert_eq!((d.sender.as_str(), d.to.as_str(), d.from_tapp_url.as_str()), ("f", "t", "url"));
    assert_eq!(
        notification::add_message_txn(&req, [1u8; 32], [2u8; 32], 100),
        TeapartyTxn::AddNotificationMessage {
            token_id: 1,
            from: [1u8; 32],
            to: [2u8; 32],
            auth_b64: "x".to_string(),
            current: 100,
            ttl: 2880
        }
    );
    let q = NotificationGetMessageRequest {
        tapp_id: 1,
        address: "a".to_string(),
        from: Some("f".to_string()),
        to: None,
        auth_b64: "x".to_string(),
    };
    let g = notification::get_message_data(&q, 1);
    assert_eq!((g.utc, g.sender.as_str(), g.to.as_str()), (0, "f", ""));
}

#[test]
fn stored_ciphertext() {
    assert_eq!(party::message::ciphertext_of("AQID"), Ok(vec![1, 2, 3]));
    assert_eq!(party::message::ciphertext_of("A"), Err(BbsError::Base64));
}

#[test]
fn balance_query_key_and_login_payload() {
    let q = |a: &str| party::types::HttpQueryBalanceRequest {
        tapp_id: 1,
        address: "a".to_string(),
        uuid: "u".to_string(),
        auth_b64: a.to_string(),
    };
    assert_eq!(party::auth::balance_query_auth_key(&q("AQID")), Ok(vec![1, 2, 3]));
    assert_eq!(party::auth::balance_query_auth_key(&q("!")), Err(BbsError::Base64));
    let l = |d: &str, s: &str| party::types::PrepareLoginRequest {
        tapp_id: 1,
        address: "a".to_string(),
        data: d.to_string(),
        signature: s.to_string(),
        uuid: "u".to_string(),
    };
    assert_eq!(party::auth::login_request_payload(&l("AQID", "aGk=")), Ok((vec![1, 2, 3], b"hi".to_vec())));
    assert_eq!(party::auth::login_request_payload(&l("AQID", "?")), Err(BbsError::Base64));
    assert_eq!(party::auth::login_request_payload(&l("?", "aGk=")), Err(BbsError::Base64));
}
