use party::query::{executed_txn_query_hash, query_reply, tappstore_reply, QueryReply, QueryValue, TappstoreResponse};
use party::types::QueryHashRequest;
use party::error::BbsError;
use party::p2p::{get_all_active_a_nodes, nodes_to_send, MiningCml};
use party::query::{
    balance_reply, callback_action, executed_txn_status, followup_reply, session_auth_b64, sm_callback_action,
    CallbackAction, TxnStatus,
};
use party::routing::{
    adapter_handles, http_action, route_state_subject, route_subject, should_reply, split_at_char, starts_with,
    HttpAction, StateRoute, SubjectRoute,
};
use party::topup::{confirm_app_id_is_myself, confirm_receive_acct_is_my_app_acct, top_up_amount};

#[test]
fn splitting_subjects() {
    assert_eq!(split_at_char("tea.system.init", '.'), vec!["tea", "system", "init"]);
    assert_eq!(split_at_char("", '.'), vec![""]);
    assert_eq!(split_at_char("a..b.", '.'), vec!["a", "", "b", ""]);
    assert_eq!(split_at_char("né.ü", '.'), vec!["né", "ü"]);
}

#[test]
fn broker_subjects() {
    assert_eq!(route_subject("tea.system.init"), SubjectRoute::SystemInit);
    assert_eq!(route_subject("actor.tapp_bbs.echo"), SubjectRoute::Echo);
    assert_eq!(route_subject("actor.tapp_bbs.echo.x.y"), SubjectRoute::Echo);
    assert_eq!(route_subject("adapter.http"), SubjectRoute::Adapter("http".to_string()));
    assert_eq!(route_subject("layer1.event"), SubjectRoute::Layer1Event);
    assert_eq!(route_subject("tea.system.init.more"), SubjectRoute::Ignored);
    assert_eq!(route_subject("adapter"), SubjectRoute::Ignored);
    assert_eq!(route_subject("layer1.event.x"), SubjectRoute::Ignored);
    assert_eq!(route_state_subject("tea.system.init"), StateRoute::SystemInit);
    assert_eq!(route_state_subject("actor.tapp_bbs.echo"), StateRoute::Ignored);
}

#[test]
fn echo_and_adapter() {
    assert!(should_reply("reply.123"));
    assert!(!should_reply("rep"));
    assert!(!should_reply("no_reply"));
    assert!(starts_with("abc", ""));
    assert!(adapter_handles("http"));
    assert!(!adapter_handles("ipfs"));
}

#[test]
fn http_actions() {
    assert_eq!(http_action("loginPrepare"), Ok(HttpAction::LoginPrepare));
    assert_eq!(http_action("login"), Ok(HttpAction::Login));
    assert_eq!(http_action("logout"), Ok(HttpAction::Logout));
    assert_eq!(http_action("postMessage"), Ok(HttpAction::PostMessage));
    assert_eq!(http_action("loadMessageList"), Ok(HttpAction::LoadMessageList));
    assert_eq!(http_action("extendMessage"), Ok(HttpAction::ExtendMessage));
    assert_eq!(http_action("deleteMessage"), Ok(HttpAction::DeleteMessage));
    assert_eq!(http_action("postmessage"), Err(BbsError::DiscardMessage));
}

fn cml(t: &str, s: &str, id: u8) -> MiningCml {
    MiningCml { cml_type: t.to_string(), miner_status: s.to_string(), tea_id: vec![id] }
}

#[test]
fn active_nodes_and_targets() {
    let cmls = vec![cml("A", "Active", 1), cml("B", "Active", 2), cml("A", "Pending", 3), cml("A", "Active", 4)];
    assert_eq!(get_all_active_a_nodes(&cmls), vec![vec![1u8], vec![4u8]]);
    assert_eq!(nodes_to_send(&vec![]), Err(BbsError::NoActiveNodes));
    assert_eq!(nodes_to_send(&vec![vec![1u8]]), Ok(vec![vec![1u8]]));
    assert_eq!(nodes_to_send(&vec![vec![1u8], vec![2u8]]), Ok(vec![vec![1u8], vec![2u8]]));
    let many: Vec<Vec<u8>> = (0u8..5).map(|i| vec![i]).collect();
    assert_eq!(nodes_to_send(&many), Ok(vec![vec![0u8], vec![1u8], vec![2u8]]));
}

#[test]
fn callbacks() {
    assert_eq!(callback_action("post_message"), CallbackAction::PostMessage);
    assert_eq!(callback_action("extend_message"), CallbackAction::ExtendMessage);
    assert_eq!(callback_action("delete_message"), CallbackAction::DeleteMessage);
    assert_eq!(callback_action("withdraw"), CallbackAction::Withdraw);
    assert_eq!(callback_action("notification_add_message"), CallbackAction::NotificationAddMessage);
    assert_eq!(callback_action("login_request"), CallbackAction::LoginRequest);
    assert_eq!(callback_action("other"), CallbackAction::Other);
    assert_eq!(sm_callback_action("extend_message"), CallbackAction::Other);
    assert_eq!(sm_callback_action("post_message"), CallbackAction::PostMessage);
    assert_eq!(sm_callback_action("login_request"), CallbackAction::LoginRequest);
}

#[test]
fn query_replies() {
    assert_eq!(executed_txn_status(true, true), TxnStatus::Executed);
    assert_eq!(executed_txn_status(true, false), TxnStatus::Wait);
    assert_eq!(executed_txn_status(false, true), TxnStatus::Failed);
    let mut b = vec![0u8; 16];
    b[0] = 0x10;
    b[1] = 0x27;
    let r = balance_reply(&b, &[1u8; 16], "u1").unwrap();
    assert_eq!(r.balance, "10000");
    assert_eq!(r.ts, "1334440654591915542993625911497130241");
    assert_eq!(r.uuid, "u1");
    assert_eq!(balance_reply(&b, &[1u8; 15], "u1"), Err(BbsError::U128TooShort));
    let f = followup_reply(&[0u8; 16], &[0x0a, 0xff], &[0x00, 0x10], "u2").unwrap();
    assert_eq!((f.ts.as_str(), f.hash.as_str(), f.sender.as_str(), f.uuid.as_str()), ("0", "0aff", "0010", "u2"));
    assert_eq!(followup_reply(&[0u8; 3], &[], &[], "u"), Err(BbsError::U128TooShort));
    assert_eq!(session_auth_b64(&[1, 2, 3]), "AQID");
}

#[test]
fn top_ups() {
    assert!(confirm_app_id_is_myself(7));
    assert!(confirm_receive_acct_is_my_app_acct("x"));
    assert_eq!(top_up_amount("x", 1, vec![0x10, 0x27]), Ok(10000));
    assert_eq!(top_up_amount("x", 1, vec![]), Ok(0));
    let mut too_big = vec![0u8; 16];
    too_big.push(1);
    assert_eq!(top_up_amount("x", 1, too_big), Err(BbsError::ConvertToU128));
    let mut fits = vec![0xffu8; 16];
    fits.push(0);
    assert_eq!(top_up_amount("x", 1, fits), Ok(u128::MAX));
}

#[test]
fn executed_txn_hash_from_hex() {
    let req = |h: &str| QueryHashRequest { uuid: "u".to_string(), hash: h.to_string() };
    assert_eq!(executed_txn_query_hash(&req("0aFf10")), Ok(vec![0x0a, 0xff, 0x10]));
    assert_eq!(executed_txn_query_hash(&req("")), Ok(vec![]));
    assert_eq!(executed_txn_query_hash(&req("abc")), Err(BbsError::InvalidHex));
    assert_eq!(executed_txn_query_hash(&req("zz")), Err(BbsError::InvalidHex));
    assert_eq!(executed_txn_query_hash(&req("é1")), Err(BbsError::InvalidHex));
}

#[test]
fn tappstore_and_query_replies() {
    assert_eq!(tappstore_reply(TappstoreResponse::NoMessage, "u"), Ok(QueryReply::NoMessage));
    let mut b = vec![0u8; 16];
    b[0] = 5;
    match tappstore_reply(TappstoreResponse::TeaBalance { balance: b.clone(), ts: b.clone() }, "u").unwrap() {
        QueryReply::Balance(r) => assert_eq!((r.balance.as_str(), r.ts.as_str(), r.uuid.as_str()), ("5", "5", "u")),
        other => panic!("unexpected {:?}", other),
    }
    assert_eq!(
        tappstore_reply(TappstoreResponse::TeaBalance { balance: vec![1], ts: b.clone() }, "u"),
        Err(BbsError::U128TooShort)
    );
    let find = |s: bool, e: bool| TappstoreResponse::FindExecutedTxn { success: s, has_executed_txn: e, error_msg: "bad".to_string() };
    assert_eq!(tappstore_reply(find(true, true), "u"), Ok(QueryReply::RunTxnCallback("u".to_string())));
    assert_eq!(tappstore_reply(find(true, false), "u"), Ok(QueryReply::TxnWait));
    assert_eq!(tappstore_reply(find(false, true), "u"), Ok(QueryReply::TxnFailed("bad".to_string())));
    assert_eq!(
        tappstore_reply(
            TappstoreResponse::CheckUserSession { aes_key: vec![9], auth_key: vec![1, 2, 3], token_id: 4, account: "a".to_string() },
            "u"
        ),
        Ok(QueryReply::SaveSession { auth_b64: "AQID".to_string(), aes_key: vec![9], token_id: 4, account: "a".to_string() })
    );
    assert_eq!(
        tappstore_reply(TappstoreResponse::ConsumeAccountPubkey { address: "x".to_string() }, "u"),
        Ok(QueryReply::Address("x".to_string()))
    );
    assert_eq!(
        tappstore_reply(TappstoreResponse::CommonSqlQuery { err: "e".to_string(), data: vec![1] }, "u"),
        Ok(QueryReply::SqlError("e".to_string()))
    );
    assert_eq!(
        tappstore_reply(TappstoreResponse::CommonSqlQuery { err: String::new(), data: vec![1] }, "u"),
        Ok(QueryReply::SqlRows(vec![1]))
    );
    assert_eq!(tappstore_reply(TappstoreResponse::Other, "u"), Ok(QueryReply::UnknownTappstoreResponse));
    assert_eq!(query_reply(QueryValue::Direct), Ok(QueryReply::Pending));
    assert_eq!(query_reply(QueryValue::OrbitBbs), Ok(QueryReply::OrbitOk));
    assert_eq!(query_reply(QueryValue::Undecodable), Ok(QueryReply::UnknownValue));
    assert_eq!(query_reply(QueryValue::OtherReceiverMessage), Ok(QueryReply::UnknownReceiverResponse));
    assert_eq!(query_reply(QueryValue::GeneralQuery { response: TappstoreResponse::Other, uuid: "u".to_string() }), Ok(QueryReply::UnknownTappstoreResponse));
    assert_eq!(query_reply(QueryValue::GeneralQuery { response: find(true, true), uuid: "q7".to_string() }), Ok(QueryReply::RunTxnCallback("q7".to_string())));
    match query_reply(QueryValue::CommandFollowup { ts: vec![0u8; 16], hash: vec![0xab], sender: vec![1], uuid: "f1".to_string() }).unwrap() {
        QueryReply::Followup(f) => assert_eq!((f.ts.as_str(), f.hash.as_str(), f.sender.as_str(), f.uuid.as_str()), ("0", "ab", "01", "f1")),
        other => panic!("unexpected {:?}", other),
    }
}

#[test]
fn stored_content_reads_back() {
    let c = vec![0u8, 255, 7, 42, 13];
    let text = party::message::stored_content(&c);
    assert_eq!(text, "AP8HKg0=");
    assert_eq!(party::message::ciphertext_of(&text), Ok(c));
}
