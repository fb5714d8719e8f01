use party::bytes::u128_from_le_buffer;
use party::codec::decode_auth_key;
use party::error::BbsError;
use party::txn::{
    plan_txn_exec, post_message_fee, update_profile_txn, TeapartyTxn, TeapartyTxnError, TxnExecPlan,
};
use party::types::TappProfileRequest;

#[test]
fn u128_from_buffer() {
    assert_eq!(u128_from_le_buffer(&[0u8; 15]), Err(BbsError::U128TooShort));
    assert_eq!(u128_from_le_buffer(&[]), Err(BbsError::U128TooShort));
    let mut b = vec![0u8; 16];
    b[0] = 1;
    b[1] = 2;
    assert_eq!(u128_from_le_buffer(&b), Ok(513));
    b.push(0xff);
    assert_eq!(u128_from_le_buffer(&b), Ok(513));
    assert_eq!(u128_from_le_buffer(&[0xffu8; 16]), Ok(u128::MAX));
    let mut hi = vec![0u8; 16];
    hi[15] = 1;
    assert_eq!(u128_from_le_buffer(&hi), Ok(1u128 << 120));
}

#[test]
fn auth_key_decoding() {
    assert_eq!(decode_auth_key("AQAAAAAAAAAAAAAAAAAAAA=="), Some(1));
    assert_eq!(decode_auth_key("AgEAAAAAAAAAAAAAAAAAAHh5"), Some(258));
    assert_eq!(decode_auth_key("AQID"), None);
    assert_eq!(decode_auth_key("not base64!"), None);
}

#[test]
fn message_fee_by_lifetime() {
    assert_eq!(post_message_fee(0), 1_000_000_000_000);
    assert_eq!(post_message_fee(5000), 1_000_000_000_000);
    assert_eq!(post_message_fee(5001), 2_000_000_000_000);
    assert_eq!(post_message_fee(u64::MAX), 2_000_000_000_000);
}

#[test]
fn handler_actor_name() {
    assert_eq!(TeapartyTxn::get_handler_actor(), "TeapartyTxn");
}

#[test]
fn plan_for_posted_message() {
    let txn = TeapartyTxn::PostMessage {
        token_id: 9,
        from: [3u8; 32],
        ttl: 6000,
        auth_b64: "AQAAAAAAAAAAAAAAAAAAAA==".to_string(),
    };
    assert_eq!(
        plan_txn_exec(&txn),
        Ok(TxnExecPlan::ConsumeFromAccount { token_id: 9, from: [3u8; 32], amount: 2_000_000_000_000, auth_key: 1 })
    );
    let short = TeapartyTxn::PostMessage { token_id: 9, from: [3u8; 32], ttl: 10, auth_b64: "AQID".to_string() };
    assert_eq!(plan_txn_exec(&short), Err(TeapartyTxnError::ParseFailed("invalid auth key".to_string())));
}

#[test]
fn plan_for_profile_and_others() {
    let req = TappProfileRequest {
        tapp_id: 4,
        address: "a".to_string(),
        auth_b64: "AgEAAAAAAAAAAAAAAAAAAHh5".to_string(),
        uuid: "u".to_string(),
        post_message_fee: 77,
    };
    let txn = update_profile_txn(&req, [1u8; 32]);
    assert_eq!(
        txn,
        TeapartyTxn::UpdateProfile {
            acct: [1u8; 32],
            token_id: 4,
            auth_b64: "AgEAAAAAAAAAAAAAAAAAAHh5".to_string(),
            post_message_fee: 77
        }
    );
    assert_eq!(plan_txn_exec(&txn), Ok(TxnExecPlan::UpdateProfile { auth_key: 258 }));
    let other = TeapartyTxn::ExtendMessage { token_id: 1, from: [0u8; 32], ttl: 5, auth_b64: String::new() };
    assert_eq!(
        plan_txn_exec(&other),
        Err(TeapartyTxnError::ErrorMessage("Unhandled txn OP type".to_string()))
    );
}
