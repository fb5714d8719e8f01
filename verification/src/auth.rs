//! Sessions, accounts and the symmetric key of the bulletin board.
use vstd::prelude::*;
use vstd::string::*;
use crate::error::BbsError;
use crate::txn::Account;
use crate::codec::{base64_decode, base64_decoded};
use crate::types::{HttpQueryBalanceRequest, PrepareLoginRequest};

verus! {

/// Length below which data is padded before AES encryption.
pub const AES_MIN_DATA_LEN: usize = 8;

/// Data as it is handed to AES: shorter than eight bytes, seven zero bytes
/// are appended.
pub open spec fn aes_padded(data: Seq<u8>) -> Seq<u8> {
    if data.len() < 8 {
        data + seq![0u8, 0u8, 0u8, 0u8, 0u8, 0u8, 0u8]
    } else {
        data
    }
}

/// Pads data for AES encryption: seven zero bytes go after data shorter than
/// eight bytes.
pub fn pad_for_aes(data: Vec<u8>) -> (r: Vec<u8>)
    ensures
        r@ == aes_padded(data@),
{
    let mut data = data;
    if data.len() < AES_MIN_DATA_LEN {
        let ghost start = data@;
        let mut k: usize = 0;
        while k < 7
            invariant
                k <= 7,
                data@ == start + Seq::new(k as nat, |i: int| 0u8),
            decreases 7 - k,
        {
            data.push(0u8);
            k = k + 1;
            assert(data@ =~= start + Seq::new(k as nat, |i: int| 0u8));
        }
        assert(data@ =~= aes_padded(start));
    }
    data
}

/// The AES key of the bulletin board: sixteen bytes of value eight.
pub open spec fn board_aes_key() -> Seq<u8> {
    Seq::new(16, |i: int| 8u8)
}

/// The AES key of a tapp's messages. Every tapp uses the board's key.
pub fn get_aes_key(tapp_id: &u64) -> (r: Vec<u8>)
    ensures
        r@ == board_aes_key(),
{
    let r = vec![8u8, 8, 8, 8, 8, 8, 8, 8, 8, 8, 8, 8, 8, 8, 8, 8];
    assert(r@ =~= board_aes_key());
    r
}

/// The AES key that the app store would give. It is the board's key.
pub fn get_aes_key_from_appstore() -> (r: Vec<u8>)
    ensures
        r@ == board_aes_key(),
{
    let r = vec![8u8, 8, 8, 8, 8, 8, 8, 8, 8, 8, 8, 8, 8, 8, 8, 8];
    assert(r@ =~= board_aes_key());
    r
}

/// The reply that a logged-in caller gets: the bytes of `is_login`.
pub open spec fn is_login_bytes() -> Seq<u8> {
    seq![105u8, 115u8, 95u8, 108u8, 111u8, 103u8, 105u8, 110u8]
}

/// Whether a caller is logged in: `stored` is the session key kept for the
/// caller's tapp and address, if any; the caller is logged in exactly when
/// one is kept and it equals the key the caller presents.
pub fn check_auth(stored: Option<String>, auth_b64: &str) -> (r: Result<Vec<u8>, BbsError>)
    ensures
        (stored matches Some(k) && k@ == auth_b64@) ==> (r matches Ok(v) && v@ == is_login_bytes()),
        !(stored matches Some(k) && k@ == auth_b64@) ==> r == Err::<Vec<u8>, BbsError>(BbsError::NotLogin),
{
    match stored {
        Some(k) => {
            if k == String::from_str(auth_b64) {
                let v = vec![105u8, 115, 95, 108, 111, 103, 105, 110];
                assert(v@ =~= is_login_bytes());
                Ok(v)
            } else {
                Err(BbsError::NotLogin)
            }
        },
        None => Err(BbsError::NotLogin),
    }
}

/// The account of a public key: refused unless the key is thirty-two bytes.
pub fn account_from_public_key(key: &Vec<u8>) -> (r: Result<Account, BbsError>)
    ensures
        key@.len() != 32 ==> r == Err::<Account, BbsError>(BbsError::InvalidAccount),
        key@.len() == 32 ==> (r matches Ok(a) && a@ == key@),
{
    if key.len() != 32 {
        return Err(BbsError::InvalidAccount);
    }
    let mut a: Account = [0u8; 32];
    let mut i: usize = 0;
    while i < 32
        invariant
            i <= 32,
            key@.len() == 32,
            forall|j: int| 0 <= j < i ==> a@[j] == key@[j],
        decreases 32 - i,
    {
        a[i] = key[i];
        i = i + 1;
    }
    assert(a@ =~= key@);
    Ok(a)
}

/// The bytes of a text message as they are handed to AES: its UTF-8 bytes,
/// padded.
pub fn local_plaintext(message: &str) -> (r: Vec<u8>)
    ensures
        r@ == aes_padded(message.spec_bytes()),
{
    pad_for_aes(message.as_bytes_vec())
}

/// The authorization key that a balance query carries: the caller's base64
/// session key decoded; refused when it is not base64.
pub fn balance_query_auth_key(req: &HttpQueryBalanceRequest) -> (r: Result<Vec<u8>, BbsError>)
    ensures
        base64_decoded(req.auth_b64@) matches Some(b) ==> (r matches Ok(v) && v@ == b),
        base64_decoded(req.auth_b64@) is None ==> r == Err::<Vec<u8>, BbsError>(BbsError::Base64),
{
    match base64_decode(req.auth_b64.as_str()) {
        Some(b) => Ok(b),
        None => Err(BbsError::Base64),
    }
}

/// The signed data and the signature that a login request hands to the app
/// store, both decoded from base64; refused when either is not base64.
pub fn login_request_payload(req: &PrepareLoginRequest) -> (r: Result<(Vec<u8>, Vec<u8>), BbsError>)
    ensures
        (base64_decoded(req.data@) is Some && base64_decoded(req.signature@) is Some) ==> (r matches Ok(p)
            && p.0@ == base64_decoded(req.data@).unwrap() && p.1@ == base64_decoded(req.signature@).unwrap()),
        (base64_decoded(req.data@) is None || base64_decoded(req.signature@) is None)
            ==> r == Err::<(Vec<u8>, Vec<u8>), BbsError>(BbsError::Base64),
{
    let data = match base64_decode(req.data.as_str()) {
        Some(d) => d,
        None => return Err(BbsError::Base64),
    };
    let signature = match base64_decode(req.signature.as_str()) {
        Some(s) => s,
        None => return Err(BbsError::Base64),
    };
    Ok((data, signature))
}

} // verus!
