//! Errors of the library, each with the text the actors report for it.
use vstd::prelude::*;

verus! {

/// Why a request or a reply was refused.
#[derive(Debug, Clone, Copy, PartialEq, Eq, Structural)]
pub enum BbsError {
    /// A `u128` was read from fewer than sixteen bytes.
    U128TooShort,
    /// The caller has no session, or another one.
    NotLogin,
    /// A public key is not thirty-two bytes long.
    InvalidAccount,
    /// No active A node is known to send to.
    NoActiveNodes,
    /// Text that should be base64 is not.
    Base64,
    /// A top-up amount does not fit in a `u128`.
    ConvertToU128,
    /// A top-up was not sent to this tapp's receiving account.
    NotMyAccount,
    /// A top-up is for another tapp.
    NotMyApp,
    /// The message is not for this actor.
    DiscardMessage,
    /// Text that should be hex is not.
    InvalidHex,
}

} // verus!
