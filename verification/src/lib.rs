//! Verified core of the tea party bulletin-board actors: storage key names,
//! message and notification planning, transaction planning, the balance
//! ledger, routing of broker subjects and the interpretation of query replies.
#![allow(unused_imports)]

pub mod text;
pub mod keys;
pub mod amount;
pub mod ledger;
pub mod error;
pub mod bytes;
pub mod types;
pub mod codec;
pub mod txn;
pub mod auth;
pub mod message;
pub mod channel;
pub mod notification;
pub mod routing;
pub mod p2p;
pub mod query;
pub mod topup;
