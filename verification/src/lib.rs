//! Cross-chain atomic swap core.
//!
//! Two parties who do not trust each other exchange a primary coin for a
//! secondary one, so that either both sides settle or both take their coins
//! back. This library holds what that exchange has to get right:
//!
//! - [`message`] and [`codec`]: the messages of the protocol and their wire
//!   form;
//! - [`machine`]: the state machine of a trade, with its deadlines and its
//!   refund branches, and [`laws`]: what holds of every step of it;
//! - [`record`]: the durable record of a trade and the store of records;
//! - [`multisig`]: the two halves of a two-party signature;
//! - [`autoswap`]: the decisions of the loop that drives a trade;
//! - [`swap`] and [`command`]: the operator's commands, as plans of calls;
//! - [`json`] and [`encoding`]: documents, hexadecimal and decimal text.
//!
//! The library makes no call to a wallet, a node or a file. It decides, and
//! says what is to be done.

pub mod autoswap;
pub mod codec;
pub mod command;
pub mod encoding;
pub mod error;
pub mod json;
pub mod laws;
pub mod machine;
pub mod message;
pub mod multisig;
pub mod record;
pub mod swap;
pub mod types;
