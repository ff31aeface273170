//! The inbound message shapes as the messaging gateway delivers them,
//! reduced to plain values. Parsing the gateway's JSON into these shapes is
//! an external concern.
use vstd::prelude::*;

verus! {

/// One webhook delivery.
#[derive(Debug, Clone, PartialEq)]
pub struct TelegramUpdate {
    pub message: Option<TelegramMessage>,
}

/// One inbound message: sender identity, conversation identity, and an
/// optional text body.
#[derive(Debug, Clone, PartialEq)]
pub struct TelegramMessage {
    pub from: Option<TelegramUser>,
    pub chat: TelegramChat,
    pub text: Option<String>,
}

/// The sender as the gateway identifies it.
#[derive(Debug, Clone, PartialEq)]
pub struct TelegramUser {
    pub id: i64,
    pub username: Option<String>,
}

/// The conversation the reply is addressed to.
#[derive(Debug, Clone, PartialEq)]
pub struct TelegramChat {
    pub id: i64,
}

} // verus!
