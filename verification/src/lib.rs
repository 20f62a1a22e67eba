//! The core of a chat bot that lets a user speak under identities of their own
//! making: the command grammar, the store of identities and switches, and the
//! protocol by which a message is relayed under an identity.
//!
//! Nothing here touches the network or the disk. A host hands each message to
//! [`dispatch::begin`], does what the returned [`protocol::Action`] asks, and
//! reports the outcome to [`dispatch::advance`] until the handling is over.

pub mod command;
pub mod database;
pub mod dispatch;
pub mod laws;
pub mod protocol;
pub mod replies;
pub mod text;
