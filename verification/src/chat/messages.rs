//! The messages between a client's web socket actor and the chat actor.

use vstd::prelude::*;
use crate::chat::protocol::ProtocolMessage;

verus! {

/// A packet to send to a client.
pub struct WsMessage(pub ProtocolMessage);

/// A client connects: its id and the handle of its socket.
pub struct Connect {
    pub addr: u64,
    pub id: u128,
}

/// A client disconnects.
pub struct Disconnect {
    pub id: u128,
}

/// A client sent a chat message.
pub struct ClientActorMessage {
    pub id: u128,
    pub msg: String,
}

/// A client asks for the stored messages.
pub struct ServeMessages {
    pub id: u128,
}

/// A stored chat message: its sender and its text.
pub struct StoredMessage {
    pub user_id: u128,
    pub message_text: String,
}

} // verus!
