//! The packets that the chat's clients and server exchange. Each packet
//! travels as one binary web socket message; the variants are numbered
//! in the order they are declared here.

use vstd::prelude::*;
use crate::uuid_protocol::SerializableUuid;

verus! {

/// A chat packet, by direction.
#[derive(Debug, PartialEq)]
pub enum ProtocolMessage {
    ServerBound(ServerBoundPacket),
    ClientBound(ClientBoundPacket),
}

/// What a client sends to the server.
#[derive(Debug, PartialEq)]
pub enum ServerBoundPacket {
    /// Send a message to everyone connected.
    SendMsg(String),
    Disconnect,
    /// Ask for the stored messages.
    QueryMsg,
    /// Announce the client's id; sent first.
    Connect(SerializableUuid),
}

/// What the server sends to a client.
#[derive(Debug, PartialEq)]
pub enum ClientBoundPacket {
    /// A message: the id of its sender and its text.
    ServeMsg(SerializableUuid, String),
}

/// `p` serves the message `text` from `from`.
pub open spec fn is_serve_msg(p: ProtocolMessage, from: u128, text: Seq<char>) -> bool {
    p matches ProtocolMessage::ClientBound(ClientBoundPacket::ServeMsg(id, t)) && id.0 == from
        && t@ == text
}

/// The packet that serves the message `text` from `from`.
pub fn serve_msg(from: u128, text: String) -> (p: ProtocolMessage)
    ensures
        is_serve_msg(p, from, text@),
{
    ProtocolMessage::ClientBound(ClientBoundPacket::ServeMsg(SerializableUuid(from), text))
}

} // verus!
