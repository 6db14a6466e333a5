//! The chat widget in the browser: the packets it sends and what it
//! shows of the packets it receives.

use vstd::prelude::*;
use crate::chat::protocol::{ProtocolMessage, ServerBoundPacket, ClientBoundPacket, is_serve_msg};
use crate::chat::websocket::{next_id, is_action_for, WsAction};
use crate::uuid_protocol::{SerializableUuid, uuid_text, uuid_to_string};
use crate::text::concat3;

verus! {

/// The HTML tag of the widget.
pub const CUSTOM_HTML_TAG: &'static str = "widget-chat";

/// The window property that holds the chat server's address.
pub const CHAT_WS_ADDRESS_PROP: &'static str = "CHAT_WS_ADDRESS";

/// The address of the chat's web socket on the space at `address`.
pub fn ws_address(address: &str) -> (r: String)
    ensures
        r@ == "ws://"@ + address@ + "/widget_ws/chat"@,
{
    concat3("ws://", address, "/widget_ws/chat")
}

/// What the widget sends once its socket opens: the client's id, then a
/// request for the stored messages.
pub fn connect_packets(uuid: u128) -> (r: Vec<ProtocolMessage>)
    ensures
        r@.len() == 2,
        r@[0] == ProtocolMessage::ServerBound(ServerBoundPacket::Connect(SerializableUuid(uuid))),
        r@[1] == ProtocolMessage::ServerBound(ServerBoundPacket::QueryMsg),
{
    let mut r: Vec<ProtocolMessage> = Vec::new();
    r.push(ProtocolMessage::ServerBound(ServerBoundPacket::Connect(SerializableUuid(uuid))));
    r.push(ProtocolMessage::ServerBound(ServerBoundPacket::QueryMsg));
    r
}

/// What the widget sends when the user sends `text`.
pub fn send_msg_packet(text: String) -> (r: ProtocolMessage)
    ensures
        r == ProtocolMessage::ServerBound(ServerBoundPacket::SendMsg(text)),
{
    ProtocolMessage::ServerBound(ServerBoundPacket::SendMsg(text))
}

/// The message a received packet carries, if any.
pub open spec fn received(m: ProtocolMessage) -> Option<(SerializableUuid, String)> {
    match m {
        ProtocolMessage::ClientBound(ClientBoundPacket::ServeMsg(id, text)) => Some((id, text)),
        _ => None,
    }
}

/// The sender and text of a received packet that serves a message; the
/// widget shows them as one line.
pub fn received_message(message: ProtocolMessage) -> (r: Option<(SerializableUuid, String)>)
    ensures
        r == received(message),
{
    match message {
        ProtocolMessage::ClientBound(ClientBoundPacket::ServeMsg(id, text)) => Some((id, text)),
        _ => None,
    }
}

/// The line the widget shows for a message `msg` from the client `id`:
/// the client's UUID, a colon and a space, then the text.
pub fn chat_line(id: u128, msg: &str) -> (r: String)
    ensures
        r@ == uuid_text(id) + ": "@ + msg@,
{
    let id_text = uuid_to_string(id);
    concat3(id_text.as_str(), ": ", msg)
}

/// What a widget sends after it connected reaches the chat actor as that
/// widget's message, and every packet the chat actor makes of it shows,
/// in each widget, that widget's id and the text that was sent.
pub proof fn lemma_message_round_trip(
    uuid: u128,
    text: String,
    before: Option<u128>,
    action: WsAction,
    served: ProtocolMessage,
)
    requires
        is_action_for(
            action,
            next_id(
                before,
                ProtocolMessage::ServerBound(ServerBoundPacket::Connect(SerializableUuid(uuid))),
            ),
            ProtocolMessage::ServerBound(ServerBoundPacket::SendMsg(text)),
        ),
        action matches WsAction::Broadcast(c) ==> is_serve_msg(served, c.id, c.msg@),
    ensures
        action matches WsAction::Broadcast(c) && c.id == uuid && c.msg@ == text@,
        received(served) matches Some((id, t)) && id.0 == uuid && t@ == text@,
{
}

} // verus!
