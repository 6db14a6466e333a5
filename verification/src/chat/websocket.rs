//! One client's web socket: it learns the client's id from the client's
//! first packet and turns the client's packets into messages for the
//! chat actor.

use vstd::prelude::*;
use crate::chat::messages::{ClientActorMessage, Disconnect, ServeMessages};
use crate::chat::protocol::{ProtocolMessage, ServerBoundPacket};

verus! {

/// What the socket asks the chat actor to do.
pub enum WsAction {
    Nothing,
    /// Send the client's message to everyone connected.
    Broadcast(ClientActorMessage),
    /// Register the client, under this id, with the socket's address.
    Connect(u128),
    /// Send the stored messages to the client.
    Serve(ServeMessages),
}

/// The web socket of one client.
pub struct WsConn {
    /// The client's id, once it announced it.
    pub id: Option<u128>,
}

/// The client's id after the socket received `m`.
pub open spec fn next_id(id: Option<u128>, m: ProtocolMessage) -> Option<u128> {
    match m {
        ProtocolMessage::ServerBound(ServerBoundPacket::Connect(u)) => Some(u.0),
        _ => id,
    }
}

/// `a` is what the socket asks for on receiving `m` while the client's id
/// is `id`: a packet that needs the id does nothing before the client
/// announced it.
pub open spec fn is_action_for(a: WsAction, id: Option<u128>, m: ProtocolMessage) -> bool {
    match m {
        ProtocolMessage::ServerBound(ServerBoundPacket::SendMsg(text)) => match id {
            Some(u) => a matches WsAction::Broadcast(c) && c.id == u && c.msg@ == text@,
            None => a is Nothing,
        },
        ProtocolMessage::ServerBound(ServerBoundPacket::Connect(u)) => a matches WsAction::Connect(
            v,
        ) && v == u.0,
        ProtocolMessage::ServerBound(ServerBoundPacket::QueryMsg) => match id {
            Some(u) => a matches WsAction::Serve(s) && s.id == u,
            None => a is Nothing,
        },
        _ => a is Nothing,
    }
}

impl WsConn {
    /// A socket whose client has not announced its id.
    pub fn new() -> (r: Self)
        ensures
            r.id is None,
    {
        WsConn { id: None }
    }

    /// Handles a packet from the client.
    pub fn handle_binary_msg(&mut self, message: ProtocolMessage) -> (r: WsAction)
        ensures
            final(self).id == next_id(old(self).id, message),
            is_action_for(r, old(self).id, message),
    {
        let packet = match message {
            ProtocolMessage::ServerBound(p) => p,
            ProtocolMessage::ClientBound(_) => {
                return WsAction::Nothing;
            },
        };
        match packet {
            ServerBoundPacket::SendMsg(msg) => match self.id {
                Some(id) => WsAction::Broadcast(ClientActorMessage { id, msg }),
                None => WsAction::Nothing,
            },
            ServerBoundPacket::Connect(id) => {
                let uuid = core::ops::Not::not(id);
                self.id = Some(uuid);
                WsAction::Connect(uuid)
            },
            ServerBoundPacket::Disconnect => WsAction::Nothing,
            ServerBoundPacket::QueryMsg => match self.id {
                Some(id) => WsAction::Serve(ServeMessages { id }),
                None => WsAction::Nothing,
            },
        }
    }

    /// The socket closes: the chat actor is told, when the client had
    /// announced its id.
    pub fn stopping(&self) -> (r: Option<Disconnect>)
        ensures
            match self.id {
                Some(u) => r matches Some(d) && d.id == u,
                None => r is None,
            },
    {
        match self.id {
            Some(id) => Some(Disconnect { id }),
            None => None,
        }
    }
}

} // verus!
