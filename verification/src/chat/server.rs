//! The chat actor: it keeps the open sessions and decides which packets
//! go to which socket.

use vstd::prelude::*;
use crate::chat::messages::{ClientActorMessage, Connect, Disconnect, ServeMessages, StoredMessage};
use crate::chat::protocol::{ProtocolMessage, is_serve_msg, serve_msg};
use crate::chat::sessions::SessionTable;

verus! {

/// A packet bound for one client's socket.
pub struct Delivery {
    /// The client's id.
    pub to: u128,
    /// Its socket.
    pub socket: u64,
    pub packet: ProtocolMessage,
}

/// The chat's state.
pub struct Chat {
    sessions: SessionTable,
}

impl Chat {
    /// The socket of each connected client.
    pub closed spec fn sessions(&self) -> Map<u128, u64> {
        self.sessions.view()
    }

    /// A chat with no one connected.
    pub fn new() -> (r: Self)
        ensures
            r.sessions() == Map::<u128, u64>::empty(),
    {
        Chat { sessions: SessionTable::new() }
    }

    /// A client connects; a client that reconnects keeps only its new
    /// socket.
    pub fn connect(&mut self, msg: Connect)
        ensures
            final(self).sessions() == old(self).sessions().insert(msg.id, msg.addr),
    {
        self.sessions.insert(msg.id, msg.addr);
    }

    /// A client disconnects.
    pub fn disconnect(&mut self, msg: Disconnect)
        ensures
            final(self).sessions() == old(self).sessions().remove(msg.id),
    {
        self.sessions.remove(msg.id);
    }

    /// The packet for `to`, when it is connected.
    fn send_message(&self, message: &String, id_from: u128, id_to: u128) -> (r: Option<Delivery>)
        ensures
            match r {
                Some(d) => self.sessions().dom().contains(id_to) && d.to == id_to && d.socket
                    == self.sessions()[id_to] && is_serve_msg(d.packet, id_from, message@),
                None => !self.sessions().dom().contains(id_to),
            },
    {
        match self.sessions.get(id_to) {
            Some(socket) => Some(
                Delivery { to: id_to, socket, packet: serve_msg(id_from, message.clone()) },
            ),
            None => None,
        }
    }

    /// A client sent a message: it goes to every connected client, the
    /// sender included, once each, marked with the sender's id.
    pub fn broadcast(&self, msg: &ClientActorMessage) -> (r: Vec<Delivery>)
        ensures
            r@.len() == self.sessions().dom().len(),
            forall|i: int|
                0 <= i < r@.len() ==> self.sessions().dom().contains(#[trigger] r@[i].to)
                    && r@[i].socket == self.sessions()[r@[i].to] && is_serve_msg(
                    r@[i].packet,
                    msg.id,
                    msg.msg@,
                ),
            forall|i: int, j: int|
                0 <= i < r@.len() && 0 <= j < r@.len() && i != j ==> #[trigger] r@[i].to
                    != #[trigger] r@[j].to,
            forall|id: u128|
                self.sessions().dom().contains(id) ==> exists|i: int|
                    0 <= i < r@.len() && #[trigger] r@[i].to == id,
    {
        let all = self.sessions.all();
        let n = all.len();
        let mut r: Vec<Delivery> = Vec::new();
        let mut i: usize = 0;
        while i < n
            invariant
                n == all@.len(),
                i <= n,
                r@.len() == i,
                forall|k: int|
                    0 <= k < all@.len() ==> self.sessions().dom().contains(#[trigger] all@[k].0)
                        && self.sessions()[all@[k].0] == all@[k].1,
                forall|k: int|
                    0 <= k < i ==> #[trigger] r@[k].to == all@[k].0 && r@[k].socket == all@[k].1
                        && is_serve_msg(r@[k].packet, msg.id, msg.msg@),
            decreases n - i,
        {
            let (id_to, _) = all[i];
            match self.send_message(&msg.msg, msg.id, id_to) {
                Some(d) => r.push(d),
                None => {},
            }
            i = i + 1;
        }
        proof {
            assert forall|a: int, b: int|
                0 <= a < r@.len() && 0 <= b < r@.len() && a != b implies #[trigger] r@[a].to
                    != #[trigger] r@[b].to by {
                assert(all@[a].0 != all@[b].0);
            }
            assert forall|id: u128| self.sessions().dom().contains(id) implies exists|a: int|
                0 <= a < r@.len() && #[trigger] r@[a].to == id by {
                let a = choose|a: int| 0 <= a < all@.len() && #[trigger] all@[a].0 == id;
                assert(r@[a].to == id);
            }
        }
        r
    }

    /// A client asked for the stored messages: each goes to that client,
    /// in order, marked with its sender's id; nothing goes out when the
    /// client is not connected.
    pub fn serve_messages(&self, request: &ServeMessages, stored: &Vec<StoredMessage>) -> (r: Vec<
        Delivery,
    >)
        ensures
            self.sessions().dom().contains(request.id) ==> {
                &&& r@.len() == stored@.len()
                &&& forall|i: int|
                    0 <= i < r@.len() ==> #[trigger] r@[i].to == request.id && r@[i].socket
                        == self.sessions()[request.id] && is_serve_msg(
                        r@[i].packet,
                        stored@[i].user_id,
                        stored@[i].message_text@,
                    )
            },
            !self.sessions().dom().contains(request.id) ==> r@.len() == 0,
    {
        let n = stored.len();
        let mut r: Vec<Delivery> = Vec::new();
        let mut i: usize = 0;
        while i < n
            invariant
                n == stored@.len(),
                i <= n,
                self.sessions().dom().contains(request.id) ==> r@.len() == i,
                !self.sessions().dom().contains(request.id) ==> r@.len() == 0,
                forall|k: int|
                    0 <= k < r@.len() ==> #[trigger] r@[k].to == request.id && r@[k].socket
                        == self.sessions()[request.id] && is_serve_msg(
                        r@[k].packet,
                        stored@[k].user_id,
                        stored@[k].message_text@,
                    ),
            decreases n - i,
        {
            let m = &stored[i];
            match self.send_message(&m.message_text, m.user_id, request.id) {
                Some(d) => r.push(d),
                None => {},
            }
            i = i + 1;
        }
        r
    }
}

/// A client that connects and disconnects leaves the other sessions as
/// they were.
pub proof fn lemma_connect_disconnect(sessions: Map<u128, u64>, id: u128, socket: u64)
    requires
        !sessions.dom().contains(id),
    ensures
        sessions.insert(id, socket).remove(id) == sessions,
{
    assert(sessions.insert(id, socket).remove(id) =~= sessions);
}

} // verus!
