//! The example plugin's chat: plain text messages between the clients
//! connected to it.

use vstd::prelude::*;
use crate::chat::sessions::SessionTable;
use crate::uuid_protocol::{uuid_text, uuid_to_string};

verus! {

/// A text bound for one client's socket.
pub struct TextDelivery {
    pub to: u128,
    pub socket: u64,
    pub text: String,
}

/// The example chat's sessions.
pub struct Chat {
    sessions: SessionTable,
}

impl Default for Chat {
    /// No one connected.
    fn default() -> (r: Self)
        ensures
            r.sessions() == Map::<u128, u64>::empty(),
    {
        Chat { sessions: SessionTable::new() }
    }
}

impl Chat {
    /// The socket of each connected client.
    pub closed spec fn sessions(&self) -> Map<u128, u64> {
        self.sessions.view()
    }

    /// The text for `id_to`, when it is connected.
    fn send_message(&self, message: &String, id_to: u128) -> (r: Option<TextDelivery>)
        ensures
            match r {
                Some(d) => self.sessions().dom().contains(id_to) && d.to == id_to && d.socket
                    == self.sessions()[id_to] && d.text@ == message@,
                None => !self.sessions().dom().contains(id_to),
            },
    {
        match self.sessions.get(id_to) {
            Some(socket) => Some(TextDelivery { to: id_to, socket, text: message.clone() }),
            None => None,
        }
    }

    /// A client disconnects.
    pub fn disconnect(&mut self, id: u128)
        ensures
            final(self).sessions() == old(self).sessions().remove(id),
    {
        self.sessions.remove(id);
    }

    /// A client connects and is told its id.
    pub fn connect(&mut self, id: u128, addr: u64) -> (r: TextDelivery)
        ensures
            final(self).sessions() == old(self).sessions().insert(id, addr),
            r.to == id,
            r.socket == addr,
            r.text@ == "your id is "@ + uuid_text(id),
    {
        self.sessions.insert(id, addr);
        let mut text = "your id is ".to_owned();
        let id_text = uuid_to_string(id);
        text.append(id_text.as_str());
        TextDelivery { to: id, socket: addr, text }
    }

    /// A client sent `message`: it goes to every connected client once.
    pub fn client_message(&self, message: &String) -> (r: Vec<TextDelivery>)
        ensures
            r@.len() == self.sessions().dom().len(),
            forall|i: int|
                0 <= i < r@.len() ==> self.sessions().dom().contains(#[trigger] r@[i].to)
                    && r@[i].socket == self.sessions()[r@[i].to] && r@[i].text@ == message@,
            forall|i: int, j: int|
                0 <= i < r@.len() && 0 <= j < r@.len() && i != j ==> #[trigger] r@[i].to
                    != #[trigger] r@[j].to,
            forall|id: u128|
                self.sessions().dom().contains(id) ==> exists|i: int|
                    0 <= i < r@.len() && #[trigger] r@[i].to == id,
    {
        let all = self.sessions.all();
        let n = all.len();
        let mut r: Vec<TextDelivery> = Vec::new();
        let mut i: usize = 0;
        while i < n
            invariant
                n == all@.len(),
                i <= n,
                r@.len() == i,
                forall|k: int|
                    0 <= k < all@.len() ==> self.sessions().dom().contains(#[trigger] all@[k].0)
                        && self.sessions()[all@[k].0] == all@[k].1,
                forall|k: int|
                    0 <= k < i ==> #[trigger] r@[k].to == all@[k].0 && r@[k].socket == all@[k].1
                        && r@[k].text@ == message@,
            decreases n - i,
        {
            let (id_to, _) = all[i];
            match self.send_message(message, id_to) {
                Some(d) => r.push(d),
                None => {},
            }
            i = i + 1;
        }
        proof {
            assert forall|a: int, b: int|
                0 <= a < r@.len() && 0 <= b < r@.len() && a != b implies #[trigger] r@[a].to
                    != #[trigger] r@[b].to by {
                assert(all@[a].0 != all@[b].0);
            }
            assert forall|id: u128| self.sessions().dom().contains(id) implies exists|a: int|
                0 <= a < r@.len() && #[trigger] r@[a].to == id by {
                let a = choose|a: int| 0 <= a < all@.len() && #[trigger] all@[a].0 == id;
                assert(r@[a].to == id);
            }
        }
        r
    }
}

} // verus!
