//! The registry of connected clients: who is connected, under which id,
//! and which id the next connection gets.
//!
//! Ids are handed out in increasing order, so that no two connections ever
//! share one.

use std::collections::HashMap;
use vstd::prelude::*;

verus! {

broadcast use vstd::std_specs::hash::group_hash_axioms;

/// The id of one connection.
pub type ClientId = u64;

/// One connected client.
#[derive(Clone, Debug)]
pub struct ClientRegistration {
    /// The id of the connection; no other connection ever has it.
    pub client_id: ClientId,
    /// The address of the peer.
    pub peer_address: String,
}

/// The clients that are connected, and the id of the next one.
pub struct ClientRegistry {
    next_client_id: ClientId,
    clients: HashMap<ClientId, String>,
}

impl ClientRegistry {
    /// The id that the next connection gets.
    pub closed spec fn next_id(self) -> ClientId {
        self.next_client_id
    }

    /// The peer address of each registered client, under the client's id.
    pub closed spec fn peers(self) -> Map<ClientId, String> {
        self.clients@
    }

    /// Whether every registered id was handed out before: it lies below the
    /// id that comes next.
    pub open spec fn well_formed(self) -> bool {
        forall|id: ClientId| self.peers().contains_key(id) ==> id < self.next_id()
    }

    /// The registry without clients, which hands out id 0 first.
    pub fn new() -> (r: ClientRegistry)
        ensures
            r.next_id() == 0,
            r.peers() == Map::<ClientId, String>::empty(),
            r.well_formed(),
    {
        ClientRegistry { next_client_id: 0, clients: HashMap::new() }
    }

    /// The id that the next connection gets.
    pub fn next_client_id(&self) -> (r: ClientId)
        ensures
            r == self.next_id(),
    {
        self.next_client_id
    }

    /// Hands out the next id. The ids go up by one; after the largest id the
    /// count starts over at 0.
    pub fn allocate_id(&mut self) -> (r: ClientId)
        ensures
            r == old(self).next_id(),
            final(self).peers() == old(self).peers(),
            final(self).next_id() == if old(self).next_id() == u64::MAX {
                0
            } else {
                (old(self).next_id() + 1) as u64
            },
            old(self).well_formed() ==> !old(self).peers().contains_key(r),
            old(self).well_formed() && r < u64::MAX ==> final(self).well_formed(),
    {
        let id = self.next_client_id;
        self.next_client_id = if id == u64::MAX {
            0
        } else {
            id + 1
        };
        id
    }

    /// Enters a client under its id. An earlier entry under the same id is
    /// replaced.
    pub fn register(&mut self, client_id: ClientId, peer_address: String)
        ensures
            final(self).peers() == old(self).peers().insert(client_id, peer_address),
            final(self).next_id() == old(self).next_id(),
            old(self).well_formed() && client_id < old(self).next_id() ==> final(self)
                .well_formed(),
    {
        self.clients.insert(client_id, peer_address);
    }

    /// Takes the client with the given id out. Tells whether there was one.
    pub fn unregister(&mut self, client_id: ClientId) -> (r: bool)
        ensures
            r == old(self).peers().contains_key(client_id),
            final(self).peers() == old(self).peers().remove(client_id),
            final(self).next_id() == old(self).next_id(),
            old(self).well_formed() ==> final(self).well_formed(),
    {
        let removed = self.clients.remove(&client_id);
        proof {
            assert(final(self).peers() =~= old(self).peers().remove(client_id));
            if old(self).well_formed() {
                assert forall|id: ClientId| self.peers().contains_key(id) implies id
                    < self.next_id() by {
                    assert(old(self).peers().contains_key(id));
                }
            }
        }
        removed.is_some()
    }

    /// Tells whether a client is registered under the given id.
    pub fn is_registered(&self, client_id: ClientId) -> (r: bool)
        ensures
            r == self.peers().contains_key(client_id),
    {
        self.clients.contains_key(&client_id)
    }

    /// The registration under the given id, where there is one.
    pub fn registration(&self, client_id: ClientId) -> (r: Option<ClientRegistration>)
        ensures
            r is Some <==> self.peers().contains_key(client_id),
            r matches Some(found) ==> found.client_id == client_id && found.peer_address@
                == self.peers()[client_id]@,
    {
        match self.clients.get(&client_id) {
            Some(peer_address) => Some(
                ClientRegistration { client_id, peer_address: peer_address.clone() },
            ),
            None => None,
        }
    }

    /// The number of clients that are registered.
    pub fn client_count(&self) -> (r: usize)
        ensures
            r == self.peers().len(),
    {
        self.clients.len()
    }

    /// Registers a new connection from `peer_address` under a fresh id.
    pub fn accept(&mut self, peer_address: String) -> (r: ClientId)
        ensures
            r == old(self).next_id(),
            final(self).peers() == old(self).peers().insert(r, peer_address),
            old(self).well_formed() ==> !old(self).peers().contains_key(r),
            old(self).well_formed() && r < u64::MAX ==> final(self).well_formed(),
    {
        let id = self.allocate_id();
        self.register(id, peer_address);
        id
    }
}

} // verus!
