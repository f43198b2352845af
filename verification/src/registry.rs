//! The socket registry: a mapping from an opaque socket identifier to that
//! socket's inbound event queue.  The relay worker fills the queues, the
//! worker's blocking read drains them; for one socket the queue keeps the
//! order the stream produced, which is the ordering guarantee the
//! dispatcher relies on.

use vstd::prelude::*;
use std::collections::HashMap;
use crate::event::LeagueEvent;

verus! {

broadcast use vstd::std_specs::hash::group_hash_axioms;

/// Per-socket inbound event queues, keyed by socket identifier.
pub struct SocketRegistry {
    queues: HashMap<i32, Vec<LeagueEvent>>,
}

impl View for SocketRegistry {
    type V = Map<i32, Seq<LeagueEvent>>;

    /// The registry as a map from socket identifier to the queued events,
    /// front of the queue first.
    closed spec fn view(&self) -> Map<i32, Seq<LeagueEvent>> {
        Map::new(
            |id: i32| self.queues@.dom().contains(id),
            |id: i32| self.queues@[id]@,
        )
    }
}

impl SocketRegistry {
    /// An empty registry.
    pub fn new() -> (r: SocketRegistry)
        ensures
            r@ == Map::<i32, Seq<LeagueEvent>>::empty(),
    {
        let r = SocketRegistry { queues: HashMap::new() };
        proof {
            assert(r@ =~= Map::<i32, Seq<LeagueEvent>>::empty());
        }
        r
    }

    /// Whether a socket is registered.
    pub fn contains_socket(&self, id: i32) -> (r: bool)
        ensures
            r == self@.contains_key(id),
    {
        self.queues.contains_key(&id)
    }

    /// Register a socket, giving it a fresh empty queue; an existing queue
    /// under the same identifier is replaced.
    pub fn create_socket(&mut self, id: i32)
        ensures
            final(self)@ == old(self)@.insert(id, Seq::<LeagueEvent>::empty()),
    {
        let fresh: Vec<LeagueEvent> = Vec::new();
        self.queues.insert(id, fresh);
        proof {
            assert(final(self)@ =~= old(self)@.insert(id, Seq::<LeagueEvent>::empty()));
        }
    }

    /// Remove a socket and whatever its queue still holds.
    pub fn delete_socket(&mut self, id: i32)
        ensures
            final(self)@ == old(self)@.remove(id),
    {
        self.queues.remove(&id);
        proof {
            assert(final(self)@ =~= old(self)@.remove(id));
        }
    }

    /// Append one event to a socket's queue.  Returns whether the socket
    /// was registered; an event for an unregistered socket is dropped.
    pub fn push_event(&mut self, id: i32, event: LeagueEvent) -> (ok: bool)
        ensures
            ok == old(self)@.contains_key(id),
            ok ==> final(self)@ == old(self)@.insert(id, old(self)@[id].push(event)),
            !ok ==> final(self)@ == old(self)@,
    {
        match self.queues.remove(&id) {
            Some(mut queue) => {
                queue.push(event);
                self.queues.insert(id, queue);
                proof {
                    assert(final(self)@ =~= old(self)@.insert(id, old(self)@[id].push(event)));
                }
                true
            },
            None => {
                proof {
                    assert(final(self)@ =~= old(self)@);
                }
                false
            },
        }
    }

    /// Take the oldest queued event of a socket, if there is one.  The
    /// queue keeps its order; nothing else changes.
    pub fn pop_event(&mut self, id: i32) -> (r: Option<LeagueEvent>)
        ensures
            match r {
                Some(event) => {
                    &&& old(self)@.contains_key(id)
                    &&& old(self)@[id].len() > 0
                    &&& event == old(self)@[id][0]
                    &&& final(self)@ == old(self)@.insert(id, old(self)@[id].drop_first())
                },
                None => {
                    &&& final(self)@ == old(self)@
                    &&& (old(self)@.contains_key(id) ==> old(self)@[id].len() == 0)
                },
            },
    {
        match self.queues.remove(&id) {
            Some(mut queue) => {
                if queue.len() > 0 {
                    let event = queue.remove(0);
                    self.queues.insert(id, queue);
                    proof {
                        assert(old(self)@[id].remove(0) =~= old(self)@[id].drop_first());
                        assert(final(self)@ =~= old(self)@.insert(
                            id,
                            old(self)@[id].drop_first(),
                        ));
                    }
                    Some(event)
                } else {
                    self.queues.insert(id, queue);
                    proof {
                        assert(final(self)@ =~= old(self)@);
                    }
                    None
                }
            },
            None => {
                proof {
                    assert(final(self)@ =~= old(self)@);
                }
                None
            },
        }
    }
}

} // verus!
