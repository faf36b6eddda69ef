//! The custom swarm behaviour's bookkeeping: which addresses the node
//! listens on and which connections are open, with one line of output per
//! change.

use vstd::prelude::*;
use vstd::string::StringExecFns;
use crate::text::{dec_u64, line, spec_dec};

verus! {

/// A swarm event this behaviour reacts to.
#[derive(Debug)]
pub enum SwarmEvent {
    /// A new listening address was bound.
    NewListenAddr { addr: String },
    /// An externally observed address was confirmed.
    ExternalAddrConfirmed { addr: String },
    /// A connection to a peer was established.
    ConnectionEstablished { connection_id: u64, peer_id: String },
    /// A connection to a peer was closed.
    ConnectionClosed { connection_id: u64 },
    /// Anything else is ignored.
    Other,
}

/// Tracks the node's listening addresses and open connections.
pub struct Behaviour {
    listener_addrs: Vec<String>,
    connections: Vec<(u64, String)>,
}

impl Behaviour {
    /// The listening addresses, in the order first seen.
    pub closed spec fn spec_addr_list(self) -> Seq<Seq<char>> {
        Seq::new(self.listener_addrs@.len(), |i: int| self.listener_addrs@[i]@)
    }

    /// The open connections: identifier and peer, in order.
    pub closed spec fn spec_conns(self) -> Seq<(u64, Seq<char>)> {
        Seq::new(self.connections@.len(), |i: int| (self.connections@[i].0, self.connections@[i].1@))
    }

    /// Whether this address is already known.
    pub open spec fn spec_has_addr(self, a: Seq<char>) -> bool {
        exists|i: int| 0 <= i < self.spec_addr_list().len() && self.spec_addr_list()[i] == a
    }

    /// Whether a connection with this identifier is open.
    pub open spec fn spec_has_conn(self, id: u64) -> bool {
        exists|i: int| 0 <= i < self.spec_conns().len() && self.spec_conns()[i].0 == id
    }

    /// The number of open connections.
    pub open spec fn spec_conn_count(self) -> nat {
        self.spec_conns().len()
    }

    /// Addresses are stored once each, and connection identifiers are
    /// unique.
    pub open spec fn well_formed(self) -> bool {
        &&& forall|i: int, j: int|
            0 <= i < j < self.spec_addr_list().len() ==> self.spec_addr_list()[i]
                != self.spec_addr_list()[j]
        &&& forall|i: int, j: int|
            0 <= i < j < self.spec_conns().len() ==> self.spec_conns()[i].0
                != self.spec_conns()[j].0
    }

    pub fn new() -> (r: Self)
        ensures
            r.well_formed(),
            r.spec_conn_count() == 0,
            forall|a: Seq<char>| !r.spec_has_addr(a),
    {
        Behaviour { listener_addrs: Vec::new(), connections: Vec::new() }
    }

    fn find_addr(&self, addr: &String) -> (r: bool)
        ensures
            r == self.spec_has_addr(addr@),
    {
        let mut i: usize = 0;
        while i < self.listener_addrs.len()
            invariant
                i <= self.listener_addrs@.len(),
                forall|j: int| 0 <= j < i ==> self.spec_addr_list()[j] != addr@,
            decreases self.listener_addrs@.len() - i,
        {
            if self.listener_addrs[i].eq(addr) {
                proof {
                    assert(self.spec_addr_list()[i as int] == addr@);
                }
                return true;
            }
            proof {
                assert(self.spec_addr_list()[i as int] == self.listener_addrs@[i as int]@);
            }
            i = i + 1;
        }
        false
    }

    fn find_conn(&self, id: u64) -> (r: Option<usize>)
        ensures
            match r {
                Some(i) => i < self.spec_conns().len() && self.spec_conns()[i as int].0 == id,
                None => !self.spec_has_conn(id),
            },
    {
        let mut i: usize = 0;
        while i < self.connections.len()
            invariant
                i <= self.connections@.len(),
                forall|j: int| 0 <= j < i ==> self.spec_conns()[j].0 != id,
            decreases self.connections@.len() - i,
        {
            if self.connections[i].0 == id {
                proof {
                    assert(self.spec_conns()[i as int].0 == id);
                }
                return Some(i);
            }
            proof {
                assert(self.spec_conns()[i as int].0 == self.connections@[i as int].0);
            }
            i = i + 1;
        }
        None
    }

    /// Records one swarm event and hands back the line it prints, if any:
    /// a newly seen address announces itself once, and a connection change
    /// reports the open-connection count.
    pub fn on_swarm_event(&mut self, event: SwarmEvent) -> (r: Option<String>)
        requires
            old(self).well_formed(),
        ensures
            final(self).well_formed(),
            match event {
                SwarmEvent::NewListenAddr { addr } => {
                    &&& final(self).spec_has_addr(addr@)
                    &&& (forall|a: Seq<char>|
                        final(self).spec_has_addr(a) <==> old(self).spec_has_addr(a) || a == addr@)
                    &&& final(self).spec_conns() == old(self).spec_conns()
                    &&& (old(self).spec_has_addr(addr@) ==> r is None)
                    &&& (!old(self).spec_has_addr(addr@) ==> (r matches Some(out) && out@
                        == "Listening on "@ + addr@))
                },
                SwarmEvent::ExternalAddrConfirmed { addr } => {
                    &&& final(self).spec_has_addr(addr@)
                    &&& (forall|a: Seq<char>|
                        final(self).spec_has_addr(a) <==> old(self).spec_has_addr(a) || a == addr@)
                    &&& final(self).spec_conns() == old(self).spec_conns()
                    &&& (old(self).spec_has_addr(addr@) ==> r is None)
                    &&& (!old(self).spec_has_addr(addr@) ==> (r matches Some(out) && out@
                        == "Listening on "@ + addr@))
                },
                SwarmEvent::ConnectionEstablished { connection_id, peer_id } => {
                    &&& final(self).spec_has_conn(connection_id)
                    &&& final(self).spec_conns().contains((connection_id, peer_id@))
                    &&& (forall|id: u64|
                        final(self).spec_has_conn(id) <==> old(self).spec_has_conn(id) || id
                            == connection_id)
                    &&& final(self).spec_addr_list() == old(self).spec_addr_list()
                    &&& final(self).spec_conn_count() == if old(self).spec_has_conn(connection_id) {
                        old(self).spec_conn_count()
                    } else {
                        old(self).spec_conn_count() + 1
                    }
                    &&& r matches Some(out) && out@ == "Connections: "@ + spec_dec(
                        final(self).spec_conn_count(),
                    )
                },
                SwarmEvent::ConnectionClosed { connection_id } => {
                    &&& !final(self).spec_has_conn(connection_id)
                    &&& (forall|id: u64|
                        final(self).spec_has_conn(id) <==> old(self).spec_has_conn(id) && id
                            != connection_id)
                    &&& final(self).spec_addr_list() == old(self).spec_addr_list()
                    &&& final(self).spec_conn_count() == if old(self).spec_has_conn(connection_id) {
                        (old(self).spec_conn_count() - 1) as nat
                    } else {
                        old(self).spec_conn_count()
                    }
                    &&& r matches Some(out) && out@ == "Connections: "@ + spec_dec(
                        final(self).spec_conn_count(),
                    )
                },
                SwarmEvent::Other => r is None && *final(self) == *old(self),
            },
    {
        match event {
            SwarmEvent::NewListenAddr { addr } | SwarmEvent::ExternalAddrConfirmed { addr } => {
                if self.find_addr(&addr) {
                    None
                } else {
                    let out = line("Listening on ", addr.as_str());
                    let ghost a = addr@;
                    self.listener_addrs.push(addr);
                    proof {
                        assert(self.spec_addr_list() =~= old(self).spec_addr_list().push(a));
                        assert(self.spec_conns() =~= old(self).spec_conns());
                        let ghost n = old(self).spec_addr_list().len() as int;
                        assert(self.spec_addr_list()[n] == a);
                        assert forall|x: Seq<char>| self.spec_has_addr(x) implies old(
                            self,
                        ).spec_has_addr(x) || x == a by {
                            let i = choose|i: int|
                                0 <= i < self.spec_addr_list().len() && self.spec_addr_list()[i]
                                    == x;
                            if i < n {
                                assert(old(self).spec_addr_list()[i] == x);
                            }
                        };
                        assert forall|x: Seq<char>| old(self).spec_has_addr(x) implies self
                            .spec_has_addr(x) by {
                            let i = choose|i: int|
                                0 <= i < old(self).spec_addr_list().len() && old(
                                    self,
                                ).spec_addr_list()[i] == x;
                            assert(self.spec_addr_list()[i] == x);
                        };
                    }
                    Some(out)
                }
            },
            SwarmEvent::ConnectionEstablished { connection_id, peer_id } => {
                let ghost p = peer_id@;
                match self.find_conn(connection_id) {
                    Some(i) => {
                        self.connections[i] = (connection_id, peer_id);
                        proof {
                            assert(self.spec_conns() =~= old(self).spec_conns().update(
                                i as int,
                                (connection_id, p),
                            ));
                            assert(self.spec_conns()[i as int] == (connection_id, p));
                            assert(self.spec_conns().contains((connection_id, p)));
                            assert forall|id: u64| self.spec_has_conn(id) <==> old(
                                self,
                            ).spec_has_conn(id) || id == connection_id by {
                                if self.spec_has_conn(id) {
                                    let k = choose|k: int|
                                        0 <= k < self.spec_conns().len() && self.spec_conns()[k].0
                                            == id;
                                    if k != i {
                                        assert(old(self).spec_conns()[k].0 == id);
                                    } else {
                                        assert(old(self).spec_conns()[i as int].0
                                            == connection_id);
                                    }
                                }
                                if old(self).spec_has_conn(id) {
                                    let k = choose|k: int|
                                        0 <= k < old(self).spec_conns().len() && old(
                                            self,
                                        ).spec_conns()[k].0 == id;
                                    if k != i {
                                        assert(self.spec_conns()[k].0 == id);
                                    } else {
                                        assert(old(self).spec_conns()[i as int].0
                                            == connection_id);
                                    }
                                }
                            };
                        }
                    },
                    None => {
                        self.connections.push((connection_id, peer_id));
                        proof {
                            assert(self.spec_conns() =~= old(self).spec_conns().push(
                                (connection_id, p),
                            ));
                            let ghost n = old(self).spec_conns().len() as int;
                            assert(self.spec_conns()[n] == (connection_id, p));
                            assert(self.spec_conns().contains((connection_id, p)));
                            assert forall|id: u64| self.spec_has_conn(id) <==> old(
                                self,
                            ).spec_has_conn(id) || id == connection_id by {
                                if self.spec_has_conn(id) {
                                    let k = choose|k: int|
                                        0 <= k < self.spec_conns().len() && self.spec_conns()[k].0
                                            == id;
                                    if k < n {
                                        assert(old(self).spec_conns()[k].0 == id);
                                    }
                                }
                                if old(self).spec_has_conn(id) {
                                    let k = choose|k: int|
                                        0 <= k < old(self).spec_conns().len() && old(
                                            self,
                                        ).spec_conns()[k].0 == id;
                                    assert(self.spec_conns()[k].0 == id);
                                }
                            };
                        }
                    },
                }
                proof {
                    assert(self.spec_addr_list() =~= old(self).spec_addr_list());
                }
                let count = dec_u64(self.connections.len() as u64);
                Some(line("Connections: ", count.as_str()))
            },
            SwarmEvent::ConnectionClosed { connection_id } => {
                match self.find_conn(connection_id) {
                    Some(i) => {
                        self.connections.remove(i);
                        proof {
                            assert(self.spec_conns() =~= old(self).spec_conns().remove(i as int));
                            assert forall|id: u64| self.spec_has_conn(id) <==> old(
                                self,
                            ).spec_has_conn(id) && id != connection_id by {
                                if self.spec_has_conn(id) {
                                    let k = choose|k: int|
                                        0 <= k < self.spec_conns().len() && self.spec_conns()[k].0
                                            == id;
                                    if k < i {
                                        assert(old(self).spec_conns()[k].0 == id);
                                        assert(old(self).spec_conns()[i as int].0
                                            == connection_id);
                                    } else {
                                        assert(self.spec_conns()[k] == old(self).spec_conns()[k
                                            + 1]);
                                        assert(old(self).spec_conns()[k + 1].0 == id);
                                        assert(old(self).spec_conns()[i as int].0
                                            == connection_id);
                                    }
                                }
                                if old(self).spec_has_conn(id) && id != connection_id {
                                    let k = choose|k: int|
                                        0 <= k < old(self).spec_conns().len() && old(
                                            self,
                                        ).spec_conns()[k].0 == id;
                                    if k < i {
                                        assert(self.spec_conns()[k].0 == id);
                                    } else {
                                        assert(old(self).spec_conns()[i as int].0
                                            == connection_id);
                                        assert(self.spec_conns()[k - 1] == old(
                                            self,
                                        ).spec_conns()[k]);
                                    }
                                }
                            };
                        }
                    },
                    None => {},
                }
                proof {
                    assert(self.spec_addr_list() =~= old(self).spec_addr_list());
                }
                let count = dec_u64(self.connections.len() as u64);
                Some(line("Connections: ", count.as_str()))
            },
            SwarmEvent::Other => None,
        }
    }
}

} // verus!
