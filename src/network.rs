//! What the simulation does with each network event: the decisions of the connection
//! handler, apart from the transport itself.
use vstd::prelude::*;
use crate::game::{GameMessage, NetMessage};
use crate::ping::{Ping, PingList};
use crate::router::Router;

verus! {

/// The handles given to peers, by peer id. Handles are given out in increasing order,
/// starting at 1.
pub struct NetHandles {
    last_handle: usize,
    handles: Vec<(String, usize)>,
}

impl NetHandles {
    pub closed spec fn last_spec(&self) -> usize {
        self.last_handle
    }

    /// Peer ids, as text, with their handles.
    pub closed spec fn entries(&self) -> Seq<(Seq<char>, usize)> {
        self.handles@.map_values(|e: (String, usize)| (e.0@, e.1))
    }

    /// Each peer is listed once, and no handle exceeds the last one given.
    pub open spec fn wf(&self) -> bool {
        &&& forall|i: int, j: int|
            0 <= i < j < self.entries().len() ==> self.entries()[i].0 != self.entries()[j].0
        &&& forall|i: int| 0 <= i < self.entries().len() ==> self.entries()[i].1 <= self.last_spec()
    }

    /// Whether `peer` has a handle.
    pub open spec fn knows(&self, peer: Seq<char>) -> bool {
        exists|i: int| 0 <= i < self.entries().len() && self.entries()[i].0 == peer
    }

    /// The handle of `peer`, where it has one.
    pub open spec fn handle_spec(&self, peer: Seq<char>) -> usize {
        self.entries()[choose|i: int| 0 <= i < self.entries().len() && self.entries()[i].0 == peer].1
    }

    /// Every peer but `peer` has the same handle, or none, in `a` and in `b`.
    pub open spec fn same_others(a: NetHandles, b: NetHandles, peer: Seq<char>) -> bool {
        forall|p: Seq<char>|
            p != peer ==> (b.knows(p) == a.knows(p) && (a.knows(p) ==> b.handle_spec(p)
                == a.handle_spec(p)))
    }

    /// No peer has a handle yet.
    pub fn new() -> (r: NetHandles)
        ensures
            r.wf(),
            r.last_spec() == 0,
            r.entries().len() == 0,
    {
        let r = NetHandles { last_handle: 0, handles: Vec::new() };
        assert(r.entries() =~= seq![]);
        r
    }

    /// The last handle given out.
    pub fn last_handle(&self) -> (r: usize)
        ensures
            r == self.last_spec(),
    {
        self.last_handle
    }

    proof fn lemma_entry(&self, k: int)
        requires
            self.wf(),
            0 <= k < self.entries().len(),
        ensures
            self.knows(self.entries()[k].0),
            self.handle_spec(self.entries()[k].0) == self.entries()[k].1,
    {
        let peer = self.entries()[k].0;
        assert(self.knows(peer));
        let c = choose|i: int| 0 <= i < self.entries().len() && self.entries()[i].0 == peer;
        if c < k {
            assert(self.entries()[c].0 != self.entries()[k].0);
        }
        if c > k {
            assert(self.entries()[k].0 != self.entries()[c].0);
        }
    }

    /// The handle of `peer`, if it has one.
    pub fn handle(&self, peer: &String) -> (r: Option<usize>)
        requires
            self.wf(),
        ensures
            r == if self.knows(peer@) {
                Some(self.handle_spec(peer@))
            } else {
                None
            },
    {
        let mut i: usize = 0;
        while i < self.handles.len()
            invariant
                self.wf(),
                i <= self.handles@.len(),
                forall|j: int| 0 <= j < i ==> self.entries()[j].0 != peer@,
            decreases self.handles@.len() - i,
        {
            let found = self.handles[i].0 == *peer;
            if found {
                proof {
                    assert(self.entries()[i as int].0 == peer@);
                    self.lemma_entry(i as int);
                }
                return Some(self.handles[i].1);
            }
            i = i + 1;
        }
        assert forall|j: int| 0 <= j < self.entries().len() implies self.entries()[j].0 != peer@ by {}
        None
    }

    /// Gives `peer` the next handle, unless it has one already. Returns the new handle.
    pub fn insert(&mut self, peer: &String) -> (r: Option<usize>)
        requires
            old(self).wf(),
            old(self).last_spec() < usize::MAX - 1,
        ensures
            final(self).wf(),
            old(self).knows(peer@) ==> r is None && final(self).entries() == old(self).entries()
                && final(self).last_spec() == old(self).last_spec(),
            !old(self).knows(peer@) ==> ({
                &&& r == Some((old(self).last_spec() + 1) as usize)
                &&& final(self).last_spec() == old(self).last_spec() + 1
                &&& final(self).entries() == old(self).entries().push((peer@, r->Some_0))
                &&& final(self).knows(peer@)
                &&& final(self).handle_spec(peer@) == r->Some_0
            }),
            Self::same_others(*old(self), *final(self), peer@),
    {
        match self.handle(peer) {
            Some(_) => None,
            None => {
                let ghost before = self.entries();
                let new_handle = self.last_handle + 1;
                self.handles.push((peer.clone(), new_handle));
                self.last_handle = new_handle;
                proof {
                    assert(self.entries() =~= before.push((peer@, new_handle)));
                    assert forall|i: int, j: int|
                        0 <= i < j < self.entries().len() implies self.entries()[i].0
                        != self.entries()[j].0 by {
                        if j < before.len() {
                            assert(before[i].0 != before[j].0);
                        }
                    }
                    self.lemma_entry(before.len() as int);
                    assert forall|p: Seq<char>| p != peer@ implies (self.knows(p) == old(
                        self,
                    ).knows(p) && (old(self).knows(p) ==> self.handle_spec(p) == old(
                        self,
                    ).handle_spec(p))) by {
                        if old(self).knows(p) {
                            let j = choose|j: int|
                                0 <= j < before.len() && before[j].0 == p;
                            old(self).lemma_entry(j);
                            self.lemma_entry(j);
                        }
                        if self.knows(p) {
                            let j = choose|j: int|
                                0 <= j < self.entries().len() && self.entries()[j].0 == p;
                            assert(j < before.len());
                            assert(old(self).entries()[j].0 == p);
                        }
                    }
                }
                Some(new_handle)
            },
        }
    }
}

/// A peer connected. Where it is new, it gets the next handle, an entry in the ping
/// list, and the reply asks it for its tank; either way the ping cycle starts if it has
/// not yet.
pub fn on_new_connection(ping: &mut PingList, handles: &mut NetHandles, peer: &String) -> (r:
    Option<NetMessage>)
    requires
        old(handles).wf(),
        old(handles).last_spec() < usize::MAX - 1,
    ensures
        final(handles).wf(),
        final(handles).knows(peer@),
        NetHandles::same_others(*old(handles), *final(handles), peer@),
        old(handles).knows(peer@) ==> ({
            &&& r is None
            &&& final(handles).entries() == old(handles).entries()
            &&& final(handles).last_spec() == old(handles).last_spec()
            &&& final(ping).peers() == old(ping).peers()
        }),
        !old(handles).knows(peer@) ==> ({
            let h = (old(handles).last_spec() + 1) as usize;
            &&& r == Some(NetMessage::GameData(GameMessage::DataRequest))
            &&& final(handles).last_spec() == h
            &&& final(handles).entries() == old(handles).entries().push((peer@, h))
            &&& final(handles).handle_spec(peer@) == h
            &&& final(ping).peers() == old(ping).peers().insert(h, Ping { time: None })
        }),
        final(ping).id_spec() == old(ping).id_spec(),
        final(ping).counter_spec() == old(ping).counter_spec(),
        old(ping).state_spec() is Idle ==> final(ping).state_spec() is Waiting,
        !(old(ping).state_spec() is Idle) ==> final(ping).state_spec() == old(ping).state_spec(),
{
    let added = handles.insert(peer);
    if let Some(h) = added {
        ping.insert(h, Ping::new());
    }
    if !ping.is_connected() {
        ping.start();
    }
    match added {
        Some(_) => Some(NetMessage::GameData(GameMessage::DataRequest)),
        None => None,
    }
}

/// A message from the peer with `handle` arrived at `now`. A ping is answered with a
/// pong carrying the same id and counter; a pong is folded into the delay estimate; a
/// message of the game is queued for routing.
pub fn on_net_message(
    ping: &mut PingList,
    router: &mut Router,
    handle: usize,
    msg: NetMessage,
    now: u64,
) -> (r: Option<NetMessage>)
    ensures
        final(ping).counter_spec() == old(ping).counter_spec(),
        match msg {
            NetMessage::Ping(id, counter) => {
                &&& r == Some(NetMessage::Pong(id, counter))
                &&& *final(router) == *old(router)
                &&& final(ping).peers() == old(ping).peers()
                &&& final(ping).state_spec() == old(ping).state_spec()
                &&& id != old(ping).id_spec() ==> final(ping).id_spec() == old(ping).id_spec()
            },
            NetMessage::Pong(id, _) => {
                &&& r is None
                &&& *final(router) == *old(router)
                &&& final(ping).id_spec() == old(ping).id_spec()
                &&& final(ping).state_spec() == old(ping).state_spec()
                &&& PingList::same_others(*old(ping), *final(ping), handle)
                &&& (id == old(ping).id_spec() && old(ping).state_spec() is Sent && old(
                    ping,
                ).has_peer(handle)) ==> final(ping).estimate(handle) == crate::ping::ema_step(
                    old(ping).estimate(handle),
                    crate::ping::pong_sample(old(ping).state_spec()->Sent_0, now),
                )
            },
            NetMessage::GameData(m) => {
                &&& r is None
                &&& *final(ping) == *old(ping)
                &&& final(router).raw() == old(router).raw().push((handle, m))
                &&& final(router).inbox(seq![], seq![]) == old(router).inbox(seq![], seq![])
            },
        },
{
    match msg {
        NetMessage::Ping(id, counter) => {
            let (i, c) = ping.on_ping(id, counter);
            Some(NetMessage::Pong(i, c))
        },
        NetMessage::Pong(id, _) => {
            ping.receive_pong(id, handle, now);
            None
        },
        NetMessage::GameData(m) => {
            router.receive(handle, m);
            None
        },
    }
}

} // verus!
