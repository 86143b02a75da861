//! The roster: the local view of the connected peers and the channel each
//! one is in. It changes by one rule only.

use vstd::prelude::*;

verus! {

/// A connected peer.
#[derive(Clone, Copy, Debug, PartialEq, Eq, Structural)]
pub struct Peer {
    /// The peer's session: the key under which the roster holds it.
    pub session_id: u32,
    /// The channel the peer is in.
    pub channel_id: u32,
}

/// No session occurs twice.
pub open spec fn unique(peers: Seq<Peer>) -> bool {
    forall|i: int, j: int|
        0 <= i < j < peers.len() ==> (#[trigger] peers[i]).session_id != (
        #[trigger] peers[j]).session_id
}

/// Some peer has the session `session`.
pub open spec fn known(peers: Seq<Peer>, session: u32) -> bool {
    exists|i: int| 0 <= i < peers.len() && (#[trigger] peers[i]).session_id == session
}

/// The peer as it is after the channel of session `session` became
/// `channel_id`.
pub open spec fn moved(peer: Peer, session: u32, channel_id: u32) -> Peer {
    if peer.session_id == session {
        Peer { session_id: session, channel_id }
    } else {
        peer
    }
}

/// The roster update rule. A session not yet known joins at the end, in the
/// channel given, or in channel 0 where none is given. A known session
/// changes its channel where one is given, and nothing changes where none is.
pub open spec fn updated(peers: Seq<Peer>, session: u32, channel_id: Option<u32>) -> Seq<Peer> {
    if !known(peers, session) {
        peers.push(
            Peer {
                session_id: session,
                channel_id: match channel_id {
                    Some(c) => c,
                    None => 0,
                },
            },
        )
    } else {
        match channel_id {
            Some(c) => peers.map_values(|p: Peer| moved(p, session, c)),
            None => peers,
        }
    }
}

/// The update rule never makes a session occur twice.
pub proof fn lemma_update_unique(peers: Seq<Peer>, session: u32, channel_id: Option<u32>)
    requires
        unique(peers),
    ensures
        unique(updated(peers, session, channel_id)),
        known(updated(peers, session, channel_id), session),
{
    let after = updated(peers, session, channel_id);
    if !known(peers, session) {
        assert(after[peers.len() as int].session_id == session);
        assert forall|i: int, j: int| 0 <= i < j < after.len() implies (#[trigger] after[i]).session_id
            != (#[trigger] after[j]).session_id by {
            if j < peers.len() {
                assert(peers[i].session_id != peers[j].session_id);
            } else {
                assert(after[i] == peers[i]);
            }
        }
    } else {
        let k = choose|k: int| 0 <= k < peers.len() && (#[trigger] peers[k]).session_id == session;
        assert(after[k].session_id == session);
        assert forall|i: int, j: int| 0 <= i < j < after.len() implies (#[trigger] after[i]).session_id
            != (#[trigger] after[j]).session_id by {
            assert(peers[i].session_id != peers[j].session_id);
            assert(after[i].session_id == peers[i].session_id);
            assert(after[j].session_id == peers[j].session_id);
        }
    }
}

/// Applying the same update twice is the same as applying it once.
pub proof fn lemma_update_idempotent(peers: Seq<Peer>, session: u32, channel_id: Option<u32>)
    requires
        unique(peers),
    ensures
        updated(updated(peers, session, channel_id), session, channel_id) == updated(
            peers,
            session,
            channel_id,
        ),
{
    let once = updated(peers, session, channel_id);
    lemma_update_unique(peers, session, channel_id);
    if let Some(c) = channel_id {
        let twice = once.map_values(|p: Peer| moved(p, session, c));
        assert forall|i: int| 0 <= i < once.len() implies twice[i] == once[i] by {
            if known(peers, session) {
                assert(once[i] == moved(peers[i], session, c));
            } else if i < peers.len() {
                assert(once[i] == peers[i]);
                assert(peers[i].session_id != session);
            }
        }
        assert(twice =~= once);
    }
}

/// An update into an empty roster leaves exactly the one peer.
pub proof fn lemma_update_empty(session: u32, channel_id: u32)
    ensures
        updated(Seq::empty(), session, Some(channel_id)) == seq![
            Peer { session_id: session, channel_id },
        ],
        updated(Seq::empty(), session, None) == seq![Peer { session_id: session, channel_id: 0 }],
{
    let none: Seq<Peer> = Seq::empty();
    assert(!known(none, session));
    assert(none.push(Peer { session_id: session, channel_id }) =~= seq![
        Peer { session_id: session, channel_id },
    ]);
    assert(none.push(Peer { session_id: session, channel_id: 0 }) =~= seq![
        Peer { session_id: session, channel_id: 0 },
    ]);
}

/// An update that names no channel leaves a known peer where it is.
pub proof fn lemma_update_keeps_channel(peers: Seq<Peer>, session: u32)
    requires
        known(peers, session),
    ensures
        updated(peers, session, None) == peers,
{
}

/// The peers, each session once, in the order in which they first appeared.
#[derive(Clone, Debug, PartialEq, Eq)]
pub struct Roster {
    peers: Vec<Peer>,
}

impl View for Roster {
    type V = Seq<Peer>;

    closed spec fn view(&self) -> Seq<Peer> {
        self.peers@
    }
}

impl Roster {
    /// The roster's invariant: no session occurs twice.
    pub open spec fn wf(&self) -> bool {
        unique(self@)
    }

    /// The empty roster.
    pub fn new() -> (r: Roster)
        ensures
            r.wf(),
            r@ == Seq::<Peer>::empty(),
    {
        Roster { peers: Vec::new() }
    }

    /// The peers, in the order in which they first appeared.
    pub fn peers(&self) -> (r: &Vec<Peer>)
        ensures
            r@ == self@,
    {
        &self.peers
    }

    /// Whether the invariant holds. It does of every roster that was made by
    /// [`Roster::new`] and changed by [`Roster::apply`]; the test is for
    /// callers that cannot know where a roster came from.
    pub fn is_wf(&self) -> (r: bool)
        ensures
            r == self.wf(),
    {
        let mut j: usize = 0;
        while j < self.peers.len()
            invariant
                j <= self.peers.len(),
                unique(self.peers@.take(j as int)),
            decreases self.peers.len() - j,
        {
            let mut i: usize = 0;
            while i < j
                invariant
                    i <= j < self.peers.len(),
                    forall|k: int|
                        0 <= k < i ==> (#[trigger] self.peers@[k]).session_id
                            != self.peers@[j as int].session_id,
                decreases j - i,
            {
                if self.peers[i].session_id == self.peers[j].session_id {
                    return false;
                }
                i = i + 1;
            }
            assert forall|a: int, b: int| 0 <= a < b < j + 1 implies (#[trigger] self.peers@.take(
                j + 1,
            )[a]).session_id != (#[trigger] self.peers@.take(j + 1)[b]).session_id by {
                if b < j {
                    assert(self.peers@.take(j as int)[a].session_id != self.peers@.take(
                        j as int,
                    )[b].session_id);
                }
            }
            j = j + 1;
        }
        assert(self.peers@.take(j as int) =~= self.peers@);
        true
    }

    /// Where the first peer with session `session` stands, if it is known.
    pub fn position(&self, session: u32) -> (r: Option<usize>)
        ensures
            match r {
                Some(i) => i < self@.len() && self@[i as int].session_id == session && forall|
                    k: int,
                |
                    0 <= k < i ==> (#[trigger] self@[k]).session_id != session,
                None => !known(self@, session),
            },
    {
        let mut i: usize = 0;
        while i < self.peers.len()
            invariant
                i <= self.peers.len(),
                forall|k: int| 0 <= k < i ==> (#[trigger] self.peers@[k]).session_id != session,
            decreases self.peers.len() - i,
        {
            if self.peers[i].session_id == session {
                return Some(i);
            }
            i = i + 1;
        }
        None
    }

    /// The peer with session `session`, if it is known.
    pub fn get(&self, session: u32) -> (r: Option<Peer>)
        ensures
            match r {
                Some(p) => p.session_id == session && self@.contains(p),
                None => !known(self@, session),
            },
    {
        match self.position(session) {
            Some(i) => {
                assert(self@[i as int] == self.peers@[i as int]);
                Some(self.peers[i])
            },
            None => None,
        }
    }

    /// Applies the roster update rule for one message about `session`.
    pub fn apply(&mut self, session: u32, channel_id: Option<u32>)
        requires
            old(self).wf(),
        ensures
            final(self).wf(),
            final(self)@ == updated(old(self)@, session, channel_id),
    {
        proof {
            lemma_update_unique(self@, session, channel_id);
        }
        match self.position(session) {
            Some(i) => {
                assert(known(self@, session)) by {
                    assert(self@[i as int].session_id == session);
                }
                if let Some(c) = channel_id {
                    self.peers.set(i, Peer { session_id: session, channel_id: c });
                    assert(self@ =~= updated(old(self)@, session, channel_id)) by {
                        let before = old(self)@;
                        assert forall|k: int| 0 <= k < before.len() implies self@[k] == moved(
                            before[k],
                            session,
                            c,
                        ) by {
                            if k < i {
                                assert(before[k].session_id != before[i as int].session_id);
                            } else if k > i {
                                assert(before[i as int].session_id != before[k].session_id);
                            }
                        }
                    }
                }
            },
            None => {
                let channel: u32 = match channel_id {
                    Some(c) => c,
                    None => 0,
                };
                self.peers.push(Peer { session_id: session, channel_id: channel });
            },
        }
    }
}

} // verus!
