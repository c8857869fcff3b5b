//! The relay broker's decisions: which connected clients receive each event.
//! The server program performs the sends.
use vstd::prelude::*;

use crate::event::{EventView, NetworkEvent};
use crate::PlayerId;

verus! {

/// The clients of `s` other than `sender`, in order.
pub open spec fn all_but(s: Seq<PlayerId>, sender: PlayerId) -> Seq<PlayerId>
    decreases s.len(),
{
    if s.len() == 0 {
        s
    } else if s.last() == sender {
        all_but(s.drop_last(), sender)
    } else {
        all_but(s.drop_last(), sender).push(s.last())
    }
}

/// The connected clients that receive event `e` from the broker, or `None`
/// when `e` is not an event that clients send.
pub open spec fn recipients(clients: Seq<PlayerId>, e: EventView) -> Option<Seq<PlayerId>> {
    match e {
        EventView::FullUpdate(sender, _) => Some(all_but(clients, sender)),
        EventView::MovementUpdate(sender, _) => Some(all_but(clients, sender)),
        EventView::Chat(sender, _) => Some(all_but(clients, sender)),
        EventView::PlayerQuit(id) => Some(all_but(clients, id)),
        EventView::BattleDataRequest(_, to) => Some(
            if clients.contains(to) {
                seq![to]
            } else {
                Seq::empty()
            },
        ),
        EventView::BattleDataResponse(to, _) => Some(
            if clients.contains(to) {
                seq![to]
            } else {
                Seq::empty()
            },
        ),
        _ => None,
    }
}

/// Ids not yet handed out are never reused.
pub struct IdAllocator {
    next_id: PlayerId,
    exhausted: bool,
}

impl IdAllocator {
    /// The id that the next allocation returns, if any is left.
    pub closed spec fn upcoming(&self) -> Option<PlayerId> {
        if self.exhausted {
            None
        } else {
            Some(self.next_id)
        }
    }

    pub fn new() -> (r: IdAllocator)
        ensures
            r.upcoming() == Some(0u32),
    {
        IdAllocator { next_id: 0, exhausted: false }
    }

    /// Hands out the next id: 0, 1, 2 and so on, each once.
    pub fn allocate(&mut self) -> (r: Option<PlayerId>)
        ensures
            r == old(self).upcoming(),
            r matches Some(id) ==> (id < u32::MAX ==> final(self).upcoming() == Some(
                (id + 1) as u32,
            )) && (id == u32::MAX ==> final(self).upcoming() is None),
            r is None ==> final(self).upcoming() is None,
    {
        if self.exhausted {
            return None;
        }
        let id = self.next_id;
        if id == u32::MAX {
            self.exhausted = true;
        } else {
            self.next_id = id + 1;
        }
        Some(id)
    }
}

/// Why the broker refused an event.
#[derive(Clone, Copy, Debug, PartialEq, Eq, Structural)]
pub enum BrokerError {
    /// A client sent an event that only the server sends.
    ProtocolViolation,
}

/// The connected clients, in order of connection.
pub struct Broker {
    clients: Vec<PlayerId>,
}

impl View for Broker {
    type V = Seq<PlayerId>;

    closed spec fn view(&self) -> Seq<PlayerId> {
        self.clients@
    }
}

impl Broker {
    /// No client appears twice.
    pub open spec fn wf(&self) -> bool {
        self@.no_duplicates()
    }

    pub fn new() -> (r: Broker)
        ensures
            r.wf(),
            r@ == Seq::<PlayerId>::empty(),
    {
        Broker { clients: Vec::new() }
    }

    /// The connected clients.
    pub fn clients(&self) -> (r: &Vec<PlayerId>)
        ensures
            r@ == self@,
    {
        &self.clients
    }

    fn position(&self, id: PlayerId) -> (r: Option<usize>)
        ensures
            r is None <==> !self@.contains(id),
            r matches Some(i) ==> i < self@.len() && self@[i as int] == id,
    {
        let mut i: usize = 0;
        while i < self.clients.len()
            invariant
                0 <= i <= self@.len(),
                self@ == self.clients@,
                forall|j: int| 0 <= j < i ==> self@[j] != id,
            decreases self@.len() - i,
        {
            if self.clients[i] == id {
                return Some(i);
            }
            i += 1;
        }
        None
    }

    /// Adds a newly connected client and returns the clients that must be
    /// sent an update request: all of them, the newcomer included.
    pub fn connect(&mut self, id: PlayerId) -> (r: Vec<PlayerId>)
        requires
            old(self).wf(),
        ensures
            final(self).wf(),
            final(self)@ == if old(self)@.contains(id) {
                old(self)@
            } else {
                old(self)@.push(id)
            },
            r@ == final(self)@,
    {
        if self.position(id).is_none() {
            self.clients.push(id);
            proof {
                let s = self@;
                assert forall|i: int, j: int| 0 <= i < s.len() && 0 <= j < s.len() && i != j
                    implies s[i] != s[j] by {
                    if i == s.len() - 1 {
                        assert(!old(self)@.contains(id));
                        assert(s[j] == old(self)@[j]);
                    } else if j == s.len() - 1 {
                        assert(!old(self)@.contains(id));
                        assert(s[i] == old(self)@[i]);
                    }
                }
            }
        }
        self.clients.clone()
    }

    fn all_except(&self, sender: PlayerId) -> (r: Vec<PlayerId>)
        ensures
            r@ == all_but(self@, sender),
    {
        let mut out: Vec<PlayerId> = Vec::new();
        let mut i: usize = 0;
        while i < self.clients.len()
            invariant
                0 <= i <= self@.len(),
                self@ == self.clients@,
                out@ == all_but(self@.subrange(0, i as int), sender),
            decreases self@.len() - i,
        {
            assert(self@.subrange(0, i + 1).drop_last() =~= self@.subrange(0, i as int));
            if self.clients[i] != sender {
                out.push(self.clients[i]);
            }
            i += 1;
        }
        assert(self@.subrange(0, self@.len() as int) =~= self@);
        out
    }

    fn only(&self, to: PlayerId) -> (r: Vec<PlayerId>)
        ensures
            r@ == if self@.contains(to) {
                seq![to]
            } else {
                Seq::<PlayerId>::empty()
            },
    {
        let mut out: Vec<PlayerId> = Vec::new();
        if self.position(to).is_some() {
            out.push(to);
        }
        assert(out@ =~= if self@.contains(to) {
            seq![to]
        } else {
            Seq::<PlayerId>::empty()
        });
        out
    }

    /// Decides who receives an event that a client sent: updates and chat go
    /// to every other client, a quit removes the client and goes to all that
    /// remain, battle data goes only to the named client. Any other event is
    /// a protocol violation.
    pub fn dispatch(&mut self, event: &NetworkEvent) -> (r: Result<Vec<PlayerId>, BrokerError>)
        requires
            old(self).wf(),
        ensures
            final(self).wf(),
            final(self)@ == match event@ {
                EventView::PlayerQuit(id) => all_but(old(self)@, id),
                _ => old(self)@,
            },
            match r {
                Ok(to) => recipients(old(self)@, event@) == Some(to@),
                Err(_) => recipients(old(self)@, event@) is None,
            },
    {
        match event {
            NetworkEvent::FullUpdate(sender, _) => Ok(self.all_except(*sender)),
            NetworkEvent::MovementUpdate(sender, _) => Ok(self.all_except(*sender)),
            NetworkEvent::Chat(sender, _) => Ok(self.all_except(*sender)),
            NetworkEvent::PlayerQuit(id) => {
                let remaining = self.all_except(*id);
                proof {
                    lemma_all_but_keeps_unique(old(self)@, *id);
                }
                self.clients = remaining.clone();
                Ok(remaining)
            },
            NetworkEvent::BattleDataRequest(_, to) => Ok(self.only(*to)),
            NetworkEvent::BattleDataResponse(to, _) => Ok(self.only(*to)),
            _ => Err(BrokerError::ProtocolViolation),
        }
    }
}

/// Leaving out one client keeps the others, each once, and drops it.
pub proof fn lemma_all_but_keeps_unique(s: Seq<PlayerId>, sender: PlayerId)
    requires
        s.no_duplicates(),
    ensures
        all_but(s, sender).no_duplicates(),
        !all_but(s, sender).contains(sender),
        forall|c: PlayerId| #[trigger] all_but(s, sender).contains(c) <==> (s.contains(c) && c
            != sender),
    decreases s.len(),
{
    if s.len() > 0 {
        let p = s.drop_last();
        assert(p.no_duplicates());
        lemma_all_but_keeps_unique(p, sender);
        assert forall|c: PlayerId| p.contains(c) || c == s.last() <==> s.contains(c) by {
            if s.contains(c) {
                let k = choose|k: int| 0 <= k < s.len() && s[k] == c;
                if k < s.len() - 1 {
                    assert(p[k] == c);
                }
            }
            if p.contains(c) {
                let k = choose|k: int| 0 <= k < p.len() && p[k] == c;
                assert(s[k] == c);
            }
        }
        assert(!p.contains(s.last())) by {
            if p.contains(s.last()) {
                let k = choose|k: int| 0 <= k < p.len() && p[k] == s.last();
                assert(s[k] == s[s.len() - 1]);
            }
        }
        let q = all_but(p, sender);
        if s.last() != sender {
            let r = q.push(s.last());
            assert forall|c: PlayerId| r.contains(c) <==> q.contains(c) || c == s.last() by {
                if r.contains(c) {
                    let k = choose|k: int| 0 <= k < r.len() && r[k] == c;
                    if k < q.len() {
                        assert(q[k] == c);
                    }
                }
                if q.contains(c) {
                    let k = choose|k: int| 0 <= k < q.len() && q[k] == c;
                    assert(r[k] == c);
                }
                if c == s.last() {
                    assert(r[q.len() as int] == c);
                }
            }
            assert(!q.contains(s.last()));
            assert forall|i: int, j: int| 0 <= i < r.len() && 0 <= j < r.len() && i != j
                implies r[i] != r[j] by {
                if i == q.len() {
                    assert(q.contains(r[j]));
                } else if j == q.len() {
                    assert(q.contains(r[i]));
                }
            }
            assert(all_but(s, sender) == r);
            assert forall|c: PlayerId| #[trigger] all_but(s, sender).contains(c) <==> (s.contains(
                c,
            ) && c != sender) by {
                assert(q.contains(c) <==> p.contains(c) && c != sender);
            }
        } else {
            assert(all_but(s, sender) == q);
            assert forall|c: PlayerId| #[trigger] all_but(s, sender).contains(c) <==> (s.contains(
                c,
            ) && c != sender) by {
                assert(q.contains(c) <==> p.contains(c) && c != sender);
            }
        }
    }
}

} // verus!
