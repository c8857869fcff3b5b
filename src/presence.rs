//! The presence table: every remote player a client knows of, by id, in the
//! order in which they were first seen.
use vstd::prelude::*;

use crate::data::{MovementData, PlayerData, PlayerView};
use crate::PlayerId;

verus! {

/// One row of the table's model.
pub type Entry = (PlayerId, PlayerView);

/// Whether some row of `s` has id `id`.
pub open spec fn has_id(s: Seq<Entry>, id: PlayerId) -> bool {
    exists|i: int| 0 <= i < s.len() && s[i].0 == id
}

/// The row of `s` with id `id`, where there is one.
pub open spec fn index_of(s: Seq<Entry>, id: PlayerId) -> int {
    choose|i: int| 0 <= i < s.len() && s[i].0 == id
}

/// No two rows share an id.
pub open spec fn unique_ids(s: Seq<Entry>) -> bool {
    forall|i: int, j: int| 0 <= i < s.len() && 0 <= j < s.len() && i != j ==> s[i].0 != s[j].0
}

/// `s` after a full record for `id` arrived: the row is replaced in place, or
/// added at the end.
pub open spec fn upsert(s: Seq<Entry>, id: PlayerId, p: PlayerView) -> Seq<Entry> {
    if has_id(s, id) {
        s.update(index_of(s, id), (id, p))
    } else {
        s.push((id, p))
    }
}

/// `s` after new movement for `id` arrived: only a known row changes.
pub open spec fn with_movement(s: Seq<Entry>, id: PlayerId, m: MovementData) -> Seq<Entry> {
    if has_id(s, id) {
        let i = index_of(s, id);
        s.update(i, (id, PlayerView { name: s[i].1.name, movement_data: m }))
    } else {
        s
    }
}

/// `s` without the row for `id`.
pub open spec fn without(s: Seq<Entry>, id: PlayerId) -> Seq<Entry> {
    if has_id(s, id) {
        s.remove(index_of(s, id))
    } else {
        s
    }
}

/// With unique ids, the row that carries `id` is the one `index_of` picks.
pub proof fn lemma_index_of_unique(s: Seq<Entry>, id: PlayerId, i: int)
    requires
        unique_ids(s),
        0 <= i < s.len(),
        s[i].0 == id,
    ensures
        has_id(s, id),
        index_of(s, id) == i,
{
    assert(has_id(s, id));
    let k = index_of(s, id);
    assert(0 <= k < s.len() && s[k].0 == id);
}

/// The remote players a client knows of.
pub struct PresenceTable {
    entries: Vec<(PlayerId, PlayerData)>,
}

impl View for PresenceTable {
    type V = Seq<Entry>;

    closed spec fn view(&self) -> Seq<Entry> {
        self.entries@.map_values(|e: (PlayerId, PlayerData)| (e.0, e.1@))
    }
}

impl PresenceTable {
    /// Ids are unique.
    pub open spec fn wf(&self) -> bool {
        unique_ids(self@)
    }

    pub fn new() -> (r: PresenceTable)
        ensures
            r.wf(),
            r@ == Seq::<Entry>::empty(),
    {
        let r = PresenceTable { entries: Vec::new() };
        assert(r@ =~= Seq::<Entry>::empty());
        r
    }

    pub fn len(&self) -> (r: usize)
        ensures
            r == self@.len(),
    {
        self.entries.len()
    }

    /// The id of row `i`.
    pub fn id_at(&self, i: usize) -> (r: PlayerId)
        requires
            i < self@.len(),
        ensures
            r == self@[i as int].0,
    {
        self.entries[i].0
    }

    /// The player of row `i`.
    pub fn player_at(&self, i: usize) -> (r: &PlayerData)
        requires
            i < self@.len(),
        ensures
            r@ == self@[i as int].1,
    {
        &self.entries[i].1
    }

    /// The row that carries `id`, if any.
    pub fn find(&self, id: PlayerId) -> (r: Option<usize>)
        requires
            self.wf(),
        ensures
            r is None <==> !has_id(self@, id),
            r matches Some(i) ==> i == index_of(self@, id) && 0 <= i < self@.len(),
    {
        let mut i: usize = 0;
        while i < self.entries.len()
            invariant
                0 <= i <= self@.len(),
                self@.len() == self.entries@.len(),
                unique_ids(self@),
                forall|j: int| 0 <= j < i ==> self@[j].0 != id,
            decreases self.entries@.len() - i,
        {
            if self.entries[i].0 == id {
                proof {
                    lemma_index_of_unique(self@, id, i as int);
                }
                return Some(i);
            }
            i += 1;
        }
        None
    }

    /// The player with id `id`, if known.
    pub fn get(&self, id: PlayerId) -> (r: Option<&PlayerData>)
        requires
            self.wf(),
        ensures
            r is None <==> !has_id(self@, id),
            r matches Some(p) ==> p@ == self@[index_of(self@, id)].1,
    {
        match self.find(id) {
            Some(i) => Some(&self.entries[i].1),
            None => None,
        }
    }

    /// Records the full state of player `id`, replacing what was known.
    pub fn insert(&mut self, id: PlayerId, p: PlayerData)
        requires
            old(self).wf(),
        ensures
            final(self).wf(),
            final(self)@ == upsert(old(self)@, id, p@),
    {
        let ghost s = self@;
        match self.find(id) {
            Some(i) => {
                self.entries.set(i, (id, p));
                assert(self@ =~= s.update(i as int, (id, p@)));
            },
            None => {
                self.entries.push((id, p));
                assert(self@ =~= s.push((id, p@)));
            },
        }
    }

    /// Records new movement for player `id`, if it is known.
    pub fn set_movement(&mut self, id: PlayerId, m: MovementData)
        requires
            old(self).wf(),
        ensures
            final(self).wf(),
            final(self)@ == with_movement(old(self)@, id, m),
    {
        let ghost s = self@;
        match self.find(id) {
            Some(i) => {
                let name = self.entries[i].1.name.clone();
                let p = PlayerData { name, movement_data: m };
                self.entries.set(i, (id, p));
                assert(self@ =~= with_movement(s, id, m));
            },
            None => {},
        }
    }

    /// Forgets player `id`.
    pub fn remove(&mut self, id: PlayerId)
        requires
            old(self).wf(),
        ensures
            final(self).wf(),
            final(self)@ == without(old(self)@, id),
    {
        let ghost s = self@;
        match self.find(id) {
            Some(i) => {
                self.entries.remove(i);
                assert(self@ =~= s.remove(i as int));
            },
            None => {},
        }
    }
}

/// Applying the same full record twice leaves the table as applying it once.
pub proof fn lemma_upsert_idempotent(s: Seq<Entry>, id: PlayerId, p: PlayerView)
    requires
        unique_ids(s),
    ensures
        upsert(upsert(s, id, p), id, p) == upsert(s, id, p),
        unique_ids(upsert(s, id, p)),
{
    let t = upsert(s, id, p);
    if has_id(s, id) {
        let i = index_of(s, id);
        assert(unique_ids(t));
        lemma_index_of_unique(t, id, i);
        assert(t.update(i, (id, p)) =~= t);
    } else {
        let n = s.len() as int;
        assert(unique_ids(t));
        lemma_index_of_unique(t, id, n);
        assert(t.update(n, (id, p)) =~= t);
    }
}

} // verus!
