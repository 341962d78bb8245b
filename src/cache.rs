use vstd::prelude::*;
use std::collections::HashMap;
use crate::model::{Entity, EntityKind, Meeting, Participant, StudyGroup};

verus! {

broadcast use vstd::std_specs::hash::group_hash_axioms;

/// An unbounded in-memory map from (kind, identifier) to the last snapshot
/// stored for it. It holds no negative entries: absence of a key says
/// nothing about the backing store.
pub struct Cache {
    groups: HashMap<i32, StudyGroup>,
    participants: HashMap<i32, Participant>,
    meetings: HashMap<i32, Meeting>,
}

impl Cache {
    /// The snapshot cached for `id` among entities of `kind`, if any.
    pub closed spec fn entry(&self, kind: EntityKind, id: i32) -> Option<Entity> {
        match kind {
            EntityKind::Group => if self.groups@.contains_key(id) {
                Some(Entity::Group(self.groups@[id]))
            } else {
                None
            },
            EntityKind::Participant => if self.participants@.contains_key(id) {
                Some(Entity::Participant(self.participants@[id]))
            } else {
                None
            },
            EntityKind::Meeting => if self.meetings@.contains_key(id) {
                Some(Entity::Meeting(self.meetings@[id]))
            } else {
                None
            },
        }
    }

    /// Every cached snapshot is stored under its own kind and identifier.
    pub open spec fn wf(&self) -> bool {
        forall|kind: EntityKind, id: i32| #[trigger] self.entry(kind, id) matches Some(e) ==> {
            &&& e.spec_kind() == kind
            &&& e.spec_id() == id
        }
    }

    /// Whether `self` and `other` cache the same snapshots.
    pub open spec fn same_entries(&self, other: &Cache) -> bool {
        forall|kind: EntityKind, id: i32| #[trigger] self.entry(kind, id) == other.entry(kind, id)
    }

    /// An empty cache.
    pub fn new() -> (r: Cache)
        ensures
            r.wf(),
            forall|kind: EntityKind, id: i32| #[trigger] r.entry(kind, id).is_none(),
    {
        Cache { groups: HashMap::new(), participants: HashMap::new(), meetings: HashMap::new() }
    }

    /// The snapshot cached for `id` among entities of `kind`, if any; no side
    /// effect.
    pub fn get(&self, kind: EntityKind, id: i32) -> (r: Option<Entity>)
        ensures
            r == self.entry(kind, id),
    {
        match kind {
            EntityKind::Group => match self.groups.get(&id) {
                Some(g) => Some(Entity::Group(g.snapshot())),
                None => None,
            },
            EntityKind::Participant => match self.participants.get(&id) {
                Some(p) => Some(Entity::Participant(p.snapshot())),
                None => None,
            },
            EntityKind::Meeting => match self.meetings.get(&id) {
                Some(m) => Some(Entity::Meeting(m.snapshot())),
                None => None,
            },
        }
    }

    /// Stores `snapshot` under its kind and identifier, replacing what was
    /// there (last writer wins); every other entry is kept.
    pub fn put(&mut self, snapshot: Entity)
        ensures
            final(self).entry(snapshot.spec_kind(), snapshot.spec_id()) == Some(snapshot),
            forall|kind: EntityKind, id: i32|
                !(kind == snapshot.spec_kind() && id == snapshot.spec_id())
                    ==> #[trigger] final(self).entry(kind, id) == old(self).entry(kind, id),
            old(self).wf() ==> final(self).wf(),
    {
        let ghost s = snapshot;
        match snapshot {
            Entity::Group(g) => {
                self.groups.insert(g.id, g);
            },
            Entity::Participant(p) => {
                self.participants.insert(p.id, p);
            },
            Entity::Meeting(m) => {
                self.meetings.insert(m.id, m);
            },
        }
        proof {
            if old(self).wf() {
                assert forall|kind: EntityKind, id: i32| #[trigger]
                    self.entry(kind, id) is Some implies self.entry(kind, id)->Some_0.spec_kind()
                    == kind && self.entry(kind, id)->Some_0.spec_id() == id by {
                    if !(kind == s.spec_kind() && id == s.spec_id()) {
                        assert(self.entry(kind, id) == old(self).entry(kind, id));
                    }
                }
            }
        }
    }
}

} // verus!
