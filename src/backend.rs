use vstd::prelude::*;
use crate::model::{Entity, EntityKind, ErrorKind, Meeting, Participant, StudyGroup};

verus! {

/// The largest identifier a table can assign.
pub const MAX_ID: i32 = 2147483647;

/// A relational store held in memory: three tables with auto-assigned integer
/// primary keys. The row at position `i` of a table has identifier `i + 1`,
/// so identifiers increase with each insert and are never reused. Every
/// participant and meeting references an existing group, as a foreign-key
/// constraint would ensure. Point lookups are counted.
pub struct MemoryDb {
    groups: Vec<StudyGroup>,
    participants: Vec<Participant>,
    meetings: Vec<Meeting>,
    reads: u64,
}

/// `n + 1`, stopping at the largest `u64`.
pub open spec fn saturating_inc(n: u64) -> u64 {
    if n < u64::MAX {
        (n + 1) as u64
    } else {
        n
    }
}

/// The text of an optional string.
pub open spec fn opt_text(o: Option<String>) -> Option<Seq<char>> {
    match o {
        Some(s) => Some(s@),
        None => None,
    }
}

/// The text of an optional string slice.
pub open spec fn opt_str_text(o: Option<&str>) -> Option<Seq<char>> {
    match o {
        Some(s) => Some(s@),
        None => None,
    }
}

impl MemoryDb {
    /// The study_groups table, in insertion order.
    pub closed spec fn groups(&self) -> Seq<StudyGroup> {
        self.groups@
    }

    /// The participants table, in insertion order.
    pub closed spec fn participants(&self) -> Seq<Participant> {
        self.participants@
    }

    /// The meetings table, in insertion order.
    pub closed spec fn meetings(&self) -> Seq<Meeting> {
        self.meetings@
    }

    /// How many point lookups the store has served (saturating).
    pub closed spec fn spec_reads(&self) -> u64 {
        self.reads
    }

    /// Whether `id` names an existing group.
    pub open spec fn group_exists(&self, id: i32) -> bool {
        1 <= id <= self.groups().len()
    }

    /// Identifiers follow row positions and references point at existing
    /// groups.
    pub open spec fn wf(&self) -> bool {
        &&& self.groups().len() <= MAX_ID
        &&& self.participants().len() <= MAX_ID
        &&& self.meetings().len() <= MAX_ID
        &&& forall|i: int| 0 <= i < self.groups().len() ==> #[trigger] self.groups()[i].id == i + 1
        &&& forall|i: int|
            0 <= i < self.participants().len() ==> {
                &&& #[trigger] self.participants()[i].id == i + 1
                &&& self.group_exists(self.participants()[i].study_group_id)
            }
        &&& forall|i: int|
            0 <= i < self.meetings().len() ==> {
                &&& #[trigger] self.meetings()[i].id == i + 1
                &&& self.group_exists(self.meetings()[i].study_group_id)
            }
    }

    /// The row of `kind` with identifier `id`, if there is one.
    pub open spec fn row(&self, kind: EntityKind, id: i32) -> Option<Entity> {
        match kind {
            EntityKind::Group => if 1 <= id <= self.groups().len() {
                Some(Entity::Group(self.groups()[id - 1]))
            } else {
                None
            },
            EntityKind::Participant => if 1 <= id <= self.participants().len() {
                Some(Entity::Participant(self.participants()[id - 1]))
            } else {
                None
            },
            EntityKind::Meeting => if 1 <= id <= self.meetings().len() {
                Some(Entity::Meeting(self.meetings()[id - 1]))
            } else {
                None
            },
        }
    }

    /// Whether `self` holds the same tables as `other`.
    pub open spec fn same_tables(&self, other: &MemoryDb) -> bool {
        &&& self.groups() == other.groups()
        &&& self.participants() == other.participants()
        &&& self.meetings() == other.meetings()
    }

    /// An empty store.
    pub fn new() -> (r: MemoryDb)
        ensures
            r.wf(),
            r.groups().len() == 0,
            r.participants().len() == 0,
            r.meetings().len() == 0,
            r.spec_reads() == 0,
    {
        MemoryDb { groups: Vec::new(), participants: Vec::new(), meetings: Vec::new(), reads: 0 }
    }

    /// How many point lookups the store has served.
    pub fn reads(&self) -> (r: u64)
        ensures
            r == self.spec_reads(),
    {
        self.reads
    }

    /// Point lookup of `id` in the table of `kind`.
    pub fn find(&mut self, kind: EntityKind, id: i32) -> (r: Option<Entity>)
        requires
            old(self).wf(),
        ensures
            final(self).wf(),
            final(self).same_tables(old(self)),
            final(self).spec_reads() == saturating_inc(old(self).spec_reads()),
            r == old(self).row(kind, id),
    {
        if self.reads < u64::MAX {
            self.reads = self.reads + 1;
        }
        assert(self.groups() == old(self).groups());
        assert(self.participants() == old(self).participants());
        assert(self.meetings() == old(self).meetings());
        match kind {
            EntityKind::Group => if 1 <= id && (id as usize) <= self.groups.len() {
                Some(Entity::Group(self.groups[(id - 1) as usize].snapshot()))
            } else {
                None
            },
            EntityKind::Participant => if 1 <= id && (id as usize) <= self.participants.len() {
                Some(Entity::Participant(self.participants[(id - 1) as usize].snapshot()))
            } else {
                None
            },
            EntityKind::Meeting => if 1 <= id && (id as usize) <= self.meetings.len() {
                Some(Entity::Meeting(self.meetings[(id - 1) as usize].snapshot()))
            } else {
                None
            },
        }
    }

    /// Inserts one group row and returns its new identifier; fails with
    /// `StoreError` once the table has used every identifier.
    pub fn insert_group(&mut self, name: &str, description: Option<&str>) -> (r: Result<
        i32,
        ErrorKind,
    >)
        requires
            old(self).wf(),
        ensures
            final(self).wf(),
            final(self).spec_reads() == old(self).spec_reads(),
            final(self).participants() == old(self).participants(),
            final(self).meetings() == old(self).meetings(),
            match r {
                Ok(id) => {
                    &&& old(self).groups().len() < MAX_ID
                    &&& id == old(self).groups().len() + 1
                    &&& final(self).groups().len() == old(self).groups().len() + 1
                    &&& final(self).groups().drop_last() == old(self).groups()
                    &&& final(self).groups().last().id == id
                    &&& final(self).groups().last().name@ == name@
                    &&& opt_text(final(self).groups().last().description) == opt_str_text(
                        description,
                    )
                },
                Err(e) => {
                    &&& old(self).groups().len() == MAX_ID
                    &&& e == ErrorKind::StoreError
                    &&& final(self).groups() == old(self).groups()
                },
            },
    {
        if self.groups.len() >= MAX_ID as usize {
            return Err(ErrorKind::StoreError);
        }
        let id = (self.groups.len() + 1) as i32;
        let description = match description {
            Some(d) => Some(d.to_owned()),
            None => None,
        };
        self.groups.push(StudyGroup { id, name: name.to_owned(), description });
        assert(self.groups@.drop_last() =~= old(self).groups@);
        assert(forall|i: int| 0 <= i < old(self).groups().len() ==> self.groups()[i] == old(self).groups()[i]);
        assert(self.wf());
        Ok(id)
    }

    /// Inserts one participant row and returns its new identifier. Fails with
    /// `ReferenceError` when `group_id` names no group and with `StoreError`
    /// once the table has used every identifier.
    pub fn insert_participant(&mut self, group_id: i32, name: &str, email: &str) -> (r: Result<
        i32,
        ErrorKind,
    >)
        requires
            old(self).wf(),
        ensures
            final(self).wf(),
            final(self).spec_reads() == old(self).spec_reads(),
            final(self).groups() == old(self).groups(),
            final(self).meetings() == old(self).meetings(),
            match r {
                Ok(id) => {
                    &&& old(self).group_exists(group_id)
                    &&& old(self).participants().len() < MAX_ID
                    &&& id == old(self).participants().len() + 1
                    &&& final(self).participants().len() == old(self).participants().len() + 1
                    &&& final(self).participants().drop_last() == old(self).participants()
                    &&& final(self).participants().last().id == id
                    &&& final(self).participants().last().study_group_id == group_id
                    &&& final(self).participants().last().name@ == name@
                    &&& final(self).participants().last().email@ == email@
                },
                Err(e) => {
                    &&& final(self).participants() == old(self).participants()
                    &&& e == if !old(self).group_exists(group_id) {
                        ErrorKind::ReferenceError
                    } else {
                        ErrorKind::StoreError
                    }
                    &&& old(self).group_exists(group_id) ==> old(self).participants().len()
                        == MAX_ID
                },
            },
    {
        if group_id < 1 || group_id as usize > self.groups.len() {
            return Err(ErrorKind::ReferenceError);
        }
        if self.participants.len() >= MAX_ID as usize {
            return Err(ErrorKind::StoreError);
        }
        let id = (self.participants.len() + 1) as i32;
        self.participants.push(
            Participant {
                id,
                study_group_id: group_id,
                name: name.to_owned(),
                email: email.to_owned(),
            },
        );
        assert(self.participants@.drop_last() =~= old(self).participants@);
        Ok(id)
    }

    /// Inserts one meeting row and returns its new identifier. Fails with
    /// `ReferenceError` when `group_id` names no group and with `StoreError`
    /// once the table has used every identifier.
    pub fn insert_meeting(
        &mut self,
        group_id: i32,
        title: &str,
        location: &str,
        time: &str,
    ) -> (r: Result<i32, ErrorKind>)
        requires
            old(self).wf(),
        ensures
            final(self).wf(),
            final(self).spec_reads() == old(self).spec_reads(),
            final(self).groups() == old(self).groups(),
            final(self).participants() == old(self).participants(),
            match r {
                Ok(id) => {
                    &&& old(self).group_exists(group_id)
                    &&& old(self).meetings().len() < MAX_ID
                    &&& id == old(self).meetings().len() + 1
                    &&& final(self).meetings().len() == old(self).meetings().len() + 1
                    &&& final(self).meetings().drop_last() == old(self).meetings()
                    &&& final(self).meetings().last().id == id
                    &&& final(self).meetings().last().study_group_id == group_id
                    &&& final(self).meetings().last().title@ == title@
                    &&& final(self).meetings().last().location@ == location@
                    &&& final(self).meetings().last().time@ == time@
                },
                Err(e) => {
                    &&& final(self).meetings() == old(self).meetings()
                    &&& e == if !old(self).group_exists(group_id) {
                        ErrorKind::ReferenceError
                    } else {
                        ErrorKind::StoreError
                    }
                    &&& old(self).group_exists(group_id) ==> old(self).meetings().len() == MAX_ID
                },
            },
    {
        if group_id < 1 || group_id as usize > self.groups.len() {
            return Err(ErrorKind::ReferenceError);
        }
        if self.meetings.len() >= MAX_ID as usize {
            return Err(ErrorKind::StoreError);
        }
        let id = (self.meetings.len() + 1) as i32;
        self.meetings.push(
            Meeting {
                id,
                study_group_id: group_id,
                title: title.to_owned(),
                location: location.to_owned(),
                time: time.to_owned(),
            },
        );
        assert(self.meetings@.drop_last() =~= old(self).meetings@);
        Ok(id)
    }
}

} // verus!
