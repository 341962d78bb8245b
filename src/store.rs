use vstd::prelude::*;
use crate::backend::{opt_str_text, opt_text, saturating_inc, MemoryDb, MAX_ID};
use crate::cache::Cache;
use crate::model::{Entity, EntityKind, ErrorKind, StoreError};
use crate::pool::{lemma_acquire_release, ConnHandle, Pool};

verus! {

/// The entity store: create and read operations over a backing store, each
/// bracketed by the acquisition and release of one pooled connection, with
/// reads served through the snapshot cache.
pub struct EntityStore {
    pool: Pool,
    cache: Cache,
    db: MemoryDb,
}

/// Whether the pool of `post` is in the same state as that of `pre`.
pub open spec fn same_pool(pre: &Pool, post: &Pool) -> bool {
    &&& post.busy() == pre.busy()
    &&& post.spec_reachable() == pre.spec_reachable()
}

/// Completes a read-through lookup once the backing store has answered with
/// `found`: a row for the requested key is cached and returned; no row gives
/// `NotFound` and caches nothing; a row for another key is a `StoreError`.
pub fn complete_fetch(cache: &mut Cache, kind: EntityKind, id: i32, found: Option<Entity>) -> (r:
    Result<Entity, StoreError>)
    ensures
        old(cache).wf() ==> final(cache).wf(),
        match found {
            None => {
                &&& r matches Err(e) && e.kind == ErrorKind::NotFound
                &&& final(cache).same_entries(old(cache))
            },
            Some(row) => if row.spec_kind() == kind && row.spec_id() == id {
                &&& r == Ok::<Entity, StoreError>(row)
                &&& final(cache).entry(kind, id) == Some(row)
                &&& forall|k: EntityKind, i: i32|
                    !(k == kind && i == id) ==> #[trigger] final(cache).entry(k, i) == old(
                        cache,
                    ).entry(k, i)
            } else {
                &&& r matches Err(e) && e.kind == ErrorKind::StoreError
                &&& final(cache).same_entries(old(cache))
            },
        },
{
    match found {
        None => Err(StoreError::from_kind(ErrorKind::NotFound)),
        Some(row) => {
            if row.kind() == kind && row.id() == id {
                let copy = row.snapshot();
                cache.put(copy);
                Ok(row)
            } else {
                Err(StoreError::from_kind(ErrorKind::StoreError))
            }
        },
    }
}

impl EntityStore {
    /// The connection pool.
    pub closed spec fn pool_state(&self) -> Pool {
        self.pool
    }

    /// The snapshot cache.
    pub closed spec fn cache_state(&self) -> Cache {
        self.cache
    }

    /// The backing store.
    pub closed spec fn db_state(&self) -> MemoryDb {
        self.db
    }

    /// The parts are well formed and every cached snapshot equals the row the
    /// backing store holds for its key.
    pub open spec fn wf(&self) -> bool {
        &&& self.cache_state().wf()
        &&& self.db_state().wf()
        &&& forall|kind: EntityKind, id: i32| #[trigger]
            self.cache_state().entry(kind, id) is Some ==> self.cache_state().entry(kind, id)
                == self.db_state().row(kind, id)
    }

    /// What `fetch_by_id(kind, id)` returns from this state.
    pub open spec fn fetch_result(&self, kind: EntityKind, id: i32) -> Result<Entity, ErrorKind> {
        match self.cache_state().entry(kind, id) {
            Some(e) => Ok(e),
            None => match self.pool_state().acquire_error() {
                Some(k) => Err(k),
                None => match self.db_state().row(kind, id) {
                    Some(e) => Ok(e),
                    None => Err(ErrorKind::NotFound),
                },
            },
        }
    }

    /// Whether `fetch_by_id(kind, id)` from this state reaches the backing
    /// store.
    pub open spec fn fetch_reads_store(&self, kind: EntityKind, id: i32) -> bool {
        self.cache_state().entry(kind, id) is None && self.pool_state().acquire_error() is None
    }

    /// What `create_group(name, ..)` fails with from this state, if it fails.
    pub open spec fn create_group_error(&self, name: Seq<char>) -> Option<ErrorKind> {
        if name.len() == 0 {
            Some(ErrorKind::ValidationError)
        } else if self.pool_state().acquire_error() is Some {
            self.pool_state().acquire_error()
        } else if self.db_state().groups().len() >= MAX_ID {
            Some(ErrorKind::StoreError)
        } else {
            None
        }
    }

    /// What a participant or meeting insert under `group_id` fails with from
    /// this state, if it fails; `valid` says whether its text fields passed
    /// validation and `rows` is the size of the table it inserts into.
    pub open spec fn child_insert_error(&self, group_id: i32, valid: bool, rows: nat) -> Option<
        ErrorKind,
    > {
        if !valid {
            Some(ErrorKind::ValidationError)
        } else if self.pool_state().acquire_error() is Some {
            self.pool_state().acquire_error()
        } else if !self.db_state().group_exists(group_id) {
            Some(ErrorKind::ReferenceError)
        } else if rows >= MAX_ID {
            Some(ErrorKind::StoreError)
        } else {
            None
        }
    }

    /// What `add_participant(group_id, name, email)` fails with, if it fails.
    pub open spec fn add_participant_error(
        &self,
        group_id: i32,
        name: Seq<char>,
        email: Seq<char>,
    ) -> Option<ErrorKind> {
        self.child_insert_error(
            group_id,
            name.len() > 0 && email.len() > 0,
            self.db_state().participants().len(),
        )
    }

    /// What `schedule_meeting(group_id, title, location, time)` fails with, if
    /// it fails.
    pub open spec fn schedule_meeting_error(
        &self,
        group_id: i32,
        title: Seq<char>,
        location: Seq<char>,
        time: Seq<char>,
    ) -> Option<ErrorKind> {
        self.child_insert_error(
            group_id,
            title.len() > 0 && location.len() > 0 && time.len() > 0,
            self.db_state().meetings().len(),
        )
    }
}

/// How `create_group(name, description)` took `pre` to `post` with result `r`.
pub open spec fn create_group_post(
    pre: EntityStore,
    name: Seq<char>,
    description: Option<Seq<char>>,
    r: Result<i32, StoreError>,
    post: EntityStore,
) -> bool {
    &&& post.wf()
    &&& same_pool(&pre.pool_state(), &post.pool_state())
    &&& post.cache_state().same_entries(&pre.cache_state())
    &&& post.db_state().spec_reads() == pre.db_state().spec_reads()
    &&& post.db_state().participants() == pre.db_state().participants()
    &&& post.db_state().meetings() == pre.db_state().meetings()
    &&& match r {
        Ok(id) => {
            let g = post.db_state().groups().last();
            &&& pre.create_group_error(name).is_none()
            &&& id == pre.db_state().groups().len() + 1
            &&& post.db_state().groups().len() == pre.db_state().groups().len() + 1
            &&& post.db_state().groups().drop_last() == pre.db_state().groups()
            &&& g.id == id
            &&& g.name@ == name
            &&& opt_text(g.description) == description
        },
        Err(e) => {
            &&& pre.create_group_error(name) == Some(e.kind)
            &&& post.db_state().groups() == pre.db_state().groups()
        },
    }
}

/// How `add_participant(group_id, name, email)` took `pre` to `post` with
/// result `r`.
pub open spec fn add_participant_post(
    pre: EntityStore,
    group_id: i32,
    name: Seq<char>,
    email: Seq<char>,
    r: Result<i32, StoreError>,
    post: EntityStore,
) -> bool {
    &&& post.wf()
    &&& same_pool(&pre.pool_state(), &post.pool_state())
    &&& post.cache_state().same_entries(&pre.cache_state())
    &&& post.db_state().spec_reads() == pre.db_state().spec_reads()
    &&& post.db_state().groups() == pre.db_state().groups()
    &&& post.db_state().meetings() == pre.db_state().meetings()
    &&& match r {
        Ok(id) => {
            let p = post.db_state().participants().last();
            &&& pre.add_participant_error(group_id, name, email).is_none()
            &&& id == pre.db_state().participants().len() + 1
            &&& post.db_state().participants().len() == pre.db_state().participants().len() + 1
            &&& post.db_state().participants().drop_last() == pre.db_state().participants()
            &&& p.id == id
            &&& p.study_group_id == group_id
            &&& p.name@ == name
            &&& p.email@ == email
        },
        Err(e) => {
            &&& pre.add_participant_error(group_id, name, email) == Some(e.kind)
            &&& post.db_state().participants() == pre.db_state().participants()
        },
    }
}

/// How `schedule_meeting(group_id, title, location, time)` took `pre` to
/// `post` with result `r`.
pub open spec fn schedule_meeting_post(
    pre: EntityStore,
    group_id: i32,
    title: Seq<char>,
    location: Seq<char>,
    time: Seq<char>,
    r: Result<i32, StoreError>,
    post: EntityStore,
) -> bool {
    &&& post.wf()
    &&& same_pool(&pre.pool_state(), &post.pool_state())
    &&& post.cache_state().same_entries(&pre.cache_state())
    &&& post.db_state().spec_reads() == pre.db_state().spec_reads()
    &&& post.db_state().groups() == pre.db_state().groups()
    &&& post.db_state().participants() == pre.db_state().participants()
    &&& match r {
        Ok(id) => {
            let m = post.db_state().meetings().last();
            &&& pre.schedule_meeting_error(group_id, title, location, time).is_none()
            &&& id == pre.db_state().meetings().len() + 1
            &&& post.db_state().meetings().len() == pre.db_state().meetings().len() + 1
            &&& post.db_state().meetings().drop_last() == pre.db_state().meetings()
            &&& m.id == id
            &&& m.study_group_id == group_id
            &&& m.title@ == title
            &&& m.location@ == location
            &&& m.time@ == time
        },
        Err(e) => {
            &&& pre.schedule_meeting_error(group_id, title, location, time) == Some(e.kind)
            &&& post.db_state().meetings() == pre.db_state().meetings()
        },
    }
}

/// How `fetch_by_id(kind, id)` took `pre` to `post` with result `r`.
pub open spec fn fetch_post(
    pre: EntityStore,
    kind: EntityKind,
    id: i32,
    r: Result<Entity, StoreError>,
    post: EntityStore,
) -> bool {
    &&& post.wf()
    &&& same_pool(&pre.pool_state(), &post.pool_state())
    &&& post.db_state().same_tables(&pre.db_state())
    &&& post.db_state().spec_reads() == if pre.fetch_reads_store(kind, id) {
        saturating_inc(pre.db_state().spec_reads())
    } else {
        pre.db_state().spec_reads()
    }
    &&& match r {
        Ok(e) => {
            &&& pre.fetch_result(kind, id) == Ok::<Entity, ErrorKind>(e)
            &&& post.cache_state().entry(kind, id) == Some(e)
            &&& forall|k: EntityKind, i: i32|
                !(k == kind && i == id) ==> #[trigger] post.cache_state().entry(k, i)
                    == pre.cache_state().entry(k, i)
        },
        Err(e) => {
            &&& pre.fetch_result(kind, id) == Err::<Entity, ErrorKind>(e.kind)
            &&& post.cache_state().same_entries(&pre.cache_state())
        },
    }
}

impl EntityStore {
    /// A store over an empty backing store, with an empty cache and a pool of
    /// `pool_size` free connections.
    pub fn new(pool_size: usize) -> (r: EntityStore)
        ensures
            r.wf(),
            r.pool_state().busy() == Seq::new(pool_size as nat, |i: int| false),
            r.pool_state().spec_reachable(),
            forall|kind: EntityKind, id: i32| #[trigger] r.cache_state().entry(kind, id) is None,
            r.db_state().groups().len() == 0,
            r.db_state().participants().len() == 0,
            r.db_state().meetings().len() == 0,
            r.db_state().spec_reads() == 0,
    {
        let cache = Cache::new();
        let r = EntityStore { pool: Pool::new(pool_size), cache, db: MemoryDb::new() };
        assert forall|kind: EntityKind, id: i32| #[trigger]
            r.cache.entry(kind, id) is Some implies r.cache.entry(kind, id) == r.db.row(
            kind,
            id,
        ) by {
            assert(cache.entry(kind, id) is None);
        }
        r
    }

    /// How many point lookups have reached the backing store.
    pub fn store_reads(&self) -> (r: u64)
        ensures
            r == self.db_state().spec_reads(),
    {
        self.db.reads()
    }

    /// The snapshot cached for `id` among entities of `kind`, if any.
    pub fn cached(&self, kind: EntityKind, id: i32) -> (r: Option<Entity>)
        ensures
            r == self.cache_state().entry(kind, id),
    {
        self.cache.get(kind, id)
    }

    /// Whether an operation could take a connection right now.
    pub fn connection_available(&self) -> (r: bool)
        ensures
            r == self.pool_state().acquire_error().is_none(),
    {
        self.pool.is_reachable() && self.pool.available()
    }

    /// Takes a connection out of the pool and holds it until it is handed back
    /// with `return_connection`.
    pub fn hold_connection(&mut self) -> (r: Result<ConnHandle, StoreError>)
        requires
            old(self).wf(),
        ensures
            final(self).wf(),
            final(self).db_state() == old(self).db_state(),
            final(self).cache_state() == old(self).cache_state(),
            final(self).pool_state().spec_reachable() == old(self).pool_state().spec_reachable(),
            match r {
                Ok(h) => {
                    &&& old(self).pool_state().acquire_error().is_none()
                    &&& h.spec_slot() < old(self).pool_state().busy().len()
                    &&& !old(self).pool_state().busy()[h.spec_slot() as int]
                    &&& final(self).pool_state().busy() == old(self).pool_state().busy().update(
                        h.spec_slot() as int,
                        true,
                    )
                },
                Err(e) => {
                    &&& old(self).pool_state().acquire_error() == Some(e.kind)
                    &&& final(self).pool_state().busy() == old(self).pool_state().busy()
                },
            },
    {
        match self.pool.acquire() {
            Ok(h) => Ok(h),
            Err(k) => Err(StoreError::from_kind(k)),
        }
    }

    /// Hands a held connection back to the pool.
    pub fn return_connection(&mut self, h: ConnHandle)
        requires
            old(self).wf(),
        ensures
            final(self).wf(),
            final(self).db_state() == old(self).db_state(),
            final(self).cache_state() == old(self).cache_state(),
            final(self).pool_state().spec_reachable() == old(self).pool_state().spec_reachable(),
            final(self).pool_state().busy() == if h.spec_slot() < old(
                self,
            ).pool_state().busy().len() {
                old(self).pool_state().busy().update(h.spec_slot() as int, false)
            } else {
                old(self).pool_state().busy()
            },
    {
        self.pool.release(h);
    }

    /// Records whether the backing store can be reached.
    pub fn set_store_reachable(&mut self, reachable: bool)
        requires
            old(self).wf(),
        ensures
            final(self).wf(),
            final(self).db_state() == old(self).db_state(),
            final(self).cache_state() == old(self).cache_state(),
            final(self).pool_state().busy() == old(self).pool_state().busy(),
            final(self).pool_state().spec_reachable() == reachable,
    {
        self.pool.set_reachable(reachable);
    }

    /// Creates a study group and returns its new identifier. Fails with
    /// `ValidationError` on an empty name (before any connection is taken),
    /// with the pool's error when no connection can be had, and with
    /// `StoreError` when the backing store refuses the insert.
    pub fn create_group(&mut self, name: &str, description: Option<&str>) -> (r: Result<
        i32,
        StoreError,
    >)
        requires
            old(self).wf(),
        ensures
            create_group_post(*old(self), name@, opt_str_text(description), r, *final(self)),
    {
        if name.is_empty() {
            return Err(StoreError::from_kind(ErrorKind::ValidationError));
        }
        let h = match self.pool.acquire() {
            Ok(h) => h,
            Err(k) => return Err(StoreError::from_kind(k)),
        };
        let ghost slot = h.spec_slot() as int;
        let inserted = self.db.insert_group(name, description);
        self.pool.release(h);
        proof {
            lemma_acquire_release(old(self).pool.busy(), slot);
            self.lemma_new_row_uncached(old(self).cache, old(self).db);
        }
        match inserted {
            Ok(id) => Ok(id),
            Err(k) => Err(StoreError::from_kind(k)),
        }
    }

    /// Enrolls a participant in the group `group_id` and returns its new
    /// identifier. Fails with `ValidationError` on an empty name or email,
    /// with the pool's error when no connection can be had, with
    /// `ReferenceError` when the group does not exist, and with `StoreError`
    /// when the backing store refuses the insert. A failure inserts nothing.
    pub fn add_participant(&mut self, group_id: i32, name: &str, email: &str) -> (r: Result<
        i32,
        StoreError,
    >)
        requires
            old(self).wf(),
        ensures
            add_participant_post(*old(self), group_id, name@, email@, r, *final(self)),
    {
        if name.is_empty() || email.is_empty() {
            return Err(StoreError::from_kind(ErrorKind::ValidationError));
        }
        let h = match self.pool.acquire() {
            Ok(h) => h,
            Err(k) => return Err(StoreError::from_kind(k)),
        };
        let ghost slot = h.spec_slot() as int;
        let inserted = self.db.insert_participant(group_id, name, email);
        self.pool.release(h);
        proof {
            lemma_acquire_release(old(self).pool.busy(), slot);
            self.lemma_new_row_uncached(old(self).cache, old(self).db);
        }
        match inserted {
            Ok(id) => Ok(id),
            Err(k) => Err(StoreError::from_kind(k)),
        }
    }

    /// Schedules a meeting for the group `group_id` and returns its new
    /// identifier, with the same validation and errors as `add_participant`
    /// (title, location and time must be non-empty).
    pub fn schedule_meeting(
        &mut self,
        group_id: i32,
        title: &str,
        location: &str,
        time: &str,
    ) -> (r: Result<i32, StoreError>)
        requires
            old(self).wf(),
        ensures
            schedule_meeting_post(
                *old(self),
                group_id,
                title@,
                location@,
                time@,
                r,
                *final(self),
            ),
    {
        if title.is_empty() || location.is_empty() || time.is_empty() {
            return Err(StoreError::from_kind(ErrorKind::ValidationError));
        }
        let h = match self.pool.acquire() {
            Ok(h) => h,
            Err(k) => return Err(StoreError::from_kind(k)),
        };
        let ghost slot = h.spec_slot() as int;
        let inserted = self.db.insert_meeting(group_id, title, location, time);
        self.pool.release(h);
        proof {
            lemma_acquire_release(old(self).pool.busy(), slot);
            self.lemma_new_row_uncached(old(self).cache, old(self).db);
        }
        match inserted {
            Ok(id) => Ok(id),
            Err(k) => Err(StoreError::from_kind(k)),
        }
    }

    /// Reads the entity of `kind` with identifier `id` through the cache: a
    /// cached snapshot is returned without touching the backing store;
    /// otherwise one connection is taken for the point lookup and given back,
    /// a found row is cached and returned, and a missing row gives `NotFound`
    /// and caches nothing.
    pub fn fetch_by_id(&mut self, kind: EntityKind, id: i32) -> (r: Result<Entity, StoreError>)
        requires
            old(self).wf(),
        ensures
            fetch_post(*old(self), kind, id, r, *final(self)),
    {
        match self.cache.get(kind, id) {
            Some(e) => return Ok(e),
            None => {},
        }
        let h = match self.pool.acquire() {
            Ok(h) => h,
            Err(k) => return Err(StoreError::from_kind(k)),
        };
        let ghost slot = h.spec_slot() as int;
        let found = self.db.find(kind, id);
        self.pool.release(h);
        proof {
            lemma_acquire_release(old(self).pool.busy(), slot);
        }
        let r = complete_fetch(&mut self.cache, kind, id, found);
        proof {
            assert forall|k: EntityKind, i: i32| #[trigger]
                self.cache.entry(k, i) is Some implies self.cache.entry(k, i) == self.db.row(
                k,
                i,
            ) by {
                if !(k == kind && i == id) {
                    assert(self.cache.entry(k, i) == old(self).cache.entry(k, i));
                }
            }
        }
        r
    }

    /// After an insert that kept the cache, every cached snapshot still equals
    /// its row: inserts only append rows under fresh identifiers.
    proof fn lemma_new_row_uncached(&self, old_cache: Cache, old_db: MemoryDb)
        requires
            self.cache.same_entries(&old_cache),
            self.db.wf(),
            old_db.wf(),
            forall|kind: EntityKind, id: i32| #[trigger]
                old_cache.entry(kind, id) is Some ==> old_cache.entry(kind, id) == old_db.row(
                    kind,
                    id,
                ),
            old_db.groups().len() <= self.db.groups().len(),
            old_db.participants().len() <= self.db.participants().len(),
            old_db.meetings().len() <= self.db.meetings().len(),
            forall|i: int| 0 <= i < old_db.groups().len() ==> self.db.groups()[i] == old_db.groups()[i],
            forall|i: int|
                0 <= i < old_db.participants().len() ==> self.db.participants()[i]
                    == old_db.participants()[i],
            forall|i: int|
                0 <= i < old_db.meetings().len() ==> self.db.meetings()[i] == old_db.meetings()[i],
        ensures
            forall|kind: EntityKind, id: i32| #[trigger]
                self.cache.entry(kind, id) is Some ==> self.cache.entry(kind, id) == self.db.row(
                    kind,
                    id,
                ),
    {
        assert forall|kind: EntityKind, id: i32| #[trigger]
            self.cache.entry(kind, id) is Some implies self.cache.entry(kind, id) == self.db.row(
            kind,
            id,
        ) by {
            assert(old_cache.entry(kind, id) == self.cache.entry(kind, id));
        }
    }
}

} // verus!
