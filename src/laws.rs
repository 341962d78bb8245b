use vstd::prelude::*;
use crate::backend::opt_text;
use crate::model::{Entity, EntityKind, ErrorKind, StoreError};
use crate::dispatch::{dispatch_post, AddParticipantCmd, Command, CreateGroupCmd, FetchCmd, Outcome};
use crate::store::{fetch_post, EntityStore};

verus! {

/// A group created through the dispatcher reads back, under the identifier
/// it was given, with exactly the name and description of the command.
pub proof fn lemma_created_group_reads_back(
    s0: EntityStore,
    cmd: CreateGroupCmd,
    o1: Outcome,
    s1: EntityStore,
    o2: Outcome,
    s2: EntityStore,
)
    requires
        s0.wf(),
        dispatch_post(s0, Command::CreateGroup(cmd), o1, s1),
        o1 is Created,
        dispatch_post(
            s1,
            Command::Fetch((FetchCmd { kind: EntityKind::Group, id: o1->Created_0 })),
            o2,
            s2,
        ),
    ensures
        o2 matches Outcome::Fetched(Entity::Group(g)) && g.id == o1->Created_0 && g.name@
            == cmd.name@ && opt_text(g.description) == opt_text(cmd.description),
{
    let id = o1->Created_0;
    assert(s0.cache_state().entry(EntityKind::Group, id) == s1.cache_state().entry(
        EntityKind::Group,
        id,
    ));
    assert(s0.db_state().row(EntityKind::Group, id) is None);
    assert(s1.db_state().groups()[id - 1] == s1.db_state().groups().last());
}

/// A participant command with its fields present that names a group that
/// does not exist fails with `ReferenceError` and creates no participant row,
/// provided a connection can be had.
pub proof fn lemma_missing_group_rejected(
    s0: EntityStore,
    cmd: AddParticipantCmd,
    o: Outcome,
    s1: EntityStore,
)
    requires
        s0.wf(),
        cmd.name@.len() > 0,
        cmd.email@.len() > 0,
        s0.pool_state().acquire_error() is None,
        !s0.db_state().group_exists(cmd.group_id),
        dispatch_post(s0, Command::AddParticipant(cmd), o, s1),
    ensures
        o matches Outcome::Failed(e) && e.kind == ErrorKind::ReferenceError,
        s1.db_state().participants() == s0.db_state().participants(),
{
}

/// Once a read has returned a snapshot, a second read of the same key with
/// no write in between returns an equal snapshot without a backing-store
/// lookup.
pub proof fn lemma_second_fetch_is_cached(
    s0: EntityStore,
    kind: EntityKind,
    id: i32,
    r1: Result<Entity, StoreError>,
    s1: EntityStore,
    r2: Result<Entity, StoreError>,
    s2: EntityStore,
)
    requires
        s0.wf(),
        r1 is Ok,
        fetch_post(s0, kind, id, r1, s1),
        fetch_post(s1, kind, id, r2, s2),
    ensures
        r2 == r1,
        s2.db_state().spec_reads() == s1.db_state().spec_reads(),
{
    match r2 {
        Ok(e2) => {},
        Err(e2) => {
            assert(s1.fetch_result(kind, id) is Ok);
        },
    }
}

/// Reading a key that has no row, with a connection to be had, fails with
/// `NotFound` every time and never leaves an entry for it in the cache.
pub proof fn lemma_missing_entity_never_cached(
    s0: EntityStore,
    kind: EntityKind,
    id: i32,
    r1: Result<Entity, StoreError>,
    s1: EntityStore,
    r2: Result<Entity, StoreError>,
    s2: EntityStore,
)
    requires
        s0.wf(),
        s0.db_state().row(kind, id) is None,
        s0.pool_state().acquire_error() is None,
        fetch_post(s0, kind, id, r1, s1),
        fetch_post(s1, kind, id, r2, s2),
    ensures
        r1 matches Err(e) && e.kind == ErrorKind::NotFound,
        r2 matches Err(e) && e.kind == ErrorKind::NotFound,
        s1.cache_state().entry(kind, id) is None,
        s2.cache_state().entry(kind, id) is None,
{
    assert(s0.cache_state().entry(kind, id) is None);
    assert(s1.cache_state().entry(kind, id) is None);
    assert(s1.db_state().row(kind, id) is None);
}

/// Reads of one key from any two states over the same backing-store tables,
/// whatever each one's cache holds, return the row the store holds: so reads
/// that race on an uncached key all return equal snapshots.
pub proof fn lemma_fetches_agree(
    a0: EntityStore,
    b0: EntityStore,
    kind: EntityKind,
    id: i32,
    ra: Result<Entity, StoreError>,
    a1: EntityStore,
    rb: Result<Entity, StoreError>,
    b1: EntityStore,
)
    requires
        a0.wf(),
        b0.wf(),
        a0.db_state().same_tables(&b0.db_state()),
        fetch_post(a0, kind, id, ra, a1),
        fetch_post(b0, kind, id, rb, b1),
    ensures
        ra matches Ok(e) ==> a0.db_state().row(kind, id) == Some(e),
        ra is Ok && rb is Ok ==> ra == rb,
{
    assert(a0.db_state().row(kind, id) == b0.db_state().row(kind, id));
}

} // verus!
