use study_groups::dispatch::{
    dispatch, AddParticipantCmd, Command, CreateGroupCmd, FetchCmd, Outcome, ScheduleMeetingCmd,
};
use study_groups::model::{Entity, EntityKind, ErrorKind, StoreError};
use study_groups::store::{complete_fetch, EntityStore};
use study_groups::cache::Cache;
use study_groups::pool::Pool;

fn group_of(r: Result<Entity, StoreError>) -> (i32, String, Option<String>) {
    match r {
        Ok(Entity::Group(g)) => (g.id, g.name, g.description),
        _ => panic!("expected a study group"),
    }
}

fn kind_of<T>(r: Result<T, StoreError>) -> ErrorKind {
    match r {
        Ok(_) => panic!("expected an error"),
        Err(e) => e.kind,
    }
}

#[test]
fn end_to_end_scenario() {
    let mut store = EntityStore::new(4);
    let g = store.create_group("Rust Study Group", Some("Learning Rust together"));
    assert_eq!(g.ok(), Some(1));
    let p = store.add_participant(1, "John Doe", "john@example.com");
    assert_eq!(p.ok(), Some(1));
    let m = store.schedule_meeting(1, "Introduction to Rust", "Library Room 101", "2023-01-01T10:00:00");
    assert_eq!(m.ok(), Some(1));
    let (id, name, description) = group_of(store.fetch_by_id(EntityKind::Group, 1));
    assert_eq!(id, 1);
    assert_eq!(name, "Rust Study Group");
    assert_eq!(description, Some("Learning Rust together".to_string()));
}

#[test]
fn created_group_round_trips() {
    let mut store = EntityStore::new(1);
    let id = store.create_group("Algebra", None).ok().unwrap();
    let (fid, name, description) = group_of(store.fetch_by_id(EntityKind::Group, id));
    assert_eq!(fid, id);
    assert_eq!(name, "Algebra");
    assert_eq!(description, None);
}

#[test]
fn identifiers_increase_per_table() {
    let mut store = EntityStore::new(2);
    assert_eq!(store.create_group("A", None).ok(), Some(1));
    assert_eq!(store.create_group("B", Some("second")).ok(), Some(2));
    assert_eq!(store.add_participant(2, "Ann", "ann@example.com").ok(), Some(1));
    assert_eq!(store.add_participant(1, "Bob", "bob@example.com").ok(), Some(2));
    assert_eq!(store.schedule_meeting(2, "Kickoff", "Room 1", "2024-05-01T09:00:00").ok(), Some(1));
}

#[test]
fn participant_for_missing_group_is_reference_error() {
    let mut store = EntityStore::new(1);
    assert_eq!(kind_of(store.add_participant(7, "John Doe", "john@example.com")), ErrorKind::ReferenceError);
    assert_eq!(kind_of(store.fetch_by_id(EntityKind::Participant, 1)), ErrorKind::NotFound);
    store.create_group("G", None).ok().unwrap();
    assert_eq!(store.add_participant(1, "John Doe", "john@example.com").ok(), Some(1));
}

#[test]
fn meeting_for_missing_group_is_reference_error() {
    let mut store = EntityStore::new(1);
    assert_eq!(kind_of(store.schedule_meeting(1, "T", "L", "2023-01-01T10:00:00")), ErrorKind::ReferenceError);
    assert_eq!(kind_of(store.fetch_by_id(EntityKind::Meeting, 1)), ErrorKind::NotFound);
}

#[test]
fn empty_fields_are_validation_errors() {
    let mut store = EntityStore::new(1);
    assert_eq!(kind_of(store.create_group("", Some("x"))), ErrorKind::ValidationError);
    store.create_group("G", None).ok().unwrap();
    assert_eq!(kind_of(store.add_participant(1, "", "a@b.c")), ErrorKind::ValidationError);
    assert_eq!(kind_of(store.add_participant(1, "Ann", "")), ErrorKind::ValidationError);
    assert_eq!(kind_of(store.schedule_meeting(1, "", "L", "T")), ErrorKind::ValidationError);
    assert_eq!(kind_of(store.schedule_meeting(1, "T", "", "T")), ErrorKind::ValidationError);
    assert_eq!(kind_of(store.schedule_meeting(1, "T", "L", "")), ErrorKind::ValidationError);
}

#[test]
fn validation_precedes_connection_use() {
    let mut store = EntityStore::new(1);
    let _held = store.hold_connection().ok().unwrap();
    assert_eq!(kind_of(store.create_group("", None)), ErrorKind::ValidationError);
}

#[test]
fn second_read_served_from_cache() {
    let mut store = EntityStore::new(1);
    store.create_group("G", Some("d")).ok().unwrap();
    let before = store.store_reads();
    let first = group_of(store.fetch_by_id(EntityKind::Group, 1));
    assert_eq!(store.store_reads(), before + 1);
    let second = group_of(store.fetch_by_id(EntityKind::Group, 1));
    assert_eq!(store.store_reads(), before + 1);
    assert_eq!(first, second);
    assert!(store.cached(EntityKind::Group, 1).is_some());
}

#[test]
fn missing_reads_are_never_cached() {
    let mut store = EntityStore::new(1);
    for _ in 0..3 {
        assert_eq!(kind_of(store.fetch_by_id(EntityKind::Group, 42)), ErrorKind::NotFound);
        assert!(store.cached(EntityKind::Group, 42).is_none());
    }
    assert_eq!(store.store_reads(), 3);
}

#[test]
fn reads_return_the_same_snapshot() {
    let mut store = EntityStore::new(3);
    store.create_group("G", None).ok().unwrap();
    store.add_participant(1, "Ann", "ann@example.com").ok().unwrap();
    let mut seen = Vec::new();
    for _ in 0..5 {
        match store.fetch_by_id(EntityKind::Participant, 1) {
            Ok(Entity::Participant(p)) => seen.push((p.id, p.study_group_id, p.name, p.email)),
            _ => panic!("expected a participant"),
        }
    }
    for s in &seen {
        assert_eq!(*s, (1, 1, "Ann".to_string(), "ann@example.com".to_string()));
    }
}

#[test]
fn held_sole_connection_exhausts_pool() {
    let mut store = EntityStore::new(1);
    store.create_group("G", None).ok().unwrap();
    let held = store.hold_connection().ok().unwrap();
    assert_eq!(kind_of(store.fetch_by_id(EntityKind::Group, 1)), ErrorKind::PoolExhausted);
    assert_eq!(kind_of(store.create_group("H", None)), ErrorKind::PoolExhausted);
    assert_eq!(kind_of(store.add_participant(1, "A", "a@b.c")), ErrorKind::PoolExhausted);
    store.return_connection(held);
    assert_eq!(group_of(store.fetch_by_id(EntityKind::Group, 1)).0, 1);
}

#[test]
fn cached_read_needs_no_connection() {
    let mut store = EntityStore::new(1);
    store.create_group("G", None).ok().unwrap();
    store.fetch_by_id(EntityKind::Group, 1).ok().unwrap();
    let _held = store.hold_connection().ok().unwrap();
    assert_eq!(group_of(store.fetch_by_id(EntityKind::Group, 1)).1, "G");
}

#[test]
fn unreachable_store_is_connection_error() {
    let mut store = EntityStore::new(2);
    store.set_store_reachable(false);
    assert_eq!(kind_of(store.create_group("G", None)), ErrorKind::ConnectionError);
    assert_eq!(kind_of(store.fetch_by_id(EntityKind::Group, 1)), ErrorKind::ConnectionError);
    store.set_store_reachable(true);
    assert_eq!(store.create_group("G", None).ok(), Some(1));
}

#[test]
fn pool_hands_out_lowest_free_slot() {
    let mut pool = Pool::new(2);
    assert_eq!(pool.size(), 2);
    let a = pool.acquire().ok().unwrap();
    let b = pool.acquire().ok().unwrap();
    assert_eq!((a.slot(), b.slot()), (0, 1));
    assert!(!pool.available());
    assert_eq!(pool.acquire().err(), Some(ErrorKind::PoolExhausted));
    pool.release(a);
    assert!(pool.available());
    assert_eq!(pool.acquire().ok().map(|h| h.slot()), Some(0));
}

#[test]
fn empty_pool_is_always_exhausted() {
    let mut store = EntityStore::new(0);
    assert_eq!(kind_of(store.create_group("G", None)), ErrorKind::PoolExhausted);
}

#[test]
fn complete_fetch_caches_only_found_rows() {
    let mut cache = Cache::new();
    assert_eq!(kind_of(complete_fetch(&mut cache, EntityKind::Group, 3, None)), ErrorKind::NotFound);
    assert!(cache.get(EntityKind::Group, 3).is_none());
    let mut store = EntityStore::new(1);
    store.create_group("G", None).ok().unwrap();
    let row = store.fetch_by_id(EntityKind::Group, 1).ok().unwrap();
    let wrong = row.snapshot();
    assert_eq!(kind_of(complete_fetch(&mut cache, EntityKind::Group, 2, Some(wrong))), ErrorKind::StoreError);
    assert!(cache.get(EntityKind::Group, 2).is_none());
    let got = complete_fetch(&mut cache, EntityKind::Group, 1, Some(row));
    assert_eq!(group_of(got).1, "G");
    assert_eq!(cache.get(EntityKind::Group, 1).map(|e| e.id()), Some(1));
}

#[test]
fn dispatcher_runs_each_command() {
    let mut store = EntityStore::new(1);
    let o = dispatch(&mut store, &Command::CreateGroup(CreateGroupCmd {
        name: "Rust Study Group".to_string(),
        description: Some("Learning Rust together".to_string()),
    }));
    assert_eq!(o.created_id(), Some(1));
    let o = dispatch(&mut store, &Command::AddParticipant(AddParticipantCmd {
        group_id: 1,
        name: "John Doe".to_string(),
        email: "john@example.com".to_string(),
    }));
    assert_eq!(o.created_id(), Some(1));
    let o = dispatch(&mut store, &Command::ScheduleMeeting(ScheduleMeetingCmd {
        group_id: 1,
        title: "Introduction to Rust".to_string(),
        location: "Library Room 101".to_string(),
        time: "2023-01-01T10:00:00".to_string(),
    }));
    assert_eq!(o.created_id(), Some(1));
    match dispatch(&mut store, &Command::Fetch(FetchCmd { kind: EntityKind::Meeting, id: 1 })) {
        Outcome::Fetched(Entity::Meeting(m)) => {
            assert_eq!((m.id, m.study_group_id), (1, 1));
            assert_eq!(m.title, "Introduction to Rust");
            assert_eq!(m.location, "Library Room 101");
            assert_eq!(m.time, "2023-01-01T10:00:00");
        }
        _ => panic!("expected a meeting"),
    }
}

#[test]
fn dispatcher_reports_errors_unchanged() {
    let mut store = EntityStore::new(1);
    let o = dispatch(&mut store, &Command::AddParticipant(AddParticipantCmd {
        group_id: 9,
        name: "John Doe".to_string(),
        email: "john@example.com".to_string(),
    }));
    assert_eq!(o.error_kind(), Some(ErrorKind::ReferenceError));
    let o = dispatch(&mut store, &Command::CreateGroup(CreateGroupCmd { name: String::new(), description: None }));
    assert_eq!(o.error_kind(), Some(ErrorKind::ValidationError));
    let o = dispatch(&mut store, &Command::Fetch(FetchCmd { kind: EntityKind::Group, id: 1 }));
    assert_eq!(o.error_kind(), Some(ErrorKind::NotFound));
    assert_eq!(o.created_id(), None);
}

#[test]
fn error_text_names_kind_and_message() {
    let e = StoreError::from_kind(ErrorKind::PoolExhausted);
    assert_eq!(e.describe(), "PoolExhausted: no connection became available");
    let e = StoreError::new(ErrorKind::StoreError, "disk full");
    assert_eq!(e.kind(), ErrorKind::StoreError);
    assert_eq!(e.describe(), "StoreError: disk full");
    assert_eq!(ErrorKind::ReferenceError.name(), "ReferenceError");
}
