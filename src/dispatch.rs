use vstd::prelude::*;
use crate::backend::opt_text;
use crate::model::{Entity, EntityKind, ErrorKind, StoreError};
use crate::store::{
    add_participant_post, create_group_post, fetch_post, schedule_meeting_post, EntityStore,
};

verus! {

/// Create a study group.
pub struct CreateGroupCmd {
    pub name: String,
    pub description: Option<String>,
}

/// Enroll a participant in a study group.
pub struct AddParticipantCmd {
    pub group_id: i32,
    pub name: String,
    pub email: String,
}

/// Schedule a meeting for a study group.
pub struct ScheduleMeetingCmd {
    pub group_id: i32,
    pub title: String,
    pub location: String,
    pub time: String,
}

/// Read one entity by kind and identifier.
pub struct FetchCmd {
    pub kind: EntityKind,
    pub id: i32,
}

/// The closed set of typed commands that every front-end turns its input into.
pub enum Command {
    CreateGroup(CreateGroupCmd),
    AddParticipant(AddParticipantCmd),
    ScheduleMeeting(ScheduleMeetingCmd),
    Fetch(FetchCmd),
}

/// The uniform result of a command: a created identifier, a fetched
/// snapshot, or an error tag with a message.
pub enum Outcome {
    Created(i32),
    Fetched(Entity),
    Failed(StoreError),
}

/// The result of a create command, read off its outcome.
pub open spec fn created_result(o: Outcome) -> Result<i32, StoreError>
    recommends
        !(o is Fetched),
{
    match o {
        Outcome::Created(id) => Ok(id),
        Outcome::Failed(e) => Err(e),
        Outcome::Fetched(_) => arbitrary(),
    }
}

/// The result of a fetch command, read off its outcome.
pub open spec fn fetched_result(o: Outcome) -> Result<Entity, StoreError>
    recommends
        !(o is Created),
{
    match o {
        Outcome::Fetched(e) => Ok(e),
        Outcome::Failed(e) => Err(e),
        Outcome::Created(_) => arbitrary(),
    }
}

/// Whether the required text fields of `cmd` are all present (non-empty).
pub open spec fn fields_present(cmd: Command) -> bool {
    match cmd {
        Command::CreateGroup(c) => c.name@.len() > 0,
        Command::AddParticipant(c) => c.name@.len() > 0 && c.email@.len() > 0,
        Command::ScheduleMeeting(c) => c.title@.len() > 0 && c.location@.len() > 0
            && c.time@.len() > 0,
        Command::Fetch(_) => true,
    }
}

/// How `dispatch(cmd)` took `pre` to `post` with outcome `o`: exactly as the
/// store operation the command names, with that operation's arguments.
pub open spec fn dispatch_post(pre: EntityStore, cmd: Command, o: Outcome, post: EntityStore) -> bool {
    match cmd {
        Command::CreateGroup(c) => {
            &&& !(o is Fetched)
            &&& create_group_post(pre, c.name@, opt_text(c.description), created_result(o), post)
        },
        Command::AddParticipant(c) => {
            &&& !(o is Fetched)
            &&& add_participant_post(
                pre,
                c.group_id,
                c.name@,
                c.email@,
                created_result(o),
                post,
            )
        },
        Command::ScheduleMeeting(c) => {
            &&& !(o is Fetched)
            &&& schedule_meeting_post(
                pre,
                c.group_id,
                c.title@,
                c.location@,
                c.time@,
                created_result(o),
                post,
            )
        },
        Command::Fetch(c) => {
            &&& !(o is Created)
            &&& fetch_post(pre, c.kind, c.id, fetched_result(o), post)
        },
    }
}

/// Checks that the required text fields of `cmd` are present.
pub fn check_fields(cmd: &Command) -> (r: bool)
    ensures
        r == fields_present(*cmd),
{
    match cmd {
        Command::CreateGroup(c) => !c.name.as_str().is_empty(),
        Command::AddParticipant(c) => !c.name.as_str().is_empty() && !c.email.as_str().is_empty(),
        Command::ScheduleMeeting(c) => !c.title.as_str().is_empty() && !c.location.as_str().is_empty()
            && !c.time.as_str().is_empty(),
        Command::Fetch(_) => true,
    }
}

/// Wraps a create operation's result into an outcome.
fn created(r: Result<i32, StoreError>) -> (o: Outcome)
    ensures
        !(o is Fetched),
        created_result(o) == r,
{
    match r {
        Ok(id) => Outcome::Created(id),
        Err(e) => Outcome::Failed(e),
    }
}

/// Runs one command against the store: a command whose required fields are
/// missing fails with `ValidationError` before the store is touched;
/// otherwise the named store operation runs and its result, or its error
/// unchanged, becomes the outcome.
pub fn dispatch(store: &mut EntityStore, cmd: &Command) -> (o: Outcome)
    requires
        old(store).wf(),
    ensures
        dispatch_post(*old(store), *cmd, o, *final(store)),
        !fields_present(*cmd) ==> (o matches Outcome::Failed(e) && e.kind
            == ErrorKind::ValidationError),
{
    if !check_fields(cmd) {
        let o = Outcome::Failed(StoreError::from_kind(ErrorKind::ValidationError));
        proof {
            assert(store.cache_state().same_entries(&store.cache_state()));
        }
        return o;
    }
    match cmd {
        Command::CreateGroup(c) => {
            let description = match &c.description {
                Some(d) => Some(d.as_str()),
                None => None,
            };
            created(store.create_group(c.name.as_str(), description))
        },
        Command::AddParticipant(c) => created(
            store.add_participant(c.group_id, c.name.as_str(), c.email.as_str()),
        ),
        Command::ScheduleMeeting(c) => created(
            store.schedule_meeting(
                c.group_id,
                c.title.as_str(),
                c.location.as_str(),
                c.time.as_str(),
            ),
        ),
        Command::Fetch(c) => match store.fetch_by_id(c.kind, c.id) {
            Ok(e) => Outcome::Fetched(e),
            Err(e) => Outcome::Failed(e),
        },
    }
}

impl Outcome {
    /// The created identifier, if this outcome is one.
    pub fn created_id(&self) -> (r: Option<i32>)
        ensures
            r == match self {
                Outcome::Created(id) => Some(*id),
                _ => None,
            },
    {
        match self {
            Outcome::Created(id) => Some(*id),
            _ => None,
        }
    }

    /// The error tag, if this outcome is a failure.
    pub fn error_kind(&self) -> (r: Option<ErrorKind>)
        ensures
            r == match self {
                Outcome::Failed(e) => Some(e.kind),
                _ => None,
            },
    {
        match self {
            Outcome::Failed(e) => Some(e.kind),
            _ => None,
        }
    }
}

} // verus!
