use vstd::prelude::*;

verus! {

/// A study group as stored: identifier, non-empty name, optional description.
pub struct StudyGroup {
    pub id: i32,
    pub name: String,
    pub description: Option<String>,
}

/// A participant enrolled in exactly one study group.
pub struct Participant {
    pub id: i32,
    pub study_group_id: i32,
    pub name: String,
    pub email: String,
}

/// A meeting scheduled for exactly one study group; `time` is an opaque
/// timestamp string.
pub struct Meeting {
    pub id: i32,
    pub study_group_id: i32,
    pub title: String,
    pub location: String,
    pub time: String,
}

/// The three kinds of entity the store manages.
#[derive(Clone, Copy, Debug, PartialEq, Eq, Structural)]
pub enum EntityKind {
    Group,
    Participant,
    Meeting,
}

/// A snapshot of one entity, as read at some point in time.
pub enum Entity {
    Group(StudyGroup),
    Participant(Participant),
    Meeting(Meeting),
}

/// The closed set of error tags every operation reports with.
#[derive(Clone, Copy, Debug, PartialEq, Eq, Structural)]
pub enum ErrorKind {
    /// Malformed or missing input; never reaches the store.
    ValidationError,
    /// A referenced parent entity does not exist.
    ReferenceError,
    /// A lookup found no row.
    NotFound,
    /// No connection became available.
    PoolExhausted,
    /// The backing store is unreachable.
    ConnectionError,
    /// Any other backing-store failure.
    StoreError,
}

/// An error tag together with a human-readable message.
pub struct StoreError {
    pub kind: ErrorKind,
    pub message: String,
}

impl StudyGroup {
    /// An equal copy of this group.
    pub fn snapshot(&self) -> (r: StudyGroup)
        ensures
            r == *self,
    {
        let description = match &self.description {
            Some(d) => Some(d.clone()),
            None => None,
        };
        StudyGroup { id: self.id, name: self.name.clone(), description }
    }
}

impl Participant {
    /// An equal copy of this participant.
    pub fn snapshot(&self) -> (r: Participant)
        ensures
            r == *self,
    {
        Participant {
            id: self.id,
            study_group_id: self.study_group_id,
            name: self.name.clone(),
            email: self.email.clone(),
        }
    }
}

impl Meeting {
    /// An equal copy of this meeting.
    pub fn snapshot(&self) -> (r: Meeting)
        ensures
            r == *self,
    {
        Meeting {
            id: self.id,
            study_group_id: self.study_group_id,
            title: self.title.clone(),
            location: self.location.clone(),
            time: self.time.clone(),
        }
    }
}

impl Entity {
    /// The kind of this entity.
    pub open spec fn spec_kind(&self) -> EntityKind {
        match self {
            Entity::Group(_) => EntityKind::Group,
            Entity::Participant(_) => EntityKind::Participant,
            Entity::Meeting(_) => EntityKind::Meeting,
        }
    }

    /// The identifier of this entity.
    pub open spec fn spec_id(&self) -> i32 {
        match self {
            Entity::Group(g) => g.id,
            Entity::Participant(p) => p.id,
            Entity::Meeting(m) => m.id,
        }
    }

    /// The kind of this entity.
    pub fn kind(&self) -> (r: EntityKind)
        ensures
            r == self.spec_kind(),
    {
        match self {
            Entity::Group(_) => EntityKind::Group,
            Entity::Participant(_) => EntityKind::Participant,
            Entity::Meeting(_) => EntityKind::Meeting,
        }
    }

    /// The identifier of this entity.
    pub fn id(&self) -> (r: i32)
        ensures
            r == self.spec_id(),
    {
        match self {
            Entity::Group(g) => g.id,
            Entity::Participant(p) => p.id,
            Entity::Meeting(m) => m.id,
        }
    }

    /// An equal copy of this entity.
    pub fn snapshot(&self) -> (r: Entity)
        ensures
            r == *self,
    {
        match self {
            Entity::Group(g) => Entity::Group(g.snapshot()),
            Entity::Participant(p) => Entity::Participant(p.snapshot()),
            Entity::Meeting(m) => Entity::Meeting(m.snapshot()),
        }
    }
}

impl StoreError {
    /// An error of the given kind with the given message.
    pub fn new(kind: ErrorKind, message: &str) -> (r: StoreError)
        ensures
            r.kind == kind,
            r.message@ == message@,
    {
        StoreError { kind, message: message.to_owned() }
    }

    /// An error of the given kind with that kind's standard message.
    pub fn from_kind(kind: ErrorKind) -> (r: StoreError)
        ensures
            r.kind == kind,
            r.message@ == kind.spec_message(),
    {
        StoreError { kind, message: kind.message().to_owned() }
    }

    /// The error's tag.
    pub fn kind(&self) -> (r: ErrorKind)
        ensures
            r == self.kind,
    {
        self.kind
    }

    /// The error rendered as text: its tag's name, a colon, and its message.
    pub fn describe(&self) -> (r: String)
        ensures
            r@ == self.kind.spec_name() + seq![':', ' '] + self.message@,
    {
        let mut s = self.kind.name().to_owned();
        proof {
            reveal_strlit(": ");
        }
        s.append(": ");
        s.append(self.message.as_str());
        assert(": "@ =~= seq![':', ' ']);
        s
    }
}

impl ErrorKind {
    /// The tag's name as text.
    pub open spec fn spec_name(self) -> Seq<char> {
        match self {
            ErrorKind::ValidationError => "ValidationError"@,
            ErrorKind::ReferenceError => "ReferenceError"@,
            ErrorKind::NotFound => "NotFound"@,
            ErrorKind::PoolExhausted => "PoolExhausted"@,
            ErrorKind::ConnectionError => "ConnectionError"@,
            ErrorKind::StoreError => "StoreError"@,
        }
    }

    /// The standard human-readable message for the tag.
    pub open spec fn spec_message(self) -> Seq<char> {
        match self {
            ErrorKind::ValidationError => "a required field is empty"@,
            ErrorKind::ReferenceError => "the referenced study group does not exist"@,
            ErrorKind::NotFound => "no entity has this identifier"@,
            ErrorKind::PoolExhausted => "no connection became available"@,
            ErrorKind::ConnectionError => "the backing store is unreachable"@,
            ErrorKind::StoreError => "the backing store rejected the operation"@,
        }
    }

    /// The standard human-readable message for the tag.
    pub fn message(self) -> (r: &'static str)
        ensures
            r@ == self.spec_message(),
    {
        match self {
            ErrorKind::ValidationError => "a required field is empty",
            ErrorKind::ReferenceError => "the referenced study group does not exist",
            ErrorKind::NotFound => "no entity has this identifier",
            ErrorKind::PoolExhausted => "no connection became available",
            ErrorKind::ConnectionError => "the backing store is unreachable",
            ErrorKind::StoreError => "the backing store rejected the operation",
        }
    }

    /// The tag's name as text.
    pub fn name(self) -> (r: &'static str)
        ensures
            r@ == self.spec_name(),
    {
        match self {
            ErrorKind::ValidationError => "ValidationError",
            ErrorKind::ReferenceError => "ReferenceError",
            ErrorKind::NotFound => "NotFound",
            ErrorKind::PoolExhausted => "PoolExhausted",
            ErrorKind::ConnectionError => "ConnectionError",
            ErrorKind::StoreError => "StoreError",
        }
    }
}

} // verus!
