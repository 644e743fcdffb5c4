//! What can go wrong with an entity.
use crate::lodash::LodashError;
use crate::text::texts;
use vstd::prelude::*;

verus! {

/// Why an operation on an entity failed. The failure of a service that the model relies
/// on is held as the text of that failure.
#[derive(Debug)]
pub enum EntityError {
    NoHead,
    Override(String),
    MissingObjectType,
    MissingId,
    Missing(String),
    SerdeJson(String),
    NotFound,
    TokioPg(String),
    NatsTxn(String),
    MalformedDatabaseEntry,
    MissingChangeSet,
    Veritech(String),
    Edge(String),
    Resource(String),
    Deadpool(String),
    NoChangeSet,
    Qualification(String),
    Workflow(String),
    WrongTypeForProp(&'static str, Vec<String>),
    Lodash(LodashError),
    Secret(String),
}

pub type EntityResult<T> = Result<T, EntityError>;

/// How a list of strings is printed for debugging.
pub uninterp spec fn debug_text(strings: Seq<Seq<char>>) -> Seq<char>;

/// Calls `format!` of `std` with `{:?}` on a list of strings. What is printed depends on
/// the strings alone.
#[verifier::external_body]
fn print_texts(strings: &Vec<String>) -> (printed: String)
    ensures
        printed@ == debug_text(texts(strings@)),
{
    format!("{:?}", strings)
}

fn join(front: &str, back: &str) -> (joined: String)
    ensures
        joined@ == front@ + back@,
{
    let mut joined = front.to_string();
    joined.append(back);
    joined
}

impl EntityError {
    /// The failures of a statement that carries or yields an entity: the database's, or
    /// those of the entity's JSON form.
    pub open spec fn of_query(self) -> bool {
        self is TokioPg || self is SerdeJson
    }

    /// The failures to get a connection and begin a transaction on it.
    pub open spec fn of_connection(self) -> bool {
        self is Deadpool || self is TokioPg
    }

    /// Tells whether a statement that carries or yields an entity can fail so.
    pub fn is_of_query(&self) -> (answer: bool)
        ensures
            answer == self.of_query(),
    {
        match self {
            EntityError::TokioPg(_) => true,
            EntityError::SerdeJson(_) => true,
            _ => false,
        }
    }

    /// Tells whether a connection and a transaction on it can fail so.
    pub fn is_of_connection(&self) -> (answer: bool)
        ensures
            answer == self.of_connection(),
    {
        match self {
            EntityError::Deadpool(_) => true,
            EntityError::TokioPg(_) => true,
            _ => false,
        }
    }

    /// What the failure is called.
    pub open spec fn wording(self) -> Seq<char> {
        match self {
            EntityError::NoHead => "no head entity found; logic error"@,
            EntityError::Override(inner) => "no override system found: "@ + inner@,
            EntityError::MissingObjectType => "invalid entity; missing object type"@,
            EntityError::MissingId => "invalid entity; missing node id"@,
            EntityError::Missing(inner) => "missing field: "@ + inner@,
            EntityError::SerdeJson(inner) => "json serialization error: "@ + inner@,
            EntityError::NotFound => "not found"@,
            EntityError::TokioPg(inner) => "pg error: "@ + inner@,
            EntityError::NatsTxn(inner) => "nats txn error: "@ + inner@,
            EntityError::MalformedDatabaseEntry => "malformed database entry"@,
            EntityError::MissingChangeSet => "missing change set in a save where it is required"@,
            EntityError::Veritech(inner) => "veritech error: "@ + inner@,
            EntityError::Edge(inner) => "edge error: "@ + inner@,
            EntityError::Resource(inner) => "resource error: "@ + inner@,
            EntityError::Deadpool(inner) => "deadpool error: "@ + inner@,
            EntityError::NoChangeSet => "no change set provided"@,
            EntityError::Qualification(inner) => "qualification error: "@ + inner@,
            EntityError::Workflow(inner) => "workflow error: "@ + inner@,
            EntityError::WrongTypeForProp(kind, path) => "expected a property to be a "@ + kind@
                + ", but it is not: "@ + debug_text(texts(path@)),
            EntityError::Lodash(inner) => "lodash error: "@ + inner.message@,
            EntityError::Secret(inner) => "secret error: "@ + inner@,
        }
    }

    /// Says in words what went wrong.
    pub fn message(&self) -> (message: String)
        ensures
            message@ == self.wording(),
    {
        match self {
            EntityError::NoHead => "no head entity found; logic error".to_string(),
            EntityError::Override(inner) => join("no override system found: ", inner.as_str()),
            EntityError::MissingObjectType => "invalid entity; missing object type".to_string(),
            EntityError::MissingId => "invalid entity; missing node id".to_string(),
            EntityError::Missing(inner) => join("missing field: ", inner.as_str()),
            EntityError::SerdeJson(inner) => join("json serialization error: ", inner.as_str()),
            EntityError::NotFound => "not found".to_string(),
            EntityError::TokioPg(inner) => join("pg error: ", inner.as_str()),
            EntityError::NatsTxn(inner) => join("nats txn error: ", inner.as_str()),
            EntityError::MalformedDatabaseEntry => "malformed database entry".to_string(),
            EntityError::MissingChangeSet =>
                "missing change set in a save where it is required".to_string(),
            EntityError::Veritech(inner) => join("veritech error: ", inner.as_str()),
            EntityError::Edge(inner) => join("edge error: ", inner.as_str()),
            EntityError::Resource(inner) => join("resource error: ", inner.as_str()),
            EntityError::Deadpool(inner) => join("deadpool error: ", inner.as_str()),
            EntityError::NoChangeSet => "no change set provided".to_string(),
            EntityError::Qualification(inner) => join("qualification error: ", inner.as_str()),
            EntityError::Workflow(inner) => join("workflow error: ", inner.as_str()),
            EntityError::WrongTypeForProp(kind, path) => {
                let mut message = join("expected a property to be a ", kind);
                message.append(", but it is not: ");
                message.append(print_texts(path).as_str());
                message
            },
            EntityError::Lodash(inner) => join("lodash error: ", inner.message.as_str()),
            EntityError::Secret(inner) => join("secret error: ", inner.as_str()),
        }
    }
}

/// A failure says what failed and, behind that, the whole of what it was told.
pub proof fn law_a_failure_says_what_it_was_told(inner: String)
    ensures
        EntityError::Override(inner).wording() == "no override system found: "@ + inner@,
        EntityError::Missing(inner).wording() == "missing field: "@ + inner@,
        EntityError::SerdeJson(inner).wording() == "json serialization error: "@ + inner@,
        EntityError::TokioPg(inner).wording() == "pg error: "@ + inner@,
        EntityError::NatsTxn(inner).wording() == "nats txn error: "@ + inner@,
        EntityError::Veritech(inner).wording() == "veritech error: "@ + inner@,
        EntityError::Edge(inner).wording() == "edge error: "@ + inner@,
        EntityError::Resource(inner).wording() == "resource error: "@ + inner@,
        EntityError::Deadpool(inner).wording() == "deadpool error: "@ + inner@,
        EntityError::Qualification(inner).wording() == "qualification error: "@ + inner@,
        EntityError::Workflow(inner).wording() == "workflow error: "@ + inner@,
        EntityError::Secret(inner).wording() == "secret error: "@ + inner@,
        EntityError::Lodash(LodashError { message: inner }).wording() == "lodash error: "@
            + inner@,
{
}

/// A failure that was told nothing is put into words of its own.
pub proof fn law_a_failure_has_its_words()
    ensures
        EntityError::NoHead.wording() == "no head entity found; logic error"@,
        EntityError::MissingObjectType.wording() == "invalid entity; missing object type"@,
        EntityError::MissingId.wording() == "invalid entity; missing node id"@,
        EntityError::NotFound.wording() == "not found"@,
        EntityError::MalformedDatabaseEntry.wording() == "malformed database entry"@,
        EntityError::MissingChangeSet.wording()
            == "missing change set in a save where it is required"@,
        EntityError::NoChangeSet.wording() == "no change set provided"@,
{
}

/// A property of the wrong type is named with the type that was wanted and with its path.
pub proof fn law_a_wrong_type_is_named_with_its_path(kind: &'static str, path: Vec<String>)
    ensures
        EntityError::WrongTypeForProp(kind, path).wording() == "expected a property to be a "@
            + kind@ + ", but it is not: "@ + debug_text(texts(path@)),
{
}

/// A statement about an entity fails as the database or as the JSON form does, and nothing
/// else does; a connection fails as the pool or as the database does.
pub proof fn law_failures_are_told_apart(error: EntityError)
    ensures
        error.of_query() <==> (error is TokioPg || error is SerdeJson),
        error.of_connection() <==> (error is Deadpool || error is TokioPg),
{
}

} // verus!
