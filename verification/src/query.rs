//! The statements that are put to the database.
use crate::entity::{Entity, EntityModel};
use vstd::prelude::*;

verus! {

/// Which statement is put to the database.
#[derive(Clone, Copy, Debug, PartialEq, Eq, Structural)]
pub enum Statement {
    EntityCreate,
    EntitySaveForEditSession,
    EntityForEditSession,
    EntityForChangeSet,
    EntityForHead,
    EntityGetHeadByNameAndEntityType,
}

/// A statement's text, or the name of the file that holds it.
#[derive(Clone, Copy, Debug)]
pub enum Sql {
    Text(&'static str),
    File(&'static str),
}

impl Statement {
    /// The text of the statement, where it is not kept in a file.
    pub open spec fn text(self) -> Option<Seq<char>> {
        match self {
            Statement::EntityCreate => Some(
                "SELECT object FROM entity_create_v1($1, $2, $3, $4, $5, $6, $7)"@,
            ),
            Statement::EntitySaveForEditSession => Some(
                "SELECT true FROM entity_save_for_edit_session_v1($1, $2, $3)"@,
            ),
            _ => None,
        }
    }

    /// The file that holds the statement, where one does.
    pub open spec fn file(self) -> Option<Seq<char>> {
        match self {
            Statement::EntityForEditSession => Some("entity_for_edit_session.sql"@),
            Statement::EntityForChangeSet => Some("entity_for_change_set.sql"@),
            Statement::EntityForHead => Some("entity_for_head.sql"@),
            Statement::EntityGetHeadByNameAndEntityType => Some(
                "entity_get_head_by_name_and_entity_type.sql"@,
            ),
            _ => None,
        }
    }

    /// Gives the text of the statement, or the file that holds it.
    pub fn sql(self) -> (sql: Sql)
        ensures
            match sql {
                Sql::Text(text) => self.text() == Some(text@) && self.file() is None,
                Sql::File(name) => self.file() == Some(name@) && self.text() is None,
            },
    {
        match self {
            Statement::EntityCreate =>
                Sql::Text("SELECT object FROM entity_create_v1($1, $2, $3, $4, $5, $6, $7)"),
            Statement::EntitySaveForEditSession =>
                Sql::Text("SELECT true FROM entity_save_for_edit_session_v1($1, $2, $3)"),
            Statement::EntityForEditSession => Sql::File("entity_for_edit_session.sql"),
            Statement::EntityForChangeSet => Sql::File("entity_for_change_set.sql"),
            Statement::EntityForHead => Sql::File("entity_for_head.sql"),
            Statement::EntityGetHeadByNameAndEntityType =>
                Sql::File("entity_get_head_by_name_and_entity_type.sql"),
        }
    }
}

/// What stands in the place of a parameter: a text, or an entity in its JSON form.
#[derive(Debug)]
pub enum Param {
    Text(String),
    Entity(Entity),
}

/// A statement and its parameters, in the order in which the statement numbers them.
#[derive(Debug)]
pub struct Query {
    pub statement: Statement,
    pub params: Vec<Param>,
}

pub enum ParamModel {
    Text(Seq<char>),
    Entity(EntityModel),
}

#[verifier::ext_equal]
pub struct QueryModel {
    pub statement: Statement,
    pub params: Seq<ParamModel>,
}

impl View for Param {
    type V = ParamModel;

    open spec fn view(&self) -> ParamModel {
        match self {
            Param::Text(text) => ParamModel::Text(text@),
            Param::Entity(entity) => ParamModel::Entity(entity@),
        }
    }
}

impl View for Query {
    type V = QueryModel;

    open spec fn view(&self) -> QueryModel {
        QueryModel {
            statement: self.statement,
            params: self.params@.map_values(|param: Param| param@),
        }
    }
}

/// A query whose parameters are all texts.
pub open spec fn text_query(statement: Statement, texts: Seq<Seq<char>>) -> QueryModel {
    QueryModel { statement: statement, params: texts.map_values(|text: Seq<char>| ParamModel::Text(text)) }
}

impl Query {
    /// Starts a query that has no parameter yet.
    pub(crate) fn of(statement: Statement) -> (query: Query)
        ensures
            query@ == text_query(statement, Seq::empty()),
    {
        let query = Query { statement: statement, params: Vec::new() };
        assert(query@.params =~= text_query(statement, Seq::empty()).params);
        query
    }

    /// Adds a text as the last parameter.
    pub(crate) fn text(self, text: &str) -> (query: Query)
        ensures
            query@ == (QueryModel {
                statement: self@.statement,
                params: self@.params.push(ParamModel::Text(text@)),
            }),
    {
        let mut query = self;
        query.params.push(Param::Text(text.to_string()));
        assert(query@.params =~= self@.params.push(ParamModel::Text(text@)));
        query
    }

    /// Adds an entity as the last parameter.
    pub(crate) fn entity(self, entity: &Entity) -> (query: Query)
        ensures
            query@ == (QueryModel {
                statement: self@.statement,
                params: self@.params.push(ParamModel::Entity(entity@)),
            }),
    {
        let mut query = self;
        query.params.push(Param::Entity(entity.clone()));
        assert(query@.params =~= self@.params.push(ParamModel::Entity(entity@)));
        query
    }
}

/// A query is known by its statement and by its parameters, one by one: a text by its
/// characters, an entity by all that it holds.
pub proof fn law_a_query_is_known_by_its_params(query: Query, text: String, entity: Entity)
    ensures
        query@.statement == query.statement,
        query@.params.len() == query.params@.len(),
        forall|i: int|
            0 <= i < query.params@.len() ==> #[trigger] query@.params[i] == query.params@[i]@,
        Param::Text(text)@ == ParamModel::Text(text@),
        Param::Entity(entity)@ == ParamModel::Entity(entity@),
{
}

/// A query of texts has just these, in order, for its parameters.
pub proof fn law_a_text_query_has_its_texts(statement: Statement, texts: Seq<Seq<char>>)
    ensures
        text_query(statement, texts).statement == statement,
        text_query(statement, texts).params.len() == texts.len(),
        forall|i: int|
            0 <= i < texts.len() ==> #[trigger] text_query(statement, texts).params[i]
                == ParamModel::Text(texts[i]),
{
}

} // verus!
