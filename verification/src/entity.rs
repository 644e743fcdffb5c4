//! Entities: what they hold, how they are compared, looked up, saved and read.
use crate::error::{EntityError, EntityResult};
use crate::json;
use crate::json::{json_equal, json_members, json_same, json_text};
use crate::lodash;
use crate::lodash::{law_lookup_in_parts, lookup, LodashResult};
use crate::op::{
    copy_ops, copy_tombstones, op_models, same_op_models, same_ops, same_tombstones,
    tombstone_models, Op, OpModel, OpTombstone, OpTombstoneModel,
};
use crate::query::{text_query, Param, ParamModel, Query, QueryModel, Statement};
use crate::storable::{
    change_set_model, copy_change_set, same_change_set_models, same_change_sets, SiChangeSet,
    SiStorable, SiStorableModel,
};
use crate::text::{copy_texts, texts};
use vstd::prelude::*;
use vstd::std_specs::cmp::PartialEqSpec;

verus! {

/// An object of the model, with the operations that its properties are made from and the
/// properties themselves, by system.
#[derive(Debug)]
pub struct Entity {
    pub id: String,
    pub node_id: String,
    pub name: String,
    pub description: String,
    pub entity_type: String,
    pub ops: Vec<Op>,
    pub tombstones: Vec<OpTombstone>,
    pub array_meta: serde_json::Value,
    pub properties: serde_json::Value,
    pub code: serde_json::Value,
    pub si_storable: SiStorable,
    pub si_change_set: Option<SiChangeSet>,
}

#[verifier::ext_equal]
pub struct EntityModel {
    pub id: Seq<char>,
    pub node_id: Seq<char>,
    pub name: Seq<char>,
    pub description: Seq<char>,
    pub entity_type: Seq<char>,
    pub ops: Seq<OpModel>,
    pub tombstones: Seq<OpTombstoneModel>,
    pub array_meta: serde_json::Value,
    pub properties: serde_json::Value,
    pub code: serde_json::Value,
    pub si_storable: SiStorableModel,
    pub si_change_set: Option<serde_json::Value>,
}

impl View for Entity {
    type V = EntityModel;

    open spec fn view(&self) -> EntityModel {
        EntityModel {
            id: self.id@,
            node_id: self.node_id@,
            name: self.name@,
            description: self.description@,
            entity_type: self.entity_type@,
            ops: op_models(self.ops@),
            tombstones: tombstone_models(self.tombstones@),
            array_meta: self.array_meta,
            properties: self.properties,
            code: self.code,
            si_storable: self.si_storable@,
            si_change_set: change_set_model(self.si_change_set),
        }
    }
}

/// The models of a list of entities.
pub open spec fn entity_models(entities: Seq<Entity>) -> Seq<EntityModel> {
    entities.map_values(|entity: Entity| entity@)
}

impl EntityModel {
    /// Two entities are the same where all their fields are, JSON values by
    /// `serde_json`'s equality.
    pub open spec fn same(self, other: EntityModel) -> bool {
        &&& self.id == other.id
        &&& self.node_id == other.node_id
        &&& self.name == other.name
        &&& self.description == other.description
        &&& self.entity_type == other.entity_type
        &&& same_op_models(self.ops, other.ops)
        &&& self.tombstones == other.tombstones
        &&& json_same(self.array_meta, other.array_meta)
        &&& json_same(self.properties, other.properties)
        &&& json_same(self.code, other.code)
        &&& self.si_storable.same(other.si_storable)
        &&& same_change_set_models(self.si_change_set, other.si_change_set)
    }

    /// The entity with the mark that it was deleted.
    pub open spec fn deleted(self) -> EntityModel {
        EntityModel {
            si_storable: SiStorableModel { deleted: true, ..self.si_storable },
            ..self
        }
    }

    /// What a path leads to in the properties that the entity has in a system.
    pub open spec fn property(self, system_id: Seq<char>, path: Seq<Seq<char>>) -> Option<serde_json::Value> {
        if json_members(self.properties).contains_key(system_id) {
            lookup(json_members(self.properties)[system_id], path)
        } else {
            None
        }
    }
}

/// What is put to the database for an entity as an edit session sees it.
pub open spec fn edit_session_query(
    entity_id: Seq<char>,
    change_set_id: Seq<char>,
    edit_session_id: Seq<char>,
) -> QueryModel {
    text_query(Statement::EntityForEditSession, seq![entity_id, change_set_id, edit_session_id])
}

/// What is put to the database for an entity as a change set sees it.
pub open spec fn change_set_query(entity_id: Seq<char>, change_set_id: Seq<char>) -> QueryModel {
    text_query(Statement::EntityForChangeSet, seq![entity_id, change_set_id])
}

/// What is put to the database for an entity outside of any change set.
pub open spec fn head_query(entity_id: Seq<char>) -> QueryModel {
    text_query(Statement::EntityForHead, seq![entity_id])
}

/// What is put to the database to save an entity in an edit session.
pub open spec fn save_query(
    entity: EntityModel,
    change_set_id: Seq<char>,
    edit_session_id: Seq<char>,
) -> QueryModel {
    QueryModel {
        statement: Statement::EntitySaveForEditSession,
        params: seq![
            ParamModel::Entity(entity),
            ParamModel::Text(change_set_id),
            ParamModel::Text(edit_session_id),
        ],
    }
}

/// The text of an optional id.
pub open spec fn optional_text(id: Option<&String>) -> Option<Seq<char>> {
    match id {
        Some(inner) => Some(inner@),
        None => None,
    }
}

/// The query for an entity in a change set, or at the head where no change set is given.
pub open spec fn head_or_change_set_query(
    entity_id: Seq<char>,
    change_set_id: Option<Seq<char>>,
) -> QueryModel {
    match change_set_id {
        Some(change_set) => change_set_query(entity_id, change_set),
        None => head_query(entity_id),
    }
}

/// The query for an entity in the innermost of what is given: the edit session, the
/// change set, or else the head. An edit session without its change set has none.
pub open spec fn innermost_query(
    entity_id: Seq<char>,
    change_set_id: Option<Seq<char>>,
    edit_session_id: Option<Seq<char>>,
) -> Option<QueryModel> {
    match (change_set_id, edit_session_id) {
        (Some(change_set), Some(edit_session)) => Some(
            edit_session_query(entity_id, change_set, edit_session),
        ),
        (None, Some(_)) => None,
        (_, None) => Some(head_or_change_set_query(entity_id, change_set_id)),
    }
}

/// The query for what an entity is compared with: one level further out than the edit
/// session, or the head. An edit session without its change set has none.
pub open spec fn diff_query(
    entity_id: Seq<char>,
    change_set_id: Option<Seq<char>>,
    edit_session_id: Option<Seq<char>>,
) -> Option<QueryModel> {
    match (change_set_id, edit_session_id) {
        (Some(change_set), Some(_)) => Some(change_set_query(entity_id, change_set)),
        (None, Some(_)) => None,
        (_, None) => Some(head_query(entity_id)),
    }
}

impl Clone for Entity {
    fn clone(&self) -> (copied: Self)
        ensures
            copied@ == self@,
    {
        Entity {
            id: self.id.clone(),
            node_id: self.node_id.clone(),
            name: self.name.clone(),
            description: self.description.clone(),
            entity_type: self.entity_type.clone(),
            ops: copy_ops(&self.ops),
            tombstones: copy_tombstones(&self.tombstones),
            array_meta: json::copy(&self.array_meta),
            properties: json::copy(&self.properties),
            code: json::copy(&self.code),
            si_storable: self.si_storable.clone(),
            si_change_set: copy_change_set(&self.si_change_set),
        }
    }
}

impl PartialEq for Entity {
    fn eq(&self, other: &Self) -> (same: bool) {
        self.id == other.id && self.node_id == other.node_id && self.name == other.name
            && self.description == other.description && self.entity_type == other.entity_type
            && same_ops(&self.ops, &other.ops) && same_tombstones(
            &self.tombstones,
            &other.tombstones,
        ) && json::equal(&self.array_meta, &other.array_meta) && json::equal(
            &self.properties,
            &other.properties,
        ) && json::equal(&self.code, &other.code) && self.si_storable == other.si_storable
            && same_change_sets(&self.si_change_set, &other.si_change_set)
    }
}

impl vstd::std_specs::cmp::PartialEqSpecImpl for Entity {
    open spec fn obeys_eq_spec() -> bool {
        true
    }

    open spec fn eq_spec(&self, other: &Self) -> bool {
        self@.same(other@)
    }
}

impl Eq for Entity {

}

impl Entity {
    /// Marks the entity as deleted.
    pub fn delete(&mut self)
        ensures
            final(self)@ == old(self)@.deleted(),
            final(self).si_storable.deleted,
    {
        self.si_storable.deleted = true;
    }

    /// Asks for an entity as an edit session sees it.
    pub fn for_edit_session(entity_id: &str, change_set_id: &str, edit_session_id: &str) -> (query: Query)
        ensures
            query@ == edit_session_query(entity_id@, change_set_id@, edit_session_id@),
    {
        let query = Query::of(Statement::EntityForEditSession).text(entity_id).text(
            change_set_id,
        ).text(edit_session_id);
        assert(query@.params =~= edit_session_query(
            entity_id@,
            change_set_id@,
            edit_session_id@,
        ).params);
        query
    }

    /// Asks for an entity as a change set sees it.
    pub fn for_change_set(entity_id: &str, change_set_id: &str) -> (query: Query)
        ensures
            query@ == change_set_query(entity_id@, change_set_id@),
    {
        let query = Query::of(Statement::EntityForChangeSet).text(entity_id).text(change_set_id);
        assert(query@.params =~= change_set_query(entity_id@, change_set_id@).params);
        query
    }

    /// Asks for an entity outside of any change set.
    pub fn for_head(entity_id: &str) -> (query: Query)
        ensures
            query@ == head_query(entity_id@),
    {
        let query = Query::of(Statement::EntityForHead).text(entity_id);
        assert(query@.params =~= head_query(entity_id@).params);
        query
    }

    /// Asks for an entity in a change set, or at the head where no change set is given.
    pub fn for_head_or_change_set(entity_id: &str, change_set_id: Option<&String>) -> (query: Query)
        ensures
            query@ == head_or_change_set_query(entity_id@, optional_text(change_set_id)),
    {
        if let Some(change_set_id) = change_set_id {
            Entity::for_change_set(entity_id, change_set_id.as_str())
        } else {
            Entity::for_head(entity_id)
        }
    }

    /// Asks for an entity in the innermost of what is given. An edit session is refused
    /// where its change set is missing.
    pub fn for_head_or_change_set_or_edit_session(
        entity_id: &str,
        change_set_id: Option<&String>,
        edit_session_id: Option<&String>,
    ) -> (query: EntityResult<Query>)
        ensures
            match query {
                Ok(query) => innermost_query(
                    entity_id@,
                    optional_text(change_set_id),
                    optional_text(edit_session_id),
                ) == Some(query@),
                Err(error) => error == EntityError::NoChangeSet && innermost_query(
                    entity_id@,
                    optional_text(change_set_id),
                    optional_text(edit_session_id),
                ) is None,
            },
    {
        if let Some(edit_session_id) = edit_session_id {
            if let Some(change_set_id) = change_set_id {
                Ok(
                    Entity::for_edit_session(
                        entity_id,
                        change_set_id.as_str(),
                        edit_session_id.as_str(),
                    ),
                )
            } else {
                Err(EntityError::NoChangeSet)
            }
        } else if let Some(change_set_id) = change_set_id {
            Ok(Entity::for_change_set(entity_id, change_set_id.as_str()))
        } else {
            Ok(Entity::for_head(entity_id))
        }
    }

    /// Asks for what an entity is compared with. An edit session is refused where its
    /// change set is missing.
    pub fn for_diff(
        entity_id: &str,
        change_set_id: Option<&String>,
        edit_session_id: Option<&String>,
    ) -> (query: EntityResult<Query>)
        ensures
            match query {
                Ok(query) => diff_query(
                    entity_id@,
                    optional_text(change_set_id),
                    optional_text(edit_session_id),
                ) == Some(query@),
                Err(error) => error == EntityError::NoChangeSet && diff_query(
                    entity_id@,
                    optional_text(change_set_id),
                    optional_text(edit_session_id),
                ) is None,
            },
    {
        if let Some(_edit_session_id) = edit_session_id {
            if let Some(change_set_id) = change_set_id {
                Ok(Entity::for_change_set(entity_id, change_set_id.as_str()))
            } else {
                Err(EntityError::NoChangeSet)
            }
        } else {
            Ok(Entity::for_head(entity_id))
        }
    }

    /// Asks for the entities of a name and a type that a workspace has at the head.
    pub fn get_head_by_name_and_entity_type(name: &str, entity_type: &str, workspace_id: &str) -> (query: Query)
        ensures
            query@ == text_query(
                Statement::EntityGetHeadByNameAndEntityType,
                seq![name@, entity_type@, workspace_id@],
            ),
    {
        let query = Query::of(Statement::EntityGetHeadByNameAndEntityType).text(name).text(
            entity_type,
        ).text(workspace_id);
        assert(query@.params =~= text_query(
            Statement::EntityGetHeadByNameAndEntityType,
            seq![name@, entity_type@, workspace_id@],
        ).params);
        query
    }

    /// Gathers the entities of the rows that came back, in order. The first row that
    /// could not be read fails the whole.
    pub fn from_rows(rows: Vec<EntityResult<Entity>>) -> (entities: EntityResult<Vec<Entity>>)
        ensures
            match entities {
                Ok(entities) => {
                    &&& entities@.len() == rows@.len()
                    &&& forall|i: int|
                        0 <= i < rows@.len() ==> #[trigger] rows@[i] == Ok::<Entity, EntityError>(
                            entities@[i],
                        )
                },
                Err(error) => exists|i: int|
                    {
                        &&& 0 <= i < rows@.len()
                        &&& #[trigger] rows@[i] == Err::<Entity, EntityError>(error)
                        &&& forall|j: int| 0 <= j < i ==> (#[trigger] rows@[j]) is Ok
                    },
            },
    {
        let mut entities: Vec<Entity> = Vec::new();
        let ghost all = rows@;
        for row in it: rows
            invariant
                it.seq() == all,
                entities@.len() == it.index(),
                forall|i: int|
                    0 <= i < it.index() ==> #[trigger] all[i] == Ok::<Entity, EntityError>(
                        entities@[i],
                    ),
        {
            match row {
                Ok(entity) => entities.push(entity),
                Err(error) => {
                    assert(all[it.index()] == Err::<Entity, EntityError>(error));
                    return Err(error);
                },
            }
        }
        Ok(entities)
    }

    /// Asks for the entity to be saved in an edit session.
    pub fn save_for_edit_session(&self, change_set_id: &str, edit_session_id: &str) -> (query: Query)
        ensures
            query@ == save_query(self@, change_set_id@, edit_session_id@),
    {
        let query = Query::of(Statement::EntitySaveForEditSession).entity(self).text(
            change_set_id,
        ).text(edit_session_id);
        assert(query@.params =~= save_query(self@, change_set_id@, edit_session_id@).params);
        query
    }

    /// Reads what was found at a path as a string. What is no string is refused, with the
    /// path.
    pub fn string_property(found: LodashResult<Option<&serde_json::Value>>, path: &Vec<String>) -> (property: EntityResult<Option<String>>)
        ensures
            match found {
                Ok(Some(value)) => match json_text(*value) {
                    Some(text) => property matches Ok(Some(inner)) && inner@ == text,
                    None => property matches Err(EntityError::WrongTypeForProp(kind, at))
                        && kind@ == "String"@ && texts(at@) == texts(path@),
                },
                Ok(None) => property == Ok::<Option<String>, EntityError>(None),
                Err(error) => property == Err::<Option<String>, EntityError>(
                    EntityError::Lodash(error),
                ),
            },
    {
        match found {
            Ok(Some(value)) => match json::text(value) {
                Some(text) => Ok(Some(text.to_string())),
                None => Err(EntityError::WrongTypeForProp("String", copy_texts(path))),
            },
            Ok(None) => Ok(None),
            Err(error) => Err(EntityError::Lodash(error)),
        }
    }

    /// Reads the property at a path of a system as a string. There is none where the
    /// system has no properties or the path leads nowhere; what is no string is refused,
    /// with the path. By the choices of [`lodash`] the read itself never fails, and a
    /// decimal segment is a position where the path comes to an array.
    pub fn get_property_as_string(&self, system_id: &str, path: &Vec<String>) -> (property: EntityResult<Option<String>>)
        ensures
            match self@.property(system_id@, texts(path@)) {
                Some(value) => match json_text(value) {
                    Some(text) => property matches Ok(Some(inner)) && inner@ == text,
                    None => property matches Err(EntityError::WrongTypeForProp(kind, at))
                        && kind@ == "String"@ && texts(at@) == texts(path@),
                },
                None => property == Ok::<Option<String>, EntityError>(None),
            },
    {
        match json::member(&self.properties, system_id) {
            Some(properties) => Entity::string_property(lodash::get(properties, path), path),
            None => Ok(None),
        }
    }

    /// Names the secret that is to be fetched and decrypted for the entity in a system:
    /// the one that its property `secret` holds the id of. There is nothing to decrypt
    /// where it has no such property.
    pub fn decrypt_secret_properties(&self, system_id: &str) -> (secret_id: EntityResult<Option<String>>)
        ensures
            match self@.property(system_id@, seq!["secret"@]) {
                Some(value) => match json_text(value) {
                    Some(text) => secret_id matches Ok(Some(inner)) && inner@ == text,
                    None => secret_id matches Err(EntityError::WrongTypeForProp(kind, at))
                        && kind@ == "String"@ && texts(at@) == seq!["secret"@],
                },
                None => secret_id == Ok::<Option<String>, EntityError>(None),
            },
    {
        let mut path: Vec<String> = Vec::new();
        path.push("secret".to_string());
        assert(texts(path@) =~= seq!["secret"@]);
        self.get_property_as_string(system_id, &path)
    }
}

/// Deleting an entity twice is deleting it once.
pub proof fn law_delete_once(entity: EntityModel)
    ensures
        entity.deleted().deleted() == entity.deleted(),
{
}

/// A deleted entity still has its properties.
pub proof fn law_delete_keeps_properties(entity: EntityModel, system_id: Seq<char>, path: Seq<Seq<char>>)
    ensures
        entity.deleted().property(system_id, path) == entity.property(system_id, path),
{
}

/// An entity is the same as itself.
pub proof fn law_same_as_itself(entity: EntityModel)
    ensures
        entity.same(entity),
{
}

/// A lookup and the lookup that it is compared with are refused on the same inputs: an
/// edit session whose change set is missing.
pub proof fn law_refused_together(
    entity_id: Seq<char>,
    change_set_id: Option<Seq<char>>,
    edit_session_id: Option<Seq<char>>,
)
    ensures
        innermost_query(entity_id, change_set_id, edit_session_id) is None <==> (edit_session_id
            is Some && change_set_id is None),
        diff_query(entity_id, change_set_id, edit_session_id) is None <==> innermost_query(
            entity_id,
            change_set_id,
            edit_session_id,
        ) is None,
{
}

/// An entity in an edit session is compared with what its change set holds, which is what
/// is seen once the edit session is left.
pub proof fn law_edit_session_diffs_against_change_set(
    entity_id: Seq<char>,
    change_set_id: Seq<char>,
    edit_session_id: Seq<char>,
)
    ensures
        diff_query(entity_id, Some(change_set_id), Some(edit_session_id)) == innermost_query(
            entity_id,
            Some(change_set_id),
            None,
        ),
{
}

/// An entity outside of an edit session is compared with the head, which is what is seen
/// once the change set is left.
pub proof fn law_change_set_diffs_against_head(entity_id: Seq<char>, change_set_id: Option<Seq<char>>)
    ensures
        diff_query(entity_id, change_set_id, None) == innermost_query(entity_id, None, None),
{
}

/// Where no edit session is given, looking in the innermost level is looking in the
/// change set, or at the head.
pub proof fn law_without_edit_session(entity_id: Seq<char>, change_set_id: Option<Seq<char>>)
    ensures
        innermost_query(entity_id, change_set_id, None) == Some(
            head_or_change_set_query(entity_id, change_set_id),
        ),
{
}

/// An entity is known by all its fields.
pub proof fn law_an_entity_is_known_by_its_fields(entity: Entity)
    ensures
        entity@.id == entity.id@,
        entity@.node_id == entity.node_id@,
        entity@.name == entity.name@,
        entity@.description == entity.description@,
        entity@.entity_type == entity.entity_type@,
        entity@.ops.len() == entity.ops@.len(),
        forall|i: int| 0 <= i < entity.ops@.len() ==> #[trigger] entity@.ops[i] == entity.ops@[i]@,
        entity@.tombstones.len() == entity.tombstones@.len(),
        forall|i: int|
            0 <= i < entity.tombstones@.len() ==> #[trigger] entity@.tombstones[i]
                == entity.tombstones@[i]@,
        entity@.array_meta == entity.array_meta,
        entity@.properties == entity.properties,
        entity@.code == entity.code,
        entity@.si_storable == entity.si_storable@,
        entity@.si_change_set is Some <==> entity.si_change_set is Some,
        entity.si_change_set matches Some(change_set) ==> entity@.si_change_set == Some(
            change_set.fields,
        ),
{
}

/// Entities are known one by one, in order, and an optional id by its characters.
pub proof fn law_entities_keep_their_order(entities: Seq<Entity>, id: String)
    ensures
        entity_models(entities).len() == entities.len(),
        forall|i: int|
            0 <= i < entities.len() ==> #[trigger] entity_models(entities)[i] == entities[i]@,
        optional_text(Some(&id)) == Some(id@),
        optional_text(None) is None,
{
}

/// Entities differ where any of their fields does.
pub proof fn law_entities_differ_in_any_field(left: EntityModel, right: EntityModel)
    ensures
        left.id != right.id ==> !left.same(right),
        left.node_id != right.node_id ==> !left.same(right),
        left.name != right.name ==> !left.same(right),
        left.description != right.description ==> !left.same(right),
        left.entity_type != right.entity_type ==> !left.same(right),
        left.ops.len() != right.ops.len() ==> !left.same(right),
        forall|i: int|
            0 <= i < left.ops.len() && left.ops.len() == right.ops.len() && !(
            #[trigger] left.ops[i]).same(right.ops[i]) ==> !left.same(right),
        left.tombstones != right.tombstones ==> !left.same(right),
        left.array_meta != right.array_meta && !json_equal(left.array_meta, right.array_meta)
            ==> !left.same(right),
        left.properties != right.properties && !json_equal(left.properties, right.properties)
            ==> !left.same(right),
        left.code != right.code && !json_equal(left.code, right.code) ==> !left.same(right),
        !left.si_storable.same(right.si_storable) ==> !left.same(right),
        !same_change_set_models(left.si_change_set, right.si_change_set) ==> !left.same(right),
{
}

/// Entities that differ in nothing are the same, whatever objects their JSON values are held
/// in.
pub proof fn law_entities_that_differ_in_nothing_are_the_same(
    left: EntityModel,
    right: EntityModel,
)
    requires
        left.id == right.id,
        left.node_id == right.node_id,
        left.name == right.name,
        left.description == right.description,
        left.entity_type == right.entity_type,
        left.ops.len() == right.ops.len(),
        forall|i: int| 0 <= i < left.ops.len() ==> (#[trigger] left.ops[i]).same(right.ops[i]),
        left.tombstones == right.tombstones,
        left.array_meta == right.array_meta || json_equal(left.array_meta, right.array_meta),
        left.properties == right.properties || json_equal(left.properties, right.properties),
        left.code == right.code || json_equal(left.code, right.code),
        left.si_storable.same(right.si_storable),
        same_change_set_models(left.si_change_set, right.si_change_set),
    ensures
        left.same(right),
{
}

/// `==` on entities goes by what they are known by.
pub proof fn law_entities_are_compared_whole(left: Entity, right: Entity)
    ensures
        left.eq_spec(&right) <==> left@.same(right@),
{
}

/// Deleting an entity sets the mark, and leaves everything else about it as it was.
pub proof fn law_delete_only_marks(entity: EntityModel)
    ensures
        entity.deleted().si_storable.deleted,
        entity.si_storable.deleted ==> entity.deleted() == entity,
        ({
            let deleted = entity.deleted();
            deleted == EntityModel {
                id: entity.id,
                node_id: entity.node_id,
                name: entity.name,
                description: entity.description,
                entity_type: entity.entity_type,
                ops: entity.ops,
                tombstones: entity.tombstones,
                array_meta: entity.array_meta,
                properties: entity.properties,
                code: entity.code,
                si_storable: SiStorableModel {
                    stored_type: entity.si_storable.stored_type,
                    workspace_id: entity.si_storable.workspace_id,
                    deleted: true,
                    rest: entity.si_storable.rest,
                },
                si_change_set: entity.si_change_set,
            }
        }),
{
}

/// What is read in a system depends on the properties of that system alone: two entities
/// that have the same there, or both nothing, give the same, whatever else they hold.
pub proof fn law_a_property_is_read_in_its_system_alone(
    left: EntityModel,
    right: EntityModel,
    system_id: Seq<char>,
    path: Seq<Seq<char>>,
)
    requires
        json_members(left.properties).contains_key(system_id) <==> json_members(
            right.properties,
        ).contains_key(system_id),
        json_members(left.properties).contains_key(system_id) ==> json_members(
            left.properties,
        )[system_id] == json_members(right.properties)[system_id],
    ensures
        left.property(system_id, path) == right.property(system_id, path),
{
}

/// The property at the empty path is all that the entity has in the system. A further
/// segment leads from a property to what the segment leads to in it, and nowhere where there
/// is no such property. A system in which the entity has nothing has no property at all.
pub proof fn law_a_property_is_found_segment_by_segment(
    entity: EntityModel,
    system_id: Seq<char>,
    path: Seq<Seq<char>>,
    segment: Seq<char>,
)
    ensures
        !json_members(entity.properties).contains_key(system_id) ==> entity.property(
            system_id,
            path,
        ) is None,
        json_members(entity.properties).contains_key(system_id) ==> entity.property(
            system_id,
            Seq::empty(),
        ) == Some(json_members(entity.properties)[system_id]),
        entity.property(system_id, path.push(segment)) == match entity.property(system_id, path) {
            Some(value) => lookup(value, seq![segment]),
            None => None,
        },
{
    assert(path.push(segment) =~= path + seq![segment]);
    if json_members(entity.properties).contains_key(system_id) {
        law_lookup_in_parts(json_members(entity.properties)[system_id], path, seq![segment]);
    }
}

/// An entity is asked for by its id, in the change set and the edit session that are given
/// and in this order.
pub proof fn law_a_lookup_names_the_entity_and_where_it_is_seen(
    entity_id: Seq<char>,
    change_set_id: Seq<char>,
    edit_session_id: Seq<char>,
)
    ensures
        edit_session_query(entity_id, change_set_id, edit_session_id) == (QueryModel {
            statement: Statement::EntityForEditSession,
            params: seq![
                ParamModel::Text(entity_id),
                ParamModel::Text(change_set_id),
                ParamModel::Text(edit_session_id),
            ],
        }),
        change_set_query(entity_id, change_set_id) == (QueryModel {
            statement: Statement::EntityForChangeSet,
            params: seq![ParamModel::Text(entity_id), ParamModel::Text(change_set_id)],
        }),
        head_query(entity_id) == (QueryModel {
            statement: Statement::EntityForHead,
            params: seq![ParamModel::Text(entity_id)],
        }),
{
    assert(edit_session_query(entity_id, change_set_id, edit_session_id).params =~= seq![
        ParamModel::Text(entity_id),
        ParamModel::Text(change_set_id),
        ParamModel::Text(edit_session_id),
    ]);
    assert(change_set_query(entity_id, change_set_id).params =~= seq![
        ParamModel::Text(entity_id),
        ParamModel::Text(change_set_id),
    ]);
    assert(head_query(entity_id).params =~= seq![ParamModel::Text(entity_id)]);
}

/// An entity is looked up in the innermost of what is given.
pub proof fn law_the_innermost_level_is_looked_in(
    entity_id: Seq<char>,
    change_set_id: Seq<char>,
    edit_session_id: Seq<char>,
)
    ensures
        innermost_query(entity_id, Some(change_set_id), Some(edit_session_id)) == Some(
            edit_session_query(entity_id, change_set_id, edit_session_id),
        ),
        innermost_query(entity_id, Some(change_set_id), None) == Some(
            change_set_query(entity_id, change_set_id),
        ),
        innermost_query(entity_id, None, None) == Some(head_query(entity_id)),
        innermost_query(entity_id, None, Some(edit_session_id)) is None,
        head_or_change_set_query(entity_id, Some(change_set_id)) == change_set_query(
            entity_id,
            change_set_id,
        ),
        head_or_change_set_query(entity_id, None) == head_query(entity_id),
{
}

/// What is handed over to be saved is the entity itself, with nothing about it altered, and
/// after it the change set and the edit session.
pub proof fn law_a_save_hands_over_the_entity_whole(
    entity: EntityModel,
    change_set_id: Seq<char>,
    edit_session_id: Seq<char>,
)
    ensures
        ({
            let query = save_query(entity, change_set_id, edit_session_id);
            &&& query.statement == Statement::EntitySaveForEditSession
            &&& query.params.len() == 3
            &&& query.params[0] == ParamModel::Entity(entity)
            &&& query.params[1] == ParamModel::Text(change_set_id)
            &&& query.params[2] == ParamModel::Text(edit_session_id)
        }),
{
}

/// Two saves hand over the same only where the same entity is saved, in the same change set
/// and edit session: nothing about an entity is lost by saving it.
pub proof fn law_a_save_loses_nothing(
    left: EntityModel,
    right: EntityModel,
    change_sets: (Seq<char>, Seq<char>),
    edit_sessions: (Seq<char>, Seq<char>),
)
    requires
        save_query(left, change_sets.0, edit_sessions.0) == save_query(
            right,
            change_sets.1,
            edit_sessions.1,
        ),
    ensures
        left == right,
        change_sets.0 == change_sets.1,
        edit_sessions.0 == edit_sessions.1,
{
    let first = save_query(left, change_sets.0, edit_sessions.0);
    let second = save_query(right, change_sets.1, edit_sessions.1);
    assert(first.params[0] == second.params[0]);
    assert(first.params[1] == second.params[1]);
    assert(first.params[2] == second.params[2]);
}

/// Saving an entity hands that very entity over, with nothing about it altered, and then the
/// change set and the edit session.
pub proof fn law_saving_hands_over_the_entity(
    entity: Entity,
    change_set_id: &str,
    edit_session_id: &str,
    query: Query,
)
    requires
        call_ensures(
            Entity::save_for_edit_session,
            (&entity, change_set_id, edit_session_id),
            query,
        ),
    ensures
        query.statement == Statement::EntitySaveForEditSession,
        query.params@.len() == 3,
        query.params@[0] matches Param::Entity(saved) && saved@ == entity@,
        query.params@[1] matches Param::Text(text) && text@ == change_set_id@,
        query.params@[2] matches Param::Text(text) && text@ == edit_session_id@,
{
    assert(query@ == save_query(entity@, change_set_id@, edit_session_id@));
    assert(query@.params.len() == query.params@.len());
    assert(query@.params[0] == query.params@[0]@);
    assert(query@.params[1] == query.params@[1]@);
    assert(query@.params[2] == query.params@[2]@);
}

/// Looking an entity up hands over its id and where it is to be seen, in this order.
pub proof fn law_looking_up_hands_over_the_id(
    entity_id: &str,
    change_set_id: &str,
    edit_session_id: &str,
    session: Query,
    change_set: Query,
    head: Query,
)
    requires
        call_ensures(
            Entity::for_edit_session,
            (entity_id, change_set_id, edit_session_id),
            session,
        ),
        call_ensures(Entity::for_change_set, (entity_id, change_set_id), change_set),
        call_ensures(Entity::for_head, (entity_id,), head),
    ensures
        session.statement == Statement::EntityForEditSession,
        session.params@.len() == 3,
        session.params@[0] matches Param::Text(text) && text@ == entity_id@,
        session.params@[1] matches Param::Text(text) && text@ == change_set_id@,
        session.params@[2] matches Param::Text(text) && text@ == edit_session_id@,
        change_set.statement == Statement::EntityForChangeSet,
        change_set.params@.len() == 2,
        change_set.params@[0] matches Param::Text(text) && text@ == entity_id@,
        change_set.params@[1] matches Param::Text(text) && text@ == change_set_id@,
        head.statement == Statement::EntityForHead,
        head.params@.len() == 1,
        head.params@[0] matches Param::Text(text) && text@ == entity_id@,
{
    assert(session@ == edit_session_query(entity_id@, change_set_id@, edit_session_id@));
    assert(change_set@ == change_set_query(entity_id@, change_set_id@));
    assert(head@ == head_query(entity_id@));
    assert(session@.params.len() == session.params@.len());
    assert(session@.params[0] == session.params@[0]@);
    assert(session@.params[1] == session.params@[1]@);
    assert(session@.params[2] == session.params@[2]@);
    assert(change_set@.params.len() == change_set.params@.len());
    assert(change_set@.params[0] == change_set.params@[0]@);
    assert(change_set@.params[1] == change_set.params@[1]@);
    assert(head@.params.len() == head.params@.len());
    assert(head@.params[0] == head.params@[0]@);
}

/// Looking entities up by name hands over the name, the type and the workspace.
pub proof fn law_looking_up_by_name_hands_over_the_name(
    name: &str,
    entity_type: &str,
    workspace_id: &str,
    query: Query,
)
    requires
        call_ensures(
            Entity::get_head_by_name_and_entity_type,
            (name, entity_type, workspace_id),
            query,
        ),
    ensures
        query.statement == Statement::EntityGetHeadByNameAndEntityType,
        query.params@.len() == 3,
        query.params@[0] matches Param::Text(text) && text@ == name@,
        query.params@[1] matches Param::Text(text) && text@ == entity_type@,
        query.params@[2] matches Param::Text(text) && text@ == workspace_id@,
{
    let texts = seq![name@, entity_type@, workspace_id@];
    assert(query@ == text_query(Statement::EntityGetHeadByNameAndEntityType, texts));
    assert(query@.params.len() == query.params@.len());
    assert(query@.params[0] == query.params@[0]@);
    assert(query@.params[1] == query.params@[1]@);
    assert(query@.params[2] == query.params@[2]@);
}

/// Looking in the innermost level asks for what looking in that level asks for, and what is
/// compared with is one level further out. Both are refused where an edit session comes
/// without its change set, and nowhere else.
pub proof fn law_looking_in_levels(
    entity_id: &str,
    change_set_id: Option<&String>,
    edit_session_id: Option<&String>,
    either: Query,
    innermost: EntityResult<Query>,
    compared: EntityResult<Query>,
)
    requires
        call_ensures(Entity::for_head_or_change_set, (entity_id, change_set_id), either),
        call_ensures(
            Entity::for_head_or_change_set_or_edit_session,
            (entity_id, change_set_id, edit_session_id),
            innermost,
        ),
        call_ensures(Entity::for_diff, (entity_id, change_set_id, edit_session_id), compared),
    ensures
        either@ == match change_set_id {
            Some(change_set) => change_set_query(entity_id@, change_set@),
            None => head_query(entity_id@),
        },
        match (change_set_id, edit_session_id) {
            (Some(change_set), Some(session)) => {
                &&& innermost matches Ok(query) && query@ == edit_session_query(
                    entity_id@,
                    change_set@,
                    session@,
                )
                &&& compared matches Ok(query) && query@ == either@
            },
            (None, Some(_)) => {
                &&& innermost == Err::<Query, EntityError>(EntityError::NoChangeSet)
                &&& compared == Err::<Query, EntityError>(EntityError::NoChangeSet)
            },
            (_, None) => {
                &&& innermost matches Ok(query) && query@ == either@
                &&& compared matches Ok(query) && query@ == head_query(entity_id@)
            },
        },
{
}

/// Gathering rows gives every row, in order, where all of them could be read; otherwise it
/// gives the failure of the first that could not.
pub proof fn law_rows_are_gathered_or_the_first_failure_is(
    rows: Vec<EntityResult<Entity>>,
    entities: EntityResult<Vec<Entity>>,
    i: int,
)
    requires
        call_ensures(Entity::from_rows, (rows,), entities),
        0 <= i < rows@.len(),
    ensures
        entities matches Ok(gathered) ==> gathered@.len() == rows@.len() && rows@[i] == Ok::<
            Entity,
            EntityError,
        >(gathered@[i]),
        rows@[i] is Err && (forall|j: int| 0 <= j < i ==> (#[trigger] rows@[j]) is Ok) ==> match (
            entities,
            rows@[i],
        ) {
            (Err(given), Err(error)) => given == error,
            _ => false,
        },
        (forall|j: int| 0 <= j < rows@.len() ==> (#[trigger] rows@[j]) is Ok) ==> entities is Ok,
{
    match entities {
        Ok(gathered) => {
            assert(rows@[i] == Ok::<Entity, EntityError>(gathered@[i]));
        },
        Err(error) => {
            let k = choose|k: int|
                {
                    &&& 0 <= k < rows@.len()
                    &&& #[trigger] rows@[k] == Err::<Entity, EntityError>(error)
                    &&& forall|j: int| 0 <= j < k ==> (#[trigger] rows@[j]) is Ok
                };
            assert(rows@[k] is Err);
            if rows@[i] is Err && k < i {
                assert(rows@[k] is Err);
            }
        },
    }
}

/// Reading a property gives the string that the path leads to in that system. It gives
/// nothing where the system has no properties or the path leads nowhere in them, whatever
/// other systems hold. What is no string is refused with the path that was read.
pub proof fn law_reading_a_property_gives_the_string_at_its_path(
    entity: Entity,
    system_id: &str,
    path: Vec<String>,
    property: EntityResult<Option<String>>,
)
    requires
        call_ensures(Entity::get_property_as_string, (&entity, system_id, &path), property),
    ensures
        ({
            let systems = json_members(entity.properties);
            let found = lookup(systems[system_id@], texts(path@));
            if !systems.contains_key(system_id@) || found is None {
                property == Ok::<Option<String>, EntityError>(None)
            } else {
                match json_text(found->0) {
                    Some(text) => property matches Ok(Some(inner)) && inner@ == text,
                    None => {
                        &&& property matches Err(EntityError::WrongTypeForProp(kind, at))
                        &&& kind@ == "String"@
                        &&& at@.len() == path@.len()
                        &&& forall|i: int| 0 <= i < path@.len() ==> #[trigger] at@[i]@ == path@[i]@
                    },
                }
            }
        }),
{
    if let Err(EntityError::WrongTypeForProp(kind, at)) = property {
        if texts(at@) == texts(path@) {
            assert(texts(at@).len() == at@.len());
            assert(texts(path@).len() == path@.len());
            assert forall|i: int| 0 <= i < path@.len() implies #[trigger] at@[i]@ == path@[i]@ by {
                assert(texts(at@)[i] == at@[i]@);
                assert(texts(path@)[i] == path@[i]@);
            }
        }
    }
}

/// Two entities that hold the same in a system give the same string there, or both none.
pub proof fn law_reading_a_property_looks_at_its_system_alone(
    left: Entity,
    right: Entity,
    system_id: &str,
    path: Vec<String>,
    from_left: EntityResult<Option<String>>,
    from_right: EntityResult<Option<String>>,
)
    requires
        json_members(left.properties).contains_key(system_id@) <==> json_members(
            right.properties,
        ).contains_key(system_id@),
        json_members(left.properties).contains_key(system_id@) ==> json_members(
            left.properties,
        )[system_id@] == json_members(right.properties)[system_id@],
        call_ensures(Entity::get_property_as_string, (&left, system_id, &path), from_left),
        call_ensures(Entity::get_property_as_string, (&right, system_id, &path), from_right),
    ensures
        match (from_left, from_right) {
            (Ok(Some(l)), Ok(Some(r))) => l@ == r@,
            (Ok(None), Ok(None)) => true,
            (Err(_), Err(_)) => true,
            _ => false,
        },
{
    law_reading_a_property_gives_the_string_at_its_path(left, system_id, path, from_left);
    law_reading_a_property_gives_the_string_at_its_path(right, system_id, path, from_right);
}

/// The secret that is to be decrypted is the one that the property `secret` of the system
/// reads as.
pub proof fn law_the_secret_is_what_its_property_reads_as(
    entity: Entity,
    system_id: &str,
    path: Vec<String>,
    property: EntityResult<Option<String>>,
    secret_id: EntityResult<Option<String>>,
)
    requires
        path@.len() == 1,
        path@[0]@ == "secret"@,
        call_ensures(Entity::get_property_as_string, (&entity, system_id, &path), property),
        call_ensures(Entity::decrypt_secret_properties, (&entity, system_id), secret_id),
    ensures
        match (property, secret_id) {
            (Ok(Some(read)), Ok(Some(named))) => named@ == read@,
            (Ok(None), Ok(None)) => true,
            (
                Err(EntityError::WrongTypeForProp(kind, at)),
                Err(EntityError::WrongTypeForProp(refused, named)),
            ) => refused@ == kind@ && texts(named@) == texts(at@),
            _ => false,
        },
{
    assert(texts(path@) =~= seq!["secret"@]);
}

} // verus!
