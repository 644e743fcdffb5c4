use si_model::entity::Entity;
use si_model::error::EntityError;
use si_model::lodash::LodashError;
use si_model::op::{Op, OpSource, OpTombstone, OpType};
use si_model::query::{Param, Query, Sql, Statement};
use si_model::storable::{SiChangeSet, SiStorable};

fn value(text: &str) -> serde_json::Value {
    serde_json::from_str(text).unwrap()
}

fn path(segments: &[&str]) -> Vec<String> {
    segments.iter().map(|s| s.to_string()).collect()
}

fn op() -> Op {
    Op {
        op: OpType::SetValue,
        source: OpSource::Manual,
        system: "baseline".to_string(),
        path: path(&["a", "b"]),
        value: value("[1, 2.5]"),
    }
}

fn tombstone() -> OpTombstone {
    OpTombstone {
        op: OpType::Tombstone,
        source: OpSource::Inferred,
        system: "baseline".to_string(),
        path: path(&["c"]),
    }
}

fn entity() -> Entity {
    Entity {
        id: "entity:1".to_string(),
        node_id: "node:1".to_string(),
        name: "web".to_string(),
        description: "a web service".to_string(),
        entity_type: "service".to_string(),
        ops: vec![op()],
        tombstones: vec![tombstone()],
        array_meta: value("{}"),
        properties: value(
            r#"{"baseline": {"secret": "secret:9", "deep": {"list": ["zero", "one"]}, "count": 3}}"#,
        ),
        code: serde_json::Value::Null,
        si_storable: SiStorable {
            stored_type: "entity".to_string(),
            workspace_id: "workspace:1".to_string(),
            deleted: false,
            rest: value(r#"{"objectId": "entity:1"}"#),
        },
        si_change_set: Some(SiChangeSet {
            fields: value(r#"{"changeSetId": "changeSet:1"}"#),
        }),
    }
}

fn params(query: &Query) -> Vec<String> {
    query
        .params
        .iter()
        .map(|param| match param {
            Param::Text(text) => text.clone(),
            Param::Entity(entity) => format!("<{}>", entity.id),
        })
        .collect()
}

fn asks(query: &Query, statement: Statement, expected: &[&str]) {
    assert_eq!(query.statement, statement);
    assert_eq!(params(query), path(expected));
}

#[test]
fn a_copy_is_the_same_entity() {
    let entity = entity();
    assert!(entity.clone() == entity);
}

#[test]
fn entities_differ_where_any_field_does() {
    let base = entity();
    let changes: Vec<fn(&mut Entity)> = vec![
        |e| e.id = "x".to_string(),
        |e| e.node_id = "x".to_string(),
        |e| e.name = "x".to_string(),
        |e| e.description = "x".to_string(),
        |e| e.entity_type = "x".to_string(),
        |e| e.ops = vec![],
        |e| e.ops[0].op = OpType::Unset,
        |e| e.ops[0].source = OpSource::Expression,
        |e| e.ops[0].system = "x".to_string(),
        |e| e.ops[0].path = vec!["a".to_string()],
        |e| e.ops[0].value = serde_json::Value::Null,
        |e| e.tombstones = vec![],
        |e| e.tombstones[0].path = vec!["d".to_string()],
        |e| e.array_meta = serde_json::Value::Null,
        |e| e.properties = serde_json::Value::Null,
        |e| e.code = serde_json::Value::Bool(true),
        |e| e.si_storable.stored_type = "x".to_string(),
        |e| e.si_storable.workspace_id = "x".to_string(),
        |e| e.si_storable.deleted = true,
        |e| e.si_storable.rest = serde_json::Value::Null,
        |e| e.si_change_set = None,
        |e| {
            e.si_change_set = Some(SiChangeSet {
                fields: serde_json::Value::Null,
            })
        },
    ];
    for change in changes {
        let mut other = entity();
        change(&mut other);
        assert!(other != base);
        assert!(base != other);
    }
}

#[test]
fn members_of_an_object_have_no_order() {
    let mut left = entity();
    let mut right = entity();
    left.code = value(r#"{"a": 1, "b": 2}"#);
    right.code = value(r#"{"b": 2, "a": 1}"#);
    assert!(left == right);
}

#[test]
fn deleting_marks_the_entity_and_nothing_else() {
    let mut deleted = entity();
    deleted.delete();
    assert!(deleted.si_storable.deleted);
    let once = deleted.clone();
    deleted.delete();
    assert!(deleted == once);
    deleted.si_storable.deleted = false;
    assert!(deleted == entity());
}

#[test]
fn a_deleted_entity_still_has_its_properties() {
    let mut deleted = entity();
    deleted.delete();
    assert_eq!(
        deleted
            .get_property_as_string("baseline", &path(&["secret"]))
            .unwrap(),
        Some("secret:9".to_string())
    );
}

#[test]
fn an_entity_is_looked_up_where_it_is_asked_for() {
    asks(
        &Entity::for_edit_session("e", "c", "s"),
        Statement::EntityForEditSession,
        &["e", "c", "s"],
    );
    asks(
        &Entity::for_change_set("e", "c"),
        Statement::EntityForChangeSet,
        &["e", "c"],
    );
    asks(&Entity::for_head("e"), Statement::EntityForHead, &["e"]);
}

#[test]
fn a_change_set_goes_before_the_head() {
    let c = "c".to_string();
    asks(
        &Entity::for_head_or_change_set("e", Some(&c)),
        Statement::EntityForChangeSet,
        &["e", "c"],
    );
    asks(
        &Entity::for_head_or_change_set("e", None),
        Statement::EntityForHead,
        &["e"],
    );
}

#[test]
fn an_edit_session_goes_before_its_change_set() {
    let c = "c".to_string();
    let s = "s".to_string();
    asks(
        &Entity::for_head_or_change_set_or_edit_session("e", Some(&c), Some(&s)).unwrap(),
        Statement::EntityForEditSession,
        &["e", "c", "s"],
    );
    asks(
        &Entity::for_head_or_change_set_or_edit_session("e", Some(&c), None).unwrap(),
        Statement::EntityForChangeSet,
        &["e", "c"],
    );
    asks(
        &Entity::for_head_or_change_set_or_edit_session("e", None, None).unwrap(),
        Statement::EntityForHead,
        &["e"],
    );
}

#[test]
fn an_edit_session_needs_its_change_set() {
    let s = "s".to_string();
    assert!(matches!(
        Entity::for_head_or_change_set_or_edit_session("e", None, Some(&s)),
        Err(EntityError::NoChangeSet)
    ));
    assert!(matches!(
        Entity::for_diff("e", None, Some(&s)),
        Err(EntityError::NoChangeSet)
    ));
}

#[test]
fn an_entity_is_compared_with_the_next_level_out() {
    let c = "c".to_string();
    let s = "s".to_string();
    asks(
        &Entity::for_diff("e", Some(&c), Some(&s)).unwrap(),
        Statement::EntityForChangeSet,
        &["e", "c"],
    );
    asks(
        &Entity::for_diff("e", Some(&c), None).unwrap(),
        Statement::EntityForHead,
        &["e"],
    );
    asks(
        &Entity::for_diff("e", None, None).unwrap(),
        Statement::EntityForHead,
        &["e"],
    );
}

#[test]
fn heads_are_found_by_name_and_type() {
    asks(
        &Entity::get_head_by_name_and_entity_type("n", "t", "w"),
        Statement::EntityGetHeadByNameAndEntityType,
        &["n", "t", "w"],
    );
}

#[test]
fn saving_hands_over_the_entity_first() {
    asks(
        &entity().save_for_edit_session("c", "s"),
        Statement::EntitySaveForEditSession,
        &["<entity:1>", "c", "s"],
    );
}

#[test]
fn statements_have_their_text_or_their_file() {
    let shown = |statement: Statement| match statement.sql() {
        Sql::Text(text) => format!("text {}", text),
        Sql::File(name) => format!("file {}", name),
    };
    assert_eq!(
        shown(Statement::EntityCreate),
        "text SELECT object FROM entity_create_v1($1, $2, $3, $4, $5, $6, $7)"
    );
    assert_eq!(
        shown(Statement::EntitySaveForEditSession),
        "text SELECT true FROM entity_save_for_edit_session_v1($1, $2, $3)"
    );
    assert_eq!(
        shown(Statement::EntityForEditSession),
        "file entity_for_edit_session.sql"
    );
    assert_eq!(
        shown(Statement::EntityForChangeSet),
        "file entity_for_change_set.sql"
    );
    assert_eq!(
        shown(Statement::EntityForHead),
        "file entity_for_head.sql"
    );
    assert_eq!(
        shown(Statement::EntityGetHeadByNameAndEntityType),
        "file entity_get_head_by_name_and_entity_type.sql"
    );
}

#[test]
fn rows_are_gathered_in_order() {
    let mut second = entity();
    second.id = "entity:2".to_string();
    let entities = Entity::from_rows(vec![Ok(entity()), Ok(second)]).unwrap();
    let ids: Vec<&str> = entities.iter().map(|e| e.id.as_str()).collect();
    assert_eq!(ids, vec!["entity:1", "entity:2"]);
    assert!(Entity::from_rows(vec![]).unwrap().is_empty());
}

#[test]
fn the_first_row_that_fails_fails_the_whole() {
    let rows = vec![
        Ok(entity()),
        Err(EntityError::TokioPg("first".to_string())),
        Err(EntityError::SerdeJson("second".to_string())),
    ];
    assert!(matches!(
        Entity::from_rows(rows),
        Err(EntityError::TokioPg(text)) if text == "first"
    ));
}

#[test]
fn a_string_property_is_read() {
    let entity = entity();
    assert_eq!(
        entity
            .get_property_as_string("baseline", &path(&["secret"]))
            .unwrap(),
        Some("secret:9".to_string())
    );
    assert_eq!(
        entity
            .get_property_as_string("baseline", &path(&["deep", "list", "1"]))
            .unwrap(),
        Some("one".to_string())
    );
}

#[test]
fn a_property_can_be_missing() {
    let entity = entity();
    assert_eq!(
        entity
            .get_property_as_string("production", &path(&["secret"]))
            .unwrap(),
        None
    );
    assert_eq!(
        entity
            .get_property_as_string("baseline", &path(&["implementation"]))
            .unwrap(),
        None
    );
}

#[test]
fn a_property_that_is_no_string_is_refused() {
    let entity = entity();
    for at in [&["count"][..], &["deep", "list"][..], &[][..]] {
        match entity.get_property_as_string("baseline", &path(at)) {
            Err(EntityError::WrongTypeForProp(kind, refused)) => {
                assert_eq!(kind, "String");
                assert_eq!(refused, path(at));
            }
            other => panic!("unexpected: {:?}", other),
        }
    }
}

#[test]
fn a_failed_lookup_is_handed_on() {
    let failed = Err(LodashError {
        message: "bad path".to_string(),
    });
    assert!(matches!(
        Entity::string_property(failed, &path(&["a"])),
        Err(EntityError::Lodash(error)) if error.message == "bad path"
    ));
    assert!(matches!(
        Entity::string_property(Ok(None), &path(&["a"])),
        Ok(None)
    ));
}

#[test]
fn the_secret_of_an_entity_is_named_by_its_property() {
    let mut entity = entity();
    assert_eq!(
        entity.decrypt_secret_properties("baseline").unwrap(),
        Some("secret:9".to_string())
    );
    assert_eq!(entity.decrypt_secret_properties("production").unwrap(), None);
    entity.properties = value(r#"{"baseline": {"secret": 9}}"#);
    match entity.decrypt_secret_properties("baseline") {
        Err(EntityError::WrongTypeForProp(kind, at)) => {
            assert_eq!(kind, "String");
            assert_eq!(at, path(&["secret"]));
        }
        other => panic!("unexpected: {:?}", other),
    }
}
