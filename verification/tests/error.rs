use si_model::error::EntityError;
use si_model::lodash::LodashError;

fn said(error: EntityError, message: &str) {
    assert_eq!(error.message(), message);
}

#[test]
fn every_failure_is_put_into_words() {
    said(EntityError::NoHead, "no head entity found; logic error");
    said(
        EntityError::Override("prod".to_string()),
        "no override system found: prod",
    );
    said(
        EntityError::MissingObjectType,
        "invalid entity; missing object type",
    );
    said(EntityError::MissingId, "invalid entity; missing node id");
    said(
        EntityError::Missing("name".to_string()),
        "missing field: name",
    );
    said(
        EntityError::SerdeJson("eof".to_string()),
        "json serialization error: eof",
    );
    said(EntityError::NotFound, "not found");
    said(EntityError::TokioPg("gone".to_string()), "pg error: gone");
    said(
        EntityError::NatsTxn("gone".to_string()),
        "nats txn error: gone",
    );
    said(
        EntityError::MalformedDatabaseEntry,
        "malformed database entry",
    );
    said(
        EntityError::MissingChangeSet,
        "missing change set in a save where it is required",
    );
    said(
        EntityError::Veritech("gone".to_string()),
        "veritech error: gone",
    );
    said(EntityError::Edge("gone".to_string()), "edge error: gone");
    said(
        EntityError::Resource("gone".to_string()),
        "resource error: gone",
    );
    said(
        EntityError::Deadpool("gone".to_string()),
        "deadpool error: gone",
    );
    said(EntityError::NoChangeSet, "no change set provided");
    said(
        EntityError::Qualification("gone".to_string()),
        "qualification error: gone",
    );
    said(
        EntityError::Workflow("gone".to_string()),
        "workflow error: gone",
    );
    said(
        EntityError::Lodash(LodashError {
            message: "bad path".to_string(),
        }),
        "lodash error: bad path",
    );
    said(
        EntityError::Secret("gone".to_string()),
        "secret error: gone",
    );
}

#[test]
fn a_wrong_type_is_named_with_its_path() {
    said(
        EntityError::WrongTypeForProp("String", vec!["a".to_string(), "b\"c".to_string()]),
        r#"expected a property to be a String, but it is not: ["a", "b\"c"]"#,
    );
}
