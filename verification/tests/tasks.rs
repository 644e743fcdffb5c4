use si_model::edge::{Direction, Edge, EdgeKind, Vertex};
use si_model::editing::{EditAction, EditReply, EditTask};
use si_model::entity::Entity;
use si_model::error::EntityError;
use si_model::inference::{InferAction, InferPropertiesResponse, InferReply, InferTask};
use si_model::qualification::{
    CheckQualificationsItem, CheckQualificationsProtocol, QualificationAction, QualificationReply,
    QualificationTask,
};
use si_model::query::{Param, Query, Statement};
use si_model::storable::SiStorable;
use si_model::successors::{SuccessorsAction, SuccessorsReply, SuccessorsTask};

fn entity(id: &str) -> Entity {
    Entity {
        id: id.to_string(),
        node_id: format!("node of {}", id),
        name: format!("name of {}", id),
        description: String::new(),
        entity_type: format!("type of {}", id),
        ops: vec![],
        tombstones: vec![],
        array_meta: serde_json::Value::Null,
        properties: serde_json::Value::Null,
        code: serde_json::Value::Null,
        si_storable: SiStorable {
            stored_type: "entity".to_string(),
            workspace_id: format!("workspace of {}", id),
            deleted: false,
            rest: serde_json::Value::Null,
        },
        si_change_set: None,
    }
}

fn changed(id: &str) -> Entity {
    let mut entity = entity(id);
    entity.properties = serde_json::Value::Bool(true);
    entity
}

fn edge(tail: &str, head: &str) -> Edge {
    Edge {
        tail_vertex: Vertex {
            object_id: tail.to_string(),
        },
        head_vertex: Vertex {
            object_id: head.to_string(),
        },
    }
}

fn failure() -> EntityError {
    EntityError::TokioPg("gone".to_string())
}

fn edge_failure() -> EntityError {
    EntityError::Edge("gone".to_string())
}

fn veritech_failure() -> EntityError {
    EntityError::Veritech("gone".to_string())
}

/// Which failures are expected, by what they are called.
fn accepted(expects: impl Fn(EntityError) -> bool) -> String {
    let gone = || "gone".to_string();
    let all: Vec<fn(String) -> EntityError> = vec![
        EntityError::Deadpool,
        EntityError::Edge,
        EntityError::Missing,
        EntityError::NatsTxn,
        EntityError::Override,
        EntityError::Qualification,
        EntityError::Resource,
        EntityError::Secret,
        EntityError::SerdeJson,
        EntityError::TokioPg,
        EntityError::Veritech,
        EntityError::Workflow,
    ];
    for plain in [
        EntityError::NoHead,
        EntityError::MissingObjectType,
        EntityError::MissingId,
        EntityError::NotFound,
        EntityError::MalformedDatabaseEntry,
        EntityError::MissingChangeSet,
        EntityError::NoChangeSet,
        EntityError::WrongTypeForProp("String", vec![]),
    ] {
        assert!(!expects(plain));
    }
    let names: Vec<String> = all
        .iter()
        .filter(|error| expects(error(gone())))
        .map(|error| error(String::new()).message())
        .collect();
    names.concat()
}

fn query(query: &Query) -> String {
    let params: Vec<String> = query
        .params
        .iter()
        .map(|param| match param {
            Param::Text(text) => text.clone(),
            Param::Entity(entity) => format!("<{} {}>", entity.id, entity.properties),
        })
        .collect();
    let name = match query.statement {
        Statement::EntityCreate => "create",
        Statement::EntitySaveForEditSession => "save",
        Statement::EntityForEditSession => "session",
        Statement::EntityForChangeSet => "change set",
        Statement::EntityForHead => "head",
        Statement::EntityGetHeadByNameAndEntityType => "by name",
    };
    format!("{}({})", name, params.join(", "))
}

fn infer_action(action: &InferAction) -> String {
    match action {
        InferAction::LoadEdges(edges) => {
            assert_eq!(edges.direction, Direction::DirectPredecessors);
            format!("edges {:?} {}", edges.kind, edges.object_id)
        }
        InferAction::LoadEntity(q) => query(q),
        InferAction::InferProperties(request) => {
            let context: Vec<&str> = request.context.iter().map(|e| e.id.as_str()).collect();
            format!(
                "infer {} of {} from {}",
                request.entity.id,
                request.entity_type,
                context.join("+")
            )
        }
        InferAction::Save(q) => query(q),
        InferAction::Finish(Ok(changed)) => format!("finish {}", changed),
        InferAction::Finish(Err(error)) => format!("fail {}", error.message()),
    }
}

fn infer(task: InferTask, reply: InferReply) -> (InferTask, String) {
    let reply = Ok(reply);
    assert!(task.expects(&reply));
    let (task, action) = task.next(reply);
    (task, infer_action(&action))
}

fn response(entity: Entity) -> InferReply {
    InferReply::Response(InferPropertiesResponse { entity })
}

#[test]
fn an_inference_gathers_its_context_in_order() {
    let (task, action) = entity("e").infer_properties_for_edit_session("c", "s");
    assert_eq!(infer_action(&action), "edges Configures e");
    let (task, said) = infer(
        task,
        InferReply::Edges(vec![edge("a", "e"), edge("b", "e")]),
    );
    assert_eq!(said, "session(a, c, s)");
    let (task, said) = infer(task, InferReply::Entity(entity("a")));
    assert_eq!(said, "session(b, c, s)");
    let (task, said) = infer(task, InferReply::Entity(entity("b")));
    assert_eq!(said, "edges Component e");
    let (task, said) = infer(task, InferReply::Edges(vec![edge("k", "e")]));
    assert_eq!(said, "session(k, c, s)");
    let (task, said) = infer(task, InferReply::Entity(entity("k")));
    assert_eq!(said, "infer e of type of e from a+b+k");
    let (task, said) = infer(task, response(changed("e")));
    assert_eq!(said, "save(<e true>, c, s)");
    let (task, said) = infer(task, InferReply::Saved);
    assert_eq!(said, "finish true");
    assert!(task.entity == changed("e"));
}

fn inferring(id: &str) -> InferTask {
    let (task, _) = entity(id).infer_properties_for_edit_session("c", "s");
    let (task, _) = infer(task, InferReply::Edges(vec![]));
    let (task, said) = infer(task, InferReply::Edges(vec![]));
    assert_eq!(said, format!("infer {} of type of {} from ", id, id));
    task
}

#[test]
fn an_inference_that_changes_nothing_saves_nothing() {
    let (task, said) = infer(inferring("e"), response(entity("e")));
    assert_eq!(said, "finish false");
    assert!(task.entity == entity("e"));
    assert!(!task.expects(&Ok(InferReply::Saved)));
    assert!(!task.expects(&Err(failure())));
}

#[test]
fn an_inference_fails_with_what_failed_it() {
    let (task, action) = inferring("e").next(Err(veritech_failure()));
    assert_eq!(infer_action(&action), "fail veritech error: gone");
    assert!(task.entity == entity("e"));
}

#[test]
fn an_inference_that_cannot_save_has_already_changed_the_entity() {
    let (task, _) = infer(inferring("e"), response(changed("e")));
    let (task, action) = task.next(Err(failure()));
    assert_eq!(infer_action(&action), "fail pg error: gone");
    assert!(task.entity == changed("e"));
}

#[test]
fn an_inference_expects_only_what_it_asked_for() {
    let (task, _) = entity("e").infer_properties_for_edit_session("c", "s");
    assert!(task.expects(&Ok(InferReply::Edges(vec![]))));
    assert!(!task.expects(&Ok(InferReply::Entity(entity("a")))));
    assert!(!task.expects(&Ok(response(entity("a")))));
    assert!(!task.expects(&Ok(InferReply::Saved)));
    assert!(task.expects(&Err(edge_failure())));
}

#[test]
fn an_inference_fails_only_as_the_service_it_waits_for() {
    let (task, _) = entity("e").infer_properties_for_edit_session("c", "s");
    assert_eq!(accepted(|e| task.expects(&Err(e))), "edge error: ");
    let (task, _) = infer(task, InferReply::Edges(vec![edge("a", "e")]));
    assert_eq!(
        accepted(|e| task.expects(&Err(e))),
        "json serialization error: pg error: "
    );
    let (task, _) = infer(task, InferReply::Entity(entity("a")));
    assert_eq!(accepted(|e| task.expects(&Err(e))), "edge error: ");
    let (task, _) = infer(task, InferReply::Edges(vec![]));
    assert_eq!(accepted(|e| task.expects(&Err(e))), "veritech error: ");
    let (task, _) = infer(task, response(changed("e")));
    assert_eq!(
        accepted(|e| task.expects(&Err(e))),
        "json serialization error: pg error: "
    );
    let (task, _) = infer(task, InferReply::Saved);
    assert_eq!(accepted(|e| task.expects(&Err(e))), "");
}

fn edit_action(action: &EditAction) -> String {
    match action {
        EditAction::Create(q) => query(q),
        EditAction::Save(q) => query(q),
        EditAction::Infer(action) => infer_action(action),
        EditAction::CalculateSuccessors(request) => format!(
            "successors of {} in {} {}",
            request.entity_id, request.change_set_id, request.edit_session_id
        ),
        EditAction::Finish(Ok(())) => "finish".to_string(),
        EditAction::Finish(Err(error)) => format!("fail {}", error.message()),
    }
}

fn edit(task: EditTask, reply: EditReply) -> (EditTask, String) {
    let reply = Ok(reply);
    assert!(task.expects(&reply));
    let (task, action) = task.next(reply);
    (task, edit_action(&action))
}

fn inferred(task: EditTask, answer: Entity) -> (EditTask, String) {
    let (task, said) = edit(task, EditReply::Infer(InferReply::Edges(vec![])));
    assert_eq!(said, "edges Component e");
    let (task, _) = edit(task, EditReply::Infer(InferReply::Edges(vec![])));
    edit(task, EditReply::Infer(response(answer)))
}

#[test]
fn a_new_entity_is_created_inferred_and_spread() {
    let (task, action) = Entity::new(
        "name".to_string(),
        Some("text".to_string()),
        "node",
        "type",
        "work",
        "c",
        "s",
    );
    assert_eq!(
        edit_action(&action),
        "create(name, text, type, node, c, s, work)"
    );
    let (task, said) = edit(task, EditReply::Created(entity("e")));
    assert_eq!(said, "edges Configures e");
    let (task, said) = inferred(task, changed("e"));
    assert_eq!(said, "save(<e true>, c, s)");
    let (task, said) = edit(task, EditReply::Infer(InferReply::Saved));
    assert_eq!(said, "successors of e in c s");
    let (task, said) = edit(task, EditReply::Spread);
    assert_eq!(said, "finish");
    assert!(task.into_entity() == Some(changed("e")));
}

#[test]
fn a_new_entity_is_described_by_its_name() {
    let (_, action) = Entity::new("name".to_string(), None, "node", "type", "work", "c", "s");
    assert_eq!(
        edit_action(&action),
        "create(name, name, type, node, c, s, work)"
    );
}

#[test]
fn an_unchanged_new_entity_is_not_spread() {
    let (task, _) = Entity::new("name".to_string(), None, "node", "type", "work", "c", "s");
    let (task, _) = edit(task, EditReply::Created(entity("e")));
    let (task, said) = inferred(task, entity("e"));
    assert_eq!(said, "finish");
    assert!(task.into_entity() == Some(entity("e")));
}

#[test]
fn an_entity_that_cannot_be_created_is_none() {
    let (task, _) = Entity::new("name".to_string(), None, "node", "type", "work", "c", "s");
    let (task, action) = task.next(Err(failure()));
    assert_eq!(edit_action(&action), "fail pg error: gone");
    assert!(task.into_entity().is_none());
}

#[test]
fn an_update_saves_before_it_infers() {
    let (task, action) = entity("e").update_entity_for_edit_session("c", "s");
    assert_eq!(edit_action(&action), "save(<e null>, c, s)");
    let (task, said) = edit(task, EditReply::Saved);
    assert_eq!(said, "edges Configures e");
    let (task, said) = inferred(task, changed("e"));
    assert_eq!(said, "save(<e true>, c, s)");
    let (task, said) = edit(task, EditReply::Infer(InferReply::Saved));
    assert_eq!(said, "successors of e in c s");
    let (task, said) = edit(task, EditReply::Spread);
    assert_eq!(said, "finish");
    assert!(task.into_entity() == Some(changed("e")));
}

#[test]
fn an_edit_fails_only_as_the_service_it_waits_for() {
    let (task, _) = Entity::new("name".to_string(), None, "node", "type", "work", "c", "s");
    assert_eq!(
        accepted(|e| task.expects(&Err(e))),
        "json serialization error: pg error: "
    );
    let (task, _) = entity("e").update_entity_for_edit_session("c", "s");
    assert_eq!(
        accepted(|e| task.expects(&Err(e))),
        "json serialization error: pg error: "
    );
    let (task, _) = edit(task, EditReply::Saved);
    assert_eq!(accepted(|e| task.expects(&Err(e))), "edge error: ");
    let (task, _) = inferred(task, changed("e"));
    assert_eq!(
        accepted(|e| task.expects(&Err(e))),
        "json serialization error: pg error: "
    );
    let (task, _) = edit(task, EditReply::Infer(InferReply::Saved));
    assert_eq!(accepted(|e| task.expects(&Err(e))), "");
    let (task, _) = edit(task, EditReply::Spread);
    assert_eq!(accepted(|e| task.expects(&Err(e))), "");
}

#[test]
fn a_failed_update_keeps_the_entity() {
    let (task, _) = entity("e").update_entity_for_edit_session("c", "s");
    let (task, _) = edit(task, EditReply::Saved);
    let (task, action) = task.next(Err(edge_failure()));
    assert_eq!(edit_action(&action), "fail edge error: gone");
    assert!(!task.expects(&Err(edge_failure())));
    assert!(task.into_entity() == Some(entity("e")));
}

fn spread_action(action: &SuccessorsAction) -> String {
    match action {
        SuccessorsAction::Connect => "connect".to_string(),
        SuccessorsAction::LoadEdges(edges) => {
            assert_eq!(edges.direction, Direction::DirectSuccessors);
            assert_eq!(edges.kind, EdgeKind::Configures);
            format!("successors {}", edges.object_id)
        }
        SuccessorsAction::LoadEntity(q) => query(q),
        SuccessorsAction::Infer(action) => infer_action(action),
        SuccessorsAction::CheckQualifications(check) => {
            assert!(check.system_id.is_none());
            format!(
                "check {} {} {} {}",
                check.entity.id, check.change_set_id, check.edit_session_id, check.workspace_id
            )
        }
        SuccessorsAction::CommitTransaction => "commit".to_string(),
        SuccessorsAction::Finish(Ok(())) => "finish".to_string(),
        SuccessorsAction::Finish(Err(error)) => format!("fail {}", error.message()),
    }
}

fn spread(task: SuccessorsTask, reply: SuccessorsReply) -> (SuccessorsTask, String) {
    let reply = Ok(reply);
    assert!(task.expects(&reply));
    let (task, action) = task.next(reply);
    (task, spread_action(&action))
}

fn visit(task: SuccessorsTask, loaded: &str, answer: Entity) -> (SuccessorsTask, String) {
    let (task, said) = spread(task, SuccessorsReply::Entity(entity(loaded)));
    assert_eq!(said, format!("edges Configures {}", loaded));
    let (task, _) = spread(task, SuccessorsReply::Infer(InferReply::Edges(vec![])));
    let (task, _) = spread(task, SuccessorsReply::Infer(InferReply::Edges(vec![])));
    let (task, said) = spread(task, SuccessorsReply::Infer(response(answer)));
    if said.starts_with("save(") {
        spread(task, SuccessorsReply::Infer(InferReply::Saved))
    } else {
        (task, said)
    }
}

fn spreading() -> SuccessorsTask {
    let (request, told) = Entity::calculate_properties_of_successors_for_edit_session(
        "e".to_string(),
        "c".to_string(),
        "s".to_string(),
    );
    assert!(told.is_ok());
    let (task, action) =
        Entity::task_calculate_properties_of_successors_for_edit_session(request);
    assert_eq!(spread_action(&action), "connect");
    assert_eq!(
        accepted(|e| task.expects(&Err(e))),
        "deadpool error: pg error: "
    );
    let (task, said) = spread(task, SuccessorsReply::Began);
    assert_eq!(said, "successors e");
    task
}

#[test]
fn a_change_is_followed_from_the_last_entity_that_changed() {
    let (task, said) = spread(
        spreading(),
        SuccessorsReply::Edges(vec![edge("e", "a"), edge("e", "b"), edge("e", "d")]),
    );
    assert_eq!(said, "session(a, c, s)");
    let (task, said) = visit(task, "a", changed("a"));
    assert_eq!(said, "check a c s workspace of a");
    let (task, said) = spread(task, SuccessorsReply::Checked);
    assert_eq!(said, "session(b, c, s)");
    let (task, said) = visit(task, "b", entity("b"));
    assert_eq!(said, "session(d, c, s)");
    let (task, said) = visit(task, "d", changed("d"));
    assert_eq!(said, "check d c s workspace of d");
    let (task, said) = spread(task, SuccessorsReply::Checked);
    assert_eq!(said, "successors d");
    let (task, said) = spread(task, SuccessorsReply::Edges(vec![]));
    assert_eq!(said, "successors a");
    let (task, said) = spread(task, SuccessorsReply::Edges(vec![]));
    assert_eq!(said, "commit");
    let (task, said) = spread(task, SuccessorsReply::Committed);
    assert_eq!(said, "finish");
    assert!(!task.expects(&Err(failure())));
}

#[test]
fn a_changed_entity_is_followed_under_the_id_it_was_inferred_with() {
    let (task, _) = spread(spreading(), SuccessorsReply::Edges(vec![edge("e", "a")]));
    let (task, said) = visit(task, "a", changed("z"));
    assert_eq!(said, "check z c s workspace of z");
    let (_, said) = spread(task, SuccessorsReply::Checked);
    assert_eq!(said, "successors z");
}

#[test]
fn a_change_that_changes_nothing_else_is_committed_at_once() {
    let (task, _) = spread(
        spreading(),
        SuccessorsReply::Edges(vec![edge("e", "a"), edge("e", "b")]),
    );
    let (task, _) = visit(task, "a", entity("a"));
    let (_, said) = visit(task, "b", entity("b"));
    assert_eq!(said, "commit");
}

#[test]
fn a_failure_commits_nothing() {
    let (task, _) = spread(spreading(), SuccessorsReply::Edges(vec![edge("e", "a")]));
    let (task, _) = spread(task, SuccessorsReply::Entity(entity("a")));
    assert!(task.expects(&Err(edge_failure())));
    let (task, action) = task.next(Err(edge_failure()));
    assert_eq!(spread_action(&action), "fail edge error: gone");
    assert!(!task.expects(&Ok(SuccessorsReply::Committed)));
}

#[test]
fn a_calculation_fails_only_as_the_service_it_waits_for() {
    let task = spreading();
    assert_eq!(accepted(|e| task.expects(&Err(e))), "edge error: ");
    let (task, _) = spread(task, SuccessorsReply::Edges(vec![edge("e", "a")]));
    assert_eq!(
        accepted(|e| task.expects(&Err(e))),
        "json serialization error: pg error: "
    );
    let (task, _) = spread(task, SuccessorsReply::Entity(entity("a")));
    let (task, _) = spread(task, SuccessorsReply::Infer(InferReply::Edges(vec![])));
    let (task, _) = spread(task, SuccessorsReply::Infer(InferReply::Edges(vec![])));
    assert_eq!(accepted(|e| task.expects(&Err(e))), "veritech error: ");
    let (task, _) = spread(task, SuccessorsReply::Infer(response(changed("a"))));
    let (task, said) = spread(task, SuccessorsReply::Infer(InferReply::Saved));
    assert_eq!(said, "check a c s workspace of a");
    assert_eq!(accepted(|e| task.expects(&Err(e))), "");
    let (task, _) = spread(task, SuccessorsReply::Checked);
    let (task, said) = spread(task, SuccessorsReply::Edges(vec![]));
    assert_eq!(said, "commit");
    assert_eq!(accepted(|e| task.expects(&Err(e))), "pg error: ");
    let (task, _) = spread(task, SuccessorsReply::Committed);
    assert_eq!(accepted(|e| task.expects(&Err(e))), "");
}

/// Two ways lead from the first entity to the last: five ways in all to go on from the
/// first one, four of which leave it.
#[test]
fn a_change_is_followed_along_every_way() {
    let edges = |id: &str| match id {
        "e" => vec![edge("e", "a"), edge("e", "b")],
        "a" => vec![edge("a", "d")],
        "b" => vec![edge("b", "d")],
        _ => vec![],
    };
    let (mut task, mut said) = (spreading(), "successors e".to_string());
    let mut followed: Vec<String> = vec![];
    let mut loaded: Vec<String> = vec![];
    while said != "commit" {
        if let Some(id) = said.strip_prefix("successors ") {
            followed.push(id.to_string());
            let found = edges(followed.last().unwrap());
            (task, said) = spread(task, SuccessorsReply::Edges(found));
        } else if let Some(id) = said.strip_prefix("session(") {
            let id = id.split(',').next().unwrap().to_string();
            loaded.push(id.clone());
            (task, said) = visit(task, &id, changed(&id));
        } else {
            assert!(said.starts_with("check "));
            (task, said) = spread(task, SuccessorsReply::Checked);
        }
    }
    assert_eq!(followed, vec!["e", "b", "d", "a", "d"]);
    assert_eq!(loaded, vec!["a", "b", "d", "d"]);
}

fn check_action(action: &QualificationAction) -> String {
    match action {
        QualificationAction::Connect => "connect".to_string(),
        QualificationAction::BeginTransaction => "begin".to_string(),
        QualificationAction::Send(subject, request) => {
            format!("send {} {} {}", subject, request.system_id, request.entity.id)
        }
        QualificationAction::Receive => "receive".to_string(),
        QualificationAction::Publish(start) => format!(
            "publish {} {} {} {} {} {}",
            start.start,
            start.entity_id,
            start.change_set_id,
            start.edit_session_id,
            start.si_storable.stored_type,
            start.si_storable.workspace_id
        ),
        QualificationAction::Record(new) => format!(
            "record {} {} {} {:?} {:?} {} {} {}",
            new.entity_id,
            new.item.name,
            new.item.qualified,
            new.item.output,
            new.item.error,
            new.change_set_id,
            new.edit_session_id,
            new.workspace_id
        ),
        QualificationAction::CommitTransaction => "commit".to_string(),
        QualificationAction::CommitNats => "commit nats".to_string(),
        QualificationAction::Finish(Ok(())) => "finish".to_string(),
        QualificationAction::Finish(Err(error)) => format!("fail {}", error.message()),
    }
}

fn check(task: QualificationTask, reply: QualificationReply) -> (QualificationTask, String) {
    let reply = Ok(reply);
    assert!(task.expects(&reply));
    let (task, action) = task.next(reply);
    (task, check_action(&action))
}

fn message(
    task: QualificationTask,
    message: CheckQualificationsProtocol,
) -> (QualificationTask, String) {
    check(task, QualificationReply::Message(Some(message)))
}

fn done(task: QualificationTask) -> (QualificationTask, String) {
    check(task, QualificationReply::Done)
}

fn receiving(system_id: Option<String>, sent: &str) -> QualificationTask {
    let (started, told) = entity("e").check_qualifications_for_edit_session(system_id, "c", "s");
    assert!(matches!(told, Ok(true)));
    let (task, action) = Entity::task_check_qualifications_for_edit_session(started);
    assert_eq!(check_action(&action), "connect");
    assert_eq!(
        accepted(|e| task.expects(&Err(e))),
        "deadpool error: pg error: "
    );
    let (task, said) = done(task);
    assert_eq!(said, sent);
    assert_eq!(accepted(|e| task.expects(&Err(e))), "veritech error: ");
    let (task, said) = done(task);
    assert_eq!(said, "commit");
    let (task, said) = done(task);
    assert_eq!(said, "commit nats");
    let (task, said) = done(task);
    assert_eq!(said, "receive");
    task
}

fn item() -> CheckQualificationsItem {
    CheckQualificationsItem {
        name: "lint".to_string(),
        qualified: true,
        output: Some("fine".to_string()),
        error: None,
    }
}

#[test]
fn each_message_of_a_check_is_acted_on() {
    let task = receiving(None, "send checkQualifications baseline e");
    let (task, said) = message(
        task,
        CheckQualificationsProtocol::ValidNames(vec!["lint".to_string()]),
    );
    assert_eq!(said, "receive");
    assert_eq!(task.valid_names, vec!["lint".to_string()]);
    let (task, said) = message(task, CheckQualificationsProtocol::Start("lint".to_string()));
    assert_eq!(
        said,
        "publish lint e c s qualificationStart workspace of e"
    );
    let (task, said) = done(task);
    assert_eq!(said, "commit nats");
    let (task, said) = done(task);
    assert_eq!(said, "receive");
    let (task, said) = message(task, CheckQualificationsProtocol::Item(item()));
    assert_eq!(said, "begin");
    let (task, said) = done(task);
    assert_eq!(
        said,
        "record e lint true Some(\"fine\") None c s workspace of e"
    );
    let (task, said) = done(task);
    assert_eq!(said, "commit");
    let (task, said) = done(task);
    assert_eq!(said, "commit nats");
    let (task, said) = done(task);
    assert_eq!(said, "receive");
    let (task, said) = message(task, CheckQualificationsProtocol::Finished);
    assert_eq!(said, "finish");
    assert!(!task.expects(&Ok(QualificationReply::Message(None))));
}

#[test]
fn a_check_is_made_in_the_system_that_is_given() {
    let task = receiving(
        Some("production".to_string()),
        "send checkQualifications production e",
    );
    let (_, said) = check(task, QualificationReply::Message(None));
    assert_eq!(said, "finish");
}

#[test]
fn a_check_fails_with_what_failed_it() {
    let task = receiving(None, "send checkQualifications baseline e");
    assert!(!task.expects(&Err(failure())));
    assert!(!task.expects(&Ok(QualificationReply::Done)));
    let (task, _) = message(task, CheckQualificationsProtocol::Item(item()));
    assert!(!task.expects(&Ok(QualificationReply::Message(None))));
    let (task, action) = task.next(Err(failure()));
    assert_eq!(check_action(&action), "fail pg error: gone");
    assert!(!task.expects(&Err(failure())));
}

#[test]
fn a_check_fails_only_as_the_service_it_waits_for() {
    let task = receiving(None, "send checkQualifications baseline e");
    assert_eq!(accepted(|e| task.expects(&Err(e))), "");
    let (task, _) = message(task, CheckQualificationsProtocol::Start("lint".to_string()));
    assert_eq!(accepted(|e| task.expects(&Err(e))), "nats txn error: ");
    let (task, said) = done(task);
    assert_eq!(said, "commit nats");
    assert_eq!(accepted(|e| task.expects(&Err(e))), "nats txn error: ");
    let (task, _) = done(task);
    let (task, _) = message(task, CheckQualificationsProtocol::Item(item()));
    assert_eq!(accepted(|e| task.expects(&Err(e))), "pg error: ");
    let (task, _) = done(task);
    assert_eq!(accepted(|e| task.expects(&Err(e))), "qualification error: ");
    let (task, said) = done(task);
    assert_eq!(said, "commit");
    assert_eq!(accepted(|e| task.expects(&Err(e))), "pg error: ");
}

#[test]
fn the_names_of_checks_lead_to_nothing() {
    let run = |named: bool| {
        let mut task = receiving(None, "send checkQualifications baseline e");
        if named {
            let names = vec!["lint".to_string(), "test".to_string()];
            let said;
            (task, said) = message(task, CheckQualificationsProtocol::ValidNames(names));
            assert_eq!(said, "receive");
        }
        let (task, first) = message(task, CheckQualificationsProtocol::Start("x".to_string()));
        let (task, action) = task.next(Err(EntityError::NatsTxn("gone".to_string())));
        assert_eq!(accepted(|e| task.expects(&Err(e))), "");
        (first, check_action(&action))
    };
    assert_eq!(run(true), run(false));
    assert_eq!(run(true).1, "fail nats txn error: gone");
}

#[test]
fn nothing_is_read_after_the_checks_are_finished() {
    for last in [Some(CheckQualificationsProtocol::Finished), None] {
        let task = receiving(None, "send checkQualifications baseline e");
        let (task, said) = check(task, QualificationReply::Message(last));
        assert_eq!(said, "finish");
        assert!(!task.expects(&Ok(QualificationReply::Message(None))));
        assert!(!task.expects(&Ok(QualificationReply::Done)));
        assert_eq!(accepted(|e| task.expects(&Err(e))), "");
    }
}
