//! Creating and updating entities in an edit session.
//!
//! Both write the entity, infer its properties, and have the properties of its successors
//! calculated where that changed it. [`EditTask`] decides what is asked for next; whoever
//! runs it carries the request out.
use crate::edge::EdgeModel;
use crate::entity::{save_query, Entity, EntityModel};
use crate::error::{EntityError, EntityResult};
use crate::inference::{
    gathered, infer_next, infer_run, infer_runs, infer_runs_before, infer_start,
    law_infer_context, law_infer_expects_what_it_gathers, law_infer_run_ends_with_its_result,
    law_infer_waits_at_first, law_infer_waits_for_the_answer, InferAction, InferActionModel,
    InferModel, InferPropertiesRequestModel, InferReply, InferReplyModel, InferTask,
};
use crate::query::{text_query, Param, ParamModel, Query, QueryModel, Statement};
use crate::successors::{SuccessorsRequest, SuccessorsRequestModel};
use vstd::prelude::*;

verus! {

/// What an edit is waiting for.
#[derive(Debug)]
pub enum EditPhase {
    Creating,
    Saving(Entity),
    Inferring(InferTask),
    Spreading(Entity),
    Finished(Option<Entity>),
}

/// An edit of an entity on the way.
#[derive(Debug)]
pub struct EditTask {
    pub change_set_id: String,
    pub edit_session_id: String,
    pub phase: EditPhase,
}

/// The answer to what an edit asked for.
#[derive(Debug)]
pub enum EditReply {
    Created(Entity),
    Saved,
    Infer(InferReply),
    Spread,
}

/// What an edit asks for next, or how it ended.
#[derive(Debug)]
pub enum EditAction {
    Create(Query),
    Save(Query),
    Infer(InferAction),
    CalculateSuccessors(SuccessorsRequest),
    Finish(EntityResult<()>),
}

pub enum EditPhaseModel {
    Creating,
    Saving(EntityModel),
    Inferring(InferModel),
    Spreading(EntityModel),
    Finished(Option<EntityModel>),
}

#[verifier::ext_equal]
pub struct EditModel {
    pub change_set_id: Seq<char>,
    pub edit_session_id: Seq<char>,
    pub phase: EditPhaseModel,
}

pub enum EditReplyModel {
    Created(EntityModel),
    Saved,
    Infer(InferReplyModel),
    Spread,
}

pub enum EditActionModel {
    Create(QueryModel),
    Save(QueryModel),
    Infer(InferActionModel),
    CalculateSuccessors(SuccessorsRequestModel),
    Finish(EntityResult<()>),
}

impl View for EditPhase {
    type V = EditPhaseModel;

    open spec fn view(&self) -> EditPhaseModel {
        match self {
            EditPhase::Creating => EditPhaseModel::Creating,
            EditPhase::Saving(entity) => EditPhaseModel::Saving(entity@),
            EditPhase::Inferring(task) => EditPhaseModel::Inferring(task@),
            EditPhase::Spreading(entity) => EditPhaseModel::Spreading(entity@),
            EditPhase::Finished(Some(entity)) => EditPhaseModel::Finished(Some(entity@)),
            EditPhase::Finished(None) => EditPhaseModel::Finished(None),
        }
    }
}

impl View for EditTask {
    type V = EditModel;

    open spec fn view(&self) -> EditModel {
        EditModel {
            change_set_id: self.change_set_id@,
            edit_session_id: self.edit_session_id@,
            phase: self.phase@,
        }
    }
}

impl View for EditReply {
    type V = EditReplyModel;

    open spec fn view(&self) -> EditReplyModel {
        match self {
            EditReply::Created(entity) => EditReplyModel::Created(entity@),
            EditReply::Saved => EditReplyModel::Saved,
            EditReply::Infer(reply) => EditReplyModel::Infer(reply@),
            EditReply::Spread => EditReplyModel::Spread,
        }
    }
}

impl View for EditAction {
    type V = EditActionModel;

    open spec fn view(&self) -> EditActionModel {
        match self {
            EditAction::Create(query) => EditActionModel::Create(query@),
            EditAction::Save(query) => EditActionModel::Save(query@),
            EditAction::Infer(action) => EditActionModel::Infer(action@),
            EditAction::CalculateSuccessors(request) => EditActionModel::CalculateSuccessors(
                request@,
            ),
            EditAction::Finish(result) => EditActionModel::Finish(*result),
        }
    }
}

/// The model of an answer, or of the failure that came in its place.
pub open spec fn edit_event(reply: EntityResult<EditReply>) -> EntityResult<EditReplyModel> {
    match reply {
        Ok(inner) => Ok(inner@),
        Err(error) => Err(error),
    }
}

impl EditModel {
    /// The edit in another phase.
    pub open spec fn to(self, phase: EditPhaseModel) -> EditModel {
        EditModel { phase: phase, ..self }
    }

    /// The entity as it stands, once there is one.
    pub open spec fn entity(self) -> Option<EntityModel> {
        match self.phase {
            EditPhaseModel::Creating => None,
            EditPhaseModel::Saving(entity) => Some(entity),
            EditPhaseModel::Inferring(task) => Some(task.entity),
            EditPhaseModel::Spreading(entity) => Some(entity),
            EditPhaseModel::Finished(entity) => entity,
        }
    }

    /// Whether the edit can go on with an answer, or with a failure: one of the service
    /// that it waits for. Having the successors calculated does not fail.
    pub open spec fn expects(self, event: EntityResult<EditReplyModel>) -> bool {
        match (self.phase, event) {
            (EditPhaseModel::Creating, Ok(EditReplyModel::Created(_))) => true,
            (EditPhaseModel::Creating, Err(error)) => error.of_query(),
            (EditPhaseModel::Saving(_), Ok(EditReplyModel::Saved)) => true,
            (EditPhaseModel::Saving(_), Err(error)) => error.of_query(),
            (EditPhaseModel::Inferring(task), Ok(EditReplyModel::Infer(reply))) => task.expects(
                Ok(reply),
            ),
            (EditPhaseModel::Inferring(task), Err(error)) => task.expects(Err(error)),
            (EditPhaseModel::Spreading(_), Ok(EditReplyModel::Spread)) => true,
            _ => false,
        }
    }

    /// An edit that infers has an inference that goes on.
    pub open spec fn well_formed(self) -> bool {
        match self.phase {
            EditPhaseModel::Inferring(task) => task.well_formed() && !(task.phase is Finished),
            _ => true,
        }
    }
}

impl EditActionModel {
    /// Whether an answer is one to what was asked for.
    pub open spec fn answered_by(self, reply: EditReplyModel) -> bool {
        match self {
            EditActionModel::Create(_) => reply is Created,
            EditActionModel::Save(_) => reply is Saved,
            EditActionModel::Infer(action) => reply matches EditReplyModel::Infer(inner)
                && action.answered_by(inner),
            EditActionModel::CalculateSuccessors(_) => reply is Spread,
            EditActionModel::Finish(_) => false,
        }
    }

    /// Whether a failure is one that what was asked for can have.
    pub open spec fn fails_with(self, error: EntityError) -> bool {
        match self {
            EditActionModel::Create(_) => error.of_query(),
            EditActionModel::Save(_) => error.of_query(),
            EditActionModel::Infer(action) => action.fails_with(error),
            EditActionModel::CalculateSuccessors(_) => false,
            EditActionModel::Finish(_) => false,
        }
    }
}

/// What is put to the database to create an entity.
pub open spec fn create_query(
    name: Seq<char>,
    description: Seq<char>,
    object_type: Seq<char>,
    node_id: Seq<char>,
    change_set_id: Seq<char>,
    edit_session_id: Seq<char>,
    workspace_id: Seq<char>,
) -> QueryModel {
    text_query(
        Statement::EntityCreate,
        seq![
            name,
            description,
            object_type,
            node_id,
            change_set_id,
            edit_session_id,
            workspace_id,
        ],
    )
}

/// The description of an entity is its name where no other is given.
pub open spec fn described(name: Seq<char>, description: Option<String>) -> Seq<char> {
    match description {
        Some(inner) => inner@,
        None => name,
    }
}

/// An entity is created by the database.
pub open spec fn create_start(
    name: Seq<char>,
    description: Seq<char>,
    object_type: Seq<char>,
    node_id: Seq<char>,
    change_set_id: Seq<char>,
    edit_session_id: Seq<char>,
    workspace_id: Seq<char>,
) -> (EditModel, EditActionModel) {
    (
        EditModel {
            change_set_id: change_set_id,
            edit_session_id: edit_session_id,
            phase: EditPhaseModel::Creating,
        },
        EditActionModel::Create(
            create_query(
                name,
                description,
                object_type,
                node_id,
                change_set_id,
                edit_session_id,
                workspace_id,
            ),
        ),
    )
}

/// An entity is updated by saving it first.
pub open spec fn update_start(
    entity: EntityModel,
    change_set_id: Seq<char>,
    edit_session_id: Seq<char>,
) -> (EditModel, EditActionModel) {
    (
        EditModel {
            change_set_id: change_set_id,
            edit_session_id: edit_session_id,
            phase: EditPhaseModel::Saving(entity),
        },
        EditActionModel::Save(save_query(entity, change_set_id, edit_session_id)),
    )
}

/// How an edit goes on with the inference. Where the inference changed the entity, its
/// successors are next; otherwise the edit is done.
pub open spec fn edit_inferred(model: EditModel, inferred: (InferModel, InferActionModel)) -> (
    EditModel,
    EditActionModel,
) {
    let (task, action) = inferred;
    match action {
        InferActionModel::Finish(Ok(true)) => (
            model.to(EditPhaseModel::Spreading(task.entity)),
            EditActionModel::CalculateSuccessors(
                SuccessorsRequestModel {
                    entity_id: task.entity.id,
                    change_set_id: model.change_set_id,
                    edit_session_id: model.edit_session_id,
                },
            ),
        ),
        InferActionModel::Finish(Ok(false)) => (
            model.to(EditPhaseModel::Finished(Some(task.entity))),
            EditActionModel::Finish(Ok(())),
        ),
        InferActionModel::Finish(Err(error)) => (
            model.to(EditPhaseModel::Finished(Some(task.entity))),
            EditActionModel::Finish(Err(error)),
        ),
        _ => (model.to(EditPhaseModel::Inferring(task)), EditActionModel::Infer(action)),
    }
}

/// What an edit makes of an answer that it expects.
pub open spec fn edit_next(model: EditModel, event: EntityResult<EditReplyModel>) -> (
    EditModel,
    EditActionModel,
) {
    match (model.phase, event) {
        (EditPhaseModel::Inferring(task), Err(error)) => edit_inferred(
            model,
            infer_next(task, Err(error)),
        ),
        (EditPhaseModel::Inferring(task), Ok(EditReplyModel::Infer(reply))) => edit_inferred(
            model,
            infer_next(task, Ok(reply)),
        ),
        (_, Err(error)) => (
            model.to(EditPhaseModel::Finished(model.entity())),
            EditActionModel::Finish(Err(error)),
        ),
        (EditPhaseModel::Creating, Ok(EditReplyModel::Created(entity))) => edit_inferred(
            model,
            infer_start(entity, model.change_set_id, model.edit_session_id),
        ),
        (EditPhaseModel::Saving(entity), Ok(EditReplyModel::Saved)) => edit_inferred(
            model,
            infer_start(entity, model.change_set_id, model.edit_session_id),
        ),
        (EditPhaseModel::Spreading(entity), Ok(EditReplyModel::Spread)) => (
            model.to(EditPhaseModel::Finished(Some(entity))),
            EditActionModel::Finish(Ok(())),
        ),
        _ => arbitrary(),
    }
}

impl Entity {
    /// Begins to create an entity in an edit session, under the name that was given or
    /// generated for it.
    pub fn new(
        name: String,
        description: Option<String>,
        node_id: &str,
        object_type: &str,
        workspace_id: &str,
        change_set_id: &str,
        edit_session_id: &str,
    ) -> (started: (EditTask, EditAction))
        ensures
            (started.0@, started.1@) == create_start(
                name@,
                described(name@, description),
                object_type@,
                node_id@,
                change_set_id@,
                edit_session_id@,
                workspace_id@,
            ),
    {
        let ghost text = described(name@, description);
        let description = match description {
            Some(description) => description,
            None => name.clone(),
        };
        let query = Query::of(Statement::EntityCreate).text(name.as_str()).text(
            description.as_str(),
        ).text(object_type).text(node_id).text(change_set_id).text(edit_session_id).text(
            workspace_id,
        );
        assert(query@.params =~= create_query(
            name@,
            text,
            object_type@,
            node_id@,
            change_set_id@,
            edit_session_id@,
            workspace_id@,
        ).params);
        (
            EditTask {
                change_set_id: change_set_id.to_string(),
                edit_session_id: edit_session_id.to_string(),
                phase: EditPhase::Creating,
            },
            EditAction::Create(query),
        )
    }

    /// Begins to update the entity in an edit session.
    pub fn update_entity_for_edit_session(self, change_set_id: &str, edit_session_id: &str) -> (started: (EditTask, EditAction))
        ensures
            (started.0@, started.1@) == update_start(self@, change_set_id@, edit_session_id@),
    {
        let query = self.save_for_edit_session(change_set_id, edit_session_id);
        (
            EditTask {
                change_set_id: change_set_id.to_string(),
                edit_session_id: edit_session_id.to_string(),
                phase: EditPhase::Saving(self),
            },
            EditAction::Save(query),
        )
    }
}

impl EditTask {
    fn to(self, phase: EditPhase) -> (task: EditTask)
        ensures
            task@ == self@.to(phase@),
    {
        EditTask {
            change_set_id: self.change_set_id,
            edit_session_id: self.edit_session_id,
            phase: phase,
        }
    }

    fn inferred(self, inferred: (InferTask, InferAction)) -> (next: (EditTask, EditAction))
        ensures
            (next.0@, next.1@) == edit_inferred(self@, (inferred.0@, inferred.1@)),
    {
        let (task, action) = inferred;
        match action {
            InferAction::Finish(Ok(true)) => {
                let (request, _under_way) = Entity::calculate_properties_of_successors_for_edit_session(
                    task.entity.id.clone(),
                    self.change_set_id.clone(),
                    self.edit_session_id.clone(),
                );
                (
                    self.to(EditPhase::Spreading(task.entity)),
                    EditAction::CalculateSuccessors(request),
                )
            },
            InferAction::Finish(Ok(false)) => (
                self.to(EditPhase::Finished(Some(task.entity))),
                EditAction::Finish(Ok(())),
            ),
            InferAction::Finish(Err(error)) => (
                self.to(EditPhase::Finished(Some(task.entity))),
                EditAction::Finish(Err(error)),
            ),
            action => (self.to(EditPhase::Inferring(task)), EditAction::Infer(action)),
        }
    }

    fn infer(self, entity: Entity) -> (next: (EditTask, EditAction))
        ensures
            (next.0@, next.1@) == edit_inferred(
                self@,
                infer_start(entity@, self@.change_set_id, self@.edit_session_id),
            ),
    {
        let inferred = entity.infer_properties_for_edit_session(
            self.change_set_id.as_str(),
            self.edit_session_id.as_str(),
        );
        self.inferred(inferred)
    }

    /// Gives the entity as it stands, once there is one.
    pub fn into_entity(self) -> (entity: Option<Entity>)
        ensures
            match entity {
                Some(entity) => self@.entity() == Some(entity@),
                None => self@.entity() is None,
            },
    {
        match self.phase {
            EditPhase::Creating => None,
            EditPhase::Saving(entity) => Some(entity),
            EditPhase::Inferring(task) => Some(task.entity),
            EditPhase::Spreading(entity) => Some(entity),
            EditPhase::Finished(entity) => entity,
        }
    }

    /// Tells whether the edit can go on with an answer, or with a failure.
    pub fn expects(&self, reply: &EntityResult<EditReply>) -> (expected: bool)
        ensures
            expected == self@.expects(edit_event(*reply)),
    {
        match (&self.phase, reply) {
            (EditPhase::Creating, Ok(EditReply::Created(_))) => true,
            (EditPhase::Creating, Err(error)) => error.is_of_query(),
            (EditPhase::Saving(_), Ok(EditReply::Saved)) => true,
            (EditPhase::Saving(_), Err(error)) => error.is_of_query(),
            (EditPhase::Inferring(task), Ok(EditReply::Infer(reply))) => task.takes(reply),
            (EditPhase::Inferring(task), Err(error)) => task.fails_with(error),
            (EditPhase::Spreading(_), Ok(EditReply::Spread)) => true,
            _ => false,
        }
    }

    /// Takes the answer to what was asked for last, and says what to do next.
    pub fn next(self, reply: EntityResult<EditReply>) -> (next: (EditTask, EditAction))
        requires
            self@.expects(edit_event(reply)),
        ensures
            (next.0@, next.1@) == edit_next(self@, edit_event(reply)),
    {
        let EditTask { change_set_id, edit_session_id, phase } = self;
        let rest = EditTask { change_set_id, edit_session_id, phase: EditPhase::Creating };
        match (phase, reply) {
            (EditPhase::Inferring(task), Err(error)) => rest.inferred(task.next(Err(error))),
            (EditPhase::Inferring(task), Ok(EditReply::Infer(reply))) => rest.inferred(
                task.next(Ok(reply)),
            ),
            (EditPhase::Creating, Err(error)) => (
                rest.to(EditPhase::Finished(None)),
                EditAction::Finish(Err(error)),
            ),
            (EditPhase::Saving(entity), Err(error)) => (
                rest.to(EditPhase::Finished(Some(entity))),
                EditAction::Finish(Err(error)),
            ),
            (EditPhase::Creating, Ok(EditReply::Created(entity))) => rest.infer(entity),
            (EditPhase::Saving(entity), Ok(EditReply::Saved)) => rest.infer(entity),
            (EditPhase::Spreading(entity), Ok(_)) => (
                rest.to(EditPhase::Finished(Some(entity))),
                EditAction::Finish(Ok(())),
            ),
            // No other answer is expected.
            _ => (rest, EditAction::Finish(Ok(()))),
        }
    }
}

/// What an edit comes to on a run of answers.
pub open spec fn edit_run(
    at: (EditModel, EditActionModel),
    events: Seq<EntityResult<EditReplyModel>>,
) -> (EditModel, EditActionModel)
    decreases events.len(),
{
    if events.len() == 0 {
        at
    } else {
        edit_next(edit_run(at, events.drop_last()).0, events.last())
    }
}

/// Each answer of a run is one that the edit expects by then.
pub open spec fn edit_runs(
    at: (EditModel, EditActionModel),
    events: Seq<EntityResult<EditReplyModel>>,
) -> bool
    decreases events.len(),
{
    events.len() > 0 ==> {
        &&& edit_runs(at, events.drop_last())
        &&& edit_run(at, events.drop_last()).0.expects(events.last())
    }
}

/// The answers to an inference, as an edit gets them.
pub open spec fn edit_answers(events: Seq<EntityResult<InferReplyModel>>) -> Seq<
    EntityResult<EditReplyModel>,
> {
    events.map_values(
        |event: EntityResult<InferReplyModel>|
            match event {
                Ok(reply) => Ok(EditReplyModel::Infer(reply)),
                Err(error) => Err(error),
            },
    )
}

/// A run in two parts is one run.
pub proof fn law_edit_run_in_parts(
    at: (EditModel, EditActionModel),
    front: Seq<EntityResult<EditReplyModel>>,
    back: Seq<EntityResult<EditReplyModel>>,
)
    ensures
        edit_run(at, front + back) == edit_run(edit_run(at, front), back),
        edit_runs(at, front + back) <==> edit_runs(at, front) && edit_runs(
            edit_run(at, front),
            back,
        ),
    decreases back.len(),
{
    if back.len() == 0 {
        assert(front + back =~= front);
    } else {
        assert((front + back).drop_last() =~= front + back.drop_last());
        law_edit_run_in_parts(at, front, back.drop_last());
    }
}

proof fn one_answer(at: (EditModel, EditActionModel), event: EntityResult<EditReplyModel>)
    ensures
        edit_run(at, seq![event]) == edit_next(at.0, event),
        edit_runs(at, seq![event]) <==> at.0.expects(event),
{
    assert(seq![event].drop_last() =~= Seq::empty());
    assert(edit_run(at, seq![event].drop_last()) == at);
    assert(edit_runs(at, seq![event].drop_last()));
}

/// While it infers, an edit does what the inference does, on the answers that the inference
/// expects.
pub proof fn law_edit_infers(
    model: EditModel,
    at: (InferModel, InferActionModel),
    events: Seq<EntityResult<InferReplyModel>>,
)
    requires
        at.0.well_formed(),
        at.0.phase is Finished <==> at.1 is Finish,
        infer_runs(at, events),
    ensures
        edit_runs(edit_inferred(model, at), edit_answers(events)),
        edit_run(edit_inferred(model, at), edit_answers(events)) == edit_inferred(
            model,
            infer_run(at, events),
        ),
    decreases events.len(),
{
    if events.len() > 0 {
        let front = events.drop_last();
        infer_runs_before(at, events);
        law_edit_infers(model, at, front);
        law_infer_run_ends_with_its_result(at, front);
        assert(edit_answers(events).drop_last() =~= edit_answers(front));
    }
}

/// An updated entity is saved and then inferred. Its successors are calculated exactly
/// where the inference changed it, and the edit keeps the entity that came out.
pub proof fn law_update_spreads_a_change(
    entity: EntityModel,
    change_set_id: Seq<char>,
    edit_session_id: Seq<char>,
    events: Seq<EntityResult<InferReplyModel>>,
    changed: bool,
)
    requires
        infer_runs(infer_start(entity, change_set_id, edit_session_id), events),
        infer_run(infer_start(entity, change_set_id, edit_session_id), events).1
            == InferActionModel::Finish(Ok(changed)),
    ensures
        ({
            let inferred = infer_run(
                infer_start(entity, change_set_id, edit_session_id),
                events,
            ).0.entity;
            let at = update_start(entity, change_set_id, edit_session_id);
            let answers = seq![Ok(EditReplyModel::Saved)] + edit_answers(events);
            let (after, action) = edit_run(at, answers);
            &&& edit_runs(at, answers)
            &&& after.entity() == Some(inferred)
            &&& action == if changed {
                EditActionModel::CalculateSuccessors(
                    SuccessorsRequestModel {
                        entity_id: inferred.id,
                        change_set_id: change_set_id,
                        edit_session_id: edit_session_id,
                    },
                )
            } else {
                EditActionModel::Finish(Ok(()))
            }
        }),
{
    let at = update_start(entity, change_set_id, edit_session_id);
    let first: Seq<EntityResult<EditReplyModel>> = seq![Ok(EditReplyModel::Saved)];
    law_edit_run_in_parts(at, first, edit_answers(events));
    one_answer(at, first[0]);
    law_edit_infers(at.0, infer_start(entity, change_set_id, edit_session_id), events);
}

/// A created entity is inferred. Its successors are calculated exactly where the inference
/// changed it, and the edit keeps the entity that came out.
pub proof fn law_create_spreads_a_change(
    name: Seq<char>,
    description: Seq<char>,
    object_type: Seq<char>,
    node_id: Seq<char>,
    change_set_id: Seq<char>,
    edit_session_id: Seq<char>,
    workspace_id: Seq<char>,
    created: EntityModel,
    events: Seq<EntityResult<InferReplyModel>>,
    changed: bool,
)
    requires
        infer_runs(infer_start(created, change_set_id, edit_session_id), events),
        infer_run(infer_start(created, change_set_id, edit_session_id), events).1
            == InferActionModel::Finish(Ok(changed)),
    ensures
        ({
            let inferred = infer_run(
                infer_start(created, change_set_id, edit_session_id),
                events,
            ).0.entity;
            let at = create_start(
                name,
                description,
                object_type,
                node_id,
                change_set_id,
                edit_session_id,
                workspace_id,
            );
            let answers = seq![Ok(EditReplyModel::Created(created))] + edit_answers(events);
            let (after, action) = edit_run(at, answers);
            &&& edit_runs(at, answers)
            &&& after.entity() == Some(inferred)
            &&& action == if changed {
                EditActionModel::CalculateSuccessors(
                    SuccessorsRequestModel {
                        entity_id: inferred.id,
                        change_set_id: change_set_id,
                        edit_session_id: edit_session_id,
                    },
                )
            } else {
                EditActionModel::Finish(Ok(()))
            }
        }),
{
    let at = create_start(
        name,
        description,
        object_type,
        node_id,
        change_set_id,
        edit_session_id,
        workspace_id,
    );
    let first: Seq<EntityResult<EditReplyModel>> = seq![Ok(EditReplyModel::Created(created))];
    law_edit_run_in_parts(at, first, edit_answers(events));
    one_answer(at, first[0]);
    law_edit_infers(at.0, infer_start(created, change_set_id, edit_session_id), events);
}

/// A failure ends an edit with that failure, and leaves the entity as it stands.
pub proof fn law_edit_fails_at_once(model: EditModel, error: EntityError)
    requires
        model.expects(Err(error)),
    ensures
        edit_next(model, Err(error)).1 == EditActionModel::Finish(Err(error)),
        edit_next(model, Err(error)).0 == (EditModel {
            change_set_id: model.change_set_id,
            edit_session_id: model.edit_session_id,
            phase: EditPhaseModel::Finished(
                match model.phase {
                    EditPhaseModel::Saving(entity) => Some(entity),
                    EditPhaseModel::Inferring(task) => Some(task.entity),
                    _ => None,
                },
            ),
        }),
{
}

/// An edit that ended well has its entity.
pub proof fn law_edit_ends_with_an_entity(model: EditModel, event: EntityResult<EditReplyModel>)
    requires
        model.expects(event),
        edit_next(model, event).1 == EditActionModel::Finish(Ok(())),
    ensures
        edit_next(model, event).0.phase matches EditPhaseModel::Finished(entity)
            && entity is Some,
{
}

/// An update that was just begun waits for the answer to what it asked for, or for a failure
/// of the service that it asked.
pub proof fn law_update_waits_at_first(
    entity: EntityModel,
    change_set_id: Seq<char>,
    edit_session_id: Seq<char>,
)
    ensures
        ({
            let (start, action) = update_start(entity, change_set_id, edit_session_id);
            &&& start.well_formed()
            &&& forall|reply: EditReplyModel|
                #[trigger] start.expects(Ok(reply)) <==> action.answered_by(reply)
            &&& forall|error: EntityError|
                #[trigger] start.expects(Err(error)) <==> action.fails_with(error)
        }),
{
}

/// So does the creation of an entity.
pub proof fn law_create_waits_at_first(
    name: Seq<char>,
    description: Seq<char>,
    object_type: Seq<char>,
    node_id: Seq<char>,
    change_set_id: Seq<char>,
    edit_session_id: Seq<char>,
    workspace_id: Seq<char>,
)
    ensures
        ({
            let (start, action) = create_start(
                name,
                description,
                object_type,
                node_id,
                change_set_id,
                edit_session_id,
                workspace_id,
            );
            &&& start.well_formed()
            &&& forall|reply: EditReplyModel|
                #[trigger] start.expects(Ok(reply)) <==> action.answered_by(reply)
            &&& forall|error: EntityError|
                #[trigger] start.expects(Err(error)) <==> action.fails_with(error)
        }),
{
}

/// An edit waits for the answer to what it asked for last, or for a failure of the service
/// that it asked, and for nothing else, until it is finished.
pub proof fn law_edit_waits_for_the_answer(model: EditModel, event: EntityResult<EditReplyModel>)
    requires
        model.well_formed(),
        model.expects(event),
    ensures
        ({
            let (after, action) = edit_next(model, event);
            &&& after.well_formed()
            &&& after.phase is Finished <==> action is Finish
            &&& forall|reply: EditReplyModel|
                #[trigger] after.expects(Ok(reply)) <==> action.answered_by(reply)
            &&& forall|error: EntityError|
                #[trigger] after.expects(Err(error)) <==> action.fails_with(error)
        }),
{
    match (model.phase, event) {
        (EditPhaseModel::Inferring(task), Ok(EditReplyModel::Infer(reply))) => {
            law_infer_waits_for_the_answer(task, Ok(reply));
        },
        (EditPhaseModel::Creating, Ok(EditReplyModel::Created(entity))) => {
            law_infer_waits_at_first(entity, model.change_set_id, model.edit_session_id);
        },
        (EditPhaseModel::Saving(entity), Ok(EditReplyModel::Saved)) => {
            law_infer_waits_at_first(entity, model.change_set_id, model.edit_session_id);
        },
        _ => {},
    }
}

/// An edit is known by its change set, its edit session and what it waits for, with the
/// entity at hand.
pub proof fn law_an_edit_is_known_by_what_it_holds(task: EditTask)
    ensures
        task@.change_set_id == task.change_set_id@,
        task@.edit_session_id == task.edit_session_id@,
        match task.phase {
            EditPhase::Creating => task@.phase is Creating,
            EditPhase::Saving(entity) => task@.phase == EditPhaseModel::Saving(entity@),
            EditPhase::Inferring(inner) => task@.phase == EditPhaseModel::Inferring(inner@),
            EditPhase::Spreading(entity) => task@.phase == EditPhaseModel::Spreading(entity@),
            EditPhase::Finished(Some(entity)) => task@.phase == EditPhaseModel::Finished(
                Some(entity@),
            ),
            EditPhase::Finished(None) => task@.phase == EditPhaseModel::Finished(None),
        },
{
}

/// What an edit asks for, and the answers to it, are known whole.
pub proof fn law_what_passes_in_an_edit_is_known_whole(
    action: EditAction,
    reply: EditReply,
    error: EntityError,
)
    ensures
        match action {
            EditAction::Create(query) => action@ == EditActionModel::Create(query@),
            EditAction::Save(query) => action@ == EditActionModel::Save(query@),
            EditAction::Infer(inner) => action@ == EditActionModel::Infer(inner@),
            EditAction::CalculateSuccessors(request) => action@
                == EditActionModel::CalculateSuccessors(request@),
            EditAction::Finish(result) => action@ == EditActionModel::Finish(result),
        },
        match reply {
            EditReply::Created(entity) => reply@ == EditReplyModel::Created(entity@),
            EditReply::Saved => reply@ is Saved,
            EditReply::Infer(inner) => reply@ == EditReplyModel::Infer(inner@),
            EditReply::Spread => reply@ is Spread,
        },
        edit_event(Ok(reply)) == Ok::<EditReplyModel, EntityError>(reply@),
        edit_event(Err(error)) == Err::<EditReplyModel, EntityError>(error),
{
}

/// What an edit asks for is answered, and fails, as the service does that is asked.
pub proof fn law_an_edit_is_answered_as_it_asked(
    action: EditActionModel,
    reply: EditReplyModel,
    error: EntityError,
)
    ensures
        action is Create ==> {
            &&& action.answered_by(reply) <==> reply is Created
            &&& action.fails_with(error) <==> (error is TokioPg || error is SerdeJson)
        },
        action is Save ==> {
            &&& action.answered_by(reply) <==> reply is Saved
            &&& action.fails_with(error) <==> (error is TokioPg || error is SerdeJson)
        },
        action matches EditActionModel::Infer(asked) ==> {
            &&& action.answered_by(reply) <==> (reply matches EditReplyModel::Infer(inner)
                && asked.answered_by(inner))
            &&& action.fails_with(error) <==> asked.fails_with(error)
        },
        action is CalculateSuccessors ==> {
            &&& action.answered_by(reply) <==> reply is Spread
            &&& !action.fails_with(error)
        },
        action is Finish ==> !action.answered_by(reply) && !action.fails_with(error),
{
}

/// The entity of an edit is the one that is saved, inferred or spread, and in the end the one
/// that the edit ended with. While it is created there is none.
pub proof fn law_an_edit_has_the_entity_at_hand(
    model: EditModel,
    entity: EntityModel,
    ended: Option<EntityModel>,
    task: InferModel,
)
    ensures
        model.phase is Creating ==> model.entity() is None,
        model.phase == EditPhaseModel::Saving(entity) ==> model.entity() == Some(entity),
        model.phase == EditPhaseModel::Inferring(task) ==> model.entity() == Some(task.entity),
        model.phase == EditPhaseModel::Spreading(entity) ==> model.entity() == Some(entity),
        model.phase == EditPhaseModel::Finished(ended) ==> model.entity() == ended,
{
}

/// An entity is created under its name and its description, of its type, for its node, in
/// its change set, edit session and workspace. Its name describes it where nothing else does.
pub proof fn law_an_entity_is_created_as_it_was_asked_for(
    name: Seq<char>,
    description: Option<String>,
    object_type: Seq<char>,
    node_id: Seq<char>,
    change_set_id: Seq<char>,
    edit_session_id: Seq<char>,
    workspace_id: Seq<char>,
)
    ensures
        ({
            let text = match description {
                Some(given) => given@,
                None => name,
            };
            &&& described(name, description) == text
            &&& create_start(
                name,
                text,
                object_type,
                node_id,
                change_set_id,
                edit_session_id,
                workspace_id,
            ) == (
                EditModel {
                    change_set_id: change_set_id,
                    edit_session_id: edit_session_id,
                    phase: EditPhaseModel::Creating,
                },
                EditActionModel::Create(
                    QueryModel {
                        statement: Statement::EntityCreate,
                        params: seq![
                            ParamModel::Text(name),
                            ParamModel::Text(text),
                            ParamModel::Text(object_type),
                            ParamModel::Text(node_id),
                            ParamModel::Text(change_set_id),
                            ParamModel::Text(edit_session_id),
                            ParamModel::Text(workspace_id),
                        ],
                    },
                ),
            )
        }),
{
    let text = match description {
        Some(given) => given@,
        None => name,
    };
    assert(create_query(
        name,
        text,
        object_type,
        node_id,
        change_set_id,
        edit_session_id,
        workspace_id,
    ).params =~= seq![
        ParamModel::Text(name),
        ParamModel::Text(text),
        ParamModel::Text(object_type),
        ParamModel::Text(node_id),
        ParamModel::Text(change_set_id),
        ParamModel::Text(edit_session_id),
        ParamModel::Text(workspace_id),
    ]);
}

/// An update begins by saving the entity as it was handed in, with nothing about it altered.
pub proof fn law_an_update_saves_the_entity_whole(
    entity: EntityModel,
    change_set_id: Seq<char>,
    edit_session_id: Seq<char>,
)
    ensures
        update_start(entity, change_set_id, edit_session_id) == (
            EditModel {
                change_set_id: change_set_id,
                edit_session_id: edit_session_id,
                phase: EditPhaseModel::Saving(entity),
            },
            EditActionModel::Save(
                QueryModel {
                    statement: Statement::EntitySaveForEditSession,
                    params: seq![
                        ParamModel::Entity(entity),
                        ParamModel::Text(change_set_id),
                        ParamModel::Text(edit_session_id),
                    ],
                },
            ),
        ),
{
}

/// Whether an answer says that an entity was written, by the edit that waits for it.
pub open spec fn writes(model: EditModel, written: EditReplyModel, entity: EntityModel) -> bool {
    match model.phase {
        EditPhaseModel::Creating => written == EditReplyModel::Created(entity),
        EditPhaseModel::Saving(saved) => written is Saved && saved == entity,
        _ => false,
    }
}

/// Once its entity is written, an edit does what the inference of that very entity does. It
/// asks for exactly what the inference asks for, and hands on its failure. Where the
/// inference changed the entity, the successors of that entity are calculated; where it did
/// not, the edit is done.
pub proof fn law_an_edit_does_what_its_inference_does(
    model: EditModel,
    request: EditActionModel,
    written: EditReplyModel,
    entity: EntityModel,
    events: Seq<EntityResult<InferReplyModel>>,
)
    requires
        writes(model, written, entity),
        infer_runs(infer_start(entity, model.change_set_id, model.edit_session_id), events),
    ensures
        ({
            let (task, action) = infer_run(
                infer_start(entity, model.change_set_id, model.edit_session_id),
                events,
            );
            let answers = seq![Ok(written)] + edit_answers(events);
            let (after, asked) = edit_run((model, request), answers);
            &&& edit_runs((model, request), answers)
            &&& after.change_set_id == model.change_set_id
            &&& after.edit_session_id == model.edit_session_id
            &&& match action {
                InferActionModel::Finish(Ok(true)) => {
                    &&& after.phase == EditPhaseModel::Spreading(task.entity)
                    &&& asked == EditActionModel::CalculateSuccessors(
                        SuccessorsRequestModel {
                            entity_id: task.entity.id,
                            change_set_id: model.change_set_id,
                            edit_session_id: model.edit_session_id,
                        },
                    )
                },
                InferActionModel::Finish(Ok(false)) => {
                    &&& after.phase == EditPhaseModel::Finished(Some(task.entity))
                    &&& asked == EditActionModel::Finish(Ok(()))
                },
                InferActionModel::Finish(Err(error)) => {
                    &&& after.phase == EditPhaseModel::Finished(Some(task.entity))
                    &&& asked == EditActionModel::Finish(Err(error))
                },
                _ => {
                    &&& after.phase == EditPhaseModel::Inferring(task)
                    &&& asked == EditActionModel::Infer(action)
                },
            }
        }),
{
    let at = (model, request);
    let first: Seq<EntityResult<EditReplyModel>> = seq![Ok(written)];
    law_edit_run_in_parts(at, first, edit_answers(events));
    one_answer(at, first[0]);
    law_edit_infers(
        model,
        infer_start(entity, model.change_set_id, model.edit_session_id),
        events,
    );
}

/// An edit whose inference ends well ends well itself, and gives back the entity that the
/// inference came to, with nothing about it altered. Where the inference changed the entity,
/// it ends once its successors are being calculated.
pub proof fn law_an_edit_gives_back_what_was_inferred(
    model: EditModel,
    request: EditActionModel,
    written: EditReplyModel,
    entity: EntityModel,
    events: Seq<EntityResult<InferReplyModel>>,
    changed: bool,
)
    requires
        writes(model, written, entity),
        infer_runs(infer_start(entity, model.change_set_id, model.edit_session_id), events),
        infer_run(
            infer_start(entity, model.change_set_id, model.edit_session_id),
            events,
        ).1 == InferActionModel::Finish(Ok(changed)),
    ensures
        ({
            let inferred = infer_run(
                infer_start(entity, model.change_set_id, model.edit_session_id),
                events,
            ).0.entity;
            let answers = seq![Ok(written)] + edit_answers(events);
            let whole = if changed {
                answers.push(Ok(EditReplyModel::Spread))
            } else {
                answers
            };
            let (after, asked) = edit_run((model, request), whole);
            &&& edit_runs((model, request), whole)
            &&& asked == EditActionModel::Finish(Ok(()))
            &&& after.phase == EditPhaseModel::Finished(Some(inferred))
            &&& after.entity() == Some(inferred)
        }),
{
    law_an_edit_does_what_its_inference_does(model, request, written, entity, events);
    let answers = seq![Ok(written)] + edit_answers(events);
    assert(answers.push(Ok(EditReplyModel::Spread)).drop_last() =~= answers);
}

/// An entity that was written is inferred from all the entities that configure it and then
/// all that it is a component of, in the order in which they were loaded.
pub proof fn law_an_edited_entity_is_inferred_from_its_context(
    model: EditModel,
    request: EditActionModel,
    written: EditReplyModel,
    entity: EntityModel,
    configures: Seq<EdgeModel>,
    configuring: Seq<EntityModel>,
    components: Seq<EdgeModel>,
    containing: Seq<EntityModel>,
)
    requires
        writes(model, written, entity),
        configuring.len() == configures.len(),
        containing.len() == components.len(),
    ensures
        edit_run(
            (model, request),
            seq![Ok(written)] + edit_answers(
                gathered(configures, configuring, components, containing),
            ),
        ).1 == EditActionModel::Infer(
            InferActionModel::InferProperties(
                InferPropertiesRequestModel {
                    entity_type: entity.entity_type,
                    entity: entity,
                    context: configuring + containing,
                },
            ),
        ),
{
    let events = gathered(configures, configuring, components, containing);
    let answered = events.push(Ok(InferReplyModel::Response(entity)));
    let at = infer_start(entity, model.change_set_id, model.edit_session_id);
    law_infer_expects_what_it_gathers(
        entity,
        model.change_set_id,
        model.edit_session_id,
        configures,
        configuring,
        components,
        containing,
        entity,
    );
    infer_runs_before(at, answered);
    assert(answered.drop_last() =~= events);
    law_infer_context(
        entity,
        model.change_set_id,
        model.edit_session_id,
        configures,
        configuring,
        components,
        containing,
    );
    law_an_edit_does_what_its_inference_does(model, request, written, entity, events);
}

/// Beginning to create an entity hands over what it is to be created with. Its name describes
/// it where no description is given.
pub proof fn law_creating_hands_over_what_was_given(
    name: String,
    description: Option<String>,
    node_id: &str,
    object_type: &str,
    workspace_id: &str,
    change_set_id: &str,
    edit_session_id: &str,
    started: (EditTask, EditAction),
)
    requires
        call_ensures(
            Entity::new,
            (
                name,
                description,
                node_id,
                object_type,
                workspace_id,
                change_set_id,
                edit_session_id,
            ),
            started,
        ),
    ensures
        started.0.phase is Creating,
        started.0.change_set_id@ == change_set_id@,
        started.0.edit_session_id@ == edit_session_id@,
        started.1 matches EditAction::Create(query) && {
            &&& query.statement == Statement::EntityCreate
            &&& query.params@.len() == 7
            &&& query.params@[0] matches Param::Text(text) && text@ == name@
            &&& query.params@[1] matches Param::Text(text) && text@ == match description {
                Some(given) => given@,
                None => name@,
            }
            &&& query.params@[2] matches Param::Text(text) && text@ == object_type@
            &&& query.params@[3] matches Param::Text(text) && text@ == node_id@
            &&& query.params@[4] matches Param::Text(text) && text@ == change_set_id@
            &&& query.params@[5] matches Param::Text(text) && text@ == edit_session_id@
            &&& query.params@[6] matches Param::Text(text) && text@ == workspace_id@
        },
{
    law_an_entity_is_created_as_it_was_asked_for(
        name@,
        description,
        object_type@,
        node_id@,
        change_set_id@,
        edit_session_id@,
        workspace_id@,
    );
    assert((started.0@, started.1@) == create_start(
        name@,
        described(name@, description),
        object_type@,
        node_id@,
        change_set_id@,
        edit_session_id@,
        workspace_id@,
    ));
    if let EditAction::Create(query) = started.1 {
        assert(query@.params.len() == query.params@.len());
        assert forall|i: int| 0 <= i < 7 implies query@.params[i] == #[trigger] query.params@[i]@ by {
        }
        assert(query.params@[0]@ is Text && query.params@[1]@ is Text && query.params@[2]@ is Text);
        assert(query.params@[3]@ is Text && query.params@[4]@ is Text && query.params@[5]@ is Text);
        assert(query.params@[6]@ is Text);
    }
}

/// Beginning to update an entity saves that very entity, with nothing about it altered.
pub proof fn law_updating_saves_the_entity(
    entity: Entity,
    change_set_id: &str,
    edit_session_id: &str,
    started: (EditTask, EditAction),
)
    requires
        call_ensures(
            Entity::update_entity_for_edit_session,
            (entity, change_set_id, edit_session_id),
            started,
        ),
    ensures
        started.0.phase matches EditPhase::Saving(kept) && kept@ == entity@,
        started.0.change_set_id@ == change_set_id@,
        started.0.edit_session_id@ == edit_session_id@,
        started.1 matches EditAction::Save(query) && {
            &&& query.statement == Statement::EntitySaveForEditSession
            &&& query.params@.len() == 3
            &&& query.params@[0] matches Param::Entity(saved) && saved@ == entity@
            &&& query.params@[1] matches Param::Text(text) && text@ == change_set_id@
            &&& query.params@[2] matches Param::Text(text) && text@ == edit_session_id@
        },
{
    assert((started.0@, started.1@) == update_start(entity@, change_set_id@, edit_session_id@));
    if let EditAction::Save(query) = started.1 {
        assert(query@.params.len() == query.params@.len());
        assert(query@.params[0] == query.params@[0]@);
        assert(query@.params[1] == query.params@[1]@);
        assert(query@.params[2] == query.params@[2]@);
    }
}

/// Once the successors are being calculated, the edit is done, and what it gives back is the
/// entity that it spread, with nothing about it altered.
pub proof fn law_ending_an_edit_gives_back_its_entity(
    task: EditTask,
    entity: Entity,
    ended: (EditTask, EditAction),
    given: Option<Entity>,
)
    requires
        task.phase == EditPhase::Spreading(entity),
        call_ensures(EditTask::next, (task, Ok(EditReply::Spread)), ended),
        call_ensures(EditTask::into_entity, (ended.0,), given),
    ensures
        ended.1 == EditAction::Finish(Ok(())),
        ended.0.phase is Finished,
        given matches Some(back) && back@ == entity@,
{
    assert((ended.0@, ended.1@) == edit_next(task@, Ok(EditReplyModel::Spread)));
    assert(ended.0@.entity() == Some(entity@));
}

/// An edit gives back the entity at hand, unaltered, at any time.
pub proof fn law_taking_the_entity_gives_the_one_at_hand(task: EditTask, given: Option<Entity>)
    requires
        call_ensures(EditTask::into_entity, (task,), given),
    ensures
        match task.phase {
            EditPhase::Creating => given is None,
            EditPhase::Saving(entity) => given matches Some(back) && back@ == entity@,
            EditPhase::Inferring(inner) => given matches Some(back) && back@ == inner.entity@,
            EditPhase::Spreading(entity) => given matches Some(back) && back@ == entity@,
            EditPhase::Finished(Some(entity)) => given matches Some(back) && back@ == entity@,
            EditPhase::Finished(None) => given is None,
        },
{
}

/// While it infers, an edit that takes an answer asks for what its inference asks for on that
/// answer, or ends with its failure.
pub proof fn law_taking_an_answer_for_the_inference(
    task: EditTask,
    inner: InferTask,
    reply: InferReply,
    next: (EditTask, EditAction),
    inferred: (InferTask, InferAction),
)
    requires
        task.phase == EditPhase::Inferring(inner),
        call_ensures(EditTask::next, (task, Ok(EditReply::Infer(reply))), next),
        call_ensures(InferTask::next, (inner, Ok(reply)), inferred),
    ensures
        next.0@.change_set_id == task@.change_set_id,
        next.0@.edit_session_id == task@.edit_session_id,
        next.0@.entity() == Some(inferred.0.entity@),
        match inferred.1 {
            InferAction::Finish(Ok(true)) => next.1
                matches EditAction::CalculateSuccessors(request) && {
                &&& request.entity_id@ == inferred.0.entity.id@
                &&& request.change_set_id@ == task.change_set_id@
                &&& request.edit_session_id@ == task.edit_session_id@
            },
            InferAction::Finish(Ok(false)) => next.1 == EditAction::Finish(Ok(())),
            InferAction::Finish(Err(error)) => next.1 == EditAction::Finish(Err(error)),
            _ => next.1 matches EditAction::Infer(asked) && asked@ == inferred.1@,
        },
{
    assert((next.0@, next.1@) == edit_next(task@, Ok(EditReplyModel::Infer(reply@))));
    assert((inferred.0@, inferred.1@) == infer_next(inner@, Ok(reply@)));
}

} // verus!
