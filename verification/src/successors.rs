//! Spreading a change to the entities that depend on the changed one.
//!
//! The entities that a changed one configures are inferred anew; those of them that this
//! changed are in turn followed to what they configure. [`SuccessorsTask`] decides what is
//! asked for next; whoever runs it carries the request out.
use crate::edge::{
    edge_models, head_ids, heads, Direction, Edge, EdgeKind, EdgeModel, EdgeQuery, EdgeQueryModel,
};
use crate::entity::{
    edit_session_query, law_a_lookup_names_the_entity_and_where_it_is_seen, Entity, EntityModel,
};
use crate::error::{EntityError, EntityResult};
use crate::inference::{
    gathered, infer_next, infer_run, infer_runs, infer_runs_before, infer_start,
    law_infer_context, law_infer_expects_what_it_gathers, law_infer_run_ends_with_its_result,
    law_infer_waits_at_first, law_infer_waits_for_the_answer, InferAction, InferActionModel,
    InferModel, InferPropertiesRequestModel, InferReply, InferReplyModel, InferTask,
};
use crate::qualification::{QualificationCheck, QualificationCheckModel};
use crate::query::{ParamModel, Query, QueryModel, Statement};
use crate::text::{texts, waiting, waiting_behind};
use vstd::multiset::Multiset;
use vstd::prelude::*;

verus! {

/// Asks for the properties of an entity's successors to be calculated.
#[derive(Debug)]
pub struct SuccessorsRequest {
    pub entity_id: String,
    pub change_set_id: String,
    pub edit_session_id: String,
}

/// What a calculation is waiting for. The ids of the entities at hand that are still to be
/// loaded stand in a list that is worked off from its end.
#[derive(Debug)]
pub enum SuccessorsPhase {
    Connecting,
    LoadingEdges,
    Loading { ids: Vec<String> },
    Inferring { task: InferTask, ids: Vec<String> },
    Checking { entity_id: String, ids: Vec<String> },
    Committing,
    Finished,
}

/// A calculation on the way. The ids of the changed entities whose successors are still to
/// be looked at stand in `to_check`, the next one last.
#[derive(Debug)]
pub struct SuccessorsTask {
    pub change_set_id: String,
    pub edit_session_id: String,
    pub to_check: Vec<String>,
    pub phase: SuccessorsPhase,
}

/// The answer to what a calculation asked for.
#[derive(Debug)]
pub enum SuccessorsReply {
    Began,
    Edges(Vec<Edge>),
    Entity(Entity),
    Infer(InferReply),
    Checked,
    Committed,
}

/// What a calculation asks for next, or how it ended. To connect is to get a connection and
/// begin a transaction on it.
#[derive(Debug)]
pub enum SuccessorsAction {
    Connect,
    LoadEdges(EdgeQuery),
    LoadEntity(Query),
    Infer(InferAction),
    CheckQualifications(QualificationCheck),
    CommitTransaction,
    Finish(EntityResult<()>),
}

#[verifier::ext_equal]
pub struct SuccessorsRequestModel {
    pub entity_id: Seq<char>,
    pub change_set_id: Seq<char>,
    pub edit_session_id: Seq<char>,
}

#[verifier::ext_equal]
pub enum SuccessorsPhaseModel {
    Connecting,
    LoadingEdges,
    Loading { pending: Seq<Seq<char>> },
    Inferring { task: InferModel, pending: Seq<Seq<char>> },
    Checking { entity_id: Seq<char>, pending: Seq<Seq<char>> },
    Committing,
    Finished,
}

#[verifier::ext_equal]
pub struct SuccessorsModel {
    pub change_set_id: Seq<char>,
    pub edit_session_id: Seq<char>,
    pub to_check: Seq<Seq<char>>,
    pub phase: SuccessorsPhaseModel,
}

pub enum SuccessorsReplyModel {
    Began,
    Edges(Seq<EdgeModel>),
    Entity(EntityModel),
    Infer(InferReplyModel),
    Checked,
    Committed,
}

pub enum SuccessorsActionModel {
    Connect,
    LoadEdges(EdgeQueryModel),
    LoadEntity(QueryModel),
    Infer(InferActionModel),
    CheckQualifications(QualificationCheckModel),
    CommitTransaction,
    Finish(EntityResult<()>),
}

impl View for SuccessorsRequest {
    type V = SuccessorsRequestModel;

    open spec fn view(&self) -> SuccessorsRequestModel {
        SuccessorsRequestModel {
            entity_id: self.entity_id@,
            change_set_id: self.change_set_id@,
            edit_session_id: self.edit_session_id@,
        }
    }
}

impl View for SuccessorsPhase {
    type V = SuccessorsPhaseModel;

    open spec fn view(&self) -> SuccessorsPhaseModel {
        match self {
            SuccessorsPhase::Connecting => SuccessorsPhaseModel::Connecting,
            SuccessorsPhase::LoadingEdges => SuccessorsPhaseModel::LoadingEdges,
            SuccessorsPhase::Loading { ids } => SuccessorsPhaseModel::Loading {
                pending: waiting(ids@),
            },
            SuccessorsPhase::Inferring { task, ids } => SuccessorsPhaseModel::Inferring {
                task: task@,
                pending: waiting(ids@),
            },
            SuccessorsPhase::Checking { entity_id, ids } => SuccessorsPhaseModel::Checking {
                entity_id: entity_id@,
                pending: waiting(ids@),
            },
            SuccessorsPhase::Committing => SuccessorsPhaseModel::Committing,
            SuccessorsPhase::Finished => SuccessorsPhaseModel::Finished,
        }
    }
}

impl View for SuccessorsTask {
    type V = SuccessorsModel;

    open spec fn view(&self) -> SuccessorsModel {
        SuccessorsModel {
            change_set_id: self.change_set_id@,
            edit_session_id: self.edit_session_id@,
            to_check: texts(self.to_check@),
            phase: self.phase@,
        }
    }
}

impl View for SuccessorsReply {
    type V = SuccessorsReplyModel;

    open spec fn view(&self) -> SuccessorsReplyModel {
        match self {
            SuccessorsReply::Began => SuccessorsReplyModel::Began,
            SuccessorsReply::Edges(edges) => SuccessorsReplyModel::Edges(edge_models(edges@)),
            SuccessorsReply::Entity(entity) => SuccessorsReplyModel::Entity(entity@),
            SuccessorsReply::Infer(reply) => SuccessorsReplyModel::Infer(reply@),
            SuccessorsReply::Checked => SuccessorsReplyModel::Checked,
            SuccessorsReply::Committed => SuccessorsReplyModel::Committed,
        }
    }
}

impl View for SuccessorsAction {
    type V = SuccessorsActionModel;

    open spec fn view(&self) -> SuccessorsActionModel {
        match self {
            SuccessorsAction::Connect => SuccessorsActionModel::Connect,
            SuccessorsAction::LoadEdges(query) => SuccessorsActionModel::LoadEdges(query@),
            SuccessorsAction::LoadEntity(query) => SuccessorsActionModel::LoadEntity(query@),
            SuccessorsAction::Infer(action) => SuccessorsActionModel::Infer(action@),
            SuccessorsAction::CheckQualifications(check) =>
                SuccessorsActionModel::CheckQualifications(check@),
            SuccessorsAction::CommitTransaction => SuccessorsActionModel::CommitTransaction,
            SuccessorsAction::Finish(result) => SuccessorsActionModel::Finish(*result),
        }
    }
}

/// The model of an answer, or of the failure that came in its place.
pub open spec fn successors_event(reply: EntityResult<SuccessorsReply>) -> EntityResult<
    SuccessorsReplyModel,
> {
    match reply {
        Ok(inner) => Ok(inner@),
        Err(error) => Err(error),
    }
}

impl SuccessorsModel {
    /// The calculation in another phase.
    pub open spec fn to(self, phase: SuccessorsPhaseModel) -> SuccessorsModel {
        SuccessorsModel { phase: phase, ..self }
    }

    /// The calculation with one more entity whose successors are to be looked at next.
    pub open spec fn checking(self, entity_id: Seq<char>) -> SuccessorsModel {
        SuccessorsModel { to_check: self.to_check.push(entity_id), ..self }
    }

    /// Whether the calculation can go on with an answer, or with a failure: one of the
    /// service that it waits for. Having qualifications checked does not fail.
    pub open spec fn expects(self, event: EntityResult<SuccessorsReplyModel>) -> bool {
        match (self.phase, event) {
            (SuccessorsPhaseModel::Connecting, Ok(SuccessorsReplyModel::Began)) => true,
            (SuccessorsPhaseModel::Connecting, Err(error)) => error.of_connection(),
            (SuccessorsPhaseModel::LoadingEdges, Ok(SuccessorsReplyModel::Edges(_))) => true,
            (SuccessorsPhaseModel::LoadingEdges, Err(error)) => error is Edge,
            (SuccessorsPhaseModel::Loading { pending }, Ok(SuccessorsReplyModel::Entity(_))) =>
                pending.len() > 0,
            (SuccessorsPhaseModel::Loading { .. }, Err(error)) => error.of_query(),
            (
                SuccessorsPhaseModel::Inferring { task, .. },
                Ok(SuccessorsReplyModel::Infer(reply)),
            ) => task.expects(Ok(reply)),
            (SuccessorsPhaseModel::Inferring { task, .. }, Err(error)) => task.expects(Err(error)),
            (SuccessorsPhaseModel::Checking { .. }, Ok(SuccessorsReplyModel::Checked)) => true,
            (SuccessorsPhaseModel::Committing, Ok(SuccessorsReplyModel::Committed)) => true,
            (SuccessorsPhaseModel::Committing, Err(error)) => error is TokioPg,
            _ => false,
        }
    }

    /// A calculation that loads entities has one to load.
    pub open spec fn well_formed(self) -> bool {
        match self.phase {
            SuccessorsPhaseModel::Loading { pending } => pending.len() > 0,
            SuccessorsPhaseModel::Inferring { task, .. } => task.well_formed()
                && !(task.phase is Finished),
            _ => true,
        }
    }
}

impl SuccessorsActionModel {
    /// Whether an answer is one to what was asked for.
    pub open spec fn answered_by(self, reply: SuccessorsReplyModel) -> bool {
        match self {
            SuccessorsActionModel::Connect => reply is Began,
            SuccessorsActionModel::LoadEdges(_) => reply is Edges,
            SuccessorsActionModel::LoadEntity(_) => reply is Entity,
            SuccessorsActionModel::Infer(action) => reply matches SuccessorsReplyModel::Infer(inner)
                && action.answered_by(inner),
            SuccessorsActionModel::CheckQualifications(_) => reply is Checked,
            SuccessorsActionModel::CommitTransaction => reply is Committed,
            SuccessorsActionModel::Finish(_) => false,
        }
    }

    /// Whether a failure is one that what was asked for can have.
    pub open spec fn fails_with(self, error: EntityError) -> bool {
        match self {
            SuccessorsActionModel::Connect => error.of_connection(),
            SuccessorsActionModel::LoadEdges(_) => error is Edge,
            SuccessorsActionModel::LoadEntity(_) => error.of_query(),
            SuccessorsActionModel::Infer(action) => action.fails_with(error),
            SuccessorsActionModel::CheckQualifications(_) => false,
            SuccessorsActionModel::CommitTransaction => error is TokioPg,
            SuccessorsActionModel::Finish(_) => false,
        }
    }
}

/// A calculation begins with a connection and a transaction.
pub open spec fn successors_start(request: SuccessorsRequestModel) -> (
    SuccessorsModel,
    SuccessorsActionModel,
) {
    (
        SuccessorsModel {
            change_set_id: request.change_set_id,
            edit_session_id: request.edit_session_id,
            to_check: seq![request.entity_id],
            phase: SuccessorsPhaseModel::Connecting,
        },
        SuccessorsActionModel::Connect,
    )
}

/// The entity that was found to be changed last is followed next. Where none is left, the
/// transaction is committed.
pub open spec fn successors_follow(model: SuccessorsModel) -> (
    SuccessorsModel,
    SuccessorsActionModel,
) {
    if model.to_check.len() > 0 {
        (
            SuccessorsModel {
                to_check: model.to_check.drop_last(),
                phase: SuccessorsPhaseModel::LoadingEdges,
                ..model
            },
            SuccessorsActionModel::LoadEdges(
                EdgeQueryModel {
                    direction: Direction::DirectSuccessors,
                    kind: EdgeKind::Configures,
                    object_id: model.to_check.last(),
                },
            ),
        )
    } else {
        (
            model.to(SuccessorsPhaseModel::Committing),
            SuccessorsActionModel::CommitTransaction,
        )
    }
}

/// The entities at hand are loaded one by one.
pub open spec fn successors_visit(model: SuccessorsModel, pending: Seq<Seq<char>>) -> (
    SuccessorsModel,
    SuccessorsActionModel,
) {
    if pending.len() > 0 {
        (
            model.to(SuccessorsPhaseModel::Loading { pending: pending }),
            SuccessorsActionModel::LoadEntity(
                edit_session_query(pending[0], model.change_set_id, model.edit_session_id),
            ),
        )
    } else {
        successors_follow(model)
    }
}

/// How a calculation goes on with an inference. An entity that it changed has its
/// qualifications checked, and is followed later; one that it left alone is passed over.
pub open spec fn successors_inferred(
    model: SuccessorsModel,
    pending: Seq<Seq<char>>,
    inferred: (InferModel, InferActionModel),
) -> (SuccessorsModel, SuccessorsActionModel) {
    let (task, action) = inferred;
    match action {
        InferActionModel::Finish(Ok(true)) => (
            model.to(
                SuccessorsPhaseModel::Checking { entity_id: task.entity.id, pending: pending },
            ),
            SuccessorsActionModel::CheckQualifications(
                task.entity.qualification_check(
                    None,
                    model.change_set_id,
                    model.edit_session_id,
                ),
            ),
        ),
        InferActionModel::Finish(Ok(false)) => successors_visit(model, pending),
        InferActionModel::Finish(Err(error)) => (
            model.to(SuccessorsPhaseModel::Finished),
            SuccessorsActionModel::Finish(Err(error)),
        ),
        _ => (
            model.to(SuccessorsPhaseModel::Inferring { task: task, pending: pending }),
            SuccessorsActionModel::Infer(action),
        ),
    }
}

/// What a calculation makes of an answer that it expects.
pub open spec fn successors_next(
    model: SuccessorsModel,
    event: EntityResult<SuccessorsReplyModel>,
) -> (SuccessorsModel, SuccessorsActionModel) {
    match (model.phase, event) {
        (_, Err(error)) => (
            model.to(SuccessorsPhaseModel::Finished),
            SuccessorsActionModel::Finish(Err(error)),
        ),
        (SuccessorsPhaseModel::Connecting, Ok(SuccessorsReplyModel::Began)) => successors_follow(
            model,
        ),
        (SuccessorsPhaseModel::LoadingEdges, Ok(SuccessorsReplyModel::Edges(edges))) =>
            successors_visit(model, heads(edges)),
        (SuccessorsPhaseModel::Loading { pending }, Ok(SuccessorsReplyModel::Entity(entity))) =>
            successors_inferred(
                model,
                pending.drop_first(),
                infer_start(entity, model.change_set_id, model.edit_session_id),
            ),
        (
            SuccessorsPhaseModel::Inferring { task, pending },
            Ok(SuccessorsReplyModel::Infer(reply)),
        ) => successors_inferred(model, pending, infer_next(task, Ok(reply))),
        (
            SuccessorsPhaseModel::Checking { entity_id, pending },
            Ok(SuccessorsReplyModel::Checked),
        ) => successors_visit(model.checking(entity_id), pending),
        (SuccessorsPhaseModel::Committing, Ok(SuccessorsReplyModel::Committed)) => (
            model.to(SuccessorsPhaseModel::Finished),
            SuccessorsActionModel::Finish(Ok(())),
        ),
        _ => arbitrary(),
    }
}

impl Entity {
    /// Says what the properties of an entity's successors are to be calculated with, in
    /// the background. The caller is told that all is well, whatever becomes of it.
    pub fn calculate_properties_of_successors_for_edit_session(
        entity_id: String,
        change_set_id: String,
        edit_session_id: String,
    ) -> (started: (SuccessorsRequest, EntityResult<()>))
        ensures
            started.0@ == (SuccessorsRequestModel {
                entity_id: entity_id@,
                change_set_id: change_set_id@,
                edit_session_id: edit_session_id@,
            }),
            started.1 == Ok::<(), EntityError>(()),
    {
        (
            SuccessorsRequest {
                entity_id: entity_id,
                change_set_id: change_set_id,
                edit_session_id: edit_session_id,
            },
            Ok(()),
        )
    }

    /// Begins to calculate the properties of an entity's successors.
    pub fn task_calculate_properties_of_successors_for_edit_session(request: SuccessorsRequest) -> (started: (SuccessorsTask, SuccessorsAction))
        ensures
            (started.0@, started.1@) == successors_start(request@),
    {
        let mut to_check: Vec<String> = Vec::new();
        to_check.push(request.entity_id);
        assert(texts(to_check@) =~= seq![request.entity_id@]);
        (
            SuccessorsTask {
                change_set_id: request.change_set_id,
                edit_session_id: request.edit_session_id,
                to_check: to_check,
                phase: SuccessorsPhase::Connecting,
            },
            SuccessorsAction::Connect,
        )
    }
}

impl SuccessorsTask {
    fn to(self, phase: SuccessorsPhase) -> (task: SuccessorsTask)
        ensures
            task@ == self@.to(phase@),
    {
        SuccessorsTask {
            change_set_id: self.change_set_id,
            edit_session_id: self.edit_session_id,
            to_check: self.to_check,
            phase: phase,
        }
    }

    fn follow(self) -> (next: (SuccessorsTask, SuccessorsAction))
        ensures
            (next.0@, next.1@) == successors_follow(self@),
    {
        let ghost model = self@;
        let SuccessorsTask { change_set_id, edit_session_id, to_check, phase } = self;
        let mut to_check = to_check;
        match to_check.pop() {
            Some(entity_id) => {
                assert(texts(to_check@) =~= model.to_check.drop_last());
                let query = Edge::direct_successor_edges_by_object_id(
                    EdgeKind::Configures,
                    entity_id.as_str(),
                );
                (
                    SuccessorsTask {
                        change_set_id: change_set_id,
                        edit_session_id: edit_session_id,
                        to_check: to_check,
                        phase: SuccessorsPhase::LoadingEdges,
                    },
                    SuccessorsAction::LoadEdges(query),
                )
            },
            None => (
                SuccessorsTask {
                    change_set_id: change_set_id,
                    edit_session_id: edit_session_id,
                    to_check: to_check,
                    phase: SuccessorsPhase::Committing,
                },
                SuccessorsAction::CommitTransaction,
            ),
        }
    }

    fn visit(self, ids: Vec<String>) -> (next: (SuccessorsTask, SuccessorsAction))
        ensures
            (next.0@, next.1@) == successors_visit(self@, waiting(ids@)),
    {
        let n: usize = ids.len();
        if n > 0 {
            proof {
                waiting_behind(ids@);
            }
            let query = Entity::for_edit_session(
                ids[n - 1].as_str(),
                self.change_set_id.as_str(),
                self.edit_session_id.as_str(),
            );
            (self.to(SuccessorsPhase::Loading { ids: ids }), SuccessorsAction::LoadEntity(query))
        } else {
            self.follow()
        }
    }

    fn inferred(self, ids: Vec<String>, inferred: (InferTask, InferAction)) -> (next: (SuccessorsTask, SuccessorsAction))
        ensures
            (next.0@, next.1@) == successors_inferred(
                self@,
                waiting(ids@),
                (inferred.0@, inferred.1@),
            ),
    {
        let (task, action) = inferred;
        match action {
            InferAction::Finish(Ok(true)) => {
                let (check, _under_way) = task.entity.check_qualifications_for_edit_session(
                    None,
                    self.change_set_id.as_str(),
                    self.edit_session_id.as_str(),
                );
                (
                    self.to(SuccessorsPhase::Checking { entity_id: task.entity.id, ids: ids }),
                    SuccessorsAction::CheckQualifications(check),
                )
            },
            InferAction::Finish(Ok(false)) => self.visit(ids),
            InferAction::Finish(Err(error)) => (
                self.to(SuccessorsPhase::Finished),
                SuccessorsAction::Finish(Err(error)),
            ),
            action => (
                self.to(SuccessorsPhase::Inferring { task: task, ids: ids }),
                SuccessorsAction::Infer(action),
            ),
        }
    }

    /// Tells whether the calculation can go on with an answer, or with a failure.
    pub fn expects(&self, reply: &EntityResult<SuccessorsReply>) -> (expected: bool)
        ensures
            expected == self@.expects(successors_event(*reply)),
    {
        match (&self.phase, reply) {
            (SuccessorsPhase::Connecting, Ok(SuccessorsReply::Began)) => true,
            (SuccessorsPhase::Connecting, Err(error)) => error.is_of_connection(),
            (SuccessorsPhase::LoadingEdges, Ok(SuccessorsReply::Edges(_))) => true,
            (SuccessorsPhase::LoadingEdges, Err(EntityError::Edge(_))) => true,
            (SuccessorsPhase::Loading { ids }, Ok(SuccessorsReply::Entity(_))) => ids.len() > 0,
            (SuccessorsPhase::Loading { .. }, Err(error)) => error.is_of_query(),
            (SuccessorsPhase::Inferring { task, .. }, Ok(SuccessorsReply::Infer(reply))) =>
                task.takes(reply),
            (SuccessorsPhase::Inferring { task, .. }, Err(error)) => task.fails_with(error),
            (SuccessorsPhase::Checking { .. }, Ok(SuccessorsReply::Checked)) => true,
            (SuccessorsPhase::Committing, Ok(SuccessorsReply::Committed)) => true,
            (SuccessorsPhase::Committing, Err(EntityError::TokioPg(_))) => true,
            _ => false,
        }
    }

    /// Takes the answer to what was asked for last, and says what to do next.
    pub fn next(self, reply: EntityResult<SuccessorsReply>) -> (next: (SuccessorsTask, SuccessorsAction))
        requires
            self@.expects(successors_event(reply)),
        ensures
            (next.0@, next.1@) == successors_next(self@, successors_event(reply)),
    {
        let ghost model = self@;
        let SuccessorsTask { change_set_id, edit_session_id, to_check, phase } = self;
        let rest = SuccessorsTask {
            change_set_id,
            edit_session_id,
            to_check,
            phase: SuccessorsPhase::Finished,
        };
        let reply = match reply {
            Ok(reply) => reply,
            Err(error) => {
                return (rest, SuccessorsAction::Finish(Err(error)));
            },
        };
        match (phase, reply) {
            (SuccessorsPhase::Connecting, SuccessorsReply::Began) => rest.follow(),
            (SuccessorsPhase::LoadingEdges, SuccessorsReply::Edges(edges)) => rest.visit(
                head_ids(&edges),
            ),
            (SuccessorsPhase::Loading { ids }, SuccessorsReply::Entity(entity)) => {
                proof {
                    waiting_behind(ids@);
                }
                let mut ids = ids;
                ids.pop();
                let inferred = entity.infer_properties_for_edit_session(
                    rest.change_set_id.as_str(),
                    rest.edit_session_id.as_str(),
                );
                rest.inferred(ids, inferred)
            },
            (SuccessorsPhase::Inferring { task, ids }, SuccessorsReply::Infer(reply)) =>
                rest.inferred(ids, task.next(Ok(reply))),
            (SuccessorsPhase::Checking { entity_id, ids }, SuccessorsReply::Checked) => {
                let mut rest = rest;
                rest.to_check.push(entity_id);
                assert(texts(rest.to_check@) =~= model.to_check.push(entity_id@));
                rest.visit(ids)
            },
            // What is left is the answer to the commit.
            _ => (rest, SuccessorsAction::Finish(Ok(()))),
        }
    }
}

/// What a calculation comes to on a run of answers.
pub open spec fn successors_run(
    at: (SuccessorsModel, SuccessorsActionModel),
    events: Seq<EntityResult<SuccessorsReplyModel>>,
) -> (SuccessorsModel, SuccessorsActionModel)
    decreases events.len(),
{
    if events.len() == 0 {
        at
    } else {
        successors_next(successors_run(at, events.drop_last()).0, events.last())
    }
}

/// Each answer of a run is one that the calculation expects by then.
pub open spec fn successors_runs(
    at: (SuccessorsModel, SuccessorsActionModel),
    events: Seq<EntityResult<SuccessorsReplyModel>>,
) -> bool
    decreases events.len(),
{
    events.len() > 0 ==> {
        &&& successors_runs(at, events.drop_last())
        &&& successors_run(at, events.drop_last()).0.expects(events.last())
    }
}

/// The answers to an inference, as a calculation gets them.
pub open spec fn successors_answers(events: Seq<EntityResult<InferReplyModel>>) -> Seq<
    EntityResult<SuccessorsReplyModel>,
> {
    events.map_values(
        |event: EntityResult<InferReplyModel>|
            match event {
                Ok(reply) => Ok(SuccessorsReplyModel::Infer(reply)),
                Err(error) => Err(error),
            },
    )
}

/// A visit to a successor: the entity as it was loaded, and the answers that its inference
/// got.
pub struct Visit {
    pub loaded: EntityModel,
    pub answers: Seq<EntityResult<InferReplyModel>>,
}

impl Visit {
    /// What the inference came to.
    #[verifier::opaque]
    pub open spec fn inferred(self, change_set_id: Seq<char>, edit_session_id: Seq<char>) -> (
        InferModel,
        InferActionModel,
    ) {
        infer_run(infer_start(self.loaded, change_set_id, edit_session_id), self.answers)
    }

    /// Whether the inference changed the entity.
    #[verifier::opaque]
    pub open spec fn changed(self, change_set_id: Seq<char>, edit_session_id: Seq<char>) -> bool {
        self.inferred(change_set_id, edit_session_id).1 == InferActionModel::Finish(Ok(true))
    }

    /// Whether the inference ran to its end without a failure.
    #[verifier::opaque]
    pub open spec fn completes(self, change_set_id: Seq<char>, edit_session_id: Seq<char>) -> bool {
        &&& infer_runs(
            infer_start(self.loaded, change_set_id, edit_session_id),
            self.answers,
        )
        &&& self.inferred(change_set_id, edit_session_id).1 matches InferActionModel::Finish(Ok(_))
    }

    /// What the calculation is answered on the visit, the check of qualifications included
    /// where there is one.
    #[verifier::opaque]
    pub open spec fn events(self, change_set_id: Seq<char>, edit_session_id: Seq<char>) -> Seq<
        EntityResult<SuccessorsReplyModel>,
    > {
        let inferred = seq![Ok(SuccessorsReplyModel::Entity(self.loaded))] + successors_answers(
            self.answers,
        );
        if self.changed(change_set_id, edit_session_id) {
            inferred.push(Ok(SuccessorsReplyModel::Checked))
        } else {
            inferred
        }
    }
}

/// What the calculation is answered on a round of visits.
pub open spec fn visits_events(
    visits: Seq<Visit>,
    change_set_id: Seq<char>,
    edit_session_id: Seq<char>,
) -> Seq<EntityResult<SuccessorsReplyModel>>
    decreases visits.len(),
{
    if visits.len() == 0 {
        Seq::empty()
    } else {
        visits_events(visits.drop_last(), change_set_id, edit_session_id) + visits.last().events(
            change_set_id,
            edit_session_id,
        )
    }
}

/// The ids of the entities that a round of visits changed, in order.
pub open spec fn changed_ids(
    visits: Seq<Visit>,
    change_set_id: Seq<char>,
    edit_session_id: Seq<char>,
) -> Seq<Seq<char>>
    decreases visits.len(),
{
    if visits.len() == 0 {
        Seq::empty()
    } else {
        let front = changed_ids(visits.drop_last(), change_set_id, edit_session_id);
        if visits.last().changed(change_set_id, edit_session_id) {
            front.push(visits.last().inferred(change_set_id, edit_session_id).0.entity.id)
        } else {
            front
        }
    }
}

/// A run in two parts is one run.
pub proof fn law_successors_run_in_parts(
    at: (SuccessorsModel, SuccessorsActionModel),
    front: Seq<EntityResult<SuccessorsReplyModel>>,
    back: Seq<EntityResult<SuccessorsReplyModel>>,
)
    ensures
        successors_run(at, front + back) == successors_run(successors_run(at, front), back),
        successors_runs(at, front + back) <==> successors_runs(at, front) && successors_runs(
            successors_run(at, front),
            back,
        ),
    decreases back.len(),
{
    if back.len() == 0 {
        assert(front + back =~= front);
    } else {
        assert((front + back).drop_last() =~= front + back.drop_last());
        law_successors_run_in_parts(at, front, back.drop_last());
    }
}

proof fn one_answer(
    at: (SuccessorsModel, SuccessorsActionModel),
    event: EntityResult<SuccessorsReplyModel>,
)
    ensures
        successors_run(at, seq![event]) == successors_next(at.0, event),
        successors_runs(at, seq![event]) <==> at.0.expects(event),
{
    assert(seq![event].drop_last() =~= Seq::empty());
    assert(successors_run(at, seq![event].drop_last()) == at);
    assert(successors_runs(at, seq![event].drop_last()));
}

/// While it infers, a calculation does what the inference does, on the answers that the
/// inference expects.
pub proof fn law_successors_infers(
    model: SuccessorsModel,
    pending: Seq<Seq<char>>,
    at: (InferModel, InferActionModel),
    events: Seq<EntityResult<InferReplyModel>>,
)
    requires
        at.0.well_formed(),
        at.0.phase is Finished <==> at.1 is Finish,
        infer_runs(at, events),
    ensures
        successors_runs(successors_inferred(model, pending, at), successors_answers(events)),
        successors_run(successors_inferred(model, pending, at), successors_answers(events))
            == successors_inferred(model, pending, infer_run(at, events)),
    decreases events.len(),
{
    if events.len() > 0 {
        let front = events.drop_last();
        infer_runs_before(at, events);
        law_successors_infers(model, pending, at, front);
        law_infer_run_ends_with_its_result(at, front);
        assert(successors_answers(events).drop_last() =~= successors_answers(front));
    }
}

/// A visit loads the next entity and infers it. Where that changed the entity, its
/// qualifications are checked and it is put where it is followed next; otherwise it is
/// passed over.
pub proof fn law_successors_visit(
    model: SuccessorsModel,
    pending: Seq<Seq<char>>,
    visit: Visit,
)
    requires
        pending.len() > 0,
        visit.completes(model.change_set_id, model.edit_session_id),
    ensures
        ({
            let inferred = visit.inferred(model.change_set_id, model.edit_session_id).0.entity;
            let changed = visit.changed(model.change_set_id, model.edit_session_id);
            let asked = seq![Ok(SuccessorsReplyModel::Entity(visit.loaded))] + successors_answers(
                visit.answers,
            );
            &&& changed ==> successors_run(successors_visit(model, pending), asked).1
                == SuccessorsActionModel::CheckQualifications(
                inferred.qualification_check(None, model.change_set_id, model.edit_session_id),
            )
            &&& successors_runs(
                successors_visit(model, pending),
                visit.events(model.change_set_id, model.edit_session_id),
            )
            &&& successors_run(
                successors_visit(model, pending),
                visit.events(model.change_set_id, model.edit_session_id),
            ) == successors_visit(
                if changed {
                    model.checking(inferred.id)
                } else {
                    model
                },
                pending.drop_first(),
            )
        }),
{
    reveal(Visit::inferred);
    reveal(Visit::changed);
    reveal(Visit::completes);
    reveal(Visit::events);
    let at = successors_visit(model, pending);
    let first: Seq<EntityResult<SuccessorsReplyModel>> = seq![
        Ok(SuccessorsReplyModel::Entity(visit.loaded)),
    ];
    let start = infer_start(visit.loaded, model.change_set_id, model.edit_session_id);
    law_successors_run_in_parts(at, first, successors_answers(visit.answers));
    one_answer(at, first[0]);
    law_successors_infers(model, pending.drop_first(), start, visit.answers);
    let asked = first + successors_answers(visit.answers);
    assert(asked.push(Ok(SuccessorsReplyModel::Checked)).drop_last() =~= asked);
}

/// The calculation after a round of visits, with what they put where it is followed.
spec fn visited(model: SuccessorsModel, visits: Seq<Visit>) -> SuccessorsModel {
    SuccessorsModel {
        to_check: model.to_check + changed_ids(visits, model.change_set_id, model.edit_session_id),
        ..model
    }
}

proof fn visited_one_more(model: SuccessorsModel, visits: Seq<Visit>)
    requires
        visits.len() > 0,
    ensures
        ({
            let last = visits.last();
            let inferred = last.inferred(model.change_set_id, model.edit_session_id).0.entity;
            visited(model, visits) == if last.changed(model.change_set_id, model.edit_session_id) {
                visited(model, visits.drop_last()).checking(inferred.id)
            } else {
                visited(model, visits.drop_last())
            }
        }),
{
    let last = visits.last();
    let front = changed_ids(visits.drop_last(), model.change_set_id, model.edit_session_id);
    let id = last.inferred(model.change_set_id, model.edit_session_id).0.entity.id;
    assert((model.to_check + front).push(id) =~= model.to_check + front.push(id));
}

proof fn last_visit_run(
    model: SuccessorsModel,
    pending: Seq<Seq<char>>,
    before: SuccessorsModel,
    rest: Seq<Seq<char>>,
    events: Seq<EntityResult<SuccessorsReplyModel>>,
    visit: Visit,
)
    requires
        rest.len() > 0,
        visit.completes(before.change_set_id, before.edit_session_id),
        successors_run(successors_visit(model, pending), events) == successors_visit(before, rest),
        successors_runs(successors_visit(model, pending), events),
    ensures
        successors_runs(
            successors_visit(model, pending),
            events + visit.events(before.change_set_id, before.edit_session_id),
        ),
        ({
            let inferred = visit.inferred(before.change_set_id, before.edit_session_id).0.entity;
            successors_run(
                successors_visit(model, pending),
                events + visit.events(before.change_set_id, before.edit_session_id),
            ) == successors_visit(
                if visit.changed(before.change_set_id, before.edit_session_id) {
                    before.checking(inferred.id)
                } else {
                    before
                },
                rest.drop_first(),
            )
        }),
{
    law_successors_run_in_parts(
        successors_visit(model, pending),
        events,
        visit.events(before.change_set_id, before.edit_session_id),
    );
    law_successors_visit(before, rest, visit);
}

proof fn visits_run(model: SuccessorsModel, pending: Seq<Seq<char>>, visits: Seq<Visit>)
    requires
        visits.len() <= pending.len(),
        forall|i: int|
            0 <= i < visits.len() ==> (#[trigger] visits[i]).completes(
                model.change_set_id,
                model.edit_session_id,
            ),
    ensures
        successors_runs(
            successors_visit(model, pending),
            visits_events(visits, model.change_set_id, model.edit_session_id),
        ),
        successors_run(
            successors_visit(model, pending),
            visits_events(visits, model.change_set_id, model.edit_session_id),
        ) == successors_visit(visited(model, visits), pending.skip(visits.len() as int)),
    decreases visits.len(),
{
    let change_set = model.change_set_id;
    let session = model.edit_session_id;
    if visits.len() == 0 {
        assert(pending.skip(0) =~= pending);
        assert(visited(model, visits).to_check =~= model.to_check);
    } else {
        let front = visits.drop_last();
        let n = front.len() as int;
        assert forall|i: int| 0 <= i < front.len() implies (#[trigger] front[i]).completes(
            change_set,
            session,
        ) by {
            assert(front[i] == visits[i]);
        }
        visits_run(model, pending, front);
        assert(visits[n] == visits.last());
        last_visit_run(
            model,
            pending,
            visited(model, front),
            pending.skip(n),
            visits_events(front, change_set, session),
            visits.last(),
        );
        visited_one_more(model, visits);
        assert(pending.skip(n).drop_first() =~= pending.skip(n + 1));
    }
}

/// The successors of an entity are visited in the order of its edges. Those that were
/// changed are then still to be followed, on top of what was there before, so that the one
/// that changed last is followed next; where nothing is left to follow, the transaction is
/// committed.
pub proof fn law_successors_round(
    model: SuccessorsModel,
    edges: Seq<EdgeModel>,
    visits: Seq<Visit>,
)
    requires
        model.phase is LoadingEdges,
        visits.len() == edges.len(),
        forall|i: int|
            0 <= i < visits.len() ==> (#[trigger] visits[i]).completes(
                model.change_set_id,
                model.edit_session_id,
            ),
    ensures
        model.expects(Ok(SuccessorsReplyModel::Edges(edges))),
        successors_runs(
            successors_next(model, Ok(SuccessorsReplyModel::Edges(edges))),
            visits_events(visits, model.change_set_id, model.edit_session_id),
        ),
        successors_run(
            successors_next(model, Ok(SuccessorsReplyModel::Edges(edges))),
            visits_events(visits, model.change_set_id, model.edit_session_id),
        ) == successors_follow(
            SuccessorsModel {
                to_check: model.to_check + changed_ids(
                    visits,
                    model.change_set_id,
                    model.edit_session_id,
                ),
                ..model
            },
        ),
{
    visits_run(model, heads(edges), visits);
}

/// In a round of visits the successor at each place is loaded as the edit session sees it,
/// once those before it were visited.
pub proof fn law_successors_loads_in_order(
    model: SuccessorsModel,
    edges: Seq<EdgeModel>,
    visits: Seq<Visit>,
)
    requires
        model.phase is LoadingEdges,
        visits.len() < edges.len(),
        forall|i: int|
            0 <= i < visits.len() ==> (#[trigger] visits[i]).completes(
                model.change_set_id,
                model.edit_session_id,
            ),
    ensures
        successors_run(
            successors_next(model, Ok(SuccessorsReplyModel::Edges(edges))),
            visits_events(visits, model.change_set_id, model.edit_session_id),
        ).1 == SuccessorsActionModel::LoadEntity(
            edit_session_query(
                edges[visits.len() as int].head,
                model.change_set_id,
                model.edit_session_id,
            ),
        ),
{
    visits_run(model, heads(edges), visits);
}

/// A change that changes none of the direct successors spreads no further: the task looks
/// at these and commits.
pub proof fn law_successors_stops_where_nothing_changes(
    request: SuccessorsRequestModel,
    edges: Seq<EdgeModel>,
    visits: Seq<Visit>,
)
    requires
        visits.len() == edges.len(),
        forall|i: int|
            0 <= i < visits.len() ==> {
                &&& (#[trigger] visits[i]).completes(
                    request.change_set_id,
                    request.edit_session_id,
                )
                &&& !visits[i].changed(request.change_set_id, request.edit_session_id)
            },
    ensures
        ({
            let events = seq![
                Ok(SuccessorsReplyModel::Began),
                Ok(SuccessorsReplyModel::Edges(edges)),
            ] + visits_events(visits, request.change_set_id, request.edit_session_id);
            &&& successors_runs(successors_start(request), events)
            &&& successors_run(successors_start(request), events).1 is CommitTransaction
        }),
{
    let start = successors_start(request);
    let began = successors_next(start.0, Ok(SuccessorsReplyModel::Began));
    let two: Seq<EntityResult<SuccessorsReplyModel>> = seq![
        Ok(SuccessorsReplyModel::Began),
        Ok(SuccessorsReplyModel::Edges(edges)),
    ];
    law_successors_run_in_parts(
        start,
        two,
        visits_events(visits, request.change_set_id, request.edit_session_id),
    );
    assert(two.drop_last() =~= seq![two[0]]);
    one_answer(start, two[0]);
    assert(successors_run(start, two) == successors_next(began.0, two[1]));
    law_successors_round(began.0, edges, visits);
    none_changed(visits, request.change_set_id, request.edit_session_id);
    assert(began.0.to_check.len() == 0);
}

proof fn none_changed(visits: Seq<Visit>, change_set_id: Seq<char>, edit_session_id: Seq<char>)
    requires
        forall|i: int|
            0 <= i < visits.len() ==> !(#[trigger] visits[i]).changed(
                change_set_id,
                edit_session_id,
            ),
    ensures
        changed_ids(visits, change_set_id, edit_session_id).len() == 0,
    decreases visits.len(),
{
    if visits.len() > 0 {
        assert(!visits[visits.len() - 1].changed(change_set_id, edit_session_id));
        assert forall|i: int| 0 <= i < visits.drop_last().len() implies !(
        #[trigger] visits.drop_last()[i]).changed(change_set_id, edit_session_id) by {
            assert(visits.drop_last()[i] == visits[i]);
        }
        none_changed(visits.drop_last(), change_set_id, edit_session_id);
    }
}

/// The entity whose successors are asked for, where that is what is asked for.
pub open spec fn followed_by(action: SuccessorsActionModel) -> Multiset<Seq<char>> {
    match action {
        SuccessorsActionModel::LoadEdges(query) => Multiset::singleton(query.object_id),
        _ => Multiset::empty(),
    }
}

/// The entity that an answer makes one to be followed, where it does: one that was changed,
/// once the check of its qualifications is under way.
pub open spec fn changed_by(model: SuccessorsModel, event: EntityResult<SuccessorsReplyModel>) -> Multiset<
    Seq<char>,
> {
    match (model.phase, event) {
        (SuccessorsPhaseModel::Checking { entity_id, .. }, Ok(SuccessorsReplyModel::Checked)) =>
            Multiset::singleton(entity_id),
        _ => Multiset::empty(),
    }
}

/// The entities whose successors are asked for on a run.
pub open spec fn followed(
    at: (SuccessorsModel, SuccessorsActionModel),
    events: Seq<EntityResult<SuccessorsReplyModel>>,
) -> Multiset<Seq<char>>
    decreases events.len(),
{
    if events.len() == 0 {
        followed_by(at.1)
    } else {
        followed(at, events.drop_last()).add(followed_by(successors_run(at, events).1))
    }
}

/// The entities that were changed on a run.
pub open spec fn changed_on(
    at: (SuccessorsModel, SuccessorsActionModel),
    events: Seq<EntityResult<SuccessorsReplyModel>>,
) -> Multiset<Seq<char>>
    decreases events.len(),
{
    if events.len() == 0 {
        Multiset::empty()
    } else {
        changed_on(at, events.drop_last()).add(
            changed_by(successors_run(at, events.drop_last()).0, events.last()),
        )
    }
}

proof fn follow_balance(model: SuccessorsModel)
    ensures
        model.to_check.to_multiset() == successors_follow(model).0.to_check.to_multiset().add(
            followed_by(successors_follow(model).1),
        ),
{
    let all = model.to_check;
    if all.len() > 0 {
        assert(all =~= all.drop_last().push(all.last()));
        all.drop_last().to_multiset_ensures();
    }
    assert(model.to_check.to_multiset() =~= successors_follow(model).0.to_check.to_multiset().add(
        followed_by(successors_follow(model).1),
    ));
}

proof fn visit_balance(model: SuccessorsModel, pending: Seq<Seq<char>>)
    ensures
        model.to_check.to_multiset() == successors_visit(
            model,
            pending,
        ).0.to_check.to_multiset().add(followed_by(successors_visit(model, pending).1)),
{
    if pending.len() == 0 {
        follow_balance(model);
    } else {
        assert(model.to_check.to_multiset() =~= model.to_check.to_multiset().add(
            Multiset::empty(),
        ));
    }
}

proof fn step_balance(model: SuccessorsModel, event: EntityResult<SuccessorsReplyModel>)
    requires
        model.expects(event),
    ensures
        model.to_check.to_multiset().add(changed_by(model, event)) == successors_next(
            model,
            event,
        ).0.to_check.to_multiset().add(followed_by(successors_next(model, event).1)),
{
    let before = model.to_check.to_multiset();
    assert(before.add(Multiset::empty()) =~= before);
    match (model.phase, event) {
        (SuccessorsPhaseModel::Connecting, Ok(SuccessorsReplyModel::Began)) => follow_balance(
            model,
        ),
        (SuccessorsPhaseModel::LoadingEdges, Ok(SuccessorsReplyModel::Edges(edges))) => {
            visit_balance(model, heads(edges));
        },
        (
            SuccessorsPhaseModel::Inferring { task, pending },
            Ok(SuccessorsReplyModel::Infer(reply)),
        ) => {
            visit_balance(model, pending);
        },
        (
            SuccessorsPhaseModel::Checking { entity_id, pending },
            Ok(SuccessorsReplyModel::Checked),
        ) => {
            visit_balance(model.checking(entity_id), pending);
            model.to_check.to_multiset_ensures();
            assert(model.checking(entity_id).to_check.to_multiset() =~= before.add(
                Multiset::singleton(entity_id),
            ));
        },
        _ => {},
    }
}

proof fn run_balance(
    at: (SuccessorsModel, SuccessorsActionModel),
    events: Seq<EntityResult<SuccessorsReplyModel>>,
)
    requires
        at.1 is Connect,
        successors_runs(at, events),
    ensures
        followed(at, events).add(successors_run(at, events).0.to_check.to_multiset())
            == at.0.to_check.to_multiset().add(changed_on(at, events)),
    decreases events.len(),
{
    if events.len() > 0 {
        let front = events.drop_last();
        let middle = successors_run(at, front).0;
        run_balance(at, front);
        step_balance(middle, events.last());
        let after = successors_run(at, events).0.to_check.to_multiset();
        let step = followed_by(successors_run(at, events).1);
        assert(followed(at, events).add(after) =~= followed(at, front).add(after.add(step)));
        assert(followed(at, front).add(
            middle.to_check.to_multiset().add(changed_by(middle, events.last())),
        ) =~= followed(at, front).add(middle.to_check.to_multiset()).add(
            changed_by(middle, events.last()),
        ));
        assert(at.0.to_check.to_multiset().add(changed_on(at, front)).add(
            changed_by(middle, events.last()),
        ) =~= at.0.to_check.to_multiset().add(changed_on(at, events)));
    } else {
        assert(followed(at, events).add(at.0.to_check.to_multiset())
            =~= at.0.to_check.to_multiset().add(changed_on(at, events)));
    }
}

/// By the time that the transaction is committed, the successors of the first entity and of
/// every entity that was changed on the way have been asked for, as often as it was
/// changed, and those of no other.
pub proof fn law_successors_follows_every_change(
    request: SuccessorsRequestModel,
    events: Seq<EntityResult<SuccessorsReplyModel>>,
)
    requires
        successors_runs(successors_start(request), events),
        successors_run(successors_start(request), events).1 is CommitTransaction,
    ensures
        followed(successors_start(request), events) == Multiset::singleton(request.entity_id).add(
            changed_on(successors_start(request), events),
        ),
{
    let at = successors_start(request);
    run_balance(at, events);
    let front = events.drop_last();
    law_successors_commits_last(successors_run(at, front).0, events.last());
    let left = successors_run(at, events).0.to_check;
    assert(left =~= Seq::empty());
    left.to_multiset_ensures();
    assert(Seq::<Seq<char>>::empty().push(request.entity_id) =~= at.0.to_check);
    Seq::<Seq<char>>::empty().to_multiset_ensures();
    assert(at.0.to_check.to_multiset() =~= Multiset::singleton(request.entity_id));
    assert(followed(at, events).add(left.to_multiset()) =~= followed(at, events));
}

proof fn session_kept(
    at: (SuccessorsModel, SuccessorsActionModel),
    events: Seq<EntityResult<SuccessorsReplyModel>>,
)
    requires
        successors_runs(at, events),
    ensures
        successors_run(at, events).0.change_set_id == at.0.change_set_id,
        successors_run(at, events).0.edit_session_id == at.0.edit_session_id,
    decreases events.len(),
{
    if events.len() > 0 {
        session_kept(at, events.drop_last());
    }
}

proof fn changed_in_parts(
    at: (SuccessorsModel, SuccessorsActionModel),
    front: Seq<EntityResult<SuccessorsReplyModel>>,
    back: Seq<EntityResult<SuccessorsReplyModel>>,
)
    ensures
        changed_on(at, front + back) == changed_on(at, front).add(
            changed_on(successors_run(at, front), back),
        ),
    decreases back.len(),
{
    let middle = successors_run(at, front);
    if back.len() == 0 {
        assert(front + back =~= front);
        assert(changed_on(at, front).add(Multiset::empty()) =~= changed_on(at, front));
    } else {
        assert((front + back).drop_last() =~= front + back.drop_last());
        changed_in_parts(at, front, back.drop_last());
        law_successors_run_in_parts(at, front, back.drop_last());
        let last = changed_by(successors_run(middle, back.drop_last()).0, back.last());
        assert(changed_on(at, front).add(changed_on(middle, back.drop_last())).add(last)
            =~= changed_on(at, front).add(changed_on(middle, back.drop_last()).add(last)));
    }
}

proof fn nothing_changed(
    at: (SuccessorsModel, SuccessorsActionModel),
    events: Seq<EntityResult<SuccessorsReplyModel>>,
)
    requires
        forall|i: int|
            0 <= i < events.len() ==> (#[trigger] events[i]) != Ok::<_, EntityError>(
                SuccessorsReplyModel::Checked,
            ),
    ensures
        changed_on(at, events) == Multiset::<Seq<char>>::empty(),
    decreases events.len(),
{
    if events.len() > 0 {
        let front = events.drop_last();
        assert forall|i: int| 0 <= i < front.len() implies (#[trigger] front[i]) != Ok::<
            _,
            EntityError,
        >(SuccessorsReplyModel::Checked) by {
            assert(front[i] == events[i]);
        }
        nothing_changed(at, front);
        assert(events[events.len() - 1] == events.last());
        assert(changed_on(at, events) =~= Multiset::empty());
    }
}

proof fn visit_changes(model: SuccessorsModel, pending: Seq<Seq<char>>, visit: Visit)
    requires
        pending.len() > 0,
        visit.completes(model.change_set_id, model.edit_session_id),
    ensures
        changed_on(
            successors_visit(model, pending),
            visit.events(model.change_set_id, model.edit_session_id),
        ) == if visit.changed(model.change_set_id, model.edit_session_id) {
            Multiset::singleton(
                visit.inferred(model.change_set_id, model.edit_session_id).0.entity.id,
            )
        } else {
            Multiset::empty()
        },
{
    reveal(Visit::inferred);
    reveal(Visit::changed);
    reveal(Visit::completes);
    reveal(Visit::events);
    let at = successors_visit(model, pending);
    let first: Seq<EntityResult<SuccessorsReplyModel>> = seq![
        Ok(SuccessorsReplyModel::Entity(visit.loaded)),
    ];
    let start = infer_start(visit.loaded, model.change_set_id, model.edit_session_id);
    let asked = first + successors_answers(visit.answers);
    nothing_changed(at, asked);
    law_successors_run_in_parts(at, first, successors_answers(visit.answers));
    one_answer(at, first[0]);
    law_successors_infers(model, pending.drop_first(), start, visit.answers);
    let checked = asked.push(Ok(SuccessorsReplyModel::Checked));
    assert(checked.drop_last() =~= asked);
    assert(changed_on(at, checked) =~= changed_by(
        successors_run(at, asked).0,
        Ok(SuccessorsReplyModel::Checked),
    ));
}

proof fn visits_change(model: SuccessorsModel, pending: Seq<Seq<char>>, visits: Seq<Visit>)
    requires
        visits.len() <= pending.len(),
        forall|i: int|
            0 <= i < visits.len() ==> (#[trigger] visits[i]).completes(
                model.change_set_id,
                model.edit_session_id,
            ),
    ensures
        changed_on(
            successors_visit(model, pending),
            visits_events(visits, model.change_set_id, model.edit_session_id),
        ) == changed_ids(visits, model.change_set_id, model.edit_session_id).to_multiset(),
    decreases visits.len(),
{
    let change_set = model.change_set_id;
    let session = model.edit_session_id;
    Seq::<Seq<char>>::empty().to_multiset_ensures();
    if visits.len() == 0 {
        assert(changed_ids(visits, change_set, session).to_multiset() =~= Multiset::empty());
    } else {
        let at = successors_visit(model, pending);
        let front = visits.drop_last();
        let last = visits.last();
        let n = front.len() as int;
        assert forall|i: int| 0 <= i < front.len() implies (#[trigger] front[i]).completes(
            change_set,
            session,
        ) by {
            assert(front[i] == visits[i]);
        }
        assert(visits[n] == last);
        visits_change(model, pending, front);
        visits_run(model, pending, front);
        changed_in_parts(
            at,
            visits_events(front, change_set, session),
            last.events(change_set, session),
        );
        visit_changes(visited(model, front), pending.skip(n), last);
        changed_ids(front, change_set, session).to_multiset_ensures();
        assert(changed_on(at, visits_events(visits, change_set, session)) =~= changed_ids(
            visits,
            change_set,
            session,
        ).to_multiset());
    }
}

/// Wherever a run from the start has come to follow an entity, a round of visits goes on
/// from there: the run as a whole is one that the task expects, the entities that the round
/// changed are those that the run has changed beyond what it had before, and they are put
/// where they are followed next.
pub proof fn law_successors_round_on_a_run(
    request: SuccessorsRequestModel,
    before: Seq<EntityResult<SuccessorsReplyModel>>,
    edges: Seq<EdgeModel>,
    visits: Seq<Visit>,
)
    requires
        successors_runs(successors_start(request), before),
        successors_run(successors_start(request), before).0.phase is LoadingEdges,
        visits.len() == edges.len(),
        forall|i: int|
            0 <= i < visits.len() ==> (#[trigger] visits[i]).completes(
                request.change_set_id,
                request.edit_session_id,
            ),
    ensures
        ({
            let at = successors_start(request);
            let model = successors_run(at, before).0;
            let events = before.push(Ok(SuccessorsReplyModel::Edges(edges))) + visits_events(
                visits,
                request.change_set_id,
                request.edit_session_id,
            );
            let changed = changed_ids(visits, request.change_set_id, request.edit_session_id);
            &&& successors_runs(at, events)
            &&& successors_run(at, events) == successors_follow(
                SuccessorsModel { to_check: model.to_check + changed, ..model },
            )
            &&& changed_on(at, events) == changed_on(at, before).add(changed.to_multiset())
        }),
{
    let at = successors_start(request);
    let model = successors_run(at, before).0;
    let answer: EntityResult<SuccessorsReplyModel> = Ok(SuccessorsReplyModel::Edges(edges));
    let rest = visits_events(visits, request.change_set_id, request.edit_session_id);
    let start = before.push(answer);
    session_kept(at, before);
    assert(start.drop_last() =~= before);
    law_successors_round(model, edges, visits);
    law_successors_run_in_parts(at, start, rest);
    changed_in_parts(at, start, rest);
    visits_change(model, heads(edges), visits);
    assert(changed_on(at, start) =~= changed_on(at, before));
}

/// The transaction is committed only once nothing is left to follow, and the calculation
/// ends well only once it is committed.
pub proof fn law_successors_commits_last(
    model: SuccessorsModel,
    event: EntityResult<SuccessorsReplyModel>,
)
    requires
        model.expects(event),
    ensures
        ({
            let (after, action) = successors_next(model, event);
            &&& action is CommitTransaction ==> after.to_check.len() == 0 && after.phase
                is Committing
            &&& action == SuccessorsActionModel::Finish(Ok(())) ==> model.phase is Committing
                && event == Ok::<SuccessorsReplyModel, EntityError>(
                SuccessorsReplyModel::Committed,
            )
        }),
{
}

/// A failure ends the calculation with that failure: nothing is committed.
pub proof fn law_successors_fails_at_once(model: SuccessorsModel, error: EntityError)
    requires
        model.expects(Err(error)),
    ensures
        successors_next(model, Err(error)) == (
            SuccessorsModel {
                change_set_id: model.change_set_id,
                edit_session_id: model.edit_session_id,
                to_check: model.to_check,
                phase: SuccessorsPhaseModel::Finished,
            },
            SuccessorsActionModel::Finish(Err(error)),
        ),
{
}

/// A calculation that was just begun waits for the answer to what it asked for, or for a
/// failure of the service that it asked.
pub proof fn law_successors_waits_at_first(request: SuccessorsRequestModel)
    ensures
        ({
            let (start, action) = successors_start(request);
            &&& start.well_formed()
            &&& forall|reply: SuccessorsReplyModel|
                #[trigger] start.expects(Ok(reply)) <==> action.answered_by(reply)
            &&& forall|error: EntityError|
                #[trigger] start.expects(Err(error)) <==> action.fails_with(error)
        }),
{
}

/// A calculation waits for the answer to what it asked for last, or for a failure of the
/// service that it asked, and for nothing else, until it is finished.
pub proof fn law_successors_waits_for_the_answer(
    model: SuccessorsModel,
    event: EntityResult<SuccessorsReplyModel>,
)
    requires
        model.well_formed(),
        model.expects(event),
    ensures
        ({
            let (after, action) = successors_next(model, event);
            &&& after.well_formed()
            &&& after.phase is Finished <==> action is Finish
            &&& forall|reply: SuccessorsReplyModel|
                #[trigger] after.expects(Ok(reply)) <==> action.answered_by(reply)
            &&& forall|error: EntityError|
                #[trigger] after.expects(Err(error)) <==> action.fails_with(error)
        }),
{
    match (model.phase, event) {
        (
            SuccessorsPhaseModel::Inferring { task, .. },
            Ok(SuccessorsReplyModel::Infer(reply)),
        ) => {
            law_infer_waits_for_the_answer(task, Ok(reply));
        },
        (SuccessorsPhaseModel::Loading { .. }, Ok(SuccessorsReplyModel::Entity(entity))) => {
            law_infer_waits_at_first(entity, model.change_set_id, model.edit_session_id);
        },
        _ => {},
    }
}

/// A request and a calculation are known by all that they hold, with what is still to be
/// followed, in order.
pub proof fn law_a_calculation_is_known_by_what_it_holds(
    request: SuccessorsRequest,
    task: SuccessorsTask,
)
    ensures
        request@.entity_id == request.entity_id@,
        request@.change_set_id == request.change_set_id@,
        request@.edit_session_id == request.edit_session_id@,
        task@.change_set_id == task.change_set_id@,
        task@.edit_session_id == task.edit_session_id@,
        task@.to_check.len() == task.to_check@.len(),
        forall|i: int|
            0 <= i < task.to_check@.len() ==> #[trigger] task@.to_check[i] == task.to_check@[i]@,
        task@.phase == task.phase@,
{
}

/// What a calculation waits for is known with all that is still to be visited, in order.
pub proof fn law_a_phase_of_a_calculation_is_known_whole(phase: SuccessorsPhase)
    ensures
        match phase {
            SuccessorsPhase::Connecting => phase@ is Connecting,
            SuccessorsPhase::LoadingEdges => phase@ is LoadingEdges,
            SuccessorsPhase::Loading { ids } => {
                &&& phase@ matches SuccessorsPhaseModel::Loading { pending }
                &&& pending.len() == ids@.len()
                &&& forall|i: int|
                    0 <= i < ids@.len() ==> #[trigger] pending[i] == ids@[ids@.len() - 1 - i]@
            },
            SuccessorsPhase::Inferring { task, ids } => {
                &&& phase@ matches SuccessorsPhaseModel::Inferring { task: inner, pending }
                &&& inner == task@
                &&& pending.len() == ids@.len()
                &&& forall|i: int|
                    0 <= i < ids@.len() ==> #[trigger] pending[i] == ids@[ids@.len() - 1 - i]@
            },
            SuccessorsPhase::Checking { entity_id, ids } => {
                &&& phase@ matches SuccessorsPhaseModel::Checking { entity_id: id, pending }
                &&& id == entity_id@
                &&& pending.len() == ids@.len()
                &&& forall|i: int|
                    0 <= i < ids@.len() ==> #[trigger] pending[i] == ids@[ids@.len() - 1 - i]@
            },
            SuccessorsPhase::Committing => phase@ is Committing,
            SuccessorsPhase::Finished => phase@ is Finished,
        },
{
}

/// What a calculation asks for, and the answers to it, are known whole.
pub proof fn law_what_passes_in_a_calculation_is_known_whole(
    action: SuccessorsAction,
    reply: SuccessorsReply,
    error: EntityError,
)
    ensures
        match action {
            SuccessorsAction::Connect => action@ is Connect,
            SuccessorsAction::LoadEdges(query) => action@ == SuccessorsActionModel::LoadEdges(
                query@,
            ),
            SuccessorsAction::LoadEntity(query) => action@ == SuccessorsActionModel::LoadEntity(
                query@,
            ),
            SuccessorsAction::Infer(inner) => action@ == SuccessorsActionModel::Infer(inner@),
            SuccessorsAction::CheckQualifications(check) => action@
                == SuccessorsActionModel::CheckQualifications(check@),
            SuccessorsAction::CommitTransaction => action@ is CommitTransaction,
            SuccessorsAction::Finish(result) => action@ == SuccessorsActionModel::Finish(result),
        },
        match reply {
            SuccessorsReply::Began => reply@ is Began,
            SuccessorsReply::Edges(edges) => {
                &&& reply@ matches SuccessorsReplyModel::Edges(models)
                &&& models.len() == edges@.len()
                &&& forall|i: int| 0 <= i < edges@.len() ==> #[trigger] models[i] == edges@[i]@
            },
            SuccessorsReply::Entity(entity) => reply@ == SuccessorsReplyModel::Entity(entity@),
            SuccessorsReply::Infer(inner) => reply@ == SuccessorsReplyModel::Infer(inner@),
            SuccessorsReply::Checked => reply@ is Checked,
            SuccessorsReply::Committed => reply@ is Committed,
        },
        successors_event(Ok(reply)) == Ok::<SuccessorsReplyModel, EntityError>(reply@),
        successors_event(Err(error)) == Err::<SuccessorsReplyModel, EntityError>(error),
{
}

/// What a calculation asks for is answered, and fails, as the service does that is asked.
pub proof fn law_a_calculation_is_answered_as_it_asked(
    action: SuccessorsActionModel,
    reply: SuccessorsReplyModel,
    error: EntityError,
)
    ensures
        action is Connect ==> {
            &&& action.answered_by(reply) <==> reply is Began
            &&& action.fails_with(error) <==> (error is Deadpool || error is TokioPg)
        },
        action is LoadEdges ==> {
            &&& action.answered_by(reply) <==> reply is Edges
            &&& action.fails_with(error) <==> error is Edge
        },
        action is LoadEntity ==> {
            &&& action.answered_by(reply) <==> reply is Entity
            &&& action.fails_with(error) <==> (error is TokioPg || error is SerdeJson)
        },
        action matches SuccessorsActionModel::Infer(asked) ==> {
            &&& action.answered_by(reply) <==> (reply matches SuccessorsReplyModel::Infer(inner)
                && asked.answered_by(inner))
            &&& action.fails_with(error) <==> asked.fails_with(error)
        },
        action is CheckQualifications ==> {
            &&& action.answered_by(reply) <==> reply is Checked
            &&& !action.fails_with(error)
        },
        action is CommitTransaction ==> {
            &&& action.answered_by(reply) <==> reply is Committed
            &&& action.fails_with(error) <==> error is TokioPg
        },
        action is Finish ==> !action.answered_by(reply) && !action.fails_with(error),
{
}

/// A calculation begins with the changed entity as the one to follow, in its change set and
/// edit session, and ends well with its commit.
pub proof fn law_a_calculation_begins_with_the_changed_entity(
    request: SuccessorsRequestModel,
    model: SuccessorsModel,
)
    ensures
        successors_start(request) == (
            SuccessorsModel {
                change_set_id: request.change_set_id,
                edit_session_id: request.edit_session_id,
                to_check: seq![request.entity_id],
                phase: SuccessorsPhaseModel::Connecting,
            },
            SuccessorsActionModel::Connect,
        ),
        model.phase is Committing ==> successors_next(
            model,
            Ok(SuccessorsReplyModel::Committed),
        ) == (
            SuccessorsModel {
                change_set_id: model.change_set_id,
                edit_session_id: model.edit_session_id,
                to_check: model.to_check,
                phase: SuccessorsPhaseModel::Finished,
            },
            SuccessorsActionModel::Finish(Ok(())),
        ),
{
}

/// Between visits a calculation goes on as follows. Of the successors that are left to
/// visit, the first is loaded as the edit session sees it. Where none is left, the entity
/// that was found to be changed last is followed along the edges to what it configures.
/// Where nothing is left to follow either, the transaction is committed.
///
/// This is so once the transaction was begun, with nothing to visit; once the edges of an
/// entity are there, with what they lead to; once an inference left its entity alone; and
/// once a changed entity is having its qualifications checked, which is then to be followed
/// too.
pub proof fn law_a_calculation_goes_on(
    model: SuccessorsModel,
    event: EntityResult<SuccessorsReplyModel>,
    to_check: Seq<Seq<char>>,
    left: Seq<Seq<char>>,
)
    requires
        match (model.phase, event) {
            (SuccessorsPhaseModel::Connecting, Ok(SuccessorsReplyModel::Began)) => {
                &&& to_check == model.to_check
                &&& left.len() == 0
            },
            (SuccessorsPhaseModel::LoadingEdges, Ok(SuccessorsReplyModel::Edges(edges))) => {
                &&& to_check == model.to_check
                &&& left.len() == edges.len()
                &&& forall|i: int| 0 <= i < edges.len() ==> #[trigger] left[i] == edges[i].head
            },
            (
                SuccessorsPhaseModel::Inferring { task, pending },
                Ok(SuccessorsReplyModel::Infer(reply)),
            ) => {
                &&& task.expects(Ok(reply))
                &&& infer_next(task, Ok(reply)).1 == InferActionModel::Finish(Ok(false))
                &&& to_check == model.to_check
                &&& left == pending
            },
            (
                SuccessorsPhaseModel::Checking { entity_id, pending },
                Ok(SuccessorsReplyModel::Checked),
            ) => {
                &&& to_check == model.to_check.push(entity_id)
                &&& left == pending
            },
            _ => false,
        },
    ensures
        model.expects(event),
        left.len() > 0 ==> successors_next(model, event) == (
            SuccessorsModel {
                change_set_id: model.change_set_id,
                edit_session_id: model.edit_session_id,
                to_check: to_check,
                phase: SuccessorsPhaseModel::Loading { pending: left },
            },
            SuccessorsActionModel::LoadEntity(
                QueryModel {
                    statement: Statement::EntityForEditSession,
                    params: seq![
                        ParamModel::Text(left[0]),
                        ParamModel::Text(model.change_set_id),
                        ParamModel::Text(model.edit_session_id),
                    ],
                },
            ),
        ),
        left.len() == 0 && to_check.len() > 0 ==> successors_next(model, event) == (
            SuccessorsModel {
                change_set_id: model.change_set_id,
                edit_session_id: model.edit_session_id,
                to_check: to_check.drop_last(),
                phase: SuccessorsPhaseModel::LoadingEdges,
            },
            SuccessorsActionModel::LoadEdges(
                EdgeQueryModel {
                    direction: Direction::DirectSuccessors,
                    kind: EdgeKind::Configures,
                    object_id: to_check.last(),
                },
            ),
        ),
        left.len() == 0 && to_check.len() == 0 ==> successors_next(model, event) == (
            SuccessorsModel {
                change_set_id: model.change_set_id,
                edit_session_id: model.edit_session_id,
                to_check: to_check,
                phase: SuccessorsPhaseModel::Committing,
            },
            SuccessorsActionModel::CommitTransaction,
        ),
{
    if let Ok(SuccessorsReplyModel::Edges(edges)) = event {
        if model.phase is LoadingEdges {
            assert(heads(edges) =~= left);
        }
    }
    law_a_lookup_names_the_entity_and_where_it_is_seen(
        left[0],
        model.change_set_id,
        model.edit_session_id,
    );
}

/// On a visit the calculation does what the inference of the loaded entity does. It asks for
/// exactly what the inference asks for, and hands on its failure. An entity that the
/// inference changed has its qualifications checked, as the inference left it, for no system
/// in particular, in the change set and edit session of the calculation and in its own
/// workspace. What else is to be visited or followed stays as it was.
pub proof fn law_a_visit_does_what_its_inference_does(
    model: SuccessorsModel,
    request: SuccessorsActionModel,
    pending: Seq<Seq<char>>,
    entity: EntityModel,
    events: Seq<EntityResult<InferReplyModel>>,
)
    requires
        model.phase == (SuccessorsPhaseModel::Loading { pending: pending }),
        pending.len() > 0,
        infer_runs(infer_start(entity, model.change_set_id, model.edit_session_id), events),
    ensures
        ({
            let (task, action) = infer_run(
                infer_start(entity, model.change_set_id, model.edit_session_id),
                events,
            );
            let answers = seq![Ok(SuccessorsReplyModel::Entity(entity))] + successors_answers(
                events,
            );
            let (after, asked) = successors_run((model, request), answers);
            &&& successors_runs((model, request), answers)
            &&& after.change_set_id == model.change_set_id
            &&& after.edit_session_id == model.edit_session_id
            &&& match action {
                InferActionModel::Finish(Ok(true)) => {
                    &&& after.to_check == model.to_check
                    &&& after.phase == (SuccessorsPhaseModel::Checking {
                        entity_id: task.entity.id,
                        pending: pending.drop_first(),
                    })
                    &&& asked == SuccessorsActionModel::CheckQualifications(
                        QualificationCheckModel {
                            entity: task.entity,
                            system_id: None,
                            change_set_id: model.change_set_id,
                            edit_session_id: model.edit_session_id,
                            workspace_id: task.entity.si_storable.workspace_id,
                        },
                    )
                },
                InferActionModel::Finish(Ok(false)) => {
                    &&& pending.len() > 1 ==> asked == SuccessorsActionModel::LoadEntity(
                        QueryModel {
                            statement: Statement::EntityForEditSession,
                            params: seq![
                                ParamModel::Text(pending[1]),
                                ParamModel::Text(model.change_set_id),
                                ParamModel::Text(model.edit_session_id),
                            ],
                        },
                    )
                    &&& pending.len() == 1 && model.to_check.len() > 0 ==> asked
                        == SuccessorsActionModel::LoadEdges(
                        EdgeQueryModel {
                            direction: Direction::DirectSuccessors,
                            kind: EdgeKind::Configures,
                            object_id: model.to_check.last(),
                        },
                    )
                    &&& pending.len() == 1 && model.to_check.len() == 0 ==> asked
                        is CommitTransaction
                },
                InferActionModel::Finish(Err(error)) => {
                    &&& after.phase is Finished
                    &&& asked == SuccessorsActionModel::Finish(Err(error))
                },
                _ => {
                    &&& after.to_check == model.to_check
                    &&& after.phase == (SuccessorsPhaseModel::Inferring {
                        task: task,
                        pending: pending.drop_first(),
                    })
                    &&& asked == SuccessorsActionModel::Infer(action)
                },
            }
        }),
{
    let at = (model, request);
    let first: Seq<EntityResult<SuccessorsReplyModel>> = seq![
        Ok(SuccessorsReplyModel::Entity(entity)),
    ];
    law_successors_run_in_parts(at, first, successors_answers(events));
    one_answer(at, first[0]);
    law_successors_infers(
        model,
        pending.drop_first(),
        infer_start(entity, model.change_set_id, model.edit_session_id),
        events,
    );
    law_a_lookup_names_the_entity_and_where_it_is_seen(
        pending[1],
        model.change_set_id,
        model.edit_session_id,
    );
}

/// A successor is inferred from all the entities that configure it and then all that it is a
/// component of, in the order in which they were loaded: a changed entity that configures it
/// reaches the inference.
pub proof fn law_a_successor_is_inferred_from_its_context(
    model: SuccessorsModel,
    request: SuccessorsActionModel,
    pending: Seq<Seq<char>>,
    entity: EntityModel,
    configures: Seq<EdgeModel>,
    configuring: Seq<EntityModel>,
    components: Seq<EdgeModel>,
    containing: Seq<EntityModel>,
)
    requires
        model.phase == (SuccessorsPhaseModel::Loading { pending: pending }),
        pending.len() > 0,
        configuring.len() == configures.len(),
        containing.len() == components.len(),
    ensures
        successors_run(
            (model, request),
            seq![Ok(SuccessorsReplyModel::Entity(entity))] + successors_answers(
                gathered(configures, configuring, components, containing),
            ),
        ).1 == SuccessorsActionModel::Infer(
            InferActionModel::InferProperties(
                InferPropertiesRequestModel {
                    entity_type: entity.entity_type,
                    entity: entity,
                    context: configuring + containing,
                },
            ),
        ),
{
    let events = gathered(configures, configuring, components, containing);
    let answered = events.push(Ok(InferReplyModel::Response(entity)));
    let at = infer_start(entity, model.change_set_id, model.edit_session_id);
    law_infer_expects_what_it_gathers(
        entity,
        model.change_set_id,
        model.edit_session_id,
        configures,
        configuring,
        components,
        containing,
        entity,
    );
    infer_runs_before(at, answered);
    assert(answered.drop_last() =~= events);
    law_infer_context(
        entity,
        model.change_set_id,
        model.edit_session_id,
        configures,
        configuring,
        components,
        containing,
    );
    law_a_visit_does_what_its_inference_does(model, request, pending, entity, events);
}

/// Having the successors of an entity calculated hands over just what was given, and the
/// caller is told that all is well. A calculation that was begun has that entity to follow.
pub proof fn law_calculating_begins_with_what_was_given(
    entity_id: String,
    change_set_id: String,
    edit_session_id: String,
    started: (SuccessorsRequest, EntityResult<()>),
    begun: (SuccessorsTask, SuccessorsAction),
)
    requires
        call_ensures(
            Entity::calculate_properties_of_successors_for_edit_session,
            (entity_id, change_set_id, edit_session_id),
            started,
        ),
        call_ensures(
            Entity::task_calculate_properties_of_successors_for_edit_session,
            (started.0,),
            begun,
        ),
    ensures
        started.1 == Ok::<(), EntityError>(()),
        started.0.entity_id@ == entity_id@,
        started.0.change_set_id@ == change_set_id@,
        started.0.edit_session_id@ == edit_session_id@,
        begun.0.change_set_id@ == change_set_id@,
        begun.0.edit_session_id@ == edit_session_id@,
        begun.0.to_check@.len() == 1,
        begun.0.to_check@[0]@ == entity_id@,
        begun.1 is Connect,
{
    assert((begun.0@, begun.1@) == successors_start(started.0@));
    assert(begun.0@.to_check == seq![entity_id@]);
    assert(begun.0@.to_check.len() == begun.0.to_check@.len());
    assert(begun.0@.to_check[0] == begun.0.to_check@[0]@);
}

/// While it infers, a calculation that takes an answer asks for exactly what its inference
/// asks for on that answer, or ends with its failure. An entity that the inference changed
/// has its qualifications checked as the inference left it, for no system in particular.
pub proof fn law_taking_an_answer_for_the_inference(
    task: SuccessorsTask,
    inner: InferTask,
    ids: Vec<String>,
    reply: InferReply,
    next: (SuccessorsTask, SuccessorsAction),
    inferred: (InferTask, InferAction),
)
    requires
        task.phase == (SuccessorsPhase::Inferring { task: inner, ids: ids }),
        call_ensures(SuccessorsTask::next, (task, Ok(SuccessorsReply::Infer(reply))), next),
        call_ensures(InferTask::next, (inner, Ok(reply)), inferred),
    ensures
        next.0@.change_set_id == task@.change_set_id,
        next.0@.edit_session_id == task@.edit_session_id,
        match inferred.1 {
            InferAction::Finish(Ok(true)) => next.1
                matches SuccessorsAction::CheckQualifications(check) && {
                &&& check.entity@ == inferred.0.entity@
                &&& check.system_id is None
                &&& check.change_set_id@ == task.change_set_id@
                &&& check.edit_session_id@ == task.edit_session_id@
                &&& check.workspace_id@ == inferred.0.entity.si_storable.workspace_id@
                &&& next.0@.phase == (SuccessorsPhaseModel::Checking {
                    entity_id: inferred.0.entity.id@,
                    pending: waiting(ids@),
                })
            },
            InferAction::Finish(Ok(false)) => !(next.1 is CheckQualifications || next.1
                is Infer || next.1 is Finish),
            InferAction::Finish(Err(error)) => next.1 == SuccessorsAction::Finish(Err(error)),
            _ => {
                &&& next.1 matches SuccessorsAction::Infer(asked) && asked@ == inferred.1@
                &&& next.0@.phase == (SuccessorsPhaseModel::Inferring {
                    task: inferred.0@,
                    pending: waiting(ids@),
                })
            },
        },
{
    assert((next.0@, next.1@) == successors_next(
        task@,
        Ok(SuccessorsReplyModel::Infer(reply@)),
    ));
    assert((inferred.0@, inferred.1@) == infer_next(inner@, Ok(reply@)));
    if let SuccessorsAction::CheckQualifications(check) = next.1 {
        assert(next.1@ == SuccessorsActionModel::CheckQualifications(check@));
    }
}

/// A successor that was loaded is what the inference begins with, in the change set and the
/// edit session of the calculation.
pub proof fn law_taking_a_successor_begins_its_inference(
    task: SuccessorsTask,
    ids: Vec<String>,
    entity: Entity,
    change_set_id: &str,
    edit_session_id: &str,
    next: (SuccessorsTask, SuccessorsAction),
    begun: (InferTask, InferAction),
)
    requires
        task.phase == (SuccessorsPhase::Loading { ids: ids }),
        ids@.len() > 0,
        change_set_id@ == task.change_set_id@,
        edit_session_id@ == task.edit_session_id@,
        call_ensures(SuccessorsTask::next, (task, Ok(SuccessorsReply::Entity(entity))), next),
        call_ensures(
            Entity::infer_properties_for_edit_session,
            (entity, change_set_id, edit_session_id),
            begun,
        ),
    ensures
        next.1 matches SuccessorsAction::Infer(asked) && asked@ == begun.1@,
        next.0@.phase == (SuccessorsPhaseModel::Inferring {
            task: begun.0@,
            pending: waiting(ids@).drop_first(),
        }),
        next.0@.to_check == task@.to_check,
{
    assert((next.0@, next.1@) == successors_next(
        task@,
        Ok(SuccessorsReplyModel::Entity(entity@)),
    ));
    assert((begun.0@, begun.1@) == infer_start(
        entity@,
        task@.change_set_id,
        task@.edit_session_id,
    ));
}

} // verus!
