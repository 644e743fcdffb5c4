//! Inferring the properties of an entity from those of the entities around it.
//!
//! The inference needs the edges that lead to the entity, the entities that these come
//! from, and the service that infers. [`InferTask`] decides what is asked for next and
//! what becomes of the answer; whoever runs it carries the request out.
use crate::edge::{
    edge_models, tail_ids, tails, Direction, Edge, EdgeKind, EdgeModel, EdgeQuery, EdgeQueryModel,
};
use crate::entity::{edit_session_query, entity_models, save_query, Entity, EntityModel};
use crate::error::{EntityError, EntityResult};
use crate::query::{Param, ParamModel, Query, QueryModel, Statement};
use crate::text::{waiting, waiting_behind};
use vstd::prelude::*;

verus! {

/// An entity that another one is inferred from.
#[derive(Debug)]
pub struct InferPropertiesPredecessor {
    pub entity: Entity,
}

/// Asks for the properties of an entity to be inferred, in the context of others.
#[derive(Debug)]
pub struct InferPropertiesRequest {
    pub entity_type: String,
    pub entity: Entity,
    pub context: Vec<Entity>,
}

/// The entity with the properties that were inferred.
#[derive(Debug)]
pub struct InferPropertiesResponse {
    pub entity: Entity,
}

#[verifier::ext_equal]
pub struct InferPropertiesRequestModel {
    pub entity_type: Seq<char>,
    pub entity: EntityModel,
    pub context: Seq<EntityModel>,
}

impl View for InferPropertiesRequest {
    type V = InferPropertiesRequestModel;

    open spec fn view(&self) -> InferPropertiesRequestModel {
        InferPropertiesRequestModel {
            entity_type: self.entity_type@,
            entity: self.entity@,
            context: entity_models(self.context@),
        }
    }
}

/// What an inference is waiting for: the edges of one kind, the entities that these come
/// from, the answer of the service, or the save of what it inferred. The ids of the
/// entities that are still to be loaded stand in a list that is worked off from its end.
#[derive(Debug)]
pub enum InferPhase {
    LoadingEdges { kind: EdgeKind, context: Vec<Entity> },
    Loading { kind: EdgeKind, ids: Vec<String>, context: Vec<Entity> },
    Inferring,
    Saving,
    Finished,
}

/// An inference on the way.
#[derive(Debug)]
pub struct InferTask {
    pub entity: Entity,
    pub change_set_id: String,
    pub edit_session_id: String,
    pub phase: InferPhase,
}

/// The answer to what an inference asked for.
#[derive(Debug)]
pub enum InferReply {
    Edges(Vec<Edge>),
    Entity(Entity),
    Response(InferPropertiesResponse),
    Saved,
}

/// What an inference asks for next, or its result: whether the entity changed.
#[derive(Debug)]
pub enum InferAction {
    LoadEdges(EdgeQuery),
    LoadEntity(Query),
    InferProperties(InferPropertiesRequest),
    Save(Query),
    Finish(EntityResult<bool>),
}

#[verifier::ext_equal]
pub enum InferPhaseModel {
    LoadingEdges { kind: EdgeKind, context: Seq<EntityModel> },
    Loading { kind: EdgeKind, pending: Seq<Seq<char>>, context: Seq<EntityModel> },
    Inferring,
    Saving,
    Finished,
}

#[verifier::ext_equal]
pub struct InferModel {
    pub entity: EntityModel,
    pub change_set_id: Seq<char>,
    pub edit_session_id: Seq<char>,
    pub phase: InferPhaseModel,
}

pub enum InferReplyModel {
    Edges(Seq<EdgeModel>),
    Entity(EntityModel),
    Response(EntityModel),
    Saved,
}

pub enum InferActionModel {
    LoadEdges(EdgeQueryModel),
    LoadEntity(QueryModel),
    InferProperties(InferPropertiesRequestModel),
    Save(QueryModel),
    Finish(EntityResult<bool>),
}

impl View for InferPhase {
    type V = InferPhaseModel;

    open spec fn view(&self) -> InferPhaseModel {
        match self {
            InferPhase::LoadingEdges { kind, context } => InferPhaseModel::LoadingEdges {
                kind: *kind,
                context: entity_models(context@),
            },
            InferPhase::Loading { kind, ids, context } => InferPhaseModel::Loading {
                kind: *kind,
                pending: waiting(ids@),
                context: entity_models(context@),
            },
            InferPhase::Inferring => InferPhaseModel::Inferring,
            InferPhase::Saving => InferPhaseModel::Saving,
            InferPhase::Finished => InferPhaseModel::Finished,
        }
    }
}

impl View for InferTask {
    type V = InferModel;

    open spec fn view(&self) -> InferModel {
        InferModel {
            entity: self.entity@,
            change_set_id: self.change_set_id@,
            edit_session_id: self.edit_session_id@,
            phase: self.phase@,
        }
    }
}

impl View for InferReply {
    type V = InferReplyModel;

    open spec fn view(&self) -> InferReplyModel {
        match self {
            InferReply::Edges(edges) => InferReplyModel::Edges(edge_models(edges@)),
            InferReply::Entity(entity) => InferReplyModel::Entity(entity@),
            InferReply::Response(response) => InferReplyModel::Response(response.entity@),
            InferReply::Saved => InferReplyModel::Saved,
        }
    }
}

impl View for InferAction {
    type V = InferActionModel;

    open spec fn view(&self) -> InferActionModel {
        match self {
            InferAction::LoadEdges(query) => InferActionModel::LoadEdges(query@),
            InferAction::LoadEntity(query) => InferActionModel::LoadEntity(query@),
            InferAction::InferProperties(request) => InferActionModel::InferProperties(request@),
            InferAction::Save(query) => InferActionModel::Save(query@),
            InferAction::Finish(result) => InferActionModel::Finish(*result),
        }
    }
}

/// The model of an answer, or of the failure that came in its place.
pub open spec fn infer_event(reply: EntityResult<InferReply>) -> EntityResult<InferReplyModel> {
    match reply {
        Ok(inner) => Ok(inner@),
        Err(error) => Err(error),
    }
}

impl InferModel {
    /// The inference in another phase.
    pub open spec fn to(self, phase: InferPhaseModel) -> InferModel {
        InferModel { phase: phase, ..self }
    }

    /// Whether the inference can go on with an answer, or with a failure: one of the
    /// service that it waits for.
    pub open spec fn expects(self, event: EntityResult<InferReplyModel>) -> bool {
        match (self.phase, event) {
            (InferPhaseModel::LoadingEdges { .. }, Ok(InferReplyModel::Edges(_))) => true,
            (InferPhaseModel::LoadingEdges { .. }, Err(error)) => error is Edge,
            (InferPhaseModel::Loading { pending, .. }, Ok(InferReplyModel::Entity(_))) =>
                pending.len() > 0,
            (InferPhaseModel::Loading { .. }, Err(error)) => error.of_query(),
            (InferPhaseModel::Inferring, Ok(InferReplyModel::Response(_))) => true,
            (InferPhaseModel::Inferring, Err(error)) => error is Veritech,
            (InferPhaseModel::Saving, Ok(InferReplyModel::Saved)) => true,
            (InferPhaseModel::Saving, Err(error)) => error.of_query(),
            _ => false,
        }
    }

    /// An inference that loads entities has one to load.
    pub open spec fn well_formed(self) -> bool {
        match self.phase {
            InferPhaseModel::Loading { pending, .. } => pending.len() > 0,
            _ => true,
        }
    }
}

impl InferActionModel {
    /// Whether an answer is one to what was asked for.
    pub open spec fn answered_by(self, reply: InferReplyModel) -> bool {
        match self {
            InferActionModel::LoadEdges(_) => reply is Edges,
            InferActionModel::LoadEntity(_) => reply is Entity,
            InferActionModel::InferProperties(_) => reply is Response,
            InferActionModel::Save(_) => reply is Saved,
            InferActionModel::Finish(_) => false,
        }
    }

    /// Whether a failure is one that what was asked for can have.
    pub open spec fn fails_with(self, error: EntityError) -> bool {
        match self {
            InferActionModel::LoadEdges(_) => error is Edge,
            InferActionModel::LoadEntity(_) => error.of_query(),
            InferActionModel::InferProperties(_) => error is Veritech,
            InferActionModel::Save(_) => error.of_query(),
            InferActionModel::Finish(_) => false,
        }
    }
}

/// The edges of one kind that lead to the entity are asked for.
pub open spec fn infer_edges(model: InferModel, kind: EdgeKind, context: Seq<EntityModel>) -> (
    InferModel,
    InferActionModel,
) {
    (
        model.to(InferPhaseModel::LoadingEdges { kind: kind, context: context }),
        InferActionModel::LoadEdges(
            EdgeQueryModel {
                direction: Direction::DirectPredecessors,
                kind: kind,
                object_id: model.entity.id,
            },
        ),
    )
}

/// An inference begins with the edges from what configures the entity.
pub open spec fn infer_start(
    entity: EntityModel,
    change_set_id: Seq<char>,
    edit_session_id: Seq<char>,
) -> (InferModel, InferActionModel) {
    infer_edges(
        InferModel {
            entity: entity,
            change_set_id: change_set_id,
            edit_session_id: edit_session_id,
            phase: InferPhaseModel::Inferring,
        },
        EdgeKind::Configures,
        Seq::empty(),
    )
}

/// The entities that the edges come from are loaded one by one. Those that configure the
/// entity are followed by the edges from what it is a component of; with those that it is
/// a component of, all is there that the inference is asked for with.
pub open spec fn infer_gather(
    model: InferModel,
    kind: EdgeKind,
    pending: Seq<Seq<char>>,
    context: Seq<EntityModel>,
) -> (InferModel, InferActionModel) {
    if pending.len() > 0 {
        (
            model.to(
                InferPhaseModel::Loading { kind: kind, pending: pending, context: context },
            ),
            InferActionModel::LoadEntity(
                edit_session_query(pending[0], model.change_set_id, model.edit_session_id),
            ),
        )
    } else {
        match kind {
            EdgeKind::Configures => infer_edges(model, EdgeKind::Component, context),
            EdgeKind::Component => (
                model.to(InferPhaseModel::Inferring),
                InferActionModel::InferProperties(
                    InferPropertiesRequestModel {
                        entity_type: model.entity.entity_type,
                        entity: model.entity,
                        context: context,
                    },
                ),
            ),
        }
    }
}

/// An entity that is the same as before is left alone. Another one takes its place and
/// is saved.
pub open spec fn infer_answered(model: InferModel, inferred: EntityModel) -> (InferModel, InferActionModel) {
    if model.entity.same(inferred) {
        (model.to(InferPhaseModel::Finished), InferActionModel::Finish(Ok(false)))
    } else {
        (
            InferModel { entity: inferred, phase: InferPhaseModel::Saving, ..model },
            InferActionModel::Save(
                save_query(inferred, model.change_set_id, model.edit_session_id),
            ),
        )
    }
}

/// What an inference makes of an answer that it expects.
pub open spec fn infer_next(model: InferModel, event: EntityResult<InferReplyModel>) -> (
    InferModel,
    InferActionModel,
) {
    match event {
        Err(error) => (model.to(InferPhaseModel::Finished), InferActionModel::Finish(Err(error))),
        Ok(reply) => match (model.phase, reply) {
            (InferPhaseModel::LoadingEdges { kind, context }, InferReplyModel::Edges(edges)) =>
                infer_gather(model, kind, tails(edges), context),
            (
                InferPhaseModel::Loading { kind, pending, context },
                InferReplyModel::Entity(entity),
            ) => infer_gather(model, kind, pending.drop_first(), context.push(entity)),
            (InferPhaseModel::Inferring, InferReplyModel::Response(inferred)) => infer_answered(
                model,
                inferred,
            ),
            (InferPhaseModel::Saving, InferReplyModel::Saved) => (
                model.to(InferPhaseModel::Finished),
                InferActionModel::Finish(Ok(true)),
            ),
            _ => arbitrary(),
        },
    }
}

fn push_entity(context: Vec<Entity>, entity: Entity) -> (extended: Vec<Entity>)
    ensures
        entity_models(extended@) == entity_models(context@).push(entity@),
{
    let mut extended = context;
    extended.push(entity);
    assert(entity_models(extended@) =~= entity_models(context@).push(entity@));
    extended
}

impl Entity {
    /// Begins to infer the properties of the entity in an edit session.
    pub fn infer_properties_for_edit_session(self, change_set_id: &str, edit_session_id: &str) -> (started: (InferTask, InferAction))
        ensures
            (started.0@, started.1@) == infer_start(self@, change_set_id@, edit_session_id@),
    {
        let context: Vec<Entity> = Vec::new();
        assert(entity_models(context@) =~= Seq::empty());
        InferTask {
            entity: self,
            change_set_id: change_set_id.to_string(),
            edit_session_id: edit_session_id.to_string(),
            phase: InferPhase::Inferring,
        }.edges(EdgeKind::Configures, context)
    }
}

impl InferTask {
    fn to(self, phase: InferPhase) -> (task: InferTask)
        ensures
            task@ == self@.to(phase@),
    {
        InferTask {
            entity: self.entity,
            change_set_id: self.change_set_id,
            edit_session_id: self.edit_session_id,
            phase: phase,
        }
    }

    fn edges(self, kind: EdgeKind, context: Vec<Entity>) -> (next: (InferTask, InferAction))
        ensures
            (next.0@, next.1@) == infer_edges(self@, kind, entity_models(context@)),
    {
        let query = Edge::direct_predecessor_edges_by_object_id(kind, self.entity.id.as_str());
        (
            self.to(InferPhase::LoadingEdges { kind: kind, context: context }),
            InferAction::LoadEdges(query),
        )
    }

    fn gather(self, kind: EdgeKind, ids: Vec<String>, context: Vec<Entity>) -> (next: (InferTask, InferAction))
        ensures
            (next.0@, next.1@) == infer_gather(
                self@,
                kind,
                waiting(ids@),
                entity_models(context@),
            ),
    {
        let n: usize = ids.len();
        if n > 0 {
            proof {
                waiting_behind(ids@);
            }
            let query = Entity::for_edit_session(
                ids[n - 1].as_str(),
                self.change_set_id.as_str(),
                self.edit_session_id.as_str(),
            );
            (
                self.to(InferPhase::Loading { kind: kind, ids: ids, context: context }),
                InferAction::LoadEntity(query),
            )
        } else {
            match kind {
                EdgeKind::Configures => self.edges(EdgeKind::Component, context),
                EdgeKind::Component => {
                    let request = InferPropertiesRequest {
                        entity_type: self.entity.entity_type.clone(),
                        entity: self.entity.clone(),
                        context: context,
                    };
                    (self.to(InferPhase::Inferring), InferAction::InferProperties(request))
                },
            }
        }
    }

    fn finish(self, result: EntityResult<bool>) -> (next: (InferTask, InferAction))
        ensures
            (next.0@, next.1@) == (
                self@.to(InferPhaseModel::Finished),
                InferActionModel::Finish(result),
            ),
    {
        (self.to(InferPhase::Finished), InferAction::Finish(result))
    }

    fn answered(self, inferred: Entity) -> (next: (InferTask, InferAction))
        ensures
            (next.0@, next.1@) == infer_answered(self@, inferred@),
    {
        if self.entity != inferred {
            let query = inferred.save_for_edit_session(
                self.change_set_id.as_str(),
                self.edit_session_id.as_str(),
            );
            (
                InferTask {
                    entity: inferred,
                    change_set_id: self.change_set_id,
                    edit_session_id: self.edit_session_id,
                    phase: InferPhase::Saving,
                },
                InferAction::Save(query),
            )
        } else {
            self.finish(Ok(false))
        }
    }

    /// Tells whether the inference can go on with a failure.
    pub fn fails_with(&self, error: &EntityError) -> (expected: bool)
        ensures
            expected == self@.expects(Err(*error)),
    {
        match (&self.phase, error) {
            (InferPhase::LoadingEdges { .. }, EntityError::Edge(_)) => true,
            (InferPhase::Loading { .. }, error) => error.is_of_query(),
            (InferPhase::Inferring, EntityError::Veritech(_)) => true,
            (InferPhase::Saving, error) => error.is_of_query(),
            _ => false,
        }
    }

    /// Tells whether the inference can go on with an answer that is no failure.
    pub fn takes(&self, reply: &InferReply) -> (expected: bool)
        ensures
            expected == self@.expects(Ok(reply@)),
    {
        match (&self.phase, reply) {
            (InferPhase::LoadingEdges { .. }, InferReply::Edges(_)) => true,
            (InferPhase::Loading { ids, .. }, InferReply::Entity(_)) => ids.len() > 0,
            (InferPhase::Inferring, InferReply::Response(_)) => true,
            (InferPhase::Saving, InferReply::Saved) => true,
            _ => false,
        }
    }

    /// Tells whether the inference can go on with an answer, or with a failure.
    pub fn expects(&self, reply: &EntityResult<InferReply>) -> (expected: bool)
        ensures
            expected == self@.expects(infer_event(*reply)),
    {
        match reply {
            Ok(reply) => self.takes(reply),
            Err(error) => self.fails_with(error),
        }
    }

    /// Takes the answer to what was asked for last, and says what to do next.
    pub fn next(self, reply: EntityResult<InferReply>) -> (next: (InferTask, InferAction))
        requires
            self@.expects(infer_event(reply)),
        ensures
            (next.0@, next.1@) == infer_next(self@, infer_event(reply)),
    {
        let InferTask { entity, change_set_id, edit_session_id, phase } = self;
        let rest = InferTask { entity, change_set_id, edit_session_id, phase: InferPhase::Finished };
        match reply {
            Err(error) => rest.finish(Err(error)),
            Ok(reply) => match (phase, reply) {
                (InferPhase::LoadingEdges { kind, context }, InferReply::Edges(edges)) =>
                    rest.gather(kind, tail_ids(&edges), context),
                (InferPhase::Loading { kind, ids, context }, InferReply::Entity(entity)) => {
                    proof {
                        waiting_behind(ids@);
                    }
                    let mut ids = ids;
                    ids.pop();
                    rest.gather(kind, ids, push_entity(context, entity))
                },
                (InferPhase::Inferring, InferReply::Response(response)) =>
                    rest.answered(response.entity),
                // What is left is the answer to a save.
                _ => rest.finish(Ok(true)),
            },
        }
    }
}

/// What an inference comes to on a run of answers.
pub open spec fn infer_run(
    at: (InferModel, InferActionModel),
    events: Seq<EntityResult<InferReplyModel>>,
) -> (InferModel, InferActionModel)
    decreases events.len(),
{
    if events.len() == 0 {
        at
    } else {
        infer_next(infer_run(at, events.drop_last()).0, events.last())
    }
}

/// Each answer of a run is one that the inference expects by then.
pub open spec fn infer_runs(
    at: (InferModel, InferActionModel),
    events: Seq<EntityResult<InferReplyModel>>,
) -> bool {
    forall|i: int|
        0 <= i < events.len() ==> infer_run(at, events.take(i)).0.expects(#[trigger] events[i])
}

/// The answers by which a list of entities is loaded.
pub open spec fn loaded(entities: Seq<EntityModel>) -> Seq<EntityResult<InferReplyModel>> {
    entities.map_values(|entity: EntityModel| Ok(InferReplyModel::Entity(entity)))
}

/// The answers up to the request for the inference: the edges from what configures the
/// entity, these entities, the edges from what it is a component of, and those entities.
pub open spec fn gathered(
    configures: Seq<EdgeModel>,
    configuring: Seq<EntityModel>,
    components: Seq<EdgeModel>,
    containing: Seq<EntityModel>,
) -> Seq<EntityResult<InferReplyModel>> {
    seq![Ok(InferReplyModel::Edges(configures))] + loaded(configuring) + seq![
        Ok(InferReplyModel::Edges(components)),
    ] + loaded(containing)
}

/// A run in two parts is one run.
pub proof fn law_infer_run_in_parts(
    at: (InferModel, InferActionModel),
    front: Seq<EntityResult<InferReplyModel>>,
    back: Seq<EntityResult<InferReplyModel>>,
)
    ensures
        infer_run(at, front + back) == infer_run(infer_run(at, front), back),
    decreases back.len(),
{
    if back.len() == 0 {
        assert(front + back =~= front);
    } else {
        assert((front + back).drop_last() =~= front + back.drop_last());
        law_infer_run_in_parts(at, front, back.drop_last());
    }
}

proof fn gather_run(
    model: InferModel,
    kind: EdgeKind,
    pending: Seq<Seq<char>>,
    context: Seq<EntityModel>,
    entities: Seq<EntityModel>,
)
    requires
        entities.len() <= pending.len(),
    ensures
        infer_run(infer_gather(model, kind, pending, context), loaded(entities)) == infer_gather(
            model,
            kind,
            pending.skip(entities.len() as int),
            context + entities,
        ),
    decreases entities.len(),
{
    if entities.len() == 0 {
        assert(loaded(entities).len() == 0);
        assert(pending.skip(0) =~= pending);
        assert(context + entities =~= context);
    } else {
        let n = entities.len() - 1;
        gather_run(model, kind, pending, context, entities.drop_last());
        assert(loaded(entities).drop_last() =~= loaded(entities.drop_last()));
        assert(pending.skip(n).drop_first() =~= pending.skip(n + 1));
        assert((context + entities.drop_last()).push(entities.last()) =~= context + entities);
    }
}

proof fn one_answer(at: (InferModel, InferActionModel), event: EntityResult<InferReplyModel>)
    ensures
        infer_run(at, seq![event]) == infer_next(at.0, event),
{
    assert(seq![event].drop_last() =~= Seq::empty());
    assert(infer_run(at, seq![event].drop_last()) == at);
}

/// The entities that configure this one are loaded in the order of their edges, each as
/// the edit session sees it.
pub proof fn law_infer_loads_in_order(
    entity: EntityModel,
    change_set_id: Seq<char>,
    edit_session_id: Seq<char>,
    configures: Seq<EdgeModel>,
    configuring: Seq<EntityModel>,
)
    requires
        configuring.len() < configures.len(),
    ensures
        infer_run(
            infer_start(entity, change_set_id, edit_session_id),
            seq![Ok(InferReplyModel::Edges(configures))] + loaded(configuring),
        ).1 == InferActionModel::LoadEntity(
            edit_session_query(
                configures[configuring.len() as int].tail,
                change_set_id,
                edit_session_id,
            ),
        ),
{
    let at = infer_start(entity, change_set_id, edit_session_id);
    let edges: Seq<EntityResult<InferReplyModel>> = seq![Ok(InferReplyModel::Edges(configures))];
    law_infer_run_in_parts(at, edges, loaded(configuring));
    one_answer(at, edges[0]);
    gather_run(at.0, EdgeKind::Configures, tails(configures), Seq::empty(), configuring);
}

/// The entities that this one is a component of are loaded after those that configure it,
/// in the order of their edges, each as the edit session sees it.
pub proof fn law_infer_loads_containing_in_order(
    entity: EntityModel,
    change_set_id: Seq<char>,
    edit_session_id: Seq<char>,
    configures: Seq<EdgeModel>,
    configuring: Seq<EntityModel>,
    components: Seq<EdgeModel>,
    containing: Seq<EntityModel>,
)
    requires
        configuring.len() == configures.len(),
        containing.len() < components.len(),
    ensures
        infer_run(
            infer_start(entity, change_set_id, edit_session_id),
            gathered(configures, configuring, components, containing),
        ).1 == InferActionModel::LoadEntity(
            edit_session_query(
                components[containing.len() as int].tail,
                change_set_id,
                edit_session_id,
            ),
        ),
{
    gathered_run(
        entity,
        change_set_id,
        edit_session_id,
        configures,
        configuring,
        components,
        containing,
    );
}

proof fn gathered_run(
    entity: EntityModel,
    change_set_id: Seq<char>,
    edit_session_id: Seq<char>,
    configures: Seq<EdgeModel>,
    configuring: Seq<EntityModel>,
    components: Seq<EdgeModel>,
    containing: Seq<EntityModel>,
)
    requires
        configuring.len() == configures.len(),
        containing.len() <= components.len(),
    ensures
        infer_run(
            infer_start(entity, change_set_id, edit_session_id),
            gathered(configures, configuring, components, containing),
        ) == infer_gather(
            infer_start(entity, change_set_id, edit_session_id).0,
            EdgeKind::Component,
            tails(components).skip(containing.len() as int),
            configuring + containing,
        ),
{
    let at = infer_start(entity, change_set_id, edit_session_id);
    let first: Seq<EntityResult<InferReplyModel>> = seq![Ok(InferReplyModel::Edges(configures))];
    let second: Seq<EntityResult<InferReplyModel>> = seq![Ok(InferReplyModel::Edges(components))];
    law_infer_run_in_parts(at, first + loaded(configuring) + second, loaded(containing));
    law_infer_run_in_parts(at, first + loaded(configuring), second);
    law_infer_run_in_parts(at, first, loaded(configuring));
    one_answer(at, first[0]);
    gather_run(at.0, EdgeKind::Configures, tails(configures), Seq::empty(), configuring);
    let middle = infer_run(at, first + loaded(configuring));
    assert(Seq::<EntityModel>::empty() + configuring =~= configuring);
    assert(tails(configures).skip(configuring.len() as int).len() == 0);
    assert(middle == infer_edges(at.0, EdgeKind::Component, configuring));
    one_answer(middle, second[0]);
    gather_run(at.0, EdgeKind::Component, tails(components), configuring, containing);
}

/// Once all that the edges lead to is loaded, the inference is asked for. Its context are
/// the entities that configure this one and then those that it is a component of, in the
/// order in which they were loaded.
pub proof fn law_infer_context(
    entity: EntityModel,
    change_set_id: Seq<char>,
    edit_session_id: Seq<char>,
    configures: Seq<EdgeModel>,
    configuring: Seq<EntityModel>,
    components: Seq<EdgeModel>,
    containing: Seq<EntityModel>,
)
    requires
        configuring.len() == configures.len(),
        containing.len() == components.len(),
    ensures
        infer_run(
            infer_start(entity, change_set_id, edit_session_id),
            gathered(configures, configuring, components, containing),
        ) == (
            InferModel {
                entity: entity,
                change_set_id: change_set_id,
                edit_session_id: edit_session_id,
                phase: InferPhaseModel::Inferring,
            },
            InferActionModel::InferProperties(
                InferPropertiesRequestModel {
                    entity_type: entity.entity_type,
                    entity: entity,
                    context: configuring + containing,
                },
            ),
        ),
{
    gathered_run(
        entity,
        change_set_id,
        edit_session_id,
        configures,
        configuring,
        components,
        containing,
    );
}

proof fn infer_runs_in_parts(
    at: (InferModel, InferActionModel),
    front: Seq<EntityResult<InferReplyModel>>,
    back: Seq<EntityResult<InferReplyModel>>,
)
    requires
        infer_runs(at, front),
        infer_runs(infer_run(at, front), back),
    ensures
        infer_runs(at, front + back),
{
    let whole = front + back;
    assert forall|i: int| 0 <= i < whole.len() implies infer_run(at, whole.take(i)).0.expects(
        #[trigger] whole[i],
    ) by {
        if i < front.len() {
            assert(whole.take(i) =~= front.take(i));
            assert(whole[i] == front[i]);
        } else {
            let j = i - front.len();
            assert(whole.take(i) =~= front + back.take(j));
            assert(whole[i] == back[j]);
            law_infer_run_in_parts(at, front, back.take(j));
        }
    }
}

proof fn one_expected(at: (InferModel, InferActionModel), event: EntityResult<InferReplyModel>)
    requires
        at.0.expects(event),
    ensures
        infer_runs(at, seq![event]),
{
    let events = seq![event];
    assert forall|i: int| 0 <= i < events.len() implies infer_run(at, events.take(i)).0.expects(
        #[trigger] events[i],
    ) by {
        assert(events.take(0) =~= Seq::empty());
        assert(infer_run(at, events.take(0)) == at);
    }
}

proof fn gather_expected(
    model: InferModel,
    kind: EdgeKind,
    pending: Seq<Seq<char>>,
    context: Seq<EntityModel>,
    entities: Seq<EntityModel>,
)
    requires
        entities.len() <= pending.len(),
    ensures
        infer_runs(infer_gather(model, kind, pending, context), loaded(entities)),
{
    let events = loaded(entities);
    let at = infer_gather(model, kind, pending, context);
    assert forall|i: int| 0 <= i < events.len() implies infer_run(at, events.take(i)).0.expects(
        #[trigger] events[i],
    ) by {
        assert(events.take(i) =~= loaded(entities.take(i)));
        gather_run(model, kind, pending, context, entities.take(i));
    }
}

/// Edges, the entities they come from and what the service inferred are the answers that
/// an inference expects, in this order.
pub proof fn law_infer_expects_what_it_gathers(
    entity: EntityModel,
    change_set_id: Seq<char>,
    edit_session_id: Seq<char>,
    configures: Seq<EdgeModel>,
    configuring: Seq<EntityModel>,
    components: Seq<EdgeModel>,
    containing: Seq<EntityModel>,
    inferred: EntityModel,
)
    requires
        configuring.len() == configures.len(),
        containing.len() == components.len(),
    ensures
        infer_runs(
            infer_start(entity, change_set_id, edit_session_id),
            gathered(configures, configuring, components, containing).push(
                Ok(InferReplyModel::Response(inferred)),
            ),
        ),
{
    let at = infer_start(entity, change_set_id, edit_session_id);
    let first: Seq<EntityResult<InferReplyModel>> = seq![Ok(InferReplyModel::Edges(configures))];
    let second: Seq<EntityResult<InferReplyModel>> = seq![Ok(InferReplyModel::Edges(components))];
    let third: Seq<EntityResult<InferReplyModel>> = seq![Ok(InferReplyModel::Response(inferred))];
    let none = Seq::<EntityModel>::empty();
    one_expected(at, first[0]);
    one_answer(at, first[0]);
    gather_expected(at.0, EdgeKind::Configures, tails(configures), none, configuring);
    infer_runs_in_parts(at, first, loaded(configuring));
    law_infer_run_in_parts(at, first, loaded(configuring));
    gather_run(at.0, EdgeKind::Configures, tails(configures), none, configuring);
    assert(none + configuring =~= configuring);
    assert(tails(configures).skip(configuring.len() as int).len() == 0);
    let middle = infer_run(at, first + loaded(configuring));
    assert(middle == infer_edges(at.0, EdgeKind::Component, configuring));
    one_expected(middle, second[0]);
    one_answer(middle, second[0]);
    infer_runs_in_parts(at, first + loaded(configuring), second);
    law_infer_run_in_parts(at, first + loaded(configuring), second);
    gather_expected(at.0, EdgeKind::Component, tails(components), configuring, containing);
    infer_runs_in_parts(at, first + loaded(configuring) + second, loaded(containing));
    law_infer_context(
        entity,
        change_set_id,
        edit_session_id,
        configures,
        configuring,
        components,
        containing,
    );
    let events = gathered(configures, configuring, components, containing);
    one_expected(infer_run(at, events), third[0]);
    infer_runs_in_parts(at, events, third);
    assert(events + third =~= events.push(third[0]));
}

/// An inference that answers with the same entity ends at once: nothing is saved, the
/// entity is left as it was, and it counts as unchanged.
pub proof fn law_infer_unchanged(
    entity: EntityModel,
    change_set_id: Seq<char>,
    edit_session_id: Seq<char>,
    configures: Seq<EdgeModel>,
    configuring: Seq<EntityModel>,
    components: Seq<EdgeModel>,
    containing: Seq<EntityModel>,
    inferred: EntityModel,
)
    requires
        configuring.len() == configures.len(),
        containing.len() == components.len(),
        entity.same(inferred),
    ensures
        infer_run(
            infer_start(entity, change_set_id, edit_session_id),
            gathered(configures, configuring, components, containing).push(
                Ok(InferReplyModel::Response(inferred)),
            ),
        ) == (
            InferModel {
                entity: entity,
                change_set_id: change_set_id,
                edit_session_id: edit_session_id,
                phase: InferPhaseModel::Finished,
            },
            InferActionModel::Finish(Ok(false)),
        ),
{
    let events = gathered(configures, configuring, components, containing);
    assert(events.push(Ok(InferReplyModel::Response(inferred))).drop_last() =~= events);
    law_infer_context(
        entity,
        change_set_id,
        edit_session_id,
        configures,
        configuring,
        components,
        containing,
    );
}

/// An inference that answers with another entity puts that one in its place, has it saved
/// in the edit session, and only then counts as a change.
pub proof fn law_infer_changed(
    entity: EntityModel,
    change_set_id: Seq<char>,
    edit_session_id: Seq<char>,
    configures: Seq<EdgeModel>,
    configuring: Seq<EntityModel>,
    components: Seq<EdgeModel>,
    containing: Seq<EntityModel>,
    inferred: EntityModel,
)
    requires
        configuring.len() == configures.len(),
        containing.len() == components.len(),
        !entity.same(inferred),
    ensures
        ({
            let at = infer_start(entity, change_set_id, edit_session_id);
            let answered = gathered(configures, configuring, components, containing).push(
                Ok(InferReplyModel::Response(inferred)),
            );
            &&& infer_run(at, answered).0.entity == inferred
            &&& infer_run(at, answered).1 == InferActionModel::Save(
                QueryModel {
                    statement: Statement::EntitySaveForEditSession,
                    params: seq![
                        ParamModel::Entity(inferred),
                        ParamModel::Text(change_set_id),
                        ParamModel::Text(edit_session_id),
                    ],
                },
            )
            &&& infer_run(at, answered.push(Ok(InferReplyModel::Saved))).0.entity == inferred
            &&& infer_run(at, answered.push(Ok(InferReplyModel::Saved))).1
                == InferActionModel::Finish(Ok(true))
        }),
{
    let events = gathered(configures, configuring, components, containing);
    let answered = events.push(Ok(InferReplyModel::Response(inferred)));
    assert(answered.drop_last() =~= events);
    assert(answered.push(Ok(InferReplyModel::Saved)).drop_last() =~= answered);
    law_infer_context(
        entity,
        change_set_id,
        edit_session_id,
        configures,
        configuring,
        components,
        containing,
    );
}

/// An inference waits at first for the edges that it asked for, or for the failure to load
/// them.
pub proof fn law_infer_waits_at_first(
    entity: EntityModel,
    change_set_id: Seq<char>,
    edit_session_id: Seq<char>,
)
    ensures
        ({
            let (model, action) = infer_start(entity, change_set_id, edit_session_id);
            &&& model.well_formed()
            &&& forall|reply: InferReplyModel|
                #[trigger] model.expects(Ok(reply)) <==> action.answered_by(reply)
            &&& forall|error: EntityError|
                #[trigger] model.expects(Err(error)) <==> action.fails_with(error)
        }),
{
}

/// An inference waits for the answer to what it asked for last, or for a failure of the
/// service that it asked, and for nothing else, until it is finished.
pub proof fn law_infer_waits_for_the_answer(model: InferModel, event: EntityResult<InferReplyModel>)
    requires
        model.well_formed(),
        model.expects(event),
    ensures
        ({
            let (after, action) = infer_next(model, event);
            &&& after.well_formed()
            &&& forall|reply: InferReplyModel|
                #[trigger] after.expects(Ok(reply)) <==> action.answered_by(reply)
            &&& forall|error: EntityError|
                #[trigger] after.expects(Err(error)) <==> action.fails_with(error)
            &&& after.phase is Finished <==> action is Finish
        }),
{
}

/// The entity changes only where the service inferred another one; that one is then what
/// is saved. The change set and the edit session never change.
pub proof fn law_infer_replaces_only_by_inferred(model: InferModel, event: EntityResult<InferReplyModel>)
    requires
        model.expects(event),
    ensures
        infer_next(model, event).0.change_set_id == model.change_set_id,
        infer_next(model, event).0.edit_session_id == model.edit_session_id,
        infer_next(model, event).0.entity == model.entity || {
            &&& event matches Ok(InferReplyModel::Response(inferred))
            &&& !model.entity.same(inferred)
            &&& infer_next(model, event).0.entity == inferred
            &&& infer_next(model, event).1 == InferActionModel::Save(
                save_query(inferred, model.change_set_id, model.edit_session_id),
            )
        },
{
}

/// On every run an inference is finished exactly where it has given its result.
pub proof fn law_infer_run_ends_with_its_result(
    at: (InferModel, InferActionModel),
    events: Seq<EntityResult<InferReplyModel>>,
)
    requires
        at.0.well_formed(),
        at.0.phase is Finished <==> at.1 is Finish,
        infer_runs(at, events),
    ensures
        infer_run(at, events).0.well_formed(),
        infer_run(at, events).0.phase is Finished <==> infer_run(at, events).1 is Finish,
    decreases events.len(),
{
    if events.len() > 0 {
        infer_runs_before(at, events);
        law_infer_run_ends_with_its_result(at, events.drop_last());
        law_infer_waits_for_the_answer(infer_run(at, events.drop_last()).0, events.last());
    }
}

/// The beginning of a run is a run, and its last answer is expected after it.
pub(crate) proof fn infer_runs_before(
    at: (InferModel, InferActionModel),
    events: Seq<EntityResult<InferReplyModel>>,
)
    requires
        infer_runs(at, events),
        events.len() > 0,
    ensures
        infer_runs(at, events.drop_last()),
        infer_run(at, events.drop_last()).0.expects(events.last()),
{
    let front = events.drop_last();
    assert forall|i: int| 0 <= i < front.len() implies infer_run(at, front.take(i)).0.expects(
        #[trigger] front[i],
    ) by {
        assert(front.take(i) =~= events.take(i));
        assert(front[i] == events[i]);
    }
    assert(events.take(events.len() - 1) =~= front);
    assert(events[events.len() - 1] == events.last());
}

/// A failure ends the inference with that failure, and leaves the entity as it stands.
pub proof fn law_infer_fails_at_once(model: InferModel, error: EntityError)
    requires
        model.expects(Err(error)),
    ensures
        infer_next(model, Err(error)) == (
            InferModel {
                entity: model.entity,
                change_set_id: model.change_set_id,
                edit_session_id: model.edit_session_id,
                phase: InferPhaseModel::Finished,
            },
            InferActionModel::Finish(Err(error)),
        ),
{
}

/// An inference is known by its entity, its change set and its edit session, and by what it
/// waits for; what it asks the service for, by all that the service is told.
pub proof fn law_an_inference_is_known_by_what_it_holds(
    task: InferTask,
    request: InferPropertiesRequest,
)
    ensures
        task@.entity == task.entity@,
        task@.change_set_id == task.change_set_id@,
        task@.edit_session_id == task.edit_session_id@,
        task@.phase == task.phase@,
        request@.entity_type == request.entity_type@,
        request@.entity == request.entity@,
        request@.context.len() == request.context@.len(),
        forall|i: int|
            0 <= i < request.context@.len() ==> #[trigger] request@.context[i]
                == request.context@[i]@,
{
}

/// What an inference waits for is known with all that it has gathered, in order.
pub proof fn law_a_phase_of_an_inference_is_known_whole(phase: InferPhase)
    ensures
        match phase {
            InferPhase::LoadingEdges { kind, context } => {
                &&& phase@ matches InferPhaseModel::LoadingEdges { kind: of_kind, context: models }
                &&& of_kind == kind
                &&& models.len() == context@.len()
                &&& forall|i: int|
                    0 <= i < context@.len() ==> #[trigger] models[i] == context@[i]@
            },
            InferPhase::Loading { kind, ids, context } => {
                &&& phase@ matches InferPhaseModel::Loading {
                    kind: of_kind,
                    pending,
                    context: models,
                }
                &&& of_kind == kind
                &&& pending.len() == ids@.len()
                &&& forall|i: int|
                    0 <= i < ids@.len() ==> #[trigger] pending[i] == ids@[ids@.len() - 1 - i]@
                &&& models.len() == context@.len()
                &&& forall|i: int|
                    0 <= i < context@.len() ==> #[trigger] models[i] == context@[i]@
            },
            InferPhase::Inferring => phase@ is Inferring,
            InferPhase::Saving => phase@ is Saving,
            InferPhase::Finished => phase@ is Finished,
        },
{
}

/// What an inference asks for, and the answers to it, are known whole.
pub proof fn law_what_passes_in_an_inference_is_known_whole(
    action: InferAction,
    reply: InferReply,
    error: EntityError,
)
    ensures
        match action {
            InferAction::LoadEdges(query) => action@ == InferActionModel::LoadEdges(query@),
            InferAction::LoadEntity(query) => action@ == InferActionModel::LoadEntity(query@),
            InferAction::InferProperties(request) => action@ == InferActionModel::InferProperties(
                request@,
            ),
            InferAction::Save(query) => action@ == InferActionModel::Save(query@),
            InferAction::Finish(result) => action@ == InferActionModel::Finish(result),
        },
        match reply {
            InferReply::Edges(edges) => {
                &&& reply@ matches InferReplyModel::Edges(models)
                &&& models.len() == edges@.len()
                &&& forall|i: int| 0 <= i < edges@.len() ==> #[trigger] models[i] == edges@[i]@
            },
            InferReply::Entity(entity) => reply@ == InferReplyModel::Entity(entity@),
            InferReply::Response(response) => reply@ == InferReplyModel::Response(
                response.entity@,
            ),
            InferReply::Saved => reply@ is Saved,
        },
        infer_event(Ok(reply)) == Ok::<InferReplyModel, EntityError>(reply@),
        infer_event(Err(error)) == Err::<InferReplyModel, EntityError>(error),
{
}

/// What an inference asks for is answered, and fails, as the service does that is asked.
pub proof fn law_an_inference_is_answered_as_it_asked(
    action: InferActionModel,
    reply: InferReplyModel,
    error: EntityError,
)
    ensures
        action is LoadEdges ==> {
            &&& action.answered_by(reply) <==> reply is Edges
            &&& action.fails_with(error) <==> error is Edge
        },
        action is LoadEntity ==> {
            &&& action.answered_by(reply) <==> reply is Entity
            &&& action.fails_with(error) <==> (error is TokioPg || error is SerdeJson)
        },
        action is InferProperties ==> {
            &&& action.answered_by(reply) <==> reply is Response
            &&& action.fails_with(error) <==> error is Veritech
        },
        action is Save ==> {
            &&& action.answered_by(reply) <==> reply is Saved
            &&& action.fails_with(error) <==> (error is TokioPg || error is SerdeJson)
        },
        action is Finish ==> !action.answered_by(reply) && !action.fails_with(error),
{
}

/// An inference first asks for the edges from what configures the entity. Once these
/// entities are loaded it asks for the edges from what the entity is a component of. Up to
/// there nothing about the entity has changed.
pub proof fn law_infer_asks_for_the_edges_to_the_entity(
    entity: EntityModel,
    change_set_id: Seq<char>,
    edit_session_id: Seq<char>,
    configures: Seq<EdgeModel>,
    configuring: Seq<EntityModel>,
)
    requires
        configuring.len() == configures.len(),
    ensures
        ({
            let at = infer_start(entity, change_set_id, edit_session_id);
            let after = infer_run(
                at,
                seq![Ok(InferReplyModel::Edges(configures))] + loaded(configuring),
            );
            &&& at.1 == InferActionModel::LoadEdges(
                EdgeQueryModel {
                    direction: Direction::DirectPredecessors,
                    kind: EdgeKind::Configures,
                    object_id: entity.id,
                },
            )
            &&& after.1 == InferActionModel::LoadEdges(
                EdgeQueryModel {
                    direction: Direction::DirectPredecessors,
                    kind: EdgeKind::Component,
                    object_id: entity.id,
                },
            )
            &&& at.0.entity == entity && after.0.entity == entity
            &&& at.0.change_set_id == change_set_id && after.0.change_set_id == change_set_id
            &&& at.0.edit_session_id == edit_session_id && after.0.edit_session_id
                == edit_session_id
        }),
{
    let at = infer_start(entity, change_set_id, edit_session_id);
    let edges: Seq<EntityResult<InferReplyModel>> = seq![Ok(InferReplyModel::Edges(configures))];
    law_infer_run_in_parts(at, edges, loaded(configuring));
    one_answer(at, edges[0]);
    gather_run(at.0, EdgeKind::Configures, tails(configures), Seq::empty(), configuring);
    assert(tails(configures).skip(configuring.len() as int).len() == 0);
}

/// Whatever the answers are, the entity of an inference is at any time the one that it began
/// with or one that the service inferred.
pub proof fn law_infer_makes_up_no_entity(
    entity: EntityModel,
    change_set_id: Seq<char>,
    edit_session_id: Seq<char>,
    events: Seq<EntityResult<InferReplyModel>>,
)
    requires
        infer_runs(infer_start(entity, change_set_id, edit_session_id), events),
    ensures
        ({
            let after = infer_run(infer_start(entity, change_set_id, edit_session_id), events).0;
            &&& after.change_set_id == change_set_id
            &&& after.edit_session_id == edit_session_id
            &&& after.entity == entity || exists|i: int|
                0 <= i < events.len() && #[trigger] events[i] == Ok::<_, EntityError>(
                    InferReplyModel::Response(after.entity),
                )
        }),
    decreases events.len(),
{
    if events.len() > 0 {
        let at = infer_start(entity, change_set_id, edit_session_id);
        let front = events.drop_last();
        infer_runs_before(at, events);
        law_infer_makes_up_no_entity(entity, change_set_id, edit_session_id, front);
        law_infer_replaces_only_by_inferred(infer_run(at, front).0, events.last());
        let before = infer_run(at, front).0.entity;
        let after = infer_run(at, events).0.entity;
        if after == before && after != entity {
            let i = choose|i: int|
                0 <= i < front.len() && #[trigger] front[i] == Ok::<_, EntityError>(
                    InferReplyModel::Response(before),
                );
            assert(events[i] == front[i]);
        } else if after != before {
            assert(events[events.len() - 1] == Ok::<_, EntityError>(
                InferReplyModel::Response(after),
            ));
        }
    }
}

/// Beginning to infer an entity keeps the entity as it is, and asks for the edges from what
/// configures it.
pub proof fn law_inferring_begins_with_the_entity(
    entity: Entity,
    change_set_id: &str,
    edit_session_id: &str,
    begun: (InferTask, InferAction),
)
    requires
        call_ensures(
            Entity::infer_properties_for_edit_session,
            (entity, change_set_id, edit_session_id),
            begun,
        ),
    ensures
        begun.0.entity@ == entity@,
        begun.0.change_set_id@ == change_set_id@,
        begun.0.edit_session_id@ == edit_session_id@,
        begun.1 matches InferAction::LoadEdges(query) && {
            &&& query.direction == Direction::DirectPredecessors
            &&& query.kind == EdgeKind::Configures
            &&& query.object_id@ == entity.id@
        },
{
    assert((begun.0@, begun.1@) == infer_start(entity@, change_set_id@, edit_session_id@));
}

/// What the service inferred takes the place of the entity, unaltered, and is saved, where
/// it is not the same; where it is the same, the entity stays and nothing is saved.
pub proof fn law_taking_what_was_inferred(
    task: InferTask,
    response: InferPropertiesResponse,
    next: (InferTask, InferAction),
)
    requires
        task.phase is Inferring,
        call_ensures(InferTask::next, (task, Ok(InferReply::Response(response))), next),
    ensures
        next.0.change_set_id@ == task.change_set_id@,
        next.0.edit_session_id@ == task.edit_session_id@,
        if task.entity@.same(response.entity@) {
            &&& next.0.entity@ == task.entity@
            &&& next.1 == InferAction::Finish(Ok(false))
        } else {
            &&& next.0.entity@ == response.entity@
            &&& next.1 matches InferAction::Save(query) && {
                &&& query.statement == Statement::EntitySaveForEditSession
                &&& query.params@.len() == 3
                &&& query.params@[0] matches Param::Entity(saved) && saved@ == response.entity@
                &&& query.params@[1] matches Param::Text(text) && text@ == task.change_set_id@
                &&& query.params@[2] matches Param::Text(text) && text@ == task.edit_session_id@
            }
        },
{
    assert((next.0@, next.1@) == infer_next(
        task@,
        Ok(InferReplyModel::Response(response.entity@)),
    ));
    if let InferAction::Save(query) = next.1 {
        assert(next.1@ == InferActionModel::Save(query@));
        assert(query@.params.len() == query.params@.len());
        assert(query@.params[0] == query.params@[0]@);
        assert(query@.params[1] == query.params@[1]@);
        assert(query@.params[2] == query.params@[2]@);
    }
}

} // verus!
