//! How far a change spreads.
//!
//! It spreads to every entity that a changed one configures, and to no other. A changed
//! entity is followed each time that it was changed, so that one which can be reached in
//! several ways may be followed several times. Where no entity configures itself, directly
//! or through others, the ways bound how often.
use crate::edge::{heads, Direction, EdgeKind, EdgeModel};
use crate::entity::edit_session_query;
use crate::error::EntityResult;
use crate::inference::InferReplyModel;
use crate::query::ParamModel;
use crate::successors::{
    followed, followed_by, law_successors_commits_last, law_successors_waits_for_the_answer,
    successors_follow, successors_next, successors_run, successors_runs, successors_start,
    successors_visit, SuccessorsActionModel, SuccessorsModel, SuccessorsPhaseModel,
    SuccessorsReplyModel, SuccessorsRequestModel,
};
use vstd::multiset::Multiset;
use vstd::prelude::*;

verus! {

/// The successor that is asked for, where one is.
pub open spec fn loaded_by(action: SuccessorsActionModel) -> Multiset<Seq<char>> {
    match action {
        SuccessorsActionModel::LoadEntity(query) => match query.params[0] {
            ParamModel::Text(entity_id) => Multiset::singleton(entity_id),
            ParamModel::Entity(_) => Multiset::empty(),
        },
        _ => Multiset::empty(),
    }
}

/// The successors that an answer names: those that the edges lead to, where it gives the
/// edges of an entity that is followed.
pub open spec fn named_by(model: SuccessorsModel, event: EntityResult<SuccessorsReplyModel>) -> Multiset<
    Seq<char>,
> {
    match (model.phase, event) {
        (SuccessorsPhaseModel::LoadingEdges, Ok(SuccessorsReplyModel::Edges(edges))) => heads(
            edges,
        ).to_multiset(),
        _ => Multiset::empty(),
    }
}

/// The successors that are asked for on a run.
pub open spec fn loaded(
    at: (SuccessorsModel, SuccessorsActionModel),
    events: Seq<EntityResult<SuccessorsReplyModel>>,
) -> Multiset<Seq<char>>
    decreases events.len(),
{
    if events.len() == 0 {
        loaded_by(at.1)
    } else {
        loaded(at, events.drop_last()).add(loaded_by(successors_run(at, events).1))
    }
}

/// The successors that the answers of a run name.
pub open spec fn named(
    at: (SuccessorsModel, SuccessorsActionModel),
    events: Seq<EntityResult<SuccessorsReplyModel>>,
) -> Multiset<Seq<char>>
    decreases events.len(),
{
    if events.len() == 0 {
        Multiset::empty()
    } else {
        named(at, events.drop_last()).add(
            named_by(successors_run(at, events.drop_last()).0, events.last()),
        )
    }
}

/// The successors at hand that were not asked for yet.
spec fn behind(model: SuccessorsModel) -> Seq<Seq<char>> {
    match model.phase {
        SuccessorsPhaseModel::Loading { pending } => pending.drop_first(),
        SuccessorsPhaseModel::Inferring { pending, .. } => pending,
        SuccessorsPhaseModel::Checking { pending, .. } => pending,
        _ => Seq::empty(),
    }
}

proof fn visit_loads(model: SuccessorsModel, pending: Seq<Seq<char>>)
    ensures
        ({
            let at = successors_visit(model, pending);
            loaded_by(at.1).add(behind(at.0).to_multiset()) == pending.to_multiset()
        }),
{
    let at = successors_visit(model, pending);
    pending.to_multiset_ensures();
    Seq::<Seq<char>>::empty().to_multiset_ensures();
    if pending.len() > 0 {
        assert(pending.remove(0) =~= pending.drop_first());
        assert(pending.contains(pending[0]));
    } else {
        assert(pending =~= Seq::empty());
    }
    assert(loaded_by(at.1).add(behind(at.0).to_multiset()) =~= pending.to_multiset());
}

proof fn step_loads(model: SuccessorsModel, event: EntityResult<SuccessorsReplyModel>)
    requires
        model.expects(event),
        !(successors_next(model, event).0.phase is Finished),
    ensures
        ({
            let after = successors_next(model, event);
            loaded_by(after.1).add(behind(after.0).to_multiset()) == behind(
                model,
            ).to_multiset().add(named_by(model, event))
        }),
{
    let after = successors_next(model, event);
    let before = behind(model).to_multiset();
    Seq::<Seq<char>>::empty().to_multiset_ensures();
    match (model.phase, event) {
        (SuccessorsPhaseModel::LoadingEdges, Ok(SuccessorsReplyModel::Edges(edges))) => {
            visit_loads(model, heads(edges));
        },
        (SuccessorsPhaseModel::Inferring { pending, .. }, _) => visit_loads(model, pending),
        (SuccessorsPhaseModel::Checking { entity_id, pending }, _) => {
            visit_loads(model.checking(entity_id), pending);
        },
        _ => {},
    }
    assert(loaded_by(after.1).add(behind(after.0).to_multiset()) =~= before.add(
        named_by(model, event),
    ));
}

proof fn run_loads(
    at: (SuccessorsModel, SuccessorsActionModel),
    events: Seq<EntityResult<SuccessorsReplyModel>>,
)
    requires
        at.0.phase is Connecting,
        at.1 is Connect,
        successors_runs(at, events),
        !(successors_run(at, events).0.phase is Finished),
    ensures
        loaded(at, events).add(behind(successors_run(at, events).0).to_multiset()) == named(
            at,
            events,
        ),
    decreases events.len(),
{
    let after = successors_run(at, events);
    Seq::<Seq<char>>::empty().to_multiset_ensures();
    if events.len() > 0 {
        let front = events.drop_last();
        let middle = successors_run(at, front).0;
        run_loads(at, front);
        step_loads(middle, events.last());
        let step = loaded_by(after.1);
        let left = behind(after.0).to_multiset();
        let given = named_by(middle, events.last());
        assert(loaded(at, front).add(step).add(left) =~= loaded(at, front).add(step.add(left)));
        assert(loaded(at, front).add(behind(middle).to_multiset().add(given)) =~= loaded(
            at,
            front,
        ).add(behind(middle).to_multiset()).add(given));
    } else {
        assert(loaded(at, events).add(behind(after.0).to_multiset()) =~= named(at, events));
    }
}

/// By the time that the transaction is committed, every entity that an edge leads to from
/// one that was followed has been visited, once for each such edge, and no other.
pub proof fn law_a_change_spreads_along_every_edge(
    request: SuccessorsRequestModel,
    events: Seq<EntityResult<SuccessorsReplyModel>>,
)
    requires
        successors_runs(successors_start(request), events),
        successors_run(successors_start(request), events).1 is CommitTransaction,
    ensures
        loaded(successors_start(request), events) == named(successors_start(request), events),
{
    let at = successors_start(request);
    let after = successors_run(at, events).0;
    law_successors_commits_last(successors_run(at, events.drop_last()).0, events.last());
    run_loads(at, events);
    Seq::<Seq<char>>::empty().to_multiset_ensures();
    assert(loaded(at, events).add(behind(after).to_multiset()) =~= loaded(at, events));
}

/// The edges that are asked for are those that lead away from an entity to what it
/// configures, and a successor is asked for as the edit session sees it.
pub proof fn law_a_change_spreads_in_its_edit_session(
    model: SuccessorsModel,
    event: EntityResult<SuccessorsReplyModel>,
)
    requires
        model.expects(event),
    ensures
        match successors_next(model, event).1 {
            SuccessorsActionModel::LoadEdges(query) => {
                &&& query.direction == Direction::DirectSuccessors
                &&& query.kind == EdgeKind::Configures
            },
            SuccessorsActionModel::LoadEntity(query) => exists|entity_id: Seq<char>|
                query == #[trigger] edit_session_query(
                    entity_id,
                    model.change_set_id,
                    model.edit_session_id,
                ),
            _ => true,
        },
{
}

/// Which entities configure which: the edges that lead away from each entity, and a rank
/// for each.
pub struct Configuration {
    pub edges: spec_fn(Seq<char>) -> Seq<EdgeModel>,
    pub rank: spec_fn(Seq<char>) -> nat,
}

impl Configuration {
    /// Every edge leads to an entity of a lower rank, so that none leads back.
    pub open spec fn acyclic(self) -> bool {
        forall|id: Seq<char>, i: int|
            0 <= i < (self.edges)(id).len() ==> (self.rank)(
                (#[trigger] (self.edges)(id)[i]).head,
            ) < (self.rank)(id)
    }

    /// In how many ways one can go on from an entity along the edges, counting that one
    /// stays there.
    pub open spec fn ways(self, id: Seq<char>) -> nat
        decreases (self.rank)(id), 1nat, 0nat,
    {
        1 + self.ways_below((self.rank)(id), heads((self.edges)(id)))
    }

    /// The ways from those of some entities that are of a rank below a bound.
    pub open spec fn ways_below(self, bound: nat, ids: Seq<Seq<char>>) -> nat
        decreases bound, 0nat, ids.len(),
    {
        if ids.len() == 0 {
            0
        } else {
            self.ways_below(bound, ids.drop_last()) + if (self.rank)(ids.last()) < bound {
                self.ways(ids.last())
            } else {
                0
            }
        }
    }

    /// The ways from some entities.
    pub open spec fn all_ways(self, ids: Seq<Seq<char>>) -> nat
        decreases ids.len(),
    {
        if ids.len() == 0 {
            0
        } else {
            self.all_ways(ids.drop_last()) + self.ways(ids.last())
        }
    }

    /// Whether an answer is true to the configuration: the edges are those of the entity
    /// that they were asked for, an entity that was loaded is the one that was asked for,
    /// and an inference leaves the id of an entity alone.
    pub open spec fn gives(
        self,
        at: (SuccessorsModel, SuccessorsActionModel),
        event: EntityResult<SuccessorsReplyModel>,
    ) -> bool {
        match (at.0.phase, event) {
            (SuccessorsPhaseModel::LoadingEdges, Ok(SuccessorsReplyModel::Edges(edges))) => at.1
                matches SuccessorsActionModel::LoadEdges(query) ==> edges == (self.edges)(
                query.object_id,
            ),
            (
                SuccessorsPhaseModel::Loading { pending },
                Ok(SuccessorsReplyModel::Entity(entity)),
            ) => entity.id == pending[0],
            (
                SuccessorsPhaseModel::Inferring { task, .. },
                Ok(SuccessorsReplyModel::Infer(InferReplyModel::Response(inferred))),
            ) => inferred.id == task.entity.id,
            _ => true,
        }
    }

    /// Whether all the answers of a run are true to the configuration.
    pub open spec fn gives_all(
        self,
        at: (SuccessorsModel, SuccessorsActionModel),
        events: Seq<EntityResult<SuccessorsReplyModel>>,
    ) -> bool
        decreases events.len(),
    {
        events.len() > 0 ==> {
            &&& self.gives_all(at, events.drop_last())
            &&& self.gives(successors_run(at, events.drop_last()), events.last())
        }
    }

    /// The ways from what is at hand, beyond what stands in the list.
    spec fn ways_at_hand(self, at: (SuccessorsModel, SuccessorsActionModel)) -> nat {
        match (at.0.phase, at.1) {
            (SuccessorsPhaseModel::LoadingEdges, SuccessorsActionModel::LoadEdges(query)) =>
                self.all_ways(heads((self.edges)(query.object_id))),
            (SuccessorsPhaseModel::Loading { pending }, _) => self.all_ways(pending),
            (SuccessorsPhaseModel::Inferring { task, pending }, _) => self.ways(task.entity.id)
                + self.all_ways(pending),
            (SuccessorsPhaseModel::Checking { entity_id, pending }, _) => self.ways(entity_id)
                + self.all_ways(pending),
            _ => 0,
        }
    }

    /// The ways that are left to a calculation.
    spec fn ways_left(self, at: (SuccessorsModel, SuccessorsActionModel)) -> nat {
        self.all_ways(at.0.to_check) + self.ways_at_hand(at)
    }

    /// Those of them that still lead to an entity that is to be loaded.
    spec fn loads_left(self, at: (SuccessorsModel, SuccessorsActionModel)) -> int {
        self.ways_left(at) - at.0.to_check.len() - if visiting(at.0) {
            1int
        } else {
            0
        }
    }
}

/// Whether a calculation is on a visit.
spec fn visiting(model: SuccessorsModel) -> bool {
    model.phase is Loading || model.phase is Inferring || model.phase is Checking
}

/// Whether a calculation asks for the edges of an entity exactly where it waits for them,
/// and loads entities only where there is one to load.
spec fn in_step(at: (SuccessorsModel, SuccessorsActionModel)) -> bool {
    &&& at.0.phase is LoadingEdges <==> at.1 is LoadEdges
    &&& at.0.well_formed()
}

proof fn ways_below_all(configuration: Configuration, bound: nat, ids: Seq<Seq<char>>)
    requires
        forall|i: int| 0 <= i < ids.len() ==> (configuration.rank)(#[trigger] ids[i]) < bound,
    ensures
        configuration.ways_below(bound, ids) == configuration.all_ways(ids),
    decreases ids.len(),
{
    if ids.len() > 0 {
        let front = ids.drop_last();
        assert forall|i: int| 0 <= i < front.len() implies (configuration.rank)(
            #[trigger] front[i],
        ) < bound by {
            assert(front[i] == ids[i]);
        }
        ways_below_all(configuration, bound, front);
        assert(ids[ids.len() - 1] == ids.last());
    }
}

/// Where no edge leads back, the ways from an entity are the one of staying there and those
/// from the entities that its edges lead to.
pub proof fn law_ways_follow_the_edges(configuration: Configuration, id: Seq<char>)
    requires
        configuration.acyclic(),
    ensures
        configuration.ways(id) == 1 + configuration.all_ways(heads((configuration.edges)(id))),
{
    let edges = (configuration.edges)(id);
    assert forall|i: int| 0 <= i < heads(edges).len() implies (configuration.rank)(
        #[trigger] heads(edges)[i],
    ) < (configuration.rank)(id) by {
        assert(heads(edges)[i] == edges[i].head);
    }
    ways_below_all(configuration, (configuration.rank)(id), heads(edges));
}

proof fn ways_of_the_next(configuration: Configuration, ids: Seq<Seq<char>>)
    requires
        ids.len() > 0,
    ensures
        configuration.all_ways(ids) == configuration.ways(ids[0]) + configuration.all_ways(
            ids.drop_first(),
        ),
    decreases ids.len(),
{
    if ids.len() == 1 {
        assert(ids.drop_last() =~= Seq::empty());
        assert(ids.drop_first() =~= Seq::empty());
    } else {
        let front = ids.drop_last();
        ways_of_the_next(configuration, front);
        assert(front.drop_first() =~= ids.drop_first().drop_last());
        assert(front[0] == ids[0]);
    }
}

proof fn follow_spends(configuration: Configuration, model: SuccessorsModel)
    requires
        configuration.acyclic(),
    ensures
        ({
            let at = successors_follow(model);
            &&& in_step(at)
            &&& followed_by(at.1).len() + configuration.ways_left(at) == configuration.all_ways(
                model.to_check,
            )
            &&& loaded_by(at.1).len() + configuration.loads_left(at) == configuration.all_ways(
                model.to_check,
            ) - model.to_check.len()
        }),
{
    broadcast use vstd::multiset::group_multiset_axioms;

    if model.to_check.len() > 0 {
        law_ways_follow_the_edges(configuration, model.to_check.last());
    }
}

proof fn visit_spends(configuration: Configuration, model: SuccessorsModel, pending: Seq<Seq<char>>)
    requires
        configuration.acyclic(),
    ensures
        ({
            let at = successors_visit(model, pending);
            &&& in_step(at)
            &&& followed_by(at.1).len() + configuration.ways_left(at) == configuration.all_ways(
                model.to_check,
            ) + configuration.all_ways(pending)
            &&& loaded_by(at.1).len() + configuration.loads_left(at) == configuration.all_ways(
                model.to_check,
            ) + configuration.all_ways(pending) - model.to_check.len()
        }),
{
    broadcast use vstd::multiset::group_multiset_axioms;

    if pending.len() == 0 {
        follow_spends(configuration, model);
    }
}

proof fn step_spends(
    configuration: Configuration,
    at: (SuccessorsModel, SuccessorsActionModel),
    event: EntityResult<SuccessorsReplyModel>,
)
    requires
        configuration.acyclic(),
        in_step(at),
        at.0.expects(event),
        configuration.gives(at, event),
    ensures
        ({
            let after = successors_next(at.0, event);
            &&& in_step(after)
            &&& followed_by(after.1).len() + configuration.ways_left(after)
                <= configuration.ways_left(at)
            &&& loaded_by(after.1).len() + configuration.loads_left(after) <= configuration.loads_left(at)
        }),
{
    broadcast use vstd::multiset::group_multiset_axioms;

    law_successors_waits_for_the_answer(at.0, event);
    match (at.0.phase, event) {
        (SuccessorsPhaseModel::Connecting, Ok(SuccessorsReplyModel::Began)) => {
            follow_spends(configuration, at.0);
        },
        (SuccessorsPhaseModel::LoadingEdges, Ok(SuccessorsReplyModel::Edges(edges))) => {
            visit_spends(configuration, at.0, heads(edges));
        },
        (SuccessorsPhaseModel::Loading { pending }, _) => {
            ways_of_the_next(configuration, pending);
        },
        (
            SuccessorsPhaseModel::Inferring { pending, .. },
            Ok(SuccessorsReplyModel::Infer(_)),
        ) => {
            visit_spends(configuration, at.0, pending);
        },
        (
            SuccessorsPhaseModel::Checking { entity_id, pending },
            Ok(SuccessorsReplyModel::Checked),
        ) => {
            let listed = at.0.checking(entity_id);
            visit_spends(configuration, listed, pending);
            assert(listed.to_check.drop_last() =~= at.0.to_check);
        },
        _ => {},
    }
}

proof fn run_spends(
    configuration: Configuration,
    request: SuccessorsRequestModel,
    events: Seq<EntityResult<SuccessorsReplyModel>>,
)
    requires
        configuration.acyclic(),
        successors_runs(successors_start(request), events),
        configuration.gives_all(successors_start(request), events),
    ensures
        ({
            let at = successors_run(successors_start(request), events);
            &&& in_step(at)
            &&& followed(successors_start(request), events).len() + configuration.ways_left(at)
                <= configuration.ways(request.entity_id)
            &&& loaded(successors_start(request), events).len() + configuration.loads_left(at)
                <= configuration.ways(request.entity_id) - 1
        }),
    decreases events.len(),
{
    broadcast use vstd::multiset::group_multiset_axioms;

    let start = successors_start(request);
    if events.len() == 0 {
        assert(start.0.to_check.drop_last() =~= Seq::empty());
        assert(configuration.all_ways(start.0.to_check.drop_last()) == 0);
    } else {
        run_spends(configuration, request, events.drop_last());
        step_spends(configuration, successors_run(start, events.drop_last()), events.last());
    }
}

proof fn a_way_from_each(configuration: Configuration, ids: Seq<Seq<char>>)
    ensures
        configuration.all_ways(ids) >= ids.len(),
    decreases ids.len(),
{
    if ids.len() > 0 {
        a_way_from_each(configuration, ids.drop_last());
    }
}

/// Where no entity configures itself, directly or through others, the successors of no more
/// entities are asked for than there are ways to go on from the first one along the edges,
/// and no more of these are visited than there are ways to leave it.
pub proof fn law_a_change_spreads_no_further_than_the_edges(
    configuration: Configuration,
    request: SuccessorsRequestModel,
    events: Seq<EntityResult<SuccessorsReplyModel>>,
)
    requires
        configuration.acyclic(),
        successors_runs(successors_start(request), events),
        configuration.gives_all(successors_start(request), events),
    ensures
        followed(successors_start(request), events).len() <= configuration.ways(
            request.entity_id,
        ),
        loaded(successors_start(request), events).len() <= configuration.ways(request.entity_id) - 1,
{
    run_spends(configuration, request, events);
    let at = successors_run(successors_start(request), events);
    a_way_from_each(configuration, at.0.to_check);
    if let SuccessorsPhaseModel::Loading { pending } = at.0.phase {
        a_way_from_each(configuration, pending);
    }
}

} // verus!
