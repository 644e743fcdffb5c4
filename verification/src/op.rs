//! The operations that an entity's properties are made from.
use crate::json;
use crate::json::{json_equal, json_same};
use crate::text::{copy_texts, same_texts, texts};
use vstd::prelude::*;
use vstd::std_specs::cmp::PartialEqSpec;

verus! {

/// Whether an operation sets a value, unsets one or marks another as gone.
#[derive(Clone, Copy, Debug, PartialEq, Eq, Structural)]
pub enum OpType {
    SetValue,
    Unset,
    Tombstone,
}

/// Where an operation comes from.
#[derive(Clone, Copy, Debug, PartialEq, Eq, Structural)]
pub enum OpSource {
    Manual,
    Expression,
    Inferred,
}

/// Sets or unsets the value at a path, in one system.
#[derive(Debug)]
pub struct Op {
    pub op: OpType,
    pub source: OpSource,
    pub system: String,
    pub path: Vec<String>,
    pub value: serde_json::Value,
}

/// Marks an operation as gone.
#[derive(Debug)]
pub struct OpTombstone {
    pub op: OpType,
    pub source: OpSource,
    pub system: String,
    pub path: Vec<String>,
}

/// What is kept of an array besides its items.
#[derive(Clone, Copy, Debug, PartialEq, Eq, Structural)]
pub struct ArrayMeta {
    pub length: u64,
}

#[verifier::ext_equal]
pub struct OpModel {
    pub op: OpType,
    pub source: OpSource,
    pub system: Seq<char>,
    pub path: Seq<Seq<char>>,
    pub value: serde_json::Value,
}

#[verifier::ext_equal]
pub struct OpTombstoneModel {
    pub op: OpType,
    pub source: OpSource,
    pub system: Seq<char>,
    pub path: Seq<Seq<char>>,
}

impl View for Op {
    type V = OpModel;

    open spec fn view(&self) -> OpModel {
        OpModel {
            op: self.op,
            source: self.source,
            system: self.system@,
            path: texts(self.path@),
            value: self.value,
        }
    }
}

impl View for OpTombstone {
    type V = OpTombstoneModel;

    open spec fn view(&self) -> OpTombstoneModel {
        OpTombstoneModel {
            op: self.op,
            source: self.source,
            system: self.system@,
            path: texts(self.path@),
        }
    }
}

impl OpModel {
    /// Two operations are the same where their fields are, the values by `serde_json`'s
    /// equality.
    pub open spec fn same(self, other: OpModel) -> bool {
        &&& self.op == other.op
        &&& self.source == other.source
        &&& self.system == other.system
        &&& self.path == other.path
        &&& json_same(self.value, other.value)
    }
}

/// The models of a list of operations.
pub open spec fn op_models(ops: Seq<Op>) -> Seq<OpModel> {
    ops.map_values(|op: Op| op@)
}

/// The models of a list of tombstones.
pub open spec fn tombstone_models(tombstones: Seq<OpTombstone>) -> Seq<OpTombstoneModel> {
    tombstones.map_values(|tombstone: OpTombstone| tombstone@)
}

/// Two lists hold the same operations in the same order.
pub open spec fn same_op_models(left: Seq<OpModel>, right: Seq<OpModel>) -> bool {
    &&& left.len() == right.len()
    &&& forall|i: int| 0 <= i < left.len() ==> (#[trigger] left[i]).same(right[i])
}

impl Clone for Op {
    fn clone(&self) -> (copied: Self)
        ensures
            copied@ == self@,
    {
        Op {
            op: self.op,
            source: self.source,
            system: self.system.clone(),
            path: copy_texts(&self.path),
            value: json::copy(&self.value),
        }
    }
}

impl PartialEq for Op {
    fn eq(&self, other: &Self) -> (same: bool) {
        self.op == other.op && self.source == other.source && self.system == other.system
            && same_texts(&self.path, &other.path) && json::equal(&self.value, &other.value)
    }
}

impl vstd::std_specs::cmp::PartialEqSpecImpl for Op {
    open spec fn obeys_eq_spec() -> bool {
        true
    }

    open spec fn eq_spec(&self, other: &Self) -> bool {
        self@.same(other@)
    }
}

impl Eq for Op {

}

impl Clone for OpTombstone {
    fn clone(&self) -> (copied: Self)
        ensures
            copied@ == self@,
    {
        OpTombstone {
            op: self.op,
            source: self.source,
            system: self.system.clone(),
            path: copy_texts(&self.path),
        }
    }
}

impl PartialEq for OpTombstone {
    fn eq(&self, other: &Self) -> (same: bool) {
        self.op == other.op && self.source == other.source && self.system == other.system
            && same_texts(&self.path, &other.path)
    }
}

impl vstd::std_specs::cmp::PartialEqSpecImpl for OpTombstone {
    open spec fn obeys_eq_spec() -> bool {
        true
    }

    open spec fn eq_spec(&self, other: &Self) -> bool {
        self@ == other@
    }
}

impl Eq for OpTombstone {

}

/// Copies a list of operations.
pub(crate) fn copy_ops(ops: &Vec<Op>) -> (copied: Vec<Op>)
    ensures
        op_models(copied@) == op_models(ops@),
{
    let mut copied: Vec<Op> = Vec::new();
    for i in 0..ops.len()
        invariant
            copied@.len() == i,
            forall|j: int| 0 <= j < i ==> copied@[j]@ == ops@[j]@,
    {
        copied.push(ops[i].clone());
    }
    assert(op_models(copied@) =~= op_models(ops@));
    copied
}

/// Copies a list of tombstones.
pub(crate) fn copy_tombstones(tombstones: &Vec<OpTombstone>) -> (copied: Vec<OpTombstone>)
    ensures
        tombstone_models(copied@) == tombstone_models(tombstones@),
{
    let mut copied: Vec<OpTombstone> = Vec::new();
    for i in 0..tombstones.len()
        invariant
            copied@.len() == i,
            forall|j: int| 0 <= j < i ==> copied@[j]@ == tombstones@[j]@,
    {
        copied.push(tombstones[i].clone());
    }
    assert(tombstone_models(copied@) =~= tombstone_models(tombstones@));
    copied
}

/// Tells whether two lists hold the same operations in the same order.
pub(crate) fn same_ops(left: &Vec<Op>, right: &Vec<Op>) -> (same: bool)
    ensures
        same == same_op_models(op_models(left@), op_models(right@)),
{
    if left.len() != right.len() {
        return false;
    }
    for i in 0..left.len()
        invariant
            left@.len() == right@.len(),
            forall|j: int| 0 <= j < i ==> (#[trigger] op_models(left@)[j]).same(op_models(right@)[j]),
    {
        if left[i] != right[i] {
            assert(!op_models(left@)[i as int].same(op_models(right@)[i as int]));
            return false;
        }
    }
    true
}

/// Tells whether two lists hold the same tombstones in the same order.
pub(crate) fn same_tombstones(left: &Vec<OpTombstone>, right: &Vec<OpTombstone>) -> (same: bool)
    ensures
        same == (tombstone_models(left@) == tombstone_models(right@)),
{
    if left.len() != right.len() {
        assert(tombstone_models(left@).len() != tombstone_models(right@).len());
        return false;
    }
    for i in 0..left.len()
        invariant
            left@.len() == right@.len(),
            forall|j: int| 0 <= j < i ==> left@[j]@ == right@[j]@,
    {
        if left[i] != right[i] {
            assert(tombstone_models(left@)[i as int] != tombstone_models(right@)[i as int]);
            return false;
        }
    }
    assert(tombstone_models(left@) =~= tombstone_models(right@));
    true
}

/// An operation is known by all its fields.
pub proof fn law_an_op_is_known_by_its_fields(op: Op)
    ensures
        op@.op == op.op,
        op@.source == op.source,
        op@.system == op.system@,
        op@.path.len() == op.path@.len(),
        forall|i: int| 0 <= i < op.path@.len() ==> #[trigger] op@.path[i] == op.path@[i]@,
        op@.value == op.value,
{
}

/// A tombstone is known by all its fields.
pub proof fn law_a_tombstone_is_known_by_its_fields(tombstone: OpTombstone)
    ensures
        tombstone@.op == tombstone.op,
        tombstone@.source == tombstone.source,
        tombstone@.system == tombstone.system@,
        tombstone@.path.len() == tombstone.path@.len(),
        forall|i: int|
            0 <= i < tombstone.path@.len() ==> #[trigger] tombstone@.path[i]
                == tombstone.path@[i]@,
{
}

/// Operations and tombstones are known one by one, in order.
pub proof fn law_ops_keep_their_order(ops: Seq<Op>, tombstones: Seq<OpTombstone>)
    ensures
        op_models(ops).len() == ops.len(),
        tombstone_models(tombstones).len() == tombstones.len(),
        forall|i: int| 0 <= i < ops.len() ==> #[trigger] op_models(ops)[i] == ops[i]@,
        forall|i: int|
            0 <= i < tombstones.len() ==> #[trigger] tombstone_models(tombstones)[i]
                == tombstones[i]@,
{
}

/// Operations differ where anything about them does: only where kind, source, system and
/// path are equal can they be the same, and they then are exactly where their values are.
pub proof fn law_ops_differ_in_any_field(left: OpModel, right: OpModel)
    ensures
        left.op != right.op ==> !left.same(right),
        left.source != right.source ==> !left.same(right),
        left.system != right.system ==> !left.same(right),
        left.path != right.path ==> !left.same(right),
        (OpModel { value: right.value, ..left }) == right ==> (left.same(right) <==> left.value
            == right.value || json_equal(left.value, right.value)),
{
}

/// Lists of operations are the same exactly where they are equally long and the operations
/// at each place are the same.
pub proof fn law_lists_of_ops_differ_at_any_place(left: Seq<OpModel>, right: Seq<OpModel>)
    ensures
        left.len() != right.len() ==> !same_op_models(left, right),
        forall|i: int|
            0 <= i < left.len() && left.len() == right.len() && !(#[trigger] left[i]).same(
                right[i],
            ) ==> !same_op_models(left, right),
        left.len() == right.len() && (forall|i: int|
            0 <= i < left.len() ==> (#[trigger] left[i]).same(right[i])) ==> same_op_models(
            left,
            right,
        ),
{
}

/// `==` on operations and tombstones goes by what they are known by.
pub proof fn law_ops_are_compared_whole(
    left: Op,
    right: Op,
    tombstone: OpTombstone,
    other: OpTombstone,
)
    ensures
        left.eq_spec(&right) <==> left@.same(right@),
        tombstone.eq_spec(&other) <==> tombstone@ == other@,
{
}

} // verus!
