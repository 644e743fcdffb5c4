//! What is stored along with every object of the model.
use crate::json;
use crate::json::{json_equal, json_same};
use vstd::prelude::*;
use vstd::std_specs::cmp::PartialEqSpec;

verus! {

/// How an object is stored: its type, the workspace it belongs to and whether it was
/// deleted. What nothing here reads is kept in `rest`.
#[derive(Debug)]
pub struct SiStorable {
    pub stored_type: String,
    pub workspace_id: String,
    pub deleted: bool,
    pub rest: serde_json::Value,
}

/// The change set that an object was saved in. Nothing here reads its fields.
#[derive(Debug)]
pub struct SiChangeSet {
    pub fields: serde_json::Value,
}

#[verifier::ext_equal]
pub struct SiStorableModel {
    pub stored_type: Seq<char>,
    pub workspace_id: Seq<char>,
    pub deleted: bool,
    pub rest: serde_json::Value,
}

impl View for SiStorable {
    type V = SiStorableModel;

    open spec fn view(&self) -> SiStorableModel {
        SiStorableModel {
            stored_type: self.stored_type@,
            workspace_id: self.workspace_id@,
            deleted: self.deleted,
            rest: self.rest,
        }
    }
}

impl SiStorableModel {
    pub open spec fn same(self, other: SiStorableModel) -> bool {
        &&& self.stored_type == other.stored_type
        &&& self.workspace_id == other.workspace_id
        &&& self.deleted == other.deleted
        &&& json_same(self.rest, other.rest)
    }
}

/// What an optional change set holds.
pub open spec fn change_set_model(change_set: Option<SiChangeSet>) -> Option<serde_json::Value> {
    match change_set {
        Some(inner) => Some(inner.fields),
        None => None,
    }
}

pub open spec fn same_change_set_models(
    left: Option<serde_json::Value>,
    right: Option<serde_json::Value>,
) -> bool {
    match (left, right) {
        (Some(l), Some(r)) => json_same(l, r),
        (None, None) => true,
        _ => false,
    }
}

impl Clone for SiStorable {
    fn clone(&self) -> (copied: Self)
        ensures
            copied@ == self@,
    {
        SiStorable {
            stored_type: self.stored_type.clone(),
            workspace_id: self.workspace_id.clone(),
            deleted: self.deleted,
            rest: json::copy(&self.rest),
        }
    }
}

impl PartialEq for SiStorable {
    fn eq(&self, other: &Self) -> (same: bool) {
        self.stored_type == other.stored_type && self.workspace_id == other.workspace_id
            && self.deleted == other.deleted && json::equal(&self.rest, &other.rest)
    }
}

impl vstd::std_specs::cmp::PartialEqSpecImpl for SiStorable {
    open spec fn obeys_eq_spec() -> bool {
        true
    }

    open spec fn eq_spec(&self, other: &Self) -> bool {
        self@.same(other@)
    }
}

impl Eq for SiStorable {

}

impl Clone for SiChangeSet {
    fn clone(&self) -> (copied: Self)
        ensures
            copied == *self,
    {
        SiChangeSet { fields: json::copy(&self.fields) }
    }
}

impl PartialEq for SiChangeSet {
    fn eq(&self, other: &Self) -> (same: bool) {
        json::equal(&self.fields, &other.fields)
    }
}

impl vstd::std_specs::cmp::PartialEqSpecImpl for SiChangeSet {
    open spec fn obeys_eq_spec() -> bool {
        true
    }

    open spec fn eq_spec(&self, other: &Self) -> bool {
        json_same(self.fields, other.fields)
    }
}

impl Eq for SiChangeSet {

}

pub(crate) fn copy_change_set(change_set: &Option<SiChangeSet>) -> (copied: Option<SiChangeSet>)
    ensures
        change_set_model(copied) == change_set_model(*change_set),
{
    match change_set {
        Some(inner) => Some(inner.clone()),
        None => None,
    }
}

pub(crate) fn same_change_sets(left: &Option<SiChangeSet>, right: &Option<SiChangeSet>) -> (same: bool)
    ensures
        same == same_change_set_models(change_set_model(*left), change_set_model(*right)),
{
    match (left, right) {
        (Some(l), Some(r)) => *l == *r,
        (None, None) => true,
        _ => false,
    }
}

/// What is stored along with an object is known by all its fields, and a change set by what
/// it holds.
pub proof fn law_a_storable_is_known_by_its_fields(
    storable: SiStorable,
    change_set: Option<SiChangeSet>,
)
    ensures
        storable@.stored_type == storable.stored_type@,
        storable@.workspace_id == storable.workspace_id@,
        storable@.deleted == storable.deleted,
        storable@.rest == storable.rest,
        change_set_model(change_set) is Some <==> change_set is Some,
        change_set matches Some(inner) ==> change_set_model(change_set) == Some(inner.fields),
{
}

/// What is stored along with two objects differs where any of its fields does.
pub proof fn law_storables_differ_in_any_field(left: SiStorableModel, right: SiStorableModel)
    ensures
        left.stored_type != right.stored_type ==> !left.same(right),
        left.workspace_id != right.workspace_id ==> !left.same(right),
        left.deleted != right.deleted ==> !left.same(right),
        (SiStorableModel { rest: right.rest, ..left }) == right ==> (left.same(right)
            <==> left.rest == right.rest || json_equal(left.rest, right.rest)),
{
}

/// Optional change sets are the same where there is none on either side, or where what both
/// hold is the same.
pub proof fn law_change_sets_differ_in_what_they_hold(
    left: serde_json::Value,
    right: serde_json::Value,
)
    ensures
        same_change_set_models(None, None),
        !same_change_set_models(Some(left), None),
        !same_change_set_models(None, Some(right)),
        same_change_set_models(Some(left), Some(right)) <==> left == right || json_equal(
            left,
            right,
        ),
{
}

/// `==` on what is stored goes by what it is known by, and on change sets by what they
/// hold.
pub proof fn law_storables_are_compared_whole(
    left: SiStorable,
    right: SiStorable,
    change_set: SiChangeSet,
    other: SiChangeSet,
)
    ensures
        left.eq_spec(&right) <==> left@.same(right@),
        change_set.eq_spec(&other) <==> change_set.fields == other.fields || json_equal(
            change_set.fields,
            other.fields,
        ),
{
}

} // verus!
