//! Lists of strings.
use vstd::prelude::*;

verus! {

/// The characters of each string of a list.
pub open spec fn texts(strings: Seq<String>) -> Seq<Seq<char>> {
    strings.map_values(|s: String| s@)
}

/// What waits in a list of strings that is worked off from its end, the next one first.
pub open spec fn waiting(strings: Seq<String>) -> Seq<Seq<char>> {
    texts(strings).reverse()
}

/// Taking the last string off such a list leaves what waits behind the next one.
pub(crate) proof fn waiting_behind(strings: Seq<String>)
    requires
        strings.len() > 0,
    ensures
        waiting(strings).len() == strings.len(),
        waiting(strings)[0] == strings.last()@,
        waiting(strings.drop_last()) == waiting(strings).drop_first(),
{
    assert(waiting(strings.drop_last()) =~= waiting(strings).drop_first());
}

/// Copies a list of strings.
pub(crate) fn copy_texts(strings: &Vec<String>) -> (copied: Vec<String>)
    ensures
        texts(copied@) == texts(strings@),
{
    let mut copied: Vec<String> = Vec::new();
    for i in 0..strings.len()
        invariant
            copied@.len() == i,
            forall|j: int| 0 <= j < i ==> copied@[j]@ == strings@[j]@,
    {
        copied.push(strings[i].clone());
    }
    assert(texts(copied@) =~= texts(strings@));
    copied
}

/// Tells whether two lists hold the same strings in the same order.
pub(crate) fn same_texts(left: &Vec<String>, right: &Vec<String>) -> (same: bool)
    ensures
        same == (texts(left@) == texts(right@)),
{
    if left.len() != right.len() {
        assert(texts(left@).len() != texts(right@).len());
        return false;
    }
    for i in 0..left.len()
        invariant
            left@.len() == right@.len(),
            forall|j: int| 0 <= j < i ==> left@[j]@ == right@[j]@,
    {
        if left[i] != right[i] {
            assert(texts(left@)[i as int] != texts(right@)[i as int]);
            return false;
        }
    }
    assert(texts(left@) =~= texts(right@));
    true
}

/// The texts of a list are those of its strings, in order; what waits in it are the same
/// texts, from its end.
pub proof fn law_texts_are_those_of_the_strings(strings: Seq<String>)
    ensures
        texts(strings).len() == strings.len(),
        waiting(strings).len() == strings.len(),
        forall|i: int| 0 <= i < strings.len() ==> #[trigger] texts(strings)[i] == strings[i]@,
        forall|i: int|
            0 <= i < strings.len() ==> #[trigger] waiting(strings)[i] == strings[strings.len() - 1
                - i]@,
{
}

} // verus!
