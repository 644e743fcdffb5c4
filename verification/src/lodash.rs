//! Reading a JSON value at a path.
//!
//! Two things here are choices of this library. A decimal segment is a position where the
//! value is an array. And a read never fails: a path that leads nowhere gives nothing, so
//! that [`LodashError`] is only for those who read in another way.
use crate::json::{item, json_items, json_members, member};
use crate::text::texts;
use vstd::prelude::*;

verus! {

/// Why a read at a path failed.
#[derive(Debug)]
pub struct LodashError {
    pub message: String,
}

pub type LodashResult<T> = Result<T, LodashError>;

/// The number that a run of decimal digits stands for.
pub open spec fn decimal(digits: Seq<char>) -> nat
    decreases digits.len(),
{
    if digits.len() == 0 {
        0
    } else {
        10 * decimal(digits.drop_last()) + (digits.last() as u32 - '0' as u32) as nat
    }
}

/// A path segment names a position in an array where it is a decimal number that a
/// position can be, written without a superfluous zero in front. That segments name
/// positions at all is a choice of this library.
pub open spec fn is_position(segment: Seq<char>) -> bool {
    &&& segment.len() > 0
    &&& forall|i: int| 0 <= i < segment.len() ==> '0' <= #[trigger] segment[i] <= '9'
    &&& segment[0] == '0' ==> segment.len() == 1
    &&& decimal(segment) <= usize::MAX
}

/// What one path segment leads to: the member of that key, or the item at that
/// position.
pub open spec fn child(value: serde_json::Value, segment: Seq<char>) -> Option<serde_json::Value> {
    if json_members(value).contains_key(segment) {
        Some(json_members(value)[segment])
    } else if is_position(segment) && decimal(segment) < json_items(value).len() {
        Some(json_items(value)[decimal(segment) as int])
    } else {
        None
    }
}

/// What a path leads to, one segment after the other. The empty path leads to the value
/// itself.
pub open spec fn lookup(value: serde_json::Value, path: Seq<Seq<char>>) -> Option<serde_json::Value>
    decreases path.len(),
{
    if path.len() == 0 {
        Some(value)
    } else {
        match child(value, path[0]) {
            Some(inner) => lookup(inner, path.drop_first()),
            None => None,
        }
    }
}

proof fn decimal_grows(digits: Seq<char>, n: int)
    requires
        0 <= n <= digits.len(),
        forall|i: int| 0 <= i < digits.len() ==> '0' <= #[trigger] digits[i] <= '9',
    ensures
        decimal(digits.take(n)) <= decimal(digits),
    decreases digits.len() - n,
{
    if n < digits.len() {
        decimal_grows(digits, n + 1);
        assert(digits.take(n + 1).drop_last() =~= digits.take(n));
    } else {
        assert(digits.take(n) =~= digits);
    }
}

/// Reads a path segment as a position in an array.
pub fn position(segment: &str) -> (found: Option<usize>)
    ensures
        found is Some <==> is_position(segment@),
        found matches Some(n) ==> n == decimal(segment@),
{
    let n: usize = segment.unicode_len();
    if n == 0 {
        return None;
    }
    if segment.get_char(0) == '0' && n != 1 {
        return None;
    }
    let mut value: usize = 0;
    let mut i: usize = 0;
    while i < n
        invariant
            n == segment@.len(),
            i <= n,
            forall|j: int| 0 <= j < i ==> '0' <= #[trigger] segment@[j] <= '9',
            value == decimal(segment@.take(i as int)),
        decreases n - i,
    {
        let c: char = segment.get_char(i);
        if c < '0' || c > '9' {
            return None;
        }
        let digit: usize = c as usize - '0' as usize;
        assert(segment@.take(i + 1).drop_last() =~= segment@.take(i as int));
        if value > (usize::MAX - digit) / 10 {
            proof {
                if is_position(segment@) {
                    decimal_grows(segment@, i + 1);
                }
            }
            return None;
        }
        value = value * 10 + digit;
        i = i + 1;
    }
    assert(segment@.take(n as int) =~= segment@);
    Some(value)
}

/// Reads what one path segment leads to.
pub fn step<'a>(value: &'a serde_json::Value, segment: &str) -> (found: Option<&'a serde_json::Value>)
    ensures
        match found {
            Some(inner) => child(*value, segment@) == Some(*inner),
            None => child(*value, segment@) is None,
        },
{
    match member(value, segment) {
        Some(inner) => Some(inner),
        None => match position(segment) {
            Some(index) => item(value, index),
            None => None,
        },
    }
}

/// Reads what a path leads to in a value. A path that leads nowhere is no failure; by a
/// choice of this library nothing else is one either.
pub fn get<'a>(object: &'a serde_json::Value, path: &Vec<String>) -> (found: LodashResult<Option<&'a serde_json::Value>>)
    ensures
        match found {
            Ok(Some(inner)) => lookup(*object, texts(path@)) == Some(*inner),
            Ok(None) => lookup(*object, texts(path@)) is None,
            Err(_) => false,
        },
{
    let mut current: &'a serde_json::Value = object;
    let ghost whole = texts(path@);
    assert(whole.skip(0) =~= whole);
    for i in 0..path.len()
        invariant
            whole == texts(path@),
            lookup(*object, whole) == lookup(*current, whole.skip(i as int)),
    {
        assert(whole.skip(i as int).drop_first() =~= whole.skip(i + 1));
        match step(current, path[i].as_str()) {
            Some(inner) => {
                current = inner;
            },
            None => {
                return Ok(None);
            },
        }
    }
    Ok(Some(current))
}

/// Reading a path is reading its first part, and the rest in what that leads to.
pub proof fn law_lookup_in_parts(value: serde_json::Value, front: Seq<Seq<char>>, back: Seq<Seq<char>>)
    ensures
        lookup(value, front + back) == match lookup(value, front) {
            Some(inner) => lookup(inner, back),
            None => None,
        },
    decreases front.len(),
{
    if front.len() == 0 {
        assert(front + back =~= back);
    } else {
        assert((front + back).drop_first() =~= front.drop_first() + back);
        match child(value, front[0]) {
            Some(inner) => law_lookup_in_parts(inner, front.drop_first(), back),
            None => {},
        }
    }
}

/// A segment names a position exactly where it is a decimal number without a superfluous
/// zero in front, and no larger than a position can be. A further digit makes ten times the
/// number and that digit.
pub proof fn law_a_position_is_a_decimal_number(segment: Seq<char>, digit: char)
    requires
        '0' <= digit <= '9',
    ensures
        !is_position(Seq::empty()),
        decimal(Seq::empty()) == 0,
        decimal(segment.push(digit)) == 10 * decimal(segment) + (digit as int - '0' as int),
        is_position(seq![digit]),
        segment.len() > 0 ==> (is_position(segment.push(digit)) <==> is_position(segment)
            && segment != seq!['0'] && 10 * decimal(segment) + (digit as int - '0' as int)
            <= usize::MAX),
{
    let more = segment.push(digit);
    assert(more.drop_last() =~= segment);
    assert(seq![digit].drop_last() =~= Seq::empty());
    assert(decimal(seq![digit].drop_last()) == 0);
    assert(decimal(seq![digit]) <= 9);
    if segment.len() > 0 {
        assert(more[0] == segment[0]);
        if is_position(more) {
            assert forall|i: int| 0 <= i < segment.len() implies '0' <= #[trigger] segment[i]
                <= '9' by {
                assert(more[i] == segment[i]);
            }
        }
        if segment.len() == 1 && segment[0] == '0' {
            assert(segment =~= seq!['0']);
        }
    }
}

/// A segment that holds anything but decimal digits names no position.
pub proof fn law_only_digits_name_a_position(segment: Seq<char>, i: int)
    requires
        0 <= i < segment.len(),
        !('0' <= segment[i] <= '9'),
    ensures
        !is_position(segment),
{
}

/// One segment leads to the member under it where there is one, else to the item at the
/// position it names where there is one, and else nowhere. No segment leads to the value
/// itself.
pub proof fn law_a_segment_leads_to_a_member_or_an_item(value: serde_json::Value, segment: Seq<char>)
    ensures
        lookup(value, Seq::empty()) == Some(value),
        lookup(value, seq![segment]) == child(value, segment),
        json_members(value).contains_key(segment) ==> lookup(value, seq![segment]) == Some(
            json_members(value)[segment],
        ),
        !json_members(value).contains_key(segment) && is_position(segment) && decimal(segment)
            < json_items(value).len() ==> lookup(value, seq![segment]) == Some(
            json_items(value)[decimal(segment) as int],
        ),
        !json_members(value).contains_key(segment) && !(is_position(segment) && decimal(segment)
            < json_items(value).len()) ==> lookup(value, seq![segment]) is None,
{
    assert(seq![segment].drop_first() =~= Seq::empty());
    reveal_with_fuel(lookup, 2);
}

/// A path that leads somewhere does so through each of its beginnings: where one of these
/// leads nowhere, the whole does.
pub proof fn law_a_path_leads_through_its_beginnings(
    value: serde_json::Value,
    path: Seq<Seq<char>>,
    n: int,
)
    requires
        0 <= n <= path.len(),
        lookup(value, path) is Some,
    ensures
        lookup(value, path.take(n)) is Some,
{
    law_lookup_in_parts(value, path.take(n), path.skip(n));
    assert(path.take(n) + path.skip(n) =~= path);
}

/// Reading a path gives what the path leads to, and nothing where it leads nowhere. Reading
/// it in two parts, the second in what the first led to, gives the same.
pub proof fn law_reading_gives_what_the_path_leads_to(
    object: serde_json::Value,
    front: Vec<String>,
    back: Vec<String>,
    path: Vec<String>,
    middle: serde_json::Value,
    first: LodashResult<Option<&serde_json::Value>>,
    second: LodashResult<Option<&serde_json::Value>>,
    found: LodashResult<Option<&serde_json::Value>>,
)
    requires
        texts(path@) == texts(front@) + texts(back@),
        call_ensures(get, (&object, &front), first),
        call_ensures(get, (&middle, &back), second),
        call_ensures(get, (&object, &path), found),
    ensures
        match found {
            Ok(Some(value)) => lookup(object, texts(path@)) == Some(*value),
            Ok(None) => lookup(object, texts(path@)) is None,
            Err(_) => false,
        },
        first == Ok::<_, LodashError>(Some(&middle)) ==> found == second,
        first == Ok::<_, LodashError>(None::<&serde_json::Value>) ==> found == first,
{
    law_lookup_in_parts(object, texts(front@), texts(back@));
}

} // verus!
