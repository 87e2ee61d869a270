//! The members of documents, and what a document says under a name.
use crate::json::{lookup, JsonView};
use vstd::prelude::*;

verus! {

/// A member that is added is found where none before it has its name.
pub broadcast proof fn lemma_member_added(
    members: Seq<(Seq<char>, JsonView)>,
    name: Seq<char>,
    value: JsonView,
    key: Seq<char>,
)
    ensures
        #[trigger] lookup(members.push((name, value)), key) == match lookup(members, key) {
            Some(found) => Some(found),
            None => if name == key {
                Some(value)
            } else {
                None
            },
        },
    decreases members.len(),
{
    let longer = members.push((name, value));
    if members.len() == 0 {
        assert(longer.skip(1) =~= Seq::empty());
        assert(lookup(longer.skip(1), key) is None);
    } else {
        lemma_member_added(members.skip(1), name, value, key);
        assert(longer.skip(1) =~= members.skip(1).push((name, value)));
    }
}

/// What a document says under a name is what the first member of that name says,
/// and nothing where there is no such member.
pub proof fn law_members_are_found_by_name(
    members: Seq<(Seq<char>, JsonView)>,
    key: Seq<char>,
    at: int,
)
    ensures
        0 <= at < members.len() && members[at].0 == key && (forall|i: int|
            0 <= i < at ==> (#[trigger] members[i]).0 != key) ==> JsonView::Object(members).member(
            key,
        ) == Some(members[at].1),
        (forall|i: int| 0 <= i < members.len() ==> (#[trigger] members[i]).0 != key)
            ==> JsonView::Object(members).member(key) is None,
    decreases members.len(),
{
    if members.len() > 0 {
        let rest = members.skip(1);
        assert forall|i: int| 0 <= i < rest.len() implies rest[i] == members[i + 1] by {}
        law_members_are_found_by_name(rest, key, at - 1);
        if 0 < at < members.len() && members[at].0 == key && (forall|i: int|
            0 <= i < at ==> (#[trigger] members[i]).0 != key) {
            assert(members[0].0 != key);
            assert forall|i: int| 0 <= i < at - 1 implies (#[trigger] rest[i]).0 != key by {
                assert(members[i + 1].0 != key);
            }
        }
        if forall|i: int| 0 <= i < members.len() ==> (#[trigger] members[i]).0 != key {
            assert(members[0].0 != key);
            assert forall|i: int| 0 <= i < rest.len() implies (#[trigger] rest[i]).0 != key by {
                assert(members[i + 1].0 != key);
            }
        }
    }
}

/// Members that are put behind others are found where none of those has the name.
pub broadcast proof fn lemma_members_joined(
    first: Seq<(Seq<char>, JsonView)>,
    second: Seq<(Seq<char>, JsonView)>,
    key: Seq<char>,
)
    ensures
        #[trigger] lookup(first + second, key) == match lookup(first, key) {
            Some(found) => Some(found),
            None => lookup(second, key),
        },
    decreases first.len(),
{
    if first.len() == 0 {
        assert(first + second =~= second);
    } else {
        lemma_members_joined(first.skip(1), second, key);
        assert((first + second).skip(1) =~= first.skip(1) + second);
    }
}

/// An empty document says nothing.
pub broadcast proof fn lemma_no_members(key: Seq<char>)
    ensures
        #[trigger] lookup(Seq::empty(), key) is None,
{
}

pub broadcast group group_members {
    lemma_member_added,
    lemma_members_joined,
    lemma_no_members,
}

/// The place of the first member of a name, from a place on.
pub open spec fn first_named(
    members: Seq<(Seq<char>, JsonView)>,
    key: Seq<char>,
    from: int,
) -> Option<int>
    decreases members.len() - from,
{
    if from < 0 || from >= members.len() {
        None
    } else if members[from].0 == key {
        Some(from)
    } else {
        first_named(members, key, from + 1)
    }
}

/// What a document says under a name stands at the place of the first member of
/// that name.
pub proof fn lemma_first_named(members: Seq<(Seq<char>, JsonView)>, key: Seq<char>, from: int)
    requires
        0 <= from <= members.len(),
    ensures
        lookup(members.skip(from), key) == match first_named(members, key, from) {
            Some(at) => Some(members[at].1),
            None => None,
        },
    decreases members.len() - from,
{
    if from < members.len() {
        lemma_first_named(members, key, from + 1);
        assert(members.skip(from).skip(1) =~= members.skip(from + 1));
    }
}

/// What a document says under each name.
pub proof fn lemma_members(members: Seq<(Seq<char>, JsonView)>)
    ensures
        forall|key: Seq<char>| #[trigger]
            lookup(members, key) == match first_named(members, key, 0) {
                Some(at) => Some(members[at].1),
                None => None,
            },
{
    assert forall|key: Seq<char>| #[trigger]
        lookup(members, key) == (match first_named(members, key, 0) {
            Some(at) => Some(members[at].1),
            None => None,
        }) by {
        lemma_first_named(members, key, 0);
        assert(members.skip(0) =~= members);
    }
}

} // verus!
