//! Finding an item of a list by its identifier.
use vstd::prelude::*;

verus! {

/// The first position of an identifier in a list.
pub open spec fn place(ids: Seq<u128>, id: u128) -> Option<int>
    decreases ids.len(),
{
    if ids.len() == 0 {
        None
    } else {
        match place(ids.drop_last(), id) {
            Some(at) => Some(at),
            None => if ids.last() == id {
                Some(ids.len() - 1)
            } else {
                None
            },
        }
    }
}

/// Whether no identifier stands twice in a list.
pub open spec fn distinct(ids: Seq<u128>) -> bool {
    forall|i: int, j: int| 0 <= i < j < ids.len() ==> ids[i] != ids[j]
}

/// What the position of an identifier says of the list.
pub proof fn lemma_place(ids: Seq<u128>, id: u128)
    ensures
        match place(ids, id) {
            Some(at) => 0 <= at < ids.len() && ids[at] == id && forall|j: int|
                0 <= j < at ==> ids[j] != id,
            None => !ids.contains(id),
        },
    decreases ids.len(),
{
    if ids.len() > 0 {
        lemma_place(ids.drop_last(), id);
        let rest = ids.drop_last();
        if place(ids, id) is None {
            assert forall|j: int| 0 <= j < ids.len() implies ids[j] != id by {
                if j < rest.len() {
                    assert(rest[j] == ids[j]);
                    assert(rest.contains(rest[j]));
                }
            }
        } else if place(rest, id) is None {
            assert forall|j: int| 0 <= j < ids.len() - 1 implies ids[j] != id by {
                assert(rest[j] == ids[j]);
                assert(rest.contains(rest[j]));
            }
        } else {
            let at = place(rest, id)->0;
            assert forall|j: int| 0 <= j < at implies ids[j] != id by {
                assert(rest[j] == ids[j]);
            }
        }
    }
}

/// A position that holds an identifier, with none before it that does, is its place.
pub proof fn lemma_place_is(ids: Seq<u128>, id: u128, at: int)
    requires
        0 <= at < ids.len(),
        ids[at] == id,
        forall|j: int| 0 <= j < at ==> ids[j] != id,
    ensures
        place(ids, id) == Some(at),
{
    lemma_place(ids, id);
    assert(ids.contains(ids[at]));
}

/// What a filter keeps is an item of the list that the filter wants.
pub proof fn lemma_filtered<T>(items: Seq<T>, wanted: spec_fn(T) -> bool, i: int)
    requires
        0 <= i < items.filter(wanted).len(),
    ensures
        wanted(items.filter(wanted)[i]),
        items.contains(items.filter(wanted)[i]),
    decreases items.len(),
{
    reveal(Seq::filter);
    let rest = items.drop_last();
    if i < rest.filter(wanted).len() {
        lemma_filtered(rest, wanted, i);
        let j = choose|j: int| 0 <= j < rest.len() && rest[j] == rest.filter(wanted)[i];
        assert(items[j] == items.filter(wanted)[i]);
    } else {
        assert(items[items.len() - 1] == items.filter(wanted)[i]);
    }
}

/// A copy of a list of identifiers.
pub fn copy_ids(ids: &Vec<u128>) -> (copy: Vec<u128>)
    ensures
        copy@ == ids@,
{
    let mut copy: Vec<u128> = Vec::new();
    for i in 0..ids.len()
        invariant
            copy@ == ids@.take(i as int),
    {
        copy.push(ids[i]);
    }
    copy
}

/// An identifier that the list does not hold has no place.
pub proof fn lemma_no_place(ids: Seq<u128>, id: u128)
    requires
        forall|j: int| 0 <= j < ids.len() ==> ids[j] != id,
    ensures
        place(ids, id) is None,
{
    lemma_place(ids, id);
}

/// An identifier is found where it stands first, and nowhere where it does not
/// stand.
pub proof fn law_identifiers_are_found(ids: Seq<u128>, id: u128, at: int)
    requires
        0 <= at < ids.len(),
    ensures
        ids[at] == id ==> (place(ids, id) matches Some(found) && 0 <= found <= at && ids[found]
            == id),
        distinct(ids) && ids[at] == id ==> place(ids, id) == Some(at),
        place(ids, id) is None ==> ids[at] != id,
{
    lemma_place(ids, id);
    if ids[at] == id {
        assert(ids.contains(id));
        let found = place(ids, id)->0;
        if distinct(ids) && found < at {
            assert(ids[found] != ids[at]);
        }
    }
}

} // verus!
