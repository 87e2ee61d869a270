//! Stable ordering: the positions of a list in the order in which a stable sort
//! puts its items.
use vstd::prelude::*;

verus! {

/// Whether a relation is the "comes before" of a sort: a strict order whose
/// incomparable items form classes.
pub open spec fn sorts(less: spec_fn(int, int) -> bool) -> bool {
    &&& forall|i: int| !#[trigger] less(i, i)
    &&& forall|i: int, j: int, k: int|
        !#[trigger] less(j, i) && !#[trigger] less(k, j) ==> !less(k, i)
    &&& forall|i: int, j: int| #[trigger] less(i, j) ==> !less(j, i)
}

/// Whether a list names each position below `count` once.
pub open spec fn permutes(order: Seq<usize>, count: nat) -> bool {
    &&& order.len() == count
    &&& forall|a: int| 0 <= a < order.len() ==> #[trigger] order[a] < count
    &&& forall|a: int, b: int| 0 <= a < b < order.len() ==> order[a] != order[b]
}

/// Whether positions stand in the order of a relation, equals in their own order.
pub open spec fn arranged(order: Seq<usize>, less: spec_fn(int, int) -> bool) -> bool {
    forall|a: int, b: int|
        0 <= a < b < order.len() ==> {
            ||| less(#[trigger] order[a] as int, #[trigger] order[b] as int)
            ||| !less(order[b] as int, order[a] as int) && order[a] < order[b]
        }
}

/// Whether positions are those of a stable sort.
pub open spec fn stable(order: Seq<usize>, count: nat, less: spec_fn(int, int) -> bool) -> bool {
    permutes(order, count) && arranged(order, less)
}

/// The items of a list at given positions.
pub open spec fn picked<T>(items: Seq<T>, order: Seq<usize>) -> Seq<T> {
    Seq::new(order.len(), |i: int| items[order[i] as int])
}

/// One list of positions at most is that of a stable sort, so a listing in a
/// stable order is determined by what it lists.
pub proof fn law_stable_order_is_unique(
    left: Seq<usize>,
    right: Seq<usize>,
    count: nat,
    less: spec_fn(int, int) -> bool,
)
    requires
        sorts(less),
        stable(left, count, less),
        stable(right, count, less),
    ensures
        left == right,
{
    if count > 0 {
        lemma_agree(left, right, count, less, count - 1);
    }
    assert(left =~= right);
}

proof fn lemma_agree(
    left: Seq<usize>,
    right: Seq<usize>,
    count: nat,
    less: spec_fn(int, int) -> bool,
    i: int,
)
    requires
        sorts(less),
        stable(left, count, less),
        stable(right, count, less),
        0 <= i < count,
    ensures
        forall|j: int| 0 <= j <= i ==> left[j] == right[j],
    decreases i,
{
    if i > 0 {
        lemma_agree(left, right, count, less, i - 1);
    }
    lemma_names_each(left, count);
    lemma_names_each(right, count);
    assert(left.contains(right[i]) && right.contains(left[i]));
    let a = choose|a: int| 0 <= a < left.len() && left[a] == right[i];
    let b = choose|b: int| 0 <= b < right.len() && right[b] == left[i];
    assert(a >= i) by {
        if a < i {
            assert(right[a] == right[i]);
        }
    }
    assert(b >= i) by {
        if b < i {
            assert(left[b] == left[i]);
        }
    }
}

/// A list that names each position once names every position.
pub proof fn lemma_names_each(order: Seq<usize>, count: nat)
    requires
        permutes(order, count),
    ensures
        forall|k: usize| k < count ==> #[trigger] order.contains(k),
{
    assert forall|k: usize| k < count implies #[trigger] order.contains(k) by {
        if !order.contains(k) {
            lemma_pigeons(order, k, count);
        }
    }
}

/// Distinct numbers below a bound that leave one out are fewer than the bound.
proof fn lemma_pigeons(order: Seq<usize>, missing: usize, count: nat)
    requires
        forall|a: int| 0 <= a < order.len() ==> #[trigger] order[a] < count,
        forall|a: int, b: int| 0 <= a < b < order.len() ==> order[a] != order[b],
        missing < count,
        !order.contains(missing),
    ensures
        order.len() < count,
{
    let domain = vstd::set_lib::set_int_range(0, count as int);
    vstd::set_lib::lemma_int_range(0, count as int);
    let numbers = order.map(|i: int, v: usize| v as int);
    assert(numbers.no_duplicates()) by {
        assert forall|a: int, b: int|
            0 <= a < numbers.len() && 0 <= b < numbers.len() && a != b implies numbers[a]
            != numbers[b] by {
            if a < b {
                assert(order[a] != order[b]);
            } else {
                assert(order[b] != order[a]);
            }
        }
    }
    numbers.unique_seq_to_set();
    assert(numbers.to_set().subset_of(domain.remove(missing as int))) by {
        assert forall|x: int| numbers.to_set().contains(x) implies domain.remove(
            missing as int,
        ).contains(x) by {
            let a = choose|a: int| 0 <= a < numbers.len() && numbers[a] == x;
            assert(order[a] as int == x);
            assert(order.contains(order[a]));
        }
    }
    vstd::set_lib::lemma_len_subset(numbers.to_set(), domain.remove(missing as int));
}

/// The positions below `count` in the order of a stable sort by `less`.
pub(crate) fn stable_order<F: Fn(usize, usize) -> bool>(
    count: usize,
    less: F,
    relation: Ghost<spec_fn(int, int) -> bool>,
) -> (order: Vec<usize>)
    requires
        sorts(relation@),
        forall|i: usize, j: usize| i < count && j < count ==> #[trigger] less.requires((i, j)),
        forall|i: usize, j: usize, answer: bool| #[trigger]
            less.ensures((i, j), answer) ==> answer == (relation@)(i as int, j as int),
    ensures
        stable(order@, count as nat, relation@),
{
    let ghost comes_first = relation@;
    let mut order: Vec<usize> = Vec::new();
    for item in 0..count
        invariant
            comes_first == relation@,
            sorts(comes_first),
            forall|i: usize, j: usize| i < count && j < count ==> #[trigger] less.requires((i, j)),
            forall|i: usize, j: usize, answer: bool| #[trigger]
                less.ensures((i, j), answer) ==> answer == comes_first(i as int, j as int),
            stable(order@, item as nat, comes_first),
    {
        let mut place: usize = order.len();
        while place > 0 && less(item, order[place - 1])
            invariant
                comes_first == relation@,
                sorts(comes_first),
                place <= order@.len() == item < count,
                forall|i: usize, j: usize| i < count && j < count ==> #[trigger] less.requires((i, j)),
                forall|i: usize, j: usize, answer: bool| #[trigger]
                    less.ensures((i, j), answer) ==> answer == comes_first(i as int, j as int),
                stable(order@, item as nat, comes_first),
                forall|a: int|
                    place <= a < order@.len() ==> comes_first(
                        item as int,
                        #[trigger] order@[a] as int,
                    ),
            ensures
                place <= order@.len(),
                place > 0 ==> !comes_first(item as int, order@[place - 1] as int),
                forall|a: int|
                    place <= a < order@.len() ==> comes_first(
                        item as int,
                        #[trigger] order@[a] as int,
                    ),
            decreases place,
        {
            place = place - 1;
        }
        let ghost before = order@;
        order.insert(place, item);
        assert(stable(order@, (item + 1) as nat, comes_first)) by {
            assert forall|a: int, b: int| 0 <= a < b < order@.len() implies {
                ||| comes_first(#[trigger] order@[a] as int, #[trigger] order@[b] as int)
                ||| !comes_first(order@[b] as int, order@[a] as int) && order@[a] < order@[b]
            } by {
                if a < place && b == place {
                    if a < place - 1 {
                        let (x, y) = (before[a], before[place - 1]);
                        assert(!comes_first(y as int, x as int));
                        assert(!comes_first(item as int, y as int));
                        assert(!comes_first(item as int, x as int));
                    }
                    assert(!comes_first(item as int, before[a] as int));
                    assert(before[a] < item);
                } else if a < place && b < place {
                    assert(order@[a] == before[a] && order@[b] == before[b]);
                } else if a < place {
                    assert(order@[a] == before[a] && order@[b] == before[b - 1]);
                } else if a == place {
                    assert(order@[b] == before[b - 1]);
                } else {
                    assert(order@[a] == before[a - 1] && order@[b] == before[b - 1]);
                }
            }
            assert forall|a: int, b: int| 0 <= a < b < order@.len() implies order@[a]
                != order@[b] by {
                let x = if a < place {
                    a
                } else {
                    a - 1
                };
                let y = if b < place {
                    b
                } else {
                    b - 1
                };
                if a != place && b != place {
                    assert(before[x] != before[y]);
                }
            }
        }
    }
    order
}

/// The order that a list of numbers gives: the smaller first.
pub open spec fn rising(keys: Seq<u64>) -> spec_fn(int, int) -> bool {
    |i: int, j: int| keys[i] < keys[j]
}

/// The order that a list of numbers gives: the greater first.
pub open spec fn falling(keys: Seq<u64>) -> spec_fn(int, int) -> bool {
    |i: int, j: int| keys[i] > keys[j]
}

/// The positions of a list of numbers, the smaller first.
pub(crate) fn rising_order(keys: &Vec<u64>) -> (order: Vec<usize>)
    ensures
        stable(order@, keys@.len(), rising(keys@)),
{
    let less = |i: usize, j: usize| -> (answer: bool)
        requires
            i < keys@.len(),
            j < keys@.len(),
        ensures
            answer == (keys@[i as int] < keys@[j as int]),
        { keys[i] < keys[j] };
    stable_order(keys.len(), less, Ghost(rising(keys@)))
}

/// The positions of a list of numbers, the greater first.
pub(crate) fn falling_order(keys: &Vec<u64>) -> (order: Vec<usize>)
    ensures
        stable(order@, keys@.len(), falling(keys@)),
{
    let less = |i: usize, j: usize| -> (answer: bool)
        requires
            i < keys@.len(),
            j < keys@.len(),
        ensures
            answer == (keys@[i as int] > keys@[j as int]),
        { keys[i] > keys[j] };
    stable_order(keys.len(), less, Ghost(falling(keys@)))
}

/// The items of a list at all its positions are the items of the list.
pub proof fn lemma_picked_are_all<T>(items: Seq<T>, order: Seq<usize>)
    requires
        permutes(order, items.len()),
        items.len() <= usize::MAX,
    ensures
        picked(items, order).len() == items.len(),
        forall|i: int| 0 <= i < items.len() ==> items.contains(#[trigger] picked(items, order)[i]),
        forall|i: int| 0 <= i < items.len() ==> picked(items, order).contains(#[trigger] items[i]),
{
    lemma_names_each(order, items.len());
    let listing = picked(items, order);
    assert forall|i: int| 0 <= i < items.len() implies items.contains(#[trigger] listing[i]) by {
        assert(listing[i] == items[order[i] as int]);
    }
    assert forall|i: int| 0 <= i < items.len() implies listing.contains(#[trigger] items[i]) by {
        assert(order.contains(i as usize));
        let at = choose|at: int| 0 <= at < order.len() && order[at] == i as usize;
        assert(listing[at] == items[i]);
    }
}

/// What is ordered by rising keys has no greater key before a lesser one, what is
/// ordered by falling keys no lesser before a greater one, and equals keep their
/// order.
pub proof fn law_keys_are_in_order(order: Seq<usize>, keys: Seq<u64>, a: int, b: int)
    requires
        0 <= a < b < order.len(),
    ensures
        stable(order, keys.len(), rising(keys)) ==> keys[order[a] as int] <= keys[order[b] as int],
        stable(order, keys.len(), falling(keys)) ==> keys[order[a] as int] >= keys[order[b] as int],
        stable(order, keys.len(), rising(keys)) || stable(order, keys.len(), falling(keys)) ==> (
        keys[order[a] as int] == keys[order[b] as int] ==> order[a] < order[b]),
{
    if stable(order, keys.len(), rising(keys)) {
        assert(order[a] < keys.len() && order[b] < keys.len());
    }
    if stable(order, keys.len(), falling(keys)) {
        assert(order[a] < keys.len() && order[b] < keys.len());
    }
}

} // verus!
