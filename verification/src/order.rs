//! The order in which names are listed: alphabetical without regard to
//! case, names that differ in case only staying in the order they came in.

use vstd::prelude::*;
use vstd::set_lib::{lemma_int_range, lemma_subset_equality, set_int_range};

verus! {

/// What `str::to_lowercase` makes of a text.
pub uninterp spec fn lowercased(text: Seq<char>) -> Seq<char>;

/// Whether `left` comes before `right`, or is equal to it, in the order of
/// dictionaries: the first character in which they differ decides, by its
/// code point, and a text comes before every longer text that starts
/// with it.
pub open spec fn lex_le(left: Seq<char>, right: Seq<char>) -> bool
    decreases left.len(),
{
    if left.len() == 0 {
        true
    } else if right.len() == 0 {
        false
    } else if left[0] != right[0] {
        (left[0] as int) < (right[0] as int)
    } else {
        lex_le(left.drop_first(), right.drop_first())
    }
}

/// `str::to_lowercase`: the lowercase form of a text depends on the text
/// alone (the mapping is Unicode's, not a locale's), and is the one
/// [`lowercased`] names.
#[verifier::external_body]
pub(crate) fn lowercase(text: &str) -> (result: String)
    ensures
        result@ == lowercased(text@),
{
    text.to_lowercase()
}

/// `<=` on `str`: strings are ordered lexicographically by their bytes,
/// which orders them by the code points of their characters.
#[verifier::external_body]
pub(crate) fn text_le(left: &str, right: &str) -> (result: bool)
    ensures
        result == lex_le(left@, right@),
{
    left <= right
}

/// The texts of a vector of strings.
pub open spec fn texts_of(strings: Seq<String>) -> Seq<Seq<char>> {
    strings.map_values(|text: String| text@)
}

/// The indices of a vector, as numbers.
pub open spec fn indices_of(indices: Seq<usize>) -> Seq<int> {
    indices.map_values(|index: usize| index as int)
}

/// The order with one more key: `index` goes behind the last entry whose
/// key does not come after its own, so that among equal keys the earlier
/// index stays first.
pub open spec fn with_index(order: Seq<int>, keys: Seq<Seq<char>>, index: int) -> Seq<int>
    decreases order.len(),
{
    if order.len() == 0 {
        seq![index]
    } else if lex_le(keys[order.last()], keys[index]) {
        order.push(index)
    } else {
        with_index(order.drop_last(), keys, index).push(order.last())
    }
}

/// The indices of the first `count` keys, arranged by key; indices of equal
/// keys stay in ascending order.
pub open spec fn order_of_first(keys: Seq<Seq<char>>, count: nat) -> Seq<int>
    decreases count,
{
    if count == 0 {
        Seq::empty()
    } else {
        with_index(order_of_first(keys, (count - 1) as nat), keys, count - 1)
    }
}

/// The indices of all keys, arranged by key.
pub open spec fn sorted_order(keys: Seq<Seq<char>>) -> Seq<int> {
    order_of_first(keys, keys.len())
}

/// Any two texts can be compared.
proof fn lemma_lex_le_total(left: Seq<char>, right: Seq<char>)
    ensures
        lex_le(left, right) || lex_le(right, left),
    decreases left.len(),
{
    if left.len() > 0 && right.len() > 0 {
        if left[0] == right[0] {
            lemma_lex_le_total(left.drop_first(), right.drop_first());
        }
    }
}

/// The comparison of texts is transitive.
proof fn lemma_lex_le_transitive(first: Seq<char>, second: Seq<char>, third: Seq<char>)
    requires
        lex_le(first, second),
        lex_le(second, third),
    ensures
        lex_le(first, third),
    decreases first.len(),
{
    if first.len() > 0 {
        if first[0] == second[0] && second[0] == third[0] {
            lemma_lex_le_transitive(first.drop_first(), second.drop_first(), third.drop_first());
        }
    }
}

/// Texts that come before one another are the same text.
proof fn lemma_lex_le_antisymmetric(left: Seq<char>, right: Seq<char>)
    requires
        lex_le(left, right),
        lex_le(right, left),
    ensures
        left == right,
    decreases left.len(),
{
    if left.len() > 0 {
        lemma_lex_le_antisymmetric(left.drop_first(), right.drop_first());
        assert(left =~= seq![left[0]] + left.drop_first());
        assert(right =~= seq![right[0]] + right.drop_first());
    } else {
        assert(left =~= right);
    }
}

/// Putting `index` into an order at the place behind which no key comes
/// before its own, and before which the nearest key does not come after it,
/// is what [`with_index`] does.
proof fn lemma_with_index_is_insert(
    order: Seq<int>,
    keys: Seq<Seq<char>>,
    index: int,
    place: int,
)
    requires
        0 <= place <= order.len(),
        place > 0 ==> lex_le(keys[order[place - 1]], keys[index]),
        forall|j: int| place <= j < order.len() ==> !lex_le(keys[#[trigger] order[j]], keys[index]),
    ensures
        with_index(order, keys, index) == order.insert(place, index),
    decreases order.len(),
{
    if order.len() == 0 {
        assert(order.insert(place, index) =~= seq![index]);
    } else if place == order.len() {
        assert(order.insert(place, index) =~= order.push(index));
    } else {
        let rest = order.drop_last();
        assert(!lex_le(keys[order[order.len() - 1]], keys[index]));
        assert forall|j: int| place <= j < rest.len() implies !lex_le(
            keys[#[trigger] rest[j]],
            keys[index],
        ) by {
            assert(rest[j] == order[j]);
        }
        lemma_with_index_is_insert(rest, keys, index, place);
        assert(order.insert(place, index) =~= rest.insert(place, index).push(order.last()));
    }
}

/// Arranges the indices of `keys` by key, indices of equal keys staying in
/// ascending order.
pub fn sort_order(keys: &Vec<String>) -> (result: Vec<usize>)
    ensures
        indices_of(result@) == sorted_order(texts_of(keys@)),
        result@.len() == keys@.len(),
        forall|j: int| 0 <= j < result@.len() ==> (#[trigger] result@[j]) < keys@.len(),
{
    let ghost texts = texts_of(keys@);
    let mut order: Vec<usize> = Vec::new();
    let mut index: usize = 0;
    proof {
        assert(indices_of(order@) =~= order_of_first(texts, 0));
    }
    while index < keys.len()
        invariant
            index <= keys.len(),
            texts == texts_of(keys@),
            order@.len() == index,
            forall|j: int| 0 <= j < order@.len() ==> (#[trigger] order@[j]) < index,
            indices_of(order@) == order_of_first(texts, index as nat),
        decreases keys.len() - index,
    {
        let ghost before = indices_of(order@);
        let mut place: usize = order.len();
        while place > 0 && !text_le(keys[order[place - 1]].as_str(), keys[index].as_str())
            invariant
                place <= order@.len(),
                index < keys.len(),
                order@.len() == index,
                texts == texts_of(keys@),
                before == indices_of(order@),
                forall|j: int| 0 <= j < order@.len() ==> (#[trigger] order@[j]) < index,
                forall|j: int|
                    place <= j < before.len() ==> !lex_le(
                        texts[#[trigger] before[j]],
                        texts[index as int],
                    ),
            decreases place,
        {
            proof {
                assert(before[place - 1] == order@[place - 1] as int);
                assert(texts[before[place - 1]] == keys@[order@[place - 1] as int]@);
            }
            place = place - 1;
        }
        proof {
            if place > 0 {
                assert(before[place - 1] == order@[place - 1] as int);
                assert(texts[before[place - 1]] == keys@[order@[place - 1] as int]@);
            }
            lemma_with_index_is_insert(before, texts, index as int, place as int);
        }
        order.insert(place, index);
        proof {
            assert(indices_of(order@) =~= before.insert(place as int, index as int));
        }
        index = index + 1;
    }
    order
}

/// Whether `order` lists each of the indices below `count` exactly once.
pub open spec fn is_arrangement(order: Seq<int>, count: nat) -> bool {
    &&& order.len() == count
    &&& forall|i: int| 0 <= i < order.len() ==> 0 <= #[trigger] order[i] < count
    &&& forall|i: int, j: int|
        0 <= i < j < order.len() ==> #[trigger] order[i] != #[trigger] order[j]
}

/// Whether the keys come in ascending order along `order`, and indices of
/// equal keys in ascending order too.
pub open spec fn is_stably_sorted(order: Seq<int>, keys: Seq<Seq<char>>) -> bool {
    forall|i: int, j: int|
        0 <= i < j < order.len() ==> lex_le(keys[#[trigger] order[i]], keys[#[trigger] order[j]])
            && (lex_le(keys[order[j]], keys[order[i]]) ==> order[i] < order[j])
}

/// Where [`with_index`] puts the new index.
spec fn place_for(order: Seq<int>, keys: Seq<Seq<char>>, index: int) -> int
    decreases order.len(),
{
    if order.len() == 0 {
        0
    } else if lex_le(keys[order.last()], keys[index]) {
        order.len() as int
    } else {
        place_for(order.drop_last(), keys, index)
    }
}

/// [`place_for`] names the place at which [`with_index`] inserts.
proof fn lemma_place_for(order: Seq<int>, keys: Seq<Seq<char>>, index: int)
    ensures
        0 <= place_for(order, keys, index) <= order.len(),
        place_for(order, keys, index) > 0 ==> lex_le(
            keys[order[place_for(order, keys, index) - 1]],
            keys[index],
        ),
        forall|j: int|
            place_for(order, keys, index) <= j < order.len() ==> !lex_le(
                keys[#[trigger] order[j]],
                keys[index],
            ),
        with_index(order, keys, index) == order.insert(place_for(order, keys, index), index),
    decreases order.len(),
{
    if order.len() > 0 && !lex_le(keys[order.last()], keys[index]) {
        let rest = order.drop_last();
        lemma_place_for(rest, keys, index);
        let place = place_for(rest, keys, index);
        assert forall|j: int| place <= j < order.len() implies !lex_le(
            keys[#[trigger] order[j]],
            keys[index],
        ) by {
            if j < rest.len() {
                assert(rest[j] == order[j]);
            }
        }
        if place > 0 {
            assert(rest[place - 1] == order[place - 1]);
        }
    }
    lemma_with_index_is_insert(order, keys, index, place_for(order, keys, index));
}

/// Every prefix of the keys is arranged by a stable sort.
proof fn lemma_order_of_first(keys: Seq<Seq<char>>, count: nat)
    requires
        count <= keys.len(),
    ensures
        is_arrangement(order_of_first(keys, count), count),
        is_stably_sorted(order_of_first(keys, count), keys),
    decreases count,
{
    if count > 0 {
        let index = count - 1;
        let order = order_of_first(keys, index as nat);
        lemma_order_of_first(keys, index as nat);
        lemma_place_for(order, keys, index);
        let place = place_for(order, keys, index);
        let longer = order.insert(place, index);
        assert(longer == order_of_first(keys, count));
        assert forall|i: int| 0 <= i < longer.len() implies 0 <= #[trigger] longer[i] < count by {
            if i < place {
                assert(longer[i] == order[i]);
            } else if i > place {
                assert(longer[i] == order[i - 1]);
            }
        }
        assert forall|i: int, j: int| 0 <= i < j < longer.len() implies #[trigger] longer[i]
            != #[trigger] longer[j] && lex_le(keys[longer[i]], keys[longer[j]]) && (lex_le(
            keys[longer[j]],
            keys[longer[i]],
        ) ==> longer[i] < longer[j]) by {
            let a = if i < place {
                i
            } else {
                i - 1
            };
            let b = if j < place {
                j
            } else {
                j - 1
            };
            if i != place {
                assert(longer[i] == order[a]);
            }
            if j != place {
                assert(longer[j] == order[b]);
            }
            if i == place {
                assert(!lex_le(keys[order[b]], keys[index]));
                lemma_lex_le_total(keys[order[b]], keys[index]);
            } else if j == place {
                if a < place - 1 {
                    assert(lex_le(keys[order[a]], keys[order[place - 1]]));
                    lemma_lex_le_transitive(keys[order[a]], keys[order[place - 1]], keys[index]);
                }
            }
        }
    }
}

/// The order of texts is a total order: any two texts can be compared,
/// texts that come before one another are the same, and the comparison is
/// transitive.
pub proof fn law_lex_le_is_a_total_order(first: Seq<char>, second: Seq<char>, third: Seq<char>)
    ensures
        lex_le(first, first),
        lex_le(first, second) || lex_le(second, first),
        lex_le(first, second) && lex_le(second, first) ==> first == second,
        lex_le(first, second) && lex_le(second, third) ==> lex_le(first, third),
{
    lemma_lex_le_total(first, first);
    lemma_lex_le_total(first, second);
    if lex_le(first, second) && lex_le(second, first) {
        lemma_lex_le_antisymmetric(first, second);
    }
    if lex_le(first, second) && lex_le(second, third) {
        lemma_lex_le_transitive(first, second, third);
    }
}

/// The order that [`sorted_order`] gives lists every index once, follows
/// the keys in ascending order, and leaves equal keys in the order they
/// came in.
pub proof fn law_sorted_order_is_a_stable_sort(keys: Seq<Seq<char>>)
    ensures
        is_arrangement(sorted_order(keys), keys.len()),
        is_stably_sorted(sorted_order(keys), keys),
{
    lemma_order_of_first(keys, keys.len());
}

/// An arrangement holds every index below its count.
proof fn lemma_arrangement_holds(order: Seq<int>, count: nat, index: int)
    requires
        is_arrangement(order, count),
        0 <= index < count,
    ensures
        order.contains(index),
{
    let range = set_int_range(0, count as int);
    assert(order.no_duplicates());
    order.unique_seq_to_set();
    lemma_int_range(0, count as int);
    vstd::seq_lib::seq_to_set_is_finite(order);
    assert forall|value: int| order.to_set().contains(value) implies range.contains(value) by {
        let at = choose|at: int| 0 <= at < order.len() && order[at] == value;
        assert(0 <= order[at] < count);
    }
    lemma_subset_equality(order.to_set(), range);
    assert(range.contains(index));
    assert(order.to_set().contains(index));
}

/// A stable sort of the first `count` keys is the one that
/// [`order_of_first`] gives.
proof fn lemma_stable_sort_is_unique(keys: Seq<Seq<char>>, count: nat, order: Seq<int>)
    requires
        is_arrangement(order, count),
        is_stably_sorted(order, keys),
    ensures
        order == order_of_first(keys, count),
    decreases count,
{
    if count == 0 {
        assert(order =~= order_of_first(keys, 0));
    } else {
        let index = count - 1;
        lemma_arrangement_holds(order, count, index);
        let place = choose|place: int| 0 <= place < order.len() && order[place] == index;
        let rest = order.remove(place);
        assert forall|i: int| 0 <= i < rest.len() implies 0 <= #[trigger] rest[i] < index by {
            if i < place {
                assert(rest[i] == order[i]);
                assert(order[i] != order[place]);
            } else {
                assert(rest[i] == order[i + 1]);
                assert(order[place] != order[i + 1]);
            }
        }
        assert forall|i: int, j: int| 0 <= i < j < rest.len() implies #[trigger] rest[i]
            != #[trigger] rest[j] && lex_le(keys[rest[i]], keys[rest[j]]) && (lex_le(
            keys[rest[j]],
            keys[rest[i]],
        ) ==> rest[i] < rest[j]) by {
            let a = if i < place {
                i
            } else {
                i + 1
            };
            let b = if j < place {
                j
            } else {
                j + 1
            };
            assert(rest[i] == order[a]);
            assert(rest[j] == order[b]);
        }
        lemma_stable_sort_is_unique(keys, index as nat, rest);
        if place > 0 {
            assert(rest[place - 1] == order[place - 1]);
            assert(lex_le(keys[order[place - 1]], keys[order[place]]));
        }
        assert forall|j: int| place <= j < rest.len() implies !lex_le(
            keys[#[trigger] rest[j]],
            keys[index],
        ) by {
            assert(rest[j] == order[j + 1]);
            assert(lex_le(keys[order[j + 1]], keys[order[place]]) ==> order[place] < order[j
                + 1]);
        }
        lemma_with_index_is_insert(rest, keys, index, place);
        assert(rest.insert(place, index) =~= order);
    }
}

/// There is one stable sort only: an order that lists every index once,
/// follows the keys in ascending order and leaves equal keys in the order
/// they came in is the order that [`sorted_order`] gives.
pub proof fn law_stable_sort_is_unique(keys: Seq<Seq<char>>, order: Seq<int>)
    requires
        is_arrangement(order, keys.len()),
        is_stably_sorted(order, keys),
    ensures
        order == sorted_order(keys),
{
    lemma_stable_sort_is_unique(keys, keys.len(), order);
}

} // verus!
