//! Sorted lists without duplicates, kept sorted by binary search: the lists
//! of machines and of committee members that the pallets keep.
use vstd::prelude::*;
use crate::sort_key::{KeyOrder, SortKey};

verus! {

/// The views of the items of `s`, in order.
pub open spec fn view_seq<K: View>(s: Seq<K>) -> Seq<K::V> {
    s.map_values(|k: K| k@)
}

/// Some item of `s` has view `v`.
pub open spec fn has_key<K: View>(s: Seq<K>, v: K::V) -> bool {
    exists|i: int| 0 <= i < s.len() && s[i]@ == v
}

/// The set of views of the items of `s`.
pub open spec fn key_set<K: View>(s: Seq<K>) -> Set<K::V> {
    Set::new(|v: K::V| has_key(s, v))
}

/// The items of `s` are in strictly increasing order (so no view occurs twice).
pub open spec fn sorted<K: SortKey>(s: Seq<K>) -> bool {
    forall|i: int, j: int| 0 <= i < j < s.len() ==> K::key_lt(#[trigger] s[i]@, #[trigger] s[j]@)
}

/// The items of `s` are in non-decreasing order: no item comes before a
/// smaller one. Views may repeat.
pub open spec fn sorted_weak<K: SortKey>(s: Seq<K>) -> bool {
    forall|i: int, j: int| 0 <= i < j < s.len() ==> !K::key_lt(#[trigger] s[j]@, #[trigger] s[i]@)
}

/// A strictly increasing list is non-decreasing.
pub broadcast proof fn lemma_sorted_weak<K: SortKey>(s: Seq<K>)
    requires
        sorted(s),
    ensures
        #[trigger] sorted_weak(s),
{
    assert forall|i: int, j: int| 0 <= i < j < s.len() implies !K::key_lt(#[trigger] s[j]@, #[trigger] s[i]@) by {
        if K::key_lt(s[j]@, s[i]@) {
            K::lemma_key_lt_transitive(s[i]@, s[j]@, s[i]@);
            K::lemma_key_lt_irreflexive(s[i]@);
        }
    }
}

/// In a sorted list the item at `i` is the only one with its view.
pub proof fn lemma_sorted_index_unique<K: SortKey>(s: Seq<K>, i: int, j: int)
    requires
        sorted(s),
        0 <= i < s.len(),
        0 <= j < s.len(),
        s[i]@ == s[j]@,
    ensures
        i == j,
{
    if i < j {
        K::lemma_key_lt_irreflexive(s[i]@);
    } else if j < i {
        K::lemma_key_lt_irreflexive(s[j]@);
    }
}

/// Dropping the first item of a sorted list drops its view, and only it, from
/// the set of views.
proof fn lemma_key_set_drop_first<K: SortKey>(s: Seq<K>)
    requires
        sorted(s),
        s.len() > 0,
    ensures
        sorted(s.drop_first()),
        key_set(s.drop_first()) == key_set(s).remove(s[0]@),
{
    let t = s.drop_first();
    assert forall|i: int, j: int| 0 <= i < j < t.len() implies K::key_lt(#[trigger] t[i]@, #[trigger] t[j]@) by {
        assert(t[i] == s[i + 1]);
        assert(t[j] == s[j + 1]);
    }
    assert forall|v: K::V| has_key(t, v) <==> (has_key(s, v) && v != s[0]@) by {
        if has_key(t, v) {
            let i = choose|i: int| 0 <= i < t.len() && t[i]@ == v;
            assert(s[i + 1]@ == v);
            if v == s[0]@ {
                lemma_sorted_index_unique(s, 0, i + 1);
            }
        }
        if has_key(s, v) && v != s[0]@ {
            let i = choose|i: int| 0 <= i < s.len() && s[i]@ == v;
            assert(i > 0);
            assert(t[i - 1] == s[i]);
        }
    }
    assert(key_set(t) =~= key_set(s).remove(s[0]@));
}

/// Two sorted lists with the same set of views have the same views in the
/// same order: a sorted list is determined by the set it holds.
pub proof fn lemma_sorted_unique<K: SortKey>(a: Seq<K>, b: Seq<K>)
    requires
        sorted(a),
        sorted(b),
        key_set(a) == key_set(b),
    ensures
        view_seq(a) == view_seq(b),
    decreases a.len(),
{
    if a.len() == 0 || b.len() == 0 {
        if b.len() > 0 {
            assert(key_set(b).contains(b[0]@));
        }
        if a.len() > 0 {
            assert(key_set(a).contains(a[0]@));
        }
        assert(view_seq(a) =~= view_seq(b));
    } else {
        assert(key_set(b).contains(a[0]@));
        assert(key_set(a).contains(b[0]@));
        let j = choose|j: int| 0 <= j < b.len() && b[j]@ == a[0]@;
        let k = choose|k: int| 0 <= k < a.len() && a[k]@ == b[0]@;
        if j > 0 && k > 0 {
            assert(K::key_lt(b[0]@, b[j]@));
            assert(K::key_lt(a[0]@, a[k]@));
            K::lemma_key_lt_transitive(a[0]@, b[0]@, a[0]@);
            K::lemma_key_lt_irreflexive(a[0]@);
        }
        assert(a[0]@ == b[0]@);
        lemma_key_set_drop_first(a);
        lemma_key_set_drop_first(b);
        lemma_sorted_unique(a.drop_first(), b.drop_first());
        assert(view_seq(a.drop_first()).len() == a.len() - 1);
        assert(view_seq(b.drop_first()).len() == b.len() - 1);
        assert(a.len() == b.len());
        assert forall|i: int| 0 <= i < a.len() implies #[trigger] view_seq(a)[i] == view_seq(b)[i] by {
            if i > 0 {
                assert(view_seq(a.drop_first())[i - 1] == view_seq(b.drop_first())[i - 1]);
                assert(a.drop_first()[i - 1] == a[i]);
                assert(b.drop_first()[i - 1] == b[i]);
            }
        }
        assert(view_seq(a) =~= view_seq(b));
    }
}

/// A sorted list holds as many distinct views as it has items.
pub proof fn lemma_sorted_len<K: SortKey>(s: Seq<K>)
    requires
        sorted(s),
    ensures
        key_set(s).finite(),
        key_set(s).len() == s.len(),
    decreases s.len(),
{
    if s.len() == 0 {
        assert(key_set(s) =~= Set::<K::V>::empty());
    } else {
        let t = s.drop_first();
        lemma_key_set_drop_first(s);
        lemma_sorted_len(t);
        assert(key_set(s).contains(s[0]@)) by {
            assert(s[0]@ == s[0]@);
        }
        assert(key_set(s) =~= key_set(t).insert(s[0]@));
    }
}

/// For sorted lists whose views are among those of `sup`, having as many
/// items as `sup` is having the same views.
pub proof fn lemma_sorted_subset_full<K: SortKey>(sub: Seq<K>, sup: Seq<K>)
    requires
        sorted(sub),
        sorted(sup),
        key_set(sub).subset_of(key_set(sup)),
    ensures
        (sub.len() == sup.len()) <==> (key_set(sub) == key_set(sup)),
{
    lemma_sorted_len(sub);
    lemma_sorted_len(sup);
    if sub.len() == sup.len() {
        vstd::set_lib::lemma_subset_equality(key_set(sub), key_set(sup));
    }
}

/// Removing an item that was just added to a list that lacked it gives back
/// the same list.
pub proof fn law_remove_undoes_add<K: SortKey>(before: Seq<K>, added: Seq<K>, after: Seq<K>, x: K::V)
    requires
        sorted(before),
        !key_set(before).contains(x),
        sorted(added),
        key_set(added) == key_set(before).insert(x),
        sorted(after),
        key_set(after) == key_set(added).remove(x),
    ensures
        view_seq(after) == view_seq(before),
{
    assert(key_set(after) =~= key_set(before));
    lemma_sorted_unique(after, before);
}

/// Adding two items gives the same list in either order.
pub proof fn law_add_order_irrelevant<K: SortKey>(
    before: Seq<K>,
    x_first: Seq<K>,
    x_then_y: Seq<K>,
    y_first: Seq<K>,
    y_then_x: Seq<K>,
    x: K::V,
    y: K::V,
)
    requires
        sorted(before),
        sorted(x_first),
        key_set(x_first) == key_set(before).insert(x),
        sorted(x_then_y),
        key_set(x_then_y) == key_set(x_first).insert(y),
        sorted(y_first),
        key_set(y_first) == key_set(before).insert(y),
        sorted(y_then_x),
        key_set(y_then_x) == key_set(y_first).insert(x),
    ensures
        view_seq(x_then_y) == view_seq(y_then_x),
{
    assert(key_set(x_then_y) =~= key_set(y_then_x));
    lemma_sorted_unique(x_then_y, y_then_x);
}

/// The views of the first `i + 1` items are those of the first `i` and that
/// of item `i`.
pub proof fn lemma_key_set_take_next<K: View>(s: Seq<K>, i: int)
    requires
        0 <= i < s.len(),
    ensures
        key_set(s.take(i + 1)) == key_set(s.take(i)).insert(s[i]@),
{
    let a = s.take(i);
    let b = s.take(i + 1);
    assert forall|w: K::V| has_key(b, w) <==> (has_key(a, w) || w == s[i]@) by {
        if has_key(b, w) {
            let k = choose|k: int| 0 <= k < b.len() && b[k]@ == w;
            if k < i {
                assert(a[k] == b[k]);
            } else {
                assert(b[k] == s[i]);
            }
        }
        if has_key(a, w) {
            let k = choose|k: int| 0 <= k < a.len() && a[k]@ == w;
            assert(b[k] == a[k]);
        }
        if w == s[i]@ {
            assert(b[i] == s[i]);
        }
    }
    assert(key_set(b) =~= key_set(a).insert(s[i]@));
}

/// Operations on sorted lists without duplicates.
pub struct ItemList;

impl ItemList {
    /// Binary search for `item` in the non-decreasing `list`: `Ok` with the
    /// index of an item that has its view, or `Err` with the index where it
    /// would be inserted to keep the list in order.
    pub fn search<K: SortKey>(list: &Vec<K>, item: &K) -> (r: Result<usize, usize>)
        requires
            sorted_weak(list@),
        ensures
            r matches Ok(i) ==> i < list@.len() && list@[i as int]@ == item@,
            r matches Err(i) ==> {
                &&& i <= list@.len()
                &&& forall|k: int| 0 <= k < i ==> K::key_lt(#[trigger] list@[k]@, item@)
                &&& forall|k: int| i <= k < list@.len() ==> K::key_lt(item@, #[trigger] list@[k]@)
            },
            r is Ok <==> has_key(list@, item@),
    {
        let mut lo: usize = 0;
        let mut hi: usize = list.len();
        while lo < hi
            invariant
                lo <= hi <= list@.len(),
                sorted_weak(list@),
                forall|k: int| 0 <= k < lo ==> K::key_lt(#[trigger] list@[k]@, item@),
                forall|k: int| hi <= k < list@.len() ==> K::key_lt(item@, #[trigger] list@[k]@),
            decreases hi - lo,
        {
            let mid = lo + (hi - lo) / 2;
            match list[mid].compare_key(item) {
                KeyOrder::Less => {
                    assert forall|k: int| 0 <= k < mid + 1 implies K::key_lt(#[trigger] list@[k]@, item@) by {
                        if k < mid {
                            K::lemma_key_lt_total(list@[k]@, list@[mid as int]@);
                            if K::key_lt(list@[k]@, list@[mid as int]@) {
                                K::lemma_key_lt_transitive(list@[k]@, list@[mid as int]@, item@);
                            }
                        }
                    }
                    lo = mid + 1;
                },
                KeyOrder::Equal => {
                    return Ok(mid);
                },
                KeyOrder::Greater => {
                    assert forall|k: int| mid <= k < list@.len() implies K::key_lt(item@, #[trigger] list@[k]@) by {
                        if k > mid {
                            K::lemma_key_lt_total(list@[mid as int]@, list@[k]@);
                            if K::key_lt(list@[mid as int]@, list@[k]@) {
                                K::lemma_key_lt_transitive(item@, list@[mid as int]@, list@[k]@);
                            }
                        }
                    }
                    hi = mid;
                },
            }
        }
        assert forall|k: int| 0 <= k < list@.len() implies #[trigger] list@[k]@ != item@ by {
            if list@[k]@ == item@ {
                K::lemma_key_lt_irreflexive(item@);
            }
        }
        Err(lo)
    }

    /// Whether some item of the non-decreasing `list` has the view of `item`.
    pub fn contains_item<K: SortKey>(list: &Vec<K>, item: &K) -> (r: bool)
        requires
            sorted_weak(list@),
        ensures
            r == has_key(list@, item@),
            r == key_set(list@).contains(item@),
    {
        match Self::search(list, item) {
            Ok(_) => true,
            Err(_) => false,
        }
    }

    /// Inserts `item` into the sorted `list` at its place, unless an item with
    /// its view is there already.
    pub fn add_item<K: SortKey>(list: &mut Vec<K>, item: K)
        requires
            sorted(old(list)@),
        ensures
            sorted(final(list)@),
            key_set(final(list)@) == key_set(old(list)@).insert(item@),
            has_key(old(list)@, item@) ==> final(list)@ == old(list)@,
            !has_key(old(list)@, item@) ==> final(list)@.len() == old(list)@.len() + 1,
    {
        proof {
            lemma_sorted_weak(list@);
        }
        match Self::search(list, &item) {
            Ok(_) => {
                assert(key_set(list@) =~= key_set(list@).insert(item@));
            },
            Err(i) => {
                let ghost s = list@;
                let ghost v = item@;
                list.insert(i, item);
                let ghost t = list@;
                assert(t =~= s.insert(i as int, item));
                assert forall|p: int, q: int| 0 <= p < q < t.len() implies K::key_lt(#[trigger] t[p]@, #[trigger] t[q]@) by {
                    if q < i {
                        assert(t[p] == s[p] && t[q] == s[q]);
                    } else if q == i {
                        assert(t[p] == s[p]);
                    } else if p < i {
                        assert(t[p] == s[p] && t[q] == s[q - 1]);
                        K::lemma_key_lt_transitive(s[p]@, v, s[q - 1]@);
                    } else if p == i {
                        assert(t[q] == s[q - 1]);
                    } else {
                        assert(t[p] == s[p - 1] && t[q] == s[q - 1]);
                    }
                }
                assert forall|w: K::V| has_key(t, w) <==> (has_key(s, w) || w == v) by {
                    if has_key(t, w) {
                        let k = choose|k: int| 0 <= k < t.len() && t[k]@ == w;
                        if k < i {
                            assert(t[k] == s[k]);
                        } else if k > i {
                            assert(t[k] == s[k - 1]);
                        }
                    }
                    if has_key(s, w) {
                        let k = choose|k: int| 0 <= k < s.len() && s[k]@ == w;
                        if k < i {
                            assert(t[k] == s[k]);
                        } else {
                            assert(t[k + 1] == s[k]);
                        }
                    }
                    if w == v {
                        assert(t[i as int] == item);
                    }
                }
                assert(key_set(t) =~= key_set(s).insert(v));
            },
        }
    }

    /// Removes from the sorted `list` the item with the view of `item`, if
    /// there is one.
    pub fn rm_item<K: SortKey>(list: &mut Vec<K>, item: &K)
        requires
            sorted(old(list)@),
        ensures
            sorted(final(list)@),
            key_set(final(list)@) == key_set(old(list)@).remove(item@),
            !has_key(old(list)@, item@) ==> final(list)@ == old(list)@,
            has_key(old(list)@, item@) ==> final(list)@.len() == old(list)@.len() - 1,
    {
        proof {
            lemma_sorted_weak(list@);
        }
        match Self::search(list, item) {
            Ok(i) => {
                let ghost s = list@;
                let ghost v = item@;
                list.remove(i);
                let ghost t = list@;
                assert(t =~= s.remove(i as int));
                assert forall|p: int, q: int| 0 <= p < q < t.len() implies K::key_lt(#[trigger] t[p]@, #[trigger] t[q]@) by {
                    if q < i {
                        assert(t[p] == s[p] && t[q] == s[q]);
                    } else if p < i {
                        assert(t[p] == s[p] && t[q] == s[q + 1]);
                    } else {
                        assert(t[p] == s[p + 1] && t[q] == s[q + 1]);
                    }
                }
                assert forall|w: K::V| has_key(t, w) <==> (has_key(s, w) && w != v) by {
                    if has_key(t, w) {
                        let k = choose|k: int| 0 <= k < t.len() && t[k]@ == w;
                        if k < i {
                            assert(t[k] == s[k]);
                            if w == v {
                                lemma_sorted_index_unique(s, k, i as int);
                            }
                        } else {
                            assert(t[k] == s[k + 1]);
                            if w == v {
                                lemma_sorted_index_unique(s, k + 1, i as int);
                            }
                        }
                    }
                    if has_key(s, w) && w != v {
                        let k = choose|k: int| 0 <= k < s.len() && s[k]@ == w;
                        if k < i {
                            assert(t[k] == s[k]);
                        } else {
                            assert(k != i);
                            assert(t[k - 1] == s[k]);
                        }
                    }
                }
                assert(key_set(t) =~= key_set(s).remove(v));
            },
            Err(_) => {
                assert(key_set(list@) =~= key_set(list@).remove(item@));
            },
        }
    }
}

} // verus!
