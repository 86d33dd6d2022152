//! Ordering lists by text keys.
use crate::text::{chars_of, precedes, text_precedes, texts};
use vstd::prelude::*;

verus! {

/// No text stands before itself.
pub proof fn precedes_is_irreflexive(a: Seq<char>)
    ensures
        !precedes(a, a),
    decreases a.len(),
{
    if a.len() > 0 {
        precedes_is_irreflexive(a.drop_first());
    }
}

/// The order of texts is transitive.
pub proof fn precedes_is_transitive(a: Seq<char>, b: Seq<char>, c: Seq<char>)
    requires
        precedes(a, b),
        precedes(b, c),
    ensures
        precedes(a, c),
    decreases a.len(),
{
    if a.len() > 0 && b.len() > 0 && c.len() > 0 && a[0] == b[0] && b[0] == c[0] {
        precedes_is_transitive(a.drop_first(), b.drop_first(), c.drop_first());
    }
}

/// Of two different texts, one stands before the other.
pub proof fn precedes_is_total(a: Seq<char>, b: Seq<char>)
    ensures
        precedes(a, b) || precedes(b, a) || a == b,
    decreases a.len(),
{
    if a.len() == 0 && b.len() == 0 {
        assert(a =~= b);
    } else if a.len() > 0 && b.len() > 0 && a[0] == b[0] {
        precedes_is_total(a.drop_first(), b.drop_first());
        if a.drop_first() == b.drop_first() {
            assert(a =~= seq![a[0]] + a.drop_first());
            assert(b =~= seq![b[0]] + b.drop_first());
        }
    }
}

/// Whether the item at `i` comes before the one at `j` in a stable sort by `keys`.
pub open spec fn comes_before(keys: Seq<Seq<char>>, i: int, j: int) -> bool {
    precedes(keys[i], keys[j]) || (keys[i] == keys[j] && i < j)
}

proof fn comes_before_is_transitive(keys: Seq<Seq<char>>, i: int, j: int, k: int)
    requires
        comes_before(keys, i, j),
        comes_before(keys, j, k),
    ensures
        comes_before(keys, i, k),
{
    if precedes(keys[i], keys[j]) && precedes(keys[j], keys[k]) {
        precedes_is_transitive(keys[i], keys[j], keys[k]);
    }
}

/// Whether `order` lists the positions from `lo` to `hi` in the order of a stable sort by `keys`.
pub open spec fn orders(keys: Seq<Seq<char>>, order: Seq<usize>, lo: int, hi: int) -> bool {
    &&& order.len() == hi - lo
    &&& forall|k: int| 0 <= k < order.len() ==> lo <= #[trigger] order[k] < hi
    &&& forall|i: int, j: int|
        0 <= i < j < order.len() ==> comes_before(
            keys,
            #[trigger] order[i] as int,
            #[trigger] order[j] as int,
        )
    &&& forall|v: usize| lo <= v < hi ==> #[trigger] order.contains(v)
}

/// The views of a list of character lists.
pub open spec fn char_lists(list: Seq<Vec<char>>) -> Seq<Seq<char>> {
    list.map_values(|v: Vec<char>| v@)
}

fn merge(
    keys: &Vec<Vec<char>>,
    left: &Vec<usize>,
    right: &Vec<usize>,
    lo: usize,
    mid: usize,
    hi: usize,
) -> (order: Vec<usize>)
    requires
        lo <= mid <= hi <= keys@.len(),
        orders(char_lists(keys@), left@, lo as int, mid as int),
        orders(char_lists(keys@), right@, mid as int, hi as int),
    ensures
        orders(char_lists(keys@), order@, lo as int, hi as int),
{
    let ghost all = char_lists(keys@);
    let mut order: Vec<usize> = Vec::new();
    let mut i: usize = 0;
    let mut j: usize = 0;
    while i < left.len() || j < right.len()
        invariant
            lo <= mid <= hi <= keys@.len(),
            all == char_lists(keys@),
            orders(all, left@, lo as int, mid as int),
            orders(all, right@, mid as int, hi as int),
            i <= left@.len(),
            j <= right@.len(),
            order@.len() == i + j,
            forall|k: int| 0 <= k < order@.len() ==> lo <= #[trigger] order@[k] < hi,
            forall|a: int, b: int|
                0 <= a < b < order@.len() ==> comes_before(
                    all,
                    #[trigger] order@[a] as int,
                    #[trigger] order@[b] as int,
                ),
            forall|a: int, b: int|
                0 <= a < order@.len() && i <= b < left@.len() ==> comes_before(
                    all,
                    #[trigger] order@[a] as int,
                    #[trigger] left@[b] as int,
                ),
            forall|a: int, b: int|
                0 <= a < order@.len() && j <= b < right@.len() ==> comes_before(
                    all,
                    #[trigger] order@[a] as int,
                    #[trigger] right@[b] as int,
                ),
            forall|b: int| 0 <= b < i ==> order@.contains(#[trigger] left@[b]),
            forall|b: int| 0 <= b < j ==> order@.contains(#[trigger] right@[b]),
        decreases left@.len() + right@.len() - i - j,
    {
        let ghost before = order@;
        let take_left = if i >= left.len() {
            false
        } else if j >= right.len() {
            true
        } else {
            !text_precedes(&keys[right[j]], &keys[left[i]])
        };
        if take_left {
            let v: usize = left[i];
            order.push(v);
            proof {
                assert forall|b: int| j <= b < right@.len() implies comes_before(
                    all,
                    v as int,
                    #[trigger] right@[b] as int,
                ) by {
                    let head = right@[j as int] as int;
                    precedes_is_total(all[v as int], all[head]);
                    assert(comes_before(all, v as int, head));
                    if b > j {
                        comes_before_is_transitive(all, v as int, head, right@[b] as int);
                    }
                }
                assert forall|b: int| 0 <= b < i + 1 implies order@.contains(
                    #[trigger] left@[b],
                ) by {
                    if b < i {
                        let k = choose|k: int| 0 <= k < before.len() && before[k] == left@[b];
                        assert(order@[k] == left@[b]);
                    } else {
                        assert(order@[before.len() as int] == left@[b]);
                    }
                }
                assert forall|b: int| 0 <= b < j implies order@.contains(#[trigger] right@[b]) by {
                    let k = choose|k: int| 0 <= k < before.len() && before[k] == right@[b];
                    assert(order@[k] == right@[b]);
                }
            }
            i += 1;
        } else {
            let v: usize = right[j];
            order.push(v);
            proof {
                assert forall|b: int| i <= b < left@.len() implies comes_before(
                    all,
                    v as int,
                    #[trigger] left@[b] as int,
                ) by {
                    let head = left@[i as int] as int;
                    assert(comes_before(all, v as int, head));
                    if b > i {
                        comes_before_is_transitive(all, v as int, head, left@[b] as int);
                    }
                }
                assert forall|b: int| 0 <= b < j + 1 implies order@.contains(
                    #[trigger] right@[b],
                ) by {
                    if b < j {
                        let k = choose|k: int| 0 <= k < before.len() && before[k] == right@[b];
                        assert(order@[k] == right@[b]);
                    } else {
                        assert(order@[before.len() as int] == right@[b]);
                    }
                }
                assert forall|b: int| 0 <= b < i implies order@.contains(#[trigger] left@[b]) by {
                    let k = choose|k: int| 0 <= k < before.len() && before[k] == left@[b];
                    assert(order@[k] == left@[b]);
                }
            }
            j += 1;
        }
    }
    assert forall|v: usize| lo <= v < hi implies #[trigger] order@.contains(v) by {
        if v < mid {
            assert(left@.contains(v));
            let b = choose|b: int| 0 <= b < left@.len() && left@[b] == v;
            assert(order@.contains(left@[b]));
        } else {
            assert(right@.contains(v));
            let b = choose|b: int| 0 <= b < right@.len() && right@[b] == v;
            assert(order@.contains(right@[b]));
        }
    }
    order
}

fn sort_range(keys: &Vec<Vec<char>>, lo: usize, hi: usize) -> (order: Vec<usize>)
    requires
        lo <= hi <= keys@.len(),
    ensures
        orders(char_lists(keys@), order@, lo as int, hi as int),
    decreases hi - lo,
{
    let mut order: Vec<usize> = Vec::new();
    if hi - lo == 0 {
        return order;
    }
    if hi - lo == 1 {
        order.push(lo);
        assert(order@[0] == lo);
        assert forall|v: usize| lo <= v < hi implies #[trigger] order@.contains(v) by {
            assert(v == lo);
        }
        return order;
    }
    let mid: usize = lo + (hi - lo) / 2;
    let left = sort_range(keys, lo, mid);
    let right = sort_range(keys, mid, hi);
    merge(keys, &left, &right, lo, mid, hi)
}

/// The positions of the keys in the order of a stable sort.
pub fn sorted_order(keys: &Vec<String>) -> (order: Vec<usize>)
    ensures
        orders(texts(keys@), order@, 0, keys@.len() as int),
{
    let mut lists: Vec<Vec<char>> = Vec::new();
    let mut i: usize = 0;
    while i < keys.len()
        invariant
            i <= keys@.len(),
            lists@.len() == i,
            forall|k: int| 0 <= k < i ==> (#[trigger] lists@[k])@ == keys@[k]@,
        decreases keys@.len() - i,
    {
        lists.push(chars_of(keys[i].as_str()));
        i += 1;
    }
    assert(char_lists(lists@) =~= texts(keys@));
    sort_range(&lists, 0, lists.len())
}

/// Whether each text stands before all that follow.
pub open spec fn ascending(list: Seq<Seq<char>>) -> bool {
    forall|i: int, j: int| 0 <= i < j < list.len() ==> precedes(#[trigger] list[i], #[trigger] list[j])
}

/// The names in ascending order, each once.
pub fn sorted_unique(names: &Vec<String>) -> (list: Vec<String>)
    ensures
        ascending(texts(list@)),
        texts(list@).to_set() == texts(names@).to_set(),
{
    let ghost keys = texts(names@);
    let order = sorted_order(names);
    let mut list: Vec<String> = Vec::new();
    let mut i: usize = 0;
    while i < order.len()
        invariant
            i <= order@.len(),
            keys == texts(names@),
            orders(keys, order@, 0, names@.len() as int),
            ascending(texts(list@)),
            list@.len() > 0 <==> i > 0,
            i > 0 ==> list@.last()@ == keys[order@[i - 1] as int],
            forall|k: int| 0 <= k < list@.len() ==> keys.contains((#[trigger] list@[k])@),
            forall|k: int|
                0 <= k < i ==> texts(list@).contains(#[trigger] keys[order@[k] as int]),
        decreases order@.len() - i,
    {
        let at: usize = order[i];
        let fresh = if list.len() == 0 {
            true
        } else {
            list[list.len() - 1] != names[at]
        };
        let ghost before = list@;
        let ghost name = keys[at as int];
        proof {
            assert(names@[at as int]@ == name);
            if i > 0 {
                assert(comes_before(keys, order@[i - 1] as int, order@[i as int] as int));
            }
        }
        if fresh {
            list.push(names[at].clone());
            proof {
                assert forall|a: int, b: int|
                    0 <= a < b < list@.len() implies precedes(
                    #[trigger] texts(list@)[a],
                    #[trigger] texts(list@)[b],
                ) by {
                    if b < before.len() {
                        assert(precedes(texts(before)[a], texts(before)[b]));
                    } else {
                        assert(precedes(before.last()@, name));
                        if a < before.len() - 1 {
                            assert(precedes(texts(before)[a], texts(before)[before.len() - 1]));
                            precedes_is_transitive(before[a]@, before.last()@, name);
                        }
                    }
                }
            }
        }
        proof {
            assert(list@.last()@ == name);
            assert forall|k: int| 0 <= k < i + 1 implies texts(list@).contains(
                #[trigger] keys[order@[k] as int],
            ) by {
                if k < i {
                    let w = choose|w: int|
                        0 <= w < before.len() && texts(before)[w] == keys[order@[k] as int];
                    assert(texts(list@)[w] == keys[order@[k] as int]);
                } else {
                    assert(texts(list@)[list@.len() - 1] == name);
                }
            }
        }
        i += 1;
    }
    proof {
        let out = texts(list@);
        assert forall|name: Seq<char>| out.contains(name) <==> keys.contains(name) by {
            if out.contains(name) {
                let k = choose|k: int| 0 <= k < out.len() && out[k] == name;
                assert(keys.contains(list@[k]@));
            }
            if keys.contains(name) {
                let v = choose|v: int| 0 <= v < keys.len() && keys[v] == name;
                assert(order@.contains(v as usize));
                let k = choose|k: int| 0 <= k < order@.len() && order@[k] == v as usize;
                assert(out.contains(keys[order@[k] as int]));
            }
        }
        assert(out.to_set() =~= keys.to_set());
    }
    list
}

/// Whether positions stand in the order of a stable sort by `keys`.
pub open spec fn in_key_order(keys: Seq<Seq<char>>, order: Seq<usize>) -> bool {
    forall|i: int, j: int|
        0 <= i < j < order.len() ==> comes_before(
            keys,
            #[trigger] order[i] as int,
            #[trigger] order[j] as int,
        )
}

proof fn orders_of_one_set_agree(keys: Seq<Seq<char>>, a: Seq<usize>, b: Seq<usize>)
    requires
        in_key_order(keys, a),
        in_key_order(keys, b),
        forall|v: usize| a.contains(v) <==> b.contains(v),
    ensures
        a == b,
    decreases a.len(),
{
    if a.len() == 0 {
        if b.len() > 0 {
            assert(b.contains(b[0]));
        }
        assert(a =~= b);
    } else {
        assert(a.contains(a[0]));
        assert(b.contains(a[0]));
        let i = choose|i: int| 0 <= i < b.len() && b[i] == a[0];
        assert(b.contains(b[0]));
        assert(a.contains(b[0]));
        let j = choose|j: int| 0 <= j < a.len() && a[j] == b[0];
        assert(a[0] == b[0]) by {
            if i > 0 && j > 0 {
                comes_before_is_transitive(keys, a[0] as int, b[0] as int, a[0] as int);
                precedes_is_irreflexive(keys[a[0] as int]);
            }
        }
        let x = a.drop_first();
        let y = b.drop_first();
        assert forall|v: usize| x.contains(v) <==> y.contains(v) by {
            precedes_is_irreflexive(keys[v as int]);
            if x.contains(v) {
                let k = choose|k: int| 0 <= k < x.len() && x[k] == v;
                assert(a[k + 1] == v);
                assert(comes_before(keys, a[0] as int, a[k + 1] as int));
                assert(b.contains(v));
                let m = choose|m: int| 0 <= m < b.len() && b[m] == v;
                assert(y[m - 1] == v);
            }
            if y.contains(v) {
                let k = choose|k: int| 0 <= k < y.len() && y[k] == v;
                assert(b[k + 1] == v);
                assert(comes_before(keys, b[0] as int, b[k + 1] as int));
                assert(a.contains(v));
                let m = choose|m: int| 0 <= m < a.len() && a[m] == v;
                assert(x[m - 1] == v);
            }
        }
        assert(in_key_order(keys, x)) by {
            assert forall|p: int, q: int| 0 <= p < q < x.len() implies comes_before(
                keys,
                #[trigger] x[p] as int,
                #[trigger] x[q] as int,
            ) by {
                assert(comes_before(keys, a[p + 1] as int, a[q + 1] as int));
            }
        }
        assert(in_key_order(keys, y)) by {
            assert forall|p: int, q: int| 0 <= p < q < y.len() implies comes_before(
                keys,
                #[trigger] y[p] as int,
                #[trigger] y[q] as int,
            ) by {
                assert(comes_before(keys, b[p + 1] as int, b[q + 1] as int));
            }
        }
        orders_of_one_set_agree(keys, x, y);
        assert(a =~= seq![a[0]] + x);
        assert(b =~= seq![b[0]] + y);
    }
}

/// There is one stable order of a list.
pub proof fn stable_order_is_unique(keys: Seq<Seq<char>>, a: Seq<usize>, b: Seq<usize>, n: int)
    requires
        orders(keys, a, 0, n),
        orders(keys, b, 0, n),
    ensures
        a == b,
{
    assert forall|v: usize| a.contains(v) <==> b.contains(v) by {
        if a.contains(v) {
            let i = choose|i: int| 0 <= i < a.len() && a[i] == v;
            assert(0 <= a[i] < n);
            assert(b.contains(v));
        }
        if b.contains(v) {
            let i = choose|i: int| 0 <= i < b.len() && b[i] == v;
            assert(0 <= b[i] < n);
            assert(a.contains(v));
        }
    }
    orders_of_one_set_agree(keys, a, b);
}

} // verus!
