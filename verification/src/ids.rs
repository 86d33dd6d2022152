//! Collections of App IDs.
use std::collections::{BTreeMap, BTreeSet, HashSet};
use vstd::prelude::*;
use vstd::std_specs::cmp::OrdSpec;
use vstd::std_specs::iter::IteratorSpec;

verus! {

/// Whether each number is smaller than all that follow.
pub open spec fn increasing(list: Seq<u32>) -> bool {
    forall|i: int, j: int| 0 <= i < j < list.len() ==> list[i] < list[j]
}

/// The members of a set, in order.
pub open spec fn in_order(set: Set<u32>) -> Seq<u32> {
    choose|list: Seq<u32>| #[trigger] increasing(list) && list.to_set() == set
}

/// An increasing list is the members of its set in order.
pub proof fn increasing_list_is_in_order(list: Seq<u32>)
    requires
        increasing(list),
    ensures
        in_order(list.to_set()) == list,
{
    let chosen = in_order(list.to_set());
    assert(increasing(list) && list.to_set() == list.to_set());
    increasing_lists_agree(chosen, list);
}

/// Every finite set can be put in order.
pub proof fn finite_set_has_an_order(set: Set<u32>)
    requires
        set.finite(),
    ensures
        increasing(in_order(set)),
        in_order(set).to_set() == set,
{
    let list = some_order(set);
    assert(increasing(list) && list.to_set() == set);
}

/// The largest member of a set.
spec fn largest(set: Set<u32>) -> u32 {
    choose|top: u32| set.contains(top) && forall|x: u32| set.contains(x) ==> x <= top
}

proof fn finite_set_has_a_largest(set: Set<u32>)
    requires
        set.finite(),
        set.len() > 0,
    ensures
        set.contains(largest(set)),
        forall|x: u32| set.contains(x) ==> x <= largest(set),
    decreases set.len(),
{
    let member = set.choose();
    let rest = set.remove(member);
    if rest.len() == 0 {
        assert forall|x: u32| set.contains(x) implies x <= member by {
            if x != member {
                assert(rest.contains(x));
            }
        }
    } else {
        finite_set_has_a_largest(rest);
        let top = if largest(rest) > member {
            largest(rest)
        } else {
            member
        };
        assert(set.contains(top) && forall|x: u32| set.contains(x) ==> x <= top) by {
            assert forall|x: u32| set.contains(x) implies x <= top by {
                if x != member {
                    assert(rest.contains(x));
                }
            }
        }
    }
}

proof fn some_order(set: Set<u32>) -> (list: Seq<u32>)
    requires
        set.finite(),
    ensures
        increasing(list),
        list.to_set() == set,
    decreases set.len(),
{
    if set.len() == 0 {
        let list = Seq::<u32>::empty();
        assert(list.to_set() =~= set);
        list
    } else {
        finite_set_has_a_largest(set);
        let top = largest(set);
        let rest = set.remove(top);
        let before = some_order(rest);
        let list = before.push(top);
        push_inserts(before, top);
        assert(rest.insert(top) =~= set);
        assert forall|i: int, j: int| 0 <= i < j < list.len() implies list[i] < list[j] by {
            if j == before.len() {
                assert(before.contains(before[i]));
                assert(before.to_set().contains(before[i]));
                assert(rest.contains(before[i]));
                assert(set.contains(before[i]));
            } else {
                assert(before[i] < before[j]);
            }
        }
        list
    }
}

/// The keys of a table, in order.
pub fn table_ids<V>(table: &BTreeMap<u32, V>) -> (ids: Vec<u32>)
    ensures
        ids@.to_set() == table@.dom(),
        increasing(ids@),
        ids@ == in_order(table@.dom()),
{
    broadcast use vstd::std_specs::btree::group_btree_axioms;
    broadcast use vstd::laws_cmp::group_laws_cmp;

    assert(vstd::laws_cmp::obeys_cmp::<u32>());
    assert(vstd::std_specs::btree::key_obeys_cmp_spec::<u32>());
    let mut ids: Vec<u32> = Vec::new();
    let entries = table.iter();
    let ghost all = entries.remaining();
    let ghost keys = all.map_values(|entry: (&u32, &V)| *entry.0);
    for entry in it: entries
        invariant
            it.seq() == all,
            ids@ == keys.take(it.index()),
            keys == all.map_values(|entry: (&u32, &V)| *entry.0),
    {
        ids.push(*entry.0);
        assert(keys.take(it.index() + 1) == keys.take(it.index()).push(keys[it.index()]));
    }
    assert(ids@ =~= keys);
    assert forall|i: int, j: int| 0 <= i < j < ids@.len() implies ids@[i] < ids@[j] by {
        assert(keys[i].cmp_spec(&keys[j]) is Less);
    }
    assert forall|id: u32| table@.contains_key(id) implies ids@.contains(id) by {
        let i = choose|i: int| 0 <= i < all.len() && all[i] == (&id, &table@[id]);
        assert(keys[i] == id);
    }
    assert forall|id: u32| ids@.contains(id) implies table@.contains_key(id) by {
        let i = choose|i: int| 0 <= i < keys.len() && keys[i] == id;
        assert(table@.contains_key(*all[i].0));
    }
    assert(ids@.to_set() =~= table@.dom());
    proof {
        increasing_list_is_in_order(ids@);
    }
    ids
}

/// Whether `a` orders before `b`.
spec fn is_less<K: Ord>(a: K, b: K) -> bool {
    a.cmp_spec(&b) is Less
}

/// The members of a set, in order.
pub fn set_ids(set: &BTreeSet<u32>) -> (ids: Vec<u32>)
    ensures
        ids@.to_set() == set@,
        increasing(ids@),
        ids@ == in_order(set@),
{
    broadcast use vstd::std_specs::btree::group_btree_axioms;
    broadcast use vstd::laws_cmp::group_laws_cmp;

    assert(vstd::laws_cmp::obeys_cmp::<u32>());
    assert(vstd::laws_cmp::obeys_cmp::<&u32>());
    assert(vstd::std_specs::btree::key_obeys_cmp_spec::<u32>());
    let mut ids: Vec<u32> = Vec::new();
    let members = set.iter();
    let ghost all = members.remaining();
    let ghost keys = all.unref();
    for member in it: members
        invariant
            it.seq() == all,
            keys == all.unref(),
            ids@ == keys.take(it.index()),
    {
        ids.push(*member);
        assert(keys.take(it.index() + 1) == keys.take(it.index()).push(keys[it.index()]));
    }
    assert(ids@ =~= keys);
    assert forall|i: int, j: int| 0 <= i < j < ids@.len() implies ids@[i] < ids@[j] by {
        assert(is_less(all[i], all[j]));
    }
    proof {
        increasing_list_is_in_order(ids@);
    }
    ids
}

proof fn push_inserts(list: Seq<u32>, id: u32)
    ensures
        list.push(id).to_set() == list.to_set().insert(id),
{
    let more = list.push(id);
    assert forall|x: u32| more.to_set().contains(x) <==> list.to_set().insert(id).contains(x) by {
        if list.contains(x) {
            let i = choose|i: int| 0 <= i < list.len() && list[i] == x;
            assert(more[i] == x);
        }
        if more.contains(x) && x != id {
            let i = choose|i: int| 0 <= i < more.len() && more[i] == x;
            assert(list[i] == x);
        }
        assert(more[list.len() as int] == id);
    }
    assert(more.to_set() =~= list.to_set().insert(id));
}

/// The IDs of a list as a set.
pub fn id_set(ids: &Vec<u32>) -> (set: HashSet<u32>)
    ensures
        set@ == ids@.to_set(),
{
    broadcast use vstd::std_specs::hash::group_hash_axioms;

    let mut set: HashSet<u32> = HashSet::new();
    let mut i: usize = 0;
    while i < ids.len()
        invariant
            i <= ids@.len(),
            set@ == ids@.take(i as int).to_set(),
        decreases ids@.len() - i,
    {
        set.insert(ids[i]);
        proof {
            assert(ids@.take(i + 1) =~= ids@.take(i as int).push(ids@[i as int]));
            push_inserts(ids@.take(i as int), ids@[i as int]);
        }
        i += 1;
    }
    assert(ids@.take(i as int) =~= ids@);
    set
}

fn collected(ids: &Vec<u32>) -> (set: BTreeSet<u32>)
    ensures
        set@ == ids@.to_set(),
{
    broadcast use vstd::std_specs::btree::group_btree_axioms;
    broadcast use vstd::laws_cmp::group_laws_cmp;

    assert(vstd::laws_cmp::obeys_cmp::<u32>());
    let mut set: BTreeSet<u32> = BTreeSet::new();
    let ghost mut seen: Seq<u32> = Seq::empty();
    for id in it: ids.iter()
        invariant
            it.seq().unref() == ids@,
            seen == ids@.take(it.index()),
            set@ == seen.to_set(),
            vstd::std_specs::btree::key_obeys_cmp_spec::<u32>(),
    {
        set.insert(*id);
        proof {
            push_inserts(seen, *id);
            assert(ids@.take(it.index() + 1) =~= seen.push(*id));
            seen = seen.push(*id);
        }
    }
    assert(seen =~= ids@);
    set
}

/// The IDs of a list in order, each once.
pub fn sorted_distinct(ids: &Vec<u32>) -> (list: Vec<u32>)
    ensures
        increasing(list@),
        list@.to_set() == ids@.to_set(),
        list@ == in_order(ids@.to_set()),
{
    let set = collected(ids);
    set_ids(&set)
}

/// A number between neighbours in an increasing list is not in it: the list is determined by the
/// set of its members.
pub proof fn increasing_lists_agree(a: Seq<u32>, b: Seq<u32>)
    requires
        increasing(a),
        increasing(b),
        a.to_set() == b.to_set(),
    ensures
        a == b,
    decreases a.len(),
{
    if a.len() == 0 {
        if b.len() > 0 {
            assert(b.to_set().contains(b[0]));
            assert(a.contains(b[0]));
        }
        assert(a =~= b);
    } else {
        assert(a.to_set().contains(a[0]));
        assert(b.contains(a[0]));
        assert(b.to_set().contains(b[0]));
        assert(a.contains(b[0]));
        let i = choose|i: int| 0 <= i < b.len() && b[i] == a[0];
        let j = choose|j: int| 0 <= j < a.len() && a[j] == b[0];
        assert(a[0] == b[0]) by {
            if i > 0 {
                assert(b[0] < b[i]);
            }
            if j > 0 {
                assert(a[0] < a[j]);
            }
        }
        let x = a.drop_first();
        let y = b.drop_first();
        assert forall|id: u32| x.to_set().contains(id) <==> y.to_set().contains(id) by {
            if x.contains(id) {
                let k = choose|k: int| 0 <= k < x.len() && x[k] == id;
                assert(a[k + 1] == id);
                assert(a[0] < a[k + 1]);
                assert(a.to_set().contains(id));
                assert(b.contains(id));
                let m = choose|m: int| 0 <= m < b.len() && b[m] == id;
                assert(y[m - 1] == id);
            }
            if y.contains(id) {
                let k = choose|k: int| 0 <= k < y.len() && y[k] == id;
                assert(b[k + 1] == id);
                assert(b[0] < b[k + 1]);
                assert(b.to_set().contains(id));
                assert(a.contains(id));
                let m = choose|m: int| 0 <= m < a.len() && a[m] == id;
                assert(x[m - 1] == id);
            }
        }
        assert(x.to_set() =~= y.to_set());
        assert(increasing(x)) by {
            assert forall|p: int, q: int| 0 <= p < q < x.len() implies x[p] < x[q] by {
                assert(a[p + 1] < a[q + 1]);
            }
        }
        assert(increasing(y)) by {
            assert forall|p: int, q: int| 0 <= p < q < y.len() implies y[p] < y[q] by {
                assert(b[p + 1] < b[q + 1]);
            }
        }
        increasing_lists_agree(x, y);
        assert(a =~= seq![a[0]] + x);
        assert(b =~= seq![b[0]] + y);
    }
}

} // verus!
