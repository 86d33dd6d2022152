//! The genre filter's options: the most frequent tags of the catalog.
use crate::order::{precedes_is_irreflexive, precedes_is_total, precedes_is_transitive};
use crate::text::{chars_of, precedes, text_precedes, texts};
use crate::types::CatalogApp;
use vstd::hash_map::StringHashMap;
use vstd::prelude::*;

verus! {

/// How often a tag has to occur to be offered.
pub const TAG_MINIMUM: u128 = 20;

/// How many tags are offered at most.
pub const TAG_LIMIT: usize = 40;

/// How often an item occurs in a list.
pub open spec fn occurrences(list: Seq<Seq<char>>, item: Seq<char>) -> nat
    decreases list.len(),
{
    if list.len() == 0 {
        0
    } else {
        occurrences(list.drop_last(), item) + if list.last() == item {
            1nat
        } else {
            0nat
        }
    }
}

/// All tags of all apps, in order and with repetitions.
pub open spec fn all_tags(apps: Seq<CatalogApp>) -> Seq<Seq<char>>
    decreases apps.len(),
{
    if apps.len() == 0 {
        Seq::empty()
    } else {
        all_tags(apps.drop_last()) + texts(apps.last().tags@)
    }
}

/// Whether tag `a` is listed before tag `b`: it occurs more often, or as often and stands first in
/// the order of strings.
pub open spec fn ranks_before(tags: Seq<Seq<char>>, a: Seq<char>, b: Seq<char>) -> bool {
    ||| occurrences(tags, a) > occurrences(tags, b)
    ||| occurrences(tags, a) == occurrences(tags, b) && precedes(a, b)
}

/// Whether `list` holds the tags to offer: those that occur often enough, best first, no more than
/// the limit, and with none left out that ranks before one of them.
pub open spec fn offers(tags: Seq<Seq<char>>, list: Seq<Seq<char>>) -> bool {
    &&& list.len() <= TAG_LIMIT
    &&& forall|i: int| 0 <= i < list.len() ==> occurrences(tags, #[trigger] list[i]) >= TAG_MINIMUM
    &&& forall|i: int, j: int|
        0 <= i < j < list.len() ==> ranks_before(tags, #[trigger] list[i], #[trigger] list[j])
    &&& forall|tag: Seq<char>|
        #[trigger] occurrences(tags, tag) >= TAG_MINIMUM ==> {
            ||| list.contains(tag)
            ||| list.len() == TAG_LIMIT && forall|i: int|
                0 <= i < list.len() ==> ranks_before(tags, #[trigger] list[i], tag)
        }
}

proof fn occurrences_of_push(list: Seq<Seq<char>>, last: Seq<char>, item: Seq<char>)
    ensures
        occurrences(list.push(last), item) == occurrences(list, item) + if last == item {
            1nat
        } else {
            0nat
        },
{
    assert(list.push(last).drop_last() =~= list);
}

proof fn occurrences_are_bounded(list: Seq<Seq<char>>, item: Seq<char>)
    ensures
        occurrences(list, item) <= list.len(),
    decreases list.len(),
{
    if list.len() > 0 {
        occurrences_are_bounded(list.drop_last(), item);
    }
}

proof fn ranks_before_is_transitive(
    tags: Seq<Seq<char>>,
    a: Seq<char>,
    b: Seq<char>,
    c: Seq<char>,
)
    requires
        ranks_before(tags, a, b),
        ranks_before(tags, b, c),
    ensures
        ranks_before(tags, a, c),
{
    if precedes(a, b) && precedes(b, c) {
        precedes_is_transitive(a, b, c);
    }
}

/// The distinct tags seen so far, each with the number of times it occurred.
struct TagCounts {
    names: Vec<String>,
    counts: Vec<u128>,
    index: StringHashMap<usize>,
}

impl TagCounts {
    spec fn counted(&self, seen: Seq<Seq<char>>) -> bool {
        &&& self.names@.len() == self.counts@.len()
        &&& forall|k: int|
            0 <= k < self.names@.len() ==> {
                &&& self.index@.contains_key((#[trigger] self.names@[k])@)
                &&& self.index@[self.names@[k]@] == k
                &&& self.counts@[k] == occurrences(seen, self.names@[k]@)
            }
        &&& forall|tag: Seq<char>| #[trigger]
            self.index@.contains_key(tag) ==> {
                &&& self.index@[tag] < self.names@.len()
                &&& self.names@[self.index@[tag] as int]@ == tag
            }
        &&& forall|tag: Seq<char>| #[trigger]
            occurrences(seen, tag) > 0 ==> self.index@.contains_key(tag)
    }

    fn count(&mut self, tag: &String, Ghost(seen): Ghost<Seq<Seq<char>>>)
        requires
            old(self).counted(seen),
            seen.len() < u128::MAX,
        ensures
            final(self).counted(seen.push(tag@)),
    {
        let ghost before = *self;
        proof {
            assert forall|item: Seq<char>| #[trigger]
                occurrences(seen.push(tag@), item) == occurrences(seen, item) + if tag@ == item {
                    1nat
                } else {
                    0nat
                } by {
                occurrences_of_push(seen, tag@, item);
            }
            occurrences_are_bounded(seen, tag@);
        }
        let at: Option<usize> = match self.index.get(tag.as_str()) {
            Some(at) => Some(*at),
            None => None,
        };
        match at {
            Some(at) => {
                let n: u128 = self.counts[at];
                self.counts.set(at, n + 1);
                assert forall|k: int| 0 <= k < self.names@.len() implies {
                    &&& self.index@.contains_key((#[trigger] self.names@[k])@)
                    &&& self.index@[self.names@[k]@] == k
                    &&& self.counts@[k] == occurrences(seen.push(tag@), self.names@[k]@)
                } by {
                    assert(before.names@[k] == self.names@[k]);
                }
                assert forall|item: Seq<char>| #[trigger]
                    occurrences(seen.push(tag@), item) > 0 implies self.index@.contains_key(
                    item,
                ) by {
                    assert(item != tag@ ==> occurrences(seen, item) > 0);
                }
            },
            None => {
                let at: usize = self.names.len();
                self.names.push(tag.clone());
                self.counts.push(1);
                self.index.insert(tag.clone(), at);
                proof {
                    assert(occurrences(seen, tag@) == 0);
                    assert forall|k: int| 0 <= k < self.names@.len() implies {
                        &&& self.index@.contains_key((#[trigger] self.names@[k])@)
                        &&& self.index@[self.names@[k]@] == k
                        &&& self.counts@[k] == occurrences(seen.push(tag@), self.names@[k]@)
                    } by {
                        if k < before.names@.len() {
                            assert(before.names@[k] == self.names@[k]);
                            assert(before.index@.contains_key(before.names@[k]@));
                        }
                    }
                    assert forall|item: Seq<char>| #[trigger]
                        self.index@.contains_key(item) implies {
                        &&& self.index@[item] < self.names@.len()
                        &&& self.names@[self.index@[item] as int]@ == item
                    } by {
                        if item != tag@ {
                            assert(before.index@.contains_key(item));
                        }
                    }
                    assert forall|item: Seq<char>| #[trigger]
                        occurrences(seen.push(tag@), item) > 0 implies self.index@.contains_key(
                        item,
                    ) by {
                        assert(item != tag@ ==> occurrences(seen, item) > 0);
                    }
                }
            },
        }
    }
}

fn count_tags(apps: &Vec<CatalogApp>) -> (counts: TagCounts)
    ensures
        counts.counted(all_tags(apps@)),
{
    let mut counts = TagCounts { names: Vec::new(), counts: Vec::new(), index: StringHashMap::new() };
    let ghost mut seen: Seq<Seq<char>> = Seq::empty();
    let mut i: usize = 0;
    while i < apps.len()
        invariant
            i <= apps@.len(),
            seen == all_tags(apps@.take(i as int)),
            counts.counted(seen),
            seen.len() <= i * 0x1_0000_0000_0000_0000,
        decreases apps@.len() - i,
    {
        let tags = &apps[i].tags;
        let ghost base = seen;
        let mut j: usize = 0;
        while j < tags.len()
            invariant
                i < apps@.len(),
                j <= tags@.len(),
                seen =~= base + texts(tags@.take(j as int)),
                base.len() <= i * 0x1_0000_0000_0000_0000,
                counts.counted(seen),
            decreases tags@.len() - j,
        {
            assert(seen.len() == base.len() + j);
            counts.count(&tags[j], Ghost(seen));
            proof {
                seen = seen.push(tags@[j as int]@);
                assert(texts(tags@.take(j + 1)) =~= texts(tags@.take(j as int)).push(
                    tags@[j as int]@,
                ));
                assert(seen =~= base + texts(tags@.take(j + 1)));
            }
            j += 1;
        }
        proof {
            let now = apps@.take(i + 1);
            assert(now.drop_last() =~= apps@.take(i as int));
            assert(now.last().tags@ == tags@);
            assert(tags@.take(j as int) =~= tags@);
            assert(seen == all_tags(now));
        }
        i += 1;
    }
    assert(apps@.take(i as int) =~= apps@);
    counts
}

/// The tags to offer in the genre filter.
pub fn frequent_tags(apps: &Vec<CatalogApp>) -> (list: Vec<String>)
    ensures
        offers(all_tags(apps@), texts(list@)),
{
    let counted = count_tags(apps);
    let ghost tags = all_tags(apps@);
    // The tags that occur often enough and are not listed yet, with their counts.
    let mut names: Vec<String> = Vec::new();
    let mut keys: Vec<Vec<char>> = Vec::new();
    let mut counts: Vec<u128> = Vec::new();
    let mut i: usize = 0;
    while i < counted.names.len()
        invariant
            i <= counted.names@.len(),
            counted.counted(tags),
            names@.len() == counts@.len() == keys@.len(),
            forall|k: int|
                0 <= k < names@.len() ==> {
                    &&& counts@[k] == occurrences(tags, (#[trigger] names@[k])@)
                    &&& counts@[k] >= TAG_MINIMUM
                    &&& keys@[k]@ == names@[k]@
                },
            forall|k: int|
                0 <= k < i && occurrences(tags, (#[trigger] counted.names@[k])@) >= TAG_MINIMUM
                    ==> texts(names@).contains(counted.names@[k]@),
        decreases counted.names@.len() - i,
    {
        let ghost before = names@;
        if counted.counts[i] >= TAG_MINIMUM {
            names.push(counted.names[i].clone());
            keys.push(chars_of(counted.names[i].as_str()));
            counts.push(counted.counts[i]);
            assert(texts(names@)[before.len() as int] == counted.names@[i as int]@);
        }
        assert forall|k: int|
            0 <= k < i + 1 && occurrences(tags, (#[trigger] counted.names@[k])@)
                >= TAG_MINIMUM implies texts(names@).contains(counted.names@[k]@) by {
            if k < i {
                let w = choose|w: int|
                    0 <= w < before.len() && texts(before)[w] == counted.names@[k]@;
                assert(texts(names@)[w] == counted.names@[k]@);
            }
        }
        i += 1;
    }
    proof {
        assert forall|tag: Seq<char>| #[trigger]
            occurrences(tags, tag) >= TAG_MINIMUM implies texts(names@).contains(tag) by {
            assert(counted.index@.contains_key(tag));
            let k = counted.index@[tag] as int;
            assert(counted.names@[k]@ == tag);
        }
    }
    let mut list: Vec<String> = Vec::new();
    while names.len() > 0 && list.len() < TAG_LIMIT
        invariant
            list@.len() <= TAG_LIMIT,
            names@.len() == counts@.len() == keys@.len(),
            forall|k: int|
                0 <= k < names@.len() ==> {
                    &&& counts@[k] == occurrences(tags, (#[trigger] names@[k])@)
                    &&& counts@[k] >= TAG_MINIMUM
                    &&& keys@[k]@ == names@[k]@
                },
            forall|k: int|
                0 <= k < list@.len() ==> occurrences(tags, (#[trigger] list@[k])@) >= TAG_MINIMUM,
            forall|a: int, b: int|
                0 <= a < b < list@.len() ==> ranks_before(
                    tags,
                    (#[trigger] list@[a])@,
                    (#[trigger] list@[b])@,
                ),
            forall|a: int, b: int|
                0 <= a < list@.len() && 0 <= b < names@.len() ==> ranks_before(
                    tags,
                    (#[trigger] list@[a])@,
                    (#[trigger] names@[b])@,
                ) || list@[a]@ == names@[b]@,
            forall|tag: Seq<char>| #[trigger]
                occurrences(tags, tag) >= TAG_MINIMUM ==> texts(names@).contains(tag) || texts(
                    list@,
                ).contains(tag),
        decreases names@.len(),
    {
        let mut best: usize = 0;
        let mut k: usize = 1;
        while k < names.len()
            invariant
                best < k <= names@.len(),
                names@.len() == counts@.len() == keys@.len(),
                forall|k: int|
                    0 <= k < names@.len() ==> {
                        &&& counts@[k] == occurrences(tags, (#[trigger] names@[k])@)
                        &&& keys@[k]@ == names@[k]@
                    },
                forall|b: int|
                    0 <= b < k ==> ranks_before(tags, names@[best as int]@, (#[trigger] names@[b])@)
                        || names@[best as int]@ == names@[b]@,
            decreases names@.len() - k,
        {
            let better = counts[k] > counts[best] || (counts[k] == counts[best] && text_precedes(
                &keys[k],
                &keys[best],
            ));
            proof {
                let a = names@[k as int]@;
                let b = names@[best as int]@;
                assert(better == ranks_before(tags, a, b));
                precedes_is_total(a, b);
                if better {
                    assert forall|c: int| 0 <= c < k + 1 implies ranks_before(
                        tags,
                        a,
                        (#[trigger] names@[c])@,
                    ) || a == names@[c]@ by {
                        if c < k && names@[c]@ != b {
                            ranks_before_is_transitive(tags, a, b, names@[c]@);
                        }
                    }
                }
            }
            if better {
                best = k;
            }
            k += 1;
        }
        let ghost before_names = names@;
        let ghost before_list = list@;
        let name = names.swap_remove(best);
        keys.swap_remove(best);
        counts.swap_remove(best);
        let repeated = if list.len() > 0 {
            list[list.len() - 1] == name
        } else {
            false
        };
        proof {
            assert forall|a: int| 0 <= a < before_list.len() && !repeated implies ranks_before(
                tags,
                (#[trigger] before_list[a])@,
                name@,
            ) by {
                assert(before_names[best as int] == name);
                if before_list[a]@ == name@ {
                    let last = before_list.len() - 1;
                    assert(ranks_before(tags, before_list[last]@, name@) || before_list[last]@
                        == name@);
                    if a < last {
                        assert(ranks_before(tags, before_list[a]@, before_list[last]@));
                        ranks_before_is_transitive(
                            tags,
                            before_list[a]@,
                            before_list[last]@,
                            name@,
                        );
                        precedes_is_irreflexive(name@);
                    }
                }
            }
        }
        if !repeated {
            list.push(name);
        }
        proof {
            assert forall|tag: Seq<char>| #[trigger]
                occurrences(tags, tag) >= TAG_MINIMUM implies texts(names@).contains(tag) || texts(
                list@,
            ).contains(tag) by {
                if texts(before_list).contains(tag) {
                    let w = choose|w: int| 0 <= w < before_list.len() && texts(before_list)[w] == tag;
                    assert(texts(list@)[w] == tag);
                } else {
                    let w = choose|w: int|
                        0 <= w < before_names.len() && texts(before_names)[w] == tag;
                    if w == best {
                        if repeated {
                            assert(texts(list@)[list@.len() - 1] == tag);
                        } else {
                            assert(texts(list@)[before_list.len() as int] == tag);
                        }
                    } else if w == before_names.len() - 1 {
                        assert(texts(names@)[best as int] == tag);
                    } else {
                        assert(texts(names@)[w] == tag);
                    }
                }
            }
            assert forall|a: int, b: int|
                0 <= a < list@.len() && 0 <= b < names@.len() implies ranks_before(
                tags,
                (#[trigger] list@[a])@,
                (#[trigger] names@[b])@,
            ) || list@[a]@ == names@[b]@ by {
                let w = if b == best {
                    before_names.len() - 1
                } else {
                    b
                };
                assert(names@[b] == before_names[w]);
                if a < before_list.len() {
                    assert(list@[a] == before_list[a]);
                } else {
                    assert(list@[a] == name);
                }
            }
        }
    }
    proof {
        let out = texts(list@);
        assert forall|tag: Seq<char>| #[trigger] occurrences(tags, tag) >= TAG_MINIMUM implies {
            ||| out.contains(tag)
            ||| out.len() == TAG_LIMIT && forall|i: int|
                0 <= i < out.len() ==> ranks_before(tags, #[trigger] out[i], tag)
        } by {
            if !out.contains(tag) {
                let w = choose|w: int| 0 <= w < names@.len() && texts(names@)[w] == tag;
                assert(names@[w]@ == tag);
                assert forall|i: int| 0 <= i < out.len() implies ranks_before(
                    tags,
                    #[trigger] out[i],
                    tag,
                ) by {
                    assert(out[i] == list@[i]@);
                }
            }
        }
    }
    list
}

/// No tag is offered twice.
pub proof fn offered_tags_are_distinct(tags: Seq<Seq<char>>, list: Seq<Seq<char>>)
    requires
        offers(tags, list),
    ensures
        list.no_duplicates(),
{
    assert forall|i: int, j: int| 0 <= i < j < list.len() implies list[i] != list[j] by {
        precedes_is_irreflexive(list[i]);
    }
}

/// The offer is determined by the catalog: no two different lists meet `offers`.
pub proof fn offered_tags_are_unique(
    tags: Seq<Seq<char>>,
    a: Seq<Seq<char>>,
    b: Seq<Seq<char>>,
)
    requires
        offers(tags, a),
        offers(tags, b),
    ensures
        a == b,
{
    offered_prefixes_agree(tags, a, b, a.len());
    offered_prefixes_agree(tags, b, a, b.len());
    assert(a =~= b);
}

proof fn offered_prefixes_agree(
    tags: Seq<Seq<char>>,
    a: Seq<Seq<char>>,
    b: Seq<Seq<char>>,
    n: nat,
)
    requires
        offers(tags, a),
        offers(tags, b),
        n <= a.len(),
    ensures
        n <= b.len(),
        forall|i: int| 0 <= i < n ==> a[i] == b[i],
    decreases n,
{
    if n > 0 {
        let k = n - 1;
        offered_prefixes_agree(tags, a, b, (n - 1) as nat);
        assert(occurrences(tags, a[k]) >= TAG_MINIMUM);
        if b.len() < n {
            // Then `b` is below the limit, so it holds a[k] among its first entries.
            assert(b.contains(a[k]));
            let i = choose|i: int| 0 <= i < b.len() && b[i] == a[k];
            assert(ranks_before(tags, a[i], a[k]));
            precedes_is_irreflexive(a[k]);
        } else if a[k] != b[k] {
            precedes_is_total(a[k], b[k]);
            precedes_is_irreflexive(a[k]);
            precedes_is_irreflexive(b[k]);
            assert(occurrences(tags, b[k]) >= TAG_MINIMUM);
            if ranks_before(tags, a[k], b[k]) {
                if b.contains(a[k]) {
                    let i = choose|i: int| 0 <= i < b.len() && b[i] == a[k];
                    if i < k {
                        assert(ranks_before(tags, a[i], a[k]));
                    } else if i > k {
                        assert(ranks_before(tags, b[k], b[i]));
                        ranks_before_is_transitive(tags, a[k], b[k], a[k]);
                    }
                } else {
                    assert(ranks_before(tags, b[k], a[k]));
                    ranks_before_is_transitive(tags, a[k], b[k], a[k]);
                }
            } else {
                assert(ranks_before(tags, b[k], a[k]));
                if a.contains(b[k]) {
                    let i = choose|i: int| 0 <= i < a.len() && a[i] == b[k];
                    if i < k {
                        assert(ranks_before(tags, b[i], b[k]));
                    } else if i > k {
                        assert(ranks_before(tags, a[k], a[i]));
                        ranks_before_is_transitive(tags, b[k], a[k], b[k]);
                    }
                } else {
                    assert(ranks_before(tags, a[k], b[k]));
                    ranks_before_is_transitive(tags, b[k], a[k], b[k]);
                }
            }
        }
    }
}

} // verus!
