//! A small map keyed by strings: each key at most once, lookups by value
//! equality of the key's characters. Its model is a `Map` from character
//! sequences to the values' views.

use vstd::prelude::*;

verus! {

/// The map that a list of distinct-keyed pairs denotes.
pub open spec fn pairs_map<V: View>(items: Seq<(String, V)>) -> Map<Seq<char>, V::V>
    decreases items.len(),
{
    if items.len() == 0 {
        Map::empty()
    } else {
        pairs_map(items.drop_last()).insert(items.last().0@, items.last().1@)
    }
}

pub open spec fn keys_unique<V>(items: Seq<(String, V)>) -> bool {
    forall|i: int, j: int|
        0 <= i < items.len() && 0 <= j < items.len() && i != j ==> (#[trigger] items[i]).0@
            != (#[trigger] items[j]).0@
}

pub proof fn lemma_pairs_map_index<V: View>(items: Seq<(String, V)>, i: int)
    requires
        keys_unique(items),
        0 <= i < items.len(),
    ensures
        pairs_map(items).contains_key(items[i].0@),
        pairs_map(items)[items[i].0@] == items[i].1@,
    decreases items.len(),
{
    let n = items.len();
    if i < n - 1 {
        let pre = items.drop_last();
        assert(keys_unique(pre)) by {
            assert forall|a: int, b: int|
                0 <= a < pre.len() && 0 <= b < pre.len() && a != b implies (#[trigger] pre[a]).0@
                != (#[trigger] pre[b]).0@ by {
                assert(pre[a] == items[a]);
                assert(pre[b] == items[b]);
            }
        }
        assert(pre[i] == items[i]);
        lemma_pairs_map_index(pre, i);
        assert(items[i].0@ != items[n - 1].0@);
    }
}

pub proof fn lemma_pairs_map_absent<V: View>(items: Seq<(String, V)>, k: Seq<char>)
    requires
        forall|i: int| 0 <= i < items.len() ==> (#[trigger] items[i]).0@ != k,
    ensures
        !pairs_map(items).contains_key(k),
    decreases items.len(),
{
    if items.len() > 0 {
        let pre = items.drop_last();
        assert forall|i: int| 0 <= i < pre.len() implies (#[trigger] pre[i]).0@ != k by {
            assert(pre[i] == items[i]);
        }
        lemma_pairs_map_absent(pre, k);
        assert(items.last() == items[items.len() - 1]);
    }
}

pub proof fn lemma_pairs_map_keys<V: View>(items: Seq<(String, V)>, k: Seq<char>)
    requires
        pairs_map(items).contains_key(k),
    ensures
        exists|i: int| 0 <= i < items.len() && (#[trigger] items[i]).0@ == k,
    decreases items.len(),
{
    if items.len() > 0 {
        let pre = items.drop_last();
        if items.last().0@ == k {
            assert(items[items.len() - 1].0@ == k);
        } else {
            lemma_pairs_map_keys(pre, k);
            let i = choose|i: int| 0 <= i < pre.len() && (#[trigger] pre[i]).0@ == k;
            assert(items[i] == pre[i]);
        }
    }
}

pub proof fn lemma_pairs_map_update<V: View>(items: Seq<(String, V)>, i: int, p: (String, V))
    requires
        keys_unique(items),
        0 <= i < items.len(),
        p.0@ == items[i].0@,
    ensures
        keys_unique(items.update(i, p)),
        pairs_map(items.update(i, p)) == pairs_map(items).insert(p.0@, p.1@),
    decreases items.len(),
{
    let n = items.len();
    let up = items.update(i, p);
    assert(keys_unique(up)) by {
        assert forall|a: int, b: int|
            0 <= a < up.len() && 0 <= b < up.len() && a != b implies (#[trigger] up[a]).0@
            != (#[trigger] up[b]).0@ by {
            assert(up[a].0@ == items[a].0@);
            assert(up[b].0@ == items[b].0@);
        }
    }
    let pre = items.drop_last();
    assert(keys_unique(pre)) by {
        assert forall|a: int, b: int|
            0 <= a < pre.len() && 0 <= b < pre.len() && a != b implies (#[trigger] pre[a]).0@
            != (#[trigger] pre[b]).0@ by {
            assert(pre[a] == items[a]);
            assert(pre[b] == items[b]);
        }
    }
    if i == n - 1 {
        assert(up.drop_last() =~= pre);
        assert(up.last() == p);
        assert forall|a: int| 0 <= a < pre.len() implies (#[trigger] pre[a]).0@ != p.0@ by {
            assert(pre[a] == items[a]);
        }
        lemma_pairs_map_absent(pre, p.0@);
        assert(pairs_map(up) =~= pairs_map(items).insert(p.0@, p.1@));
    } else {
        lemma_pairs_map_update(pre, i, p);
        assert(up.drop_last() =~= pre.update(i, p));
        assert(up.last() == items.last());
        assert(items.last().0@ != p.0@) by {
            assert(items[n - 1].0@ != items[i].0@);
        }
        assert(pairs_map(up) =~= pairs_map(items).insert(p.0@, p.1@));
    }
}

pub proof fn lemma_pairs_map_len<V: View>(items: Seq<(String, V)>)
    requires
        keys_unique(items),
    ensures
        pairs_map(items).dom().finite(),
        pairs_map(items).dom().len() == items.len(),
    decreases items.len(),
{
    if items.len() > 0 {
        let pre = items.drop_last();
        assert(keys_unique(pre)) by {
            assert forall|a: int, b: int|
                0 <= a < pre.len() && 0 <= b < pre.len() && a != b implies (#[trigger] pre[a]).0@
                != (#[trigger] pre[b]).0@ by {
                assert(pre[a] == items[a]);
                assert(pre[b] == items[b]);
            }
        }
        lemma_pairs_map_len(pre);
        assert forall|a: int| 0 <= a < pre.len() implies (#[trigger] pre[a]).0@ != items.last().0@ by {
            assert(pre[a] == items[a]);
            assert(items.last() == items[items.len() - 1]);
        }
        lemma_pairs_map_absent(pre, items.last().0@);
    }
}

pub proof fn lemma_pairs_map_congruent<V: View>(a: Seq<(String, V)>, b: Seq<(String, V)>)
    requires
        a.len() == b.len(),
        forall|i: int| 0 <= i < a.len() ==> (#[trigger] a[i]).0@ == b[i].0@ && a[i].1@ == b[i].1@,
    ensures
        pairs_map(a) == pairs_map(b),
    decreases a.len(),
{
    if a.len() > 0 {
        let (pa, pb) = (a.drop_last(), b.drop_last());
        assert forall|i: int| 0 <= i < pa.len() implies (#[trigger] pa[i]).0@ == pb[i].0@ && pa[i].1@
            == pb[i].1@ by {
            assert(pa[i] == a[i]);
            assert(pb[i] == b[i]);
        }
        lemma_pairs_map_congruent(pa, pb);
        assert(a.last() == a[a.len() - 1]);
        assert(b.last() == b[b.len() - 1]);
    }
}

/// Lexicographic order on character sequences by code point — the order
/// of `String`'s `Ord` (UTF-8 byte order agrees with code point order).
pub open spec fn chars_lt(a: Seq<char>, b: Seq<char>) -> bool
    decreases a.len(),
{
    if a.len() == 0 {
        b.len() > 0
    } else if b.len() == 0 {
        false
    } else if a[0] != b[0] {
        a[0] < b[0]
    } else {
        chars_lt(a.drop_first(), b.drop_first())
    }
}

pub proof fn lemma_lt_irreflexive(a: Seq<char>)
    ensures
        !chars_lt(a, a),
    decreases a.len(),
{
    if a.len() > 0 {
        lemma_lt_irreflexive(a.drop_first());
    }
}

pub proof fn lemma_lt_asymmetric(a: Seq<char>, b: Seq<char>)
    ensures
        !(chars_lt(a, b) && chars_lt(b, a)),
    decreases a.len(),
{
    if a.len() > 0 && b.len() > 0 && a[0] == b[0] {
        lemma_lt_asymmetric(a.drop_first(), b.drop_first());
    }
}

pub proof fn lemma_lt_transitive(a: Seq<char>, b: Seq<char>, c: Seq<char>)
    requires
        chars_lt(a, b),
        chars_lt(b, c),
    ensures
        chars_lt(a, c),
    decreases a.len(),
{
    if a.len() > 0 && b.len() > 0 && c.len() > 0 && a[0] == b[0] && b[0] == c[0] {
        lemma_lt_transitive(a.drop_first(), b.drop_first(), c.drop_first());
    }
}

pub proof fn lemma_lt_total(a: Seq<char>, b: Seq<char>)
    requires
        a != b,
    ensures
        chars_lt(a, b) || chars_lt(b, a),
    decreases a.len(),
{
    if a.len() > 0 && b.len() > 0 && a[0] == b[0] {
        if a.drop_first() == b.drop_first() {
            assert(a =~= seq![a[0]] + a.drop_first());
            assert(b =~= seq![b[0]] + b.drop_first());
        }
        lemma_lt_total(a.drop_first(), b.drop_first());
    } else if a.len() == 0 && b.len() == 0 {
        assert(a =~= b);
    }
}

/// Whether `a` sorts before `b`.
pub fn chars_less(a: &Vec<char>, b: &Vec<char>) -> (r: bool)
    ensures
        r == chars_lt(a@, b@),
{
    let mut i: usize = 0;
    proof {
        assert(a@.subrange(0, a@.len() as int) =~= a@);
        assert(b@.subrange(0, b@.len() as int) =~= b@);
    }
    while i < a.len() && i < b.len() && a[i] == b[i]
        invariant
            0 <= i <= a@.len(),
            i <= b@.len(),
            chars_lt(a@, b@) == chars_lt(a@.subrange(i as int, a@.len() as int), b@.subrange(
                i as int,
                b@.len() as int,
            )),
        decreases a@.len() - i,
    {
        proof {
            let x = a@.subrange(i as int, a@.len() as int);
            let y = b@.subrange(i as int, b@.len() as int);
            assert(x[0] == a@[i as int]);
            assert(y[0] == b@[i as int]);
            assert(x.drop_first() =~= a@.subrange(i + 1, a@.len() as int));
            assert(y.drop_first() =~= b@.subrange(i + 1, b@.len() as int));
        }
        i += 1;
    }
    proof {
        let x = a@.subrange(i as int, a@.len() as int);
        let y = b@.subrange(i as int, b@.len() as int);
        if i < a.len() && i < b.len() {
            assert(x[0] == a@[i as int]);
            assert(y[0] == b@[i as int]);
        }
    }
    if i == a.len() {
        i < b.len()
    } else if i == b.len() {
        false
    } else {
        a[i] < b[i]
    }
}

/// `keys` strictly increasing along `order`.
pub open spec fn increasing_along(keys: Seq<Seq<char>>, order: Seq<usize>) -> bool {
    forall|p: int, q: int|
        0 <= p < q < order.len() ==> chars_lt(keys[#[trigger] order[p] as int], keys[#[trigger] order[q] as int])
}

/// An order of `0..n` in which `keys` (all distinct) strictly increase.
fn sort_indices(keys: &Vec<Vec<char>>) -> (order: Vec<usize>)
    requires
        forall|a: int, b: int|
            0 <= a < keys@.len() && 0 <= b < keys@.len() && a != b ==> (#[trigger] keys@[a])@
                != (#[trigger] keys@[b])@,
    ensures
        order@.len() == keys@.len(),
        order@.no_duplicates(),
        forall|k: int| 0 <= k < order@.len() ==> #[trigger] order@[k] < keys@.len(),
        forall|j: usize| j < keys@.len() ==> #[trigger] order@.contains(j),
        increasing_along(keys@.map_values(|v: Vec<char>| v@), order@),
{
    let ghost kv = keys@.map_values(|v: Vec<char>| v@);
    let mut order: Vec<usize> = Vec::new();
    let mut i: usize = 0;
    while i < keys.len()
        invariant
            0 <= i <= keys@.len(),
            kv == keys@.map_values(|v: Vec<char>| v@),
            forall|a: int, b: int|
                0 <= a < keys@.len() && 0 <= b < keys@.len() && a != b ==> (#[trigger] keys@[a])@
                    != (#[trigger] keys@[b])@,
            order@.len() == i,
            order@.no_duplicates(),
            forall|k: int| 0 <= k < order@.len() ==> #[trigger] order@[k] < i,
            forall|j: usize| j < i ==> #[trigger] order@.contains(j),
            increasing_along(kv, order@),
        decreases keys@.len() - i,
    {
        let mut p: usize = 0;
        while p < order.len() && !chars_less(&keys[i], &keys[order[p]])
            invariant
                0 <= p <= order@.len(),
                i < keys@.len(),
                kv == keys@.map_values(|v: Vec<char>| v@),
                forall|k: int| 0 <= k < order@.len() ==> #[trigger] order@[k] < i,
                forall|k: int| 0 <= k < p ==> !chars_lt(kv[i as int], kv[#[trigger] order@[k] as int]),
            decreases order@.len() - p,
        {
            p += 1;
        }
        let ghost old_order = order@;
        proof {
            // everything before p sorts below key i, everything from p on above it
            assert forall|k: int| 0 <= k < p implies chars_lt(kv[#[trigger] old_order[k] as int], kv[i as int]) by {
                assert(old_order[k] != i);
                assert(keys@[old_order[k] as int]@ != keys@[i as int]@);
                lemma_lt_total(kv[old_order[k] as int], kv[i as int]);
            }
            assert forall|k: int| p <= k < old_order.len() implies chars_lt(kv[i as int], kv[#[trigger] old_order[k] as int]) by {
                if k > p {
                    lemma_lt_transitive(kv[i as int], kv[old_order[p as int] as int], kv[old_order[k] as int]);
                }
            }
        }
        order.insert(p, i);
        proof {
            assert(order@ =~= old_order.insert(p as int, i));
            assert forall|a: int, b: int| 0 <= a < b < order@.len() implies chars_lt(
                kv[#[trigger] order@[a] as int],
                kv[#[trigger] order@[b] as int],
            ) by {
                if a < p && b < p {
                    assert(order@[a] == old_order[a] && order@[b] == old_order[b]);
                } else if a < p && b == p {
                } else if a < p {
                    assert(order@[a] == old_order[a] && order@[b] == old_order[b - 1]);
                    lemma_lt_transitive(kv[old_order[a] as int], kv[i as int], kv[old_order[b - 1] as int]);
                } else if a == p {
                    assert(order@[b] == old_order[b - 1]);
                } else {
                    assert(order@[a] == old_order[a - 1] && order@[b] == old_order[b - 1]);
                }
            }
            assert(order@.no_duplicates()) by {
                assert forall|a: int, b: int| 0 <= a < order@.len() && 0 <= b < order@.len() && a != b
                    implies order@[a] != order@[b] by {
                    if a != p && b != p {
                        let a2 = if a < p { a } else { a - 1 };
                        let b2 = if b < p { b } else { b - 1 };
                        assert(order@[a] == old_order[a2]);
                        assert(order@[b] == old_order[b2]);
                    } else if a == p {
                        let b2 = if b < p { b } else { b - 1 };
                        assert(order@[b] == old_order[b2]);
                    } else {
                        let a2 = if a < p { a } else { a - 1 };
                        assert(order@[a] == old_order[a2]);
                    }
                }
            }
            assert forall|j: usize| j < i + 1 implies #[trigger] order@.contains(j) by {
                if j < i {
                    assert(old_order.contains(j));
                    let k = choose|k: int| 0 <= k < old_order.len() && old_order[k] == j;
                    if k < p {
                        assert(order@[k] == j);
                    } else {
                        assert(order@[k + 1] == j);
                    }
                } else {
                    assert(order@[p as int] == i);
                }
            }
            assert forall|k: int| 0 <= k < order@.len() implies #[trigger] order@[k] < i + 1 by {
                if k < p {
                    assert(order@[k] == old_order[k]);
                } else if k > p {
                    assert(order@[k] == old_order[k - 1]);
                }
            }
        }
        i += 1;
    }
    order
}

/// A map from strings to values of type `V`; each key occurs once.
#[derive(Debug)]
pub struct Table<V> {
    items: Vec<(String, V)>,
}

impl<V: View> View for Table<V> {
    type V = Map<Seq<char>, V::V>;

    closed spec fn view(&self) -> Map<Seq<char>, V::V> {
        pairs_map(self.items@)
    }
}


impl<V> Table<V> {
    #[verifier::type_invariant]
    closed spec fn keys_distinct(self) -> bool {
        keys_unique(self.items@)
    }
}

impl<V: View> Table<V> {
    /// The pairs, in the order their keys were first inserted.
    pub closed spec fn pairs(&self) -> Seq<(String, V)> {
        self.items@
    }

    /// The map is the one the pairs denote.
    pub proof fn lemma_view(&self)
        ensures
            self@ == pairs_map(self.pairs()),
    {
    }

    pub fn new() -> (t: Table<V>)
        ensures
            t@ == Map::<Seq<char>, V::V>::empty(),
            t.pairs().len() == 0,
    {
        Table { items: Vec::new() }
    }

    pub fn len(&self) -> (n: usize)
        ensures
            n == self@.dom().len(),
            n == self.pairs().len(),
    {
        proof {
            use_type_invariant(self);
            lemma_pairs_map_len(self.items@);
        }
        self.items.len()
    }

    /// Position of `key`, if present.
    pub fn find(&self, key: &String) -> (r: Option<usize>)
        ensures
            r matches Some(i) ==> i < self.pairs().len() && self.pairs()[i as int].0@ == key@
                && self@[key@] == self.pairs()[i as int].1@,
            r is None <==> !self@.contains_key(key@),
    {
        proof {
            use_type_invariant(self);
        }
        let mut i: usize = 0;
        while i < self.items.len()
            invariant
                0 <= i <= self.items@.len(),
                keys_unique(self.items@),
                forall|j: int| 0 <= j < i ==> (#[trigger] self.items@[j]).0@ != key@,
            decreases self.items@.len() - i,
        {
            if self.items[i].0 == *key {
                proof {
                    lemma_pairs_map_index(self.items@, i as int);
                }
                return Some(i);
            }
            i += 1;
        }
        proof {
            lemma_pairs_map_absent(self.items@, key@);
        }
        None
    }

    /// The value stored under `key`.
    pub fn get(&self, key: &String) -> (r: Option<&V>)
        ensures
            r matches Some(x) ==> self@.contains_key(key@) && self@[key@] == x@,
            r is None <==> !self@.contains_key(key@),
    {
        match self.find(key) {
            Some(i) => {
                proof {
                    use_type_invariant(self);
                    lemma_pairs_map_index(self.items@, i as int);
                }
                Some(&self.items[i].1)
            },
            None => None,
        }
    }

    /// The `i`-th pair.
    pub fn at(&self, i: usize) -> (r: (&String, &V))
        requires
            i < self.pairs().len(),
        ensures
            *r.0 == self.pairs()[i as int].0,
            *r.1 == self.pairs()[i as int].1,
            self@.contains_key(r.0@),
            self@[r.0@] == r.1@,
    {
        proof {
            use_type_invariant(self);
            lemma_pairs_map_index(self.items@, i as int);
        }
        (&self.items[i].0, &self.items[i].1)
    }

    /// Store `value` under `key`, replacing any earlier value.
    pub fn insert(&mut self, key: String, value: V)
        ensures
            final(self)@ == old(self)@.insert(key@, value@),
    {
        proof {
            use_type_invariant(&*self);
        }
        match self.find(&key) {
            Some(i) => {
                proof {
                    lemma_pairs_map_update(self.items@, i as int, (key, value));
                }
                let mut items: Vec<(String, V)> = Vec::new();
                std::mem::swap(&mut items, &mut self.items);
                items.set(i, (key, value));
                self.items = items;
            },
            None => {
                let ghost k = key@;
                let ghost old_items = self.items@;
                proof {
                    assert forall|j: int| 0 <= j < old_items.len() implies (#[trigger] old_items[j]).0@
                        != k by {
                        if old_items[j].0@ == k {
                            lemma_pairs_map_index(old_items, j);
                        }
                    }
                }
                let mut items: Vec<(String, V)> = Vec::new();
                std::mem::swap(&mut items, &mut self.items);
                items.push((key, value));
                proof {
                    assert(items@.drop_last() =~= old_items);
                    assert(keys_unique(items@)) by {
                        assert forall|a: int, b: int|
                            0 <= a < items@.len() && 0 <= b < items@.len() && a != b implies (
                            #[trigger] items@[a]).0@ != (#[trigger] items@[b]).0@ by {
                            if a < old_items.len() && b < old_items.len() {
                                assert(items@[a] == old_items[a]);
                                assert(items@[b] == old_items[b]);
                            } else if a < old_items.len() {
                                assert(items@[a] == old_items[a]);
                            } else {
                                assert(items@[b] == old_items[b]);
                            }
                        }
                    }
                }
                self.items = items;
            },
        }
    }

    /// Move the value of the `i`-th pair out, leaving `value` in its place.
    pub fn replace_value(&mut self, i: usize, value: V) -> (prev: V)
        requires
            i < old(self).pairs().len(),
        ensures
            prev == old(self).pairs()[i as int].1,
            final(self).pairs().len() == old(self).pairs().len(),
            final(self).pairs()[i as int].0 == old(self).pairs()[i as int].0,
            forall|j: int|
                0 <= j < old(self).pairs().len() && j != i ==> final(self).pairs()[j] == old(
                    self,
                ).pairs()[j],
            final(self)@ == old(self)@.insert(old(self).pairs()[i as int].0@, value@),
    {
        proof {
            use_type_invariant(&*self);
        }
        let mut items: Vec<(String, V)> = Vec::new();
        std::mem::swap(&mut items, &mut self.items);
        let ghost old_items = items@;
        let (key, prev) = items.remove(i);
        items.insert(i, (key, value));
        proof {
            assert(items@ =~= old_items.update(i as int, (old_items[i as int].0, value)));
            lemma_pairs_map_update(old_items, i as int, (old_items[i as int].0, value));
        }
        self.items = items;
        prev
    }

    /// Replace the value of the `i`-th pair.
    pub fn set_value(&mut self, i: usize, value: V)
        requires
            i < old(self).pairs().len(),
        ensures
            final(self).pairs().len() == old(self).pairs().len(),
            final(self).pairs()[i as int].0 == old(self).pairs()[i as int].0,
            forall|j: int|
                0 <= j < old(self).pairs().len() && j != i ==> final(self).pairs()[j] == old(
                    self,
                ).pairs()[j],
            final(self)@ == old(self)@.insert(old(self).pairs()[i as int].0@, value@),
    {
        proof {
            use_type_invariant(&*self);
        }
        let mut items: Vec<(String, V)> = Vec::new();
        std::mem::swap(&mut items, &mut self.items);
        let ghost old_items = items@;
        let (key, _) = items.remove(i);
        items.insert(i, (key, value));
        proof {
            assert(items@ =~= old_items.update(i as int, (old_items[i as int].0, value)));
            lemma_pairs_map_update(old_items, i as int, (old_items[i as int].0, value));
        }
        self.items = items;
    }
}

/// `p`'s keys strictly increase.
pub open spec fn keys_increasing(p: Seq<(Seq<char>, Seq<char>)>) -> bool {
    forall|a: int, b: int| 0 <= a < b < p.len() ==> chars_lt((#[trigger] p[a]).0, (#[trigger] p[b]).0)
}

/// `p` lists exactly the entries of `m`, in increasing key order.
pub open spec fn sorted_listing(p: Seq<(Seq<char>, Seq<char>)>, m: Map<Seq<char>, Seq<char>>) -> bool {
    &&& keys_increasing(p)
    &&& p.len() == m.dom().len()
    &&& forall|k: int| 0 <= k < p.len() ==> m.contains_key((#[trigger] p[k]).0) && m[p[k].0] == p[k].1
    &&& forall|key: Seq<char>| #[trigger] m.contains_key(key) ==> exists|k: int| 0 <= k < p.len() && (#[trigger] p[k]).0 == key
}

proof fn lemma_listing_keys_agree(
    p: Seq<(Seq<char>, Seq<char>)>,
    q: Seq<(Seq<char>, Seq<char>)>,
    m: Map<Seq<char>, Seq<char>>,
    i: int,
)
    requires
        sorted_listing(p, m),
        sorted_listing(q, m),
        0 <= i < p.len(),
    ensures
        forall|j: int| 0 <= j <= i ==> #[trigger] p[j].0 == q[j].0,
    decreases i,
{
    if i > 0 {
        lemma_listing_keys_agree(p, q, m, i - 1);
    }
    assert(m.contains_key(p[i].0));
    let j = choose|j: int| 0 <= j < q.len() && (#[trigger] q[j]).0 == p[i].0;
    assert(m.contains_key(q[i].0));
    let k = choose|k: int| 0 <= k < p.len() && (#[trigger] p[k]).0 == q[i].0;
    if j < i {
        assert(q[j].0 == p[j].0);
        assert(chars_lt(p[j].0, p[i].0));
        lemma_lt_irreflexive(p[i].0);
    } else if j > i {
        assert(chars_lt(q[i].0, q[j].0));
        if k < i {
            assert(p[k].0 == q[k].0);
            assert(chars_lt(q[k].0, q[i].0));
            lemma_lt_irreflexive(q[i].0);
        } else if k == i {
            lemma_lt_irreflexive(p[i].0);
        } else {
            assert(chars_lt(p[i].0, p[k].0));
            lemma_lt_asymmetric(p[i].0, q[i].0);
        }
    }
}

/// A map has exactly one sorted listing: two listings of the same map in
/// increasing key order are equal.
pub proof fn law_sorted_listing_unique(
    p: Seq<(Seq<char>, Seq<char>)>,
    q: Seq<(Seq<char>, Seq<char>)>,
    m: Map<Seq<char>, Seq<char>>,
)
    requires
        sorted_listing(p, m),
        sorted_listing(q, m),
    ensures
        p == q,
{
    if p.len() > 0 {
        lemma_listing_keys_agree(p, q, m, p.len() - 1);
    }
    assert forall|i: int| 0 <= i < p.len() implies #[trigger] p[i] == q[i] by {
        assert(p[i].0 == q[i].0);
        assert(p[i].1 == m[p[i].0]);
        assert(q[i].1 == m[q[i].0]);
    }
    assert(p =~= q);
}

/// `p`'s views.
pub open spec fn pair_views(p: Seq<(String, String)>) -> Seq<(Seq<char>, Seq<char>)> {
    p.map_values(|x: (String, String)| (x.0@, x.1@))
}

/// Keys listed in `ks` (views), strictly increasing, exactly the domain of a map.
pub open spec fn sorted_key_listing<W>(ks: Seq<Seq<char>>, m: Map<Seq<char>, W>) -> bool {
    &&& forall|a: int, b: int| 0 <= a < b < ks.len() ==> chars_lt(#[trigger] ks[a], #[trigger] ks[b])
    &&& ks.len() == m.dom().len()
    &&& forall|k: int| 0 <= k < ks.len() ==> m.contains_key(#[trigger] ks[k])
    &&& forall|key: Seq<char>| #[trigger] m.contains_key(key) ==> exists|k: int| 0 <= k < ks.len() && #[trigger] ks[k] == key
}

impl<V: View> Table<V> {
    /// The positions of the pairs, ordered by key.
    fn sorted_order(&self) -> (order: Vec<usize>)
        ensures
            order@.len() == self.pairs().len(),
            order@.no_duplicates(),
            forall|k: int| 0 <= k < order@.len() ==> #[trigger] order@[k] < self.pairs().len(),
            forall|j: usize| j < self.pairs().len() ==> #[trigger] order@.contains(j),
            forall|p: int, q: int|
                0 <= p < q < order@.len() ==> chars_lt(
                    self.pairs()[#[trigger] order@[p] as int].0@,
                    self.pairs()[#[trigger] order@[q] as int].0@,
                ),
    {
        proof {
            use_type_invariant(self);
        }
        let mut keys: Vec<Vec<char>> = Vec::new();
        let mut i: usize = 0;
        while i < self.items.len()
            invariant
                0 <= i <= self.items@.len(),
                keys@.len() == i,
                forall|k: int| 0 <= k < i ==> (#[trigger] keys@[k])@ == self.items@[k].0@,
            decreases self.items@.len() - i,
        {
            keys.push(crate::text::chars_of(self.items[i].0.as_str()));
            i += 1;
        }
        let order = sort_indices(&keys);
        proof {
            let kv = keys@.map_values(|v: Vec<char>| v@);
            assert forall|p: int, q: int| 0 <= p < q < order@.len() implies chars_lt(
                self.pairs()[#[trigger] order@[p] as int].0@,
                self.pairs()[#[trigger] order@[q] as int].0@,
            ) by {
                assert(chars_lt(kv[order@[p] as int], kv[order@[q] as int]));
            }
        }
        order
    }

    /// The keys, in increasing order.
    pub fn sorted_keys(&self) -> (out: Vec<String>)
        ensures
            sorted_key_listing(out@.map_values(|x: String| x@), self@),
    {
        proof {
            use_type_invariant(self);
            lemma_pairs_map_len(self.items@);
        }
        let order = self.sorted_order();
        let mut out: Vec<String> = Vec::new();
        let mut k: usize = 0;
        while k < order.len()
            invariant
                0 <= k <= order@.len(),
                order@.len() == self.items@.len(),
                keys_unique(self.items@),
                forall|q: int| 0 <= q < order@.len() ==> #[trigger] order@[q] < self.items@.len(),
                out@.len() == k,
                forall|q: int| 0 <= q < k ==> (#[trigger] out@[q])@ == self.items@[order@[q] as int].0@,
            decreases order@.len() - k,
        {
            out.push(self.items[order[k]].0.clone());
            k += 1;
        }
        proof {
            let ks = out@.map_values(|x: String| x@);
            assert forall|a: int, b: int| 0 <= a < b < ks.len() implies chars_lt(#[trigger] ks[a], #[trigger] ks[b]) by {
                assert(ks[a] == self.pairs()[order@[a] as int].0@);
                assert(ks[b] == self.pairs()[order@[b] as int].0@);
            }
            assert forall|q: int| 0 <= q < ks.len() implies self@.contains_key(#[trigger] ks[q]) by {
                lemma_pairs_map_index(self.items@, order@[q] as int);
            }
            assert forall|key: Seq<char>| #[trigger] self@.contains_key(key) implies exists|q: int| 0 <= q < ks.len() && #[trigger] ks[q] == key by {
                lemma_pairs_map_keys(self.items@, key);
                let i = choose|i: int| 0 <= i < self.items@.len() && (#[trigger] self.items@[i]).0@ == key;
                assert(order@.contains(i as usize));
                let q = choose|q: int| 0 <= q < order@.len() && order@[q] == i as usize;
                assert(ks[q] == key);
            }
        }
        out
    }
}

impl Table<String> {
    /// Every entry, in increasing key order.
    pub fn sorted_pairs(&self) -> (out: Vec<(String, String)>)
        ensures
            sorted_listing(pair_views(out@), self@),
    {
        proof {
            use_type_invariant(self);
            lemma_pairs_map_len(self.items@);
        }
        let order = self.sorted_order();
        let mut out: Vec<(String, String)> = Vec::new();
        let mut k: usize = 0;
        while k < order.len()
            invariant
                0 <= k <= order@.len(),
                order@.len() == self.items@.len(),
                keys_unique(self.items@),
                forall|q: int| 0 <= q < order@.len() ==> #[trigger] order@[q] < self.items@.len(),
                out@.len() == k,
                forall|q: int| 0 <= q < k ==> (#[trigger] out@[q]).0@ == self.items@[order@[q] as int].0@
                    && out@[q].1@ == self.items@[order@[q] as int].1@,
            decreases order@.len() - k,
        {
            let key = self.items[order[k]].0.clone();
            let value = self.items[order[k]].1.clone();
            out.push((key, value));
            k += 1;
        }
        proof {
            let ps = pair_views(out@);
            assert forall|a: int, b: int| 0 <= a < b < ps.len() implies chars_lt((#[trigger] ps[a]).0, (#[trigger] ps[b]).0) by {
                assert(ps[a].0 == self.pairs()[order@[a] as int].0@);
                assert(ps[b].0 == self.pairs()[order@[b] as int].0@);
            }
            assert forall|q: int| 0 <= q < ps.len() implies self@.contains_key((#[trigger] ps[q]).0) && self@[ps[q].0] == ps[q].1 by {
                lemma_pairs_map_index(self.items@, order@[q] as int);
            }
            assert forall|key: Seq<char>| #[trigger] self@.contains_key(key) implies exists|q: int| 0 <= q < ps.len() && (#[trigger] ps[q]).0 == key by {
                lemma_pairs_map_keys(self.items@, key);
                let i = choose|i: int| 0 <= i < self.items@.len() && (#[trigger] self.items@[i]).0@ == key;
                assert(order@.contains(i as usize));
                let q = choose|q: int| 0 <= q < order@.len() && order@[q] == i as usize;
                assert(ps[q].0 == key);
            }
        }
        out
    }
}

impl Table<String> {
    /// A copy with the same pairs.
    pub fn duplicate(&self) -> (t: Table<String>)
        ensures
            t@ == self@,
    {
        proof {
            use_type_invariant(self);
        }
        let mut items: Vec<(String, String)> = Vec::new();
        let mut i: usize = 0;
        while i < self.items.len()
            invariant
                i <= self.items@.len(),
                items@.len() == i,
                keys_unique(self.items@),
                forall|j: int| 0 <= j < i ==> (#[trigger] items@[j]).0@ == self.items@[j].0@
                    && items@[j].1@ == self.items@[j].1@,
            decreases self.items@.len() - i,
        {
            let k = self.items[i].0.clone();
            let v = self.items[i].1.clone();
            items.push((k, v));
            i += 1;
        }
        proof {
            assert forall|a: int, b: int|
                0 <= a < items@.len() && 0 <= b < items@.len() && a != b implies (
                #[trigger] items@[a]).0@ != (#[trigger] items@[b]).0@ by {
                assert(self.items@[a].0@ != self.items@[b].0@);
            }
            lemma_pairs_map_congruent(items@, self.items@);
        }
        Table { items }
    }
}

impl Table<Table<String>> {
    /// A copy with the same sections, each copied.
    pub fn duplicate(&self) -> (t: Table<Table<String>>)
        ensures
            t@ == self@,
    {
        proof {
            use_type_invariant(self);
        }
        let mut items: Vec<(String, Table<String>)> = Vec::new();
        let mut i: usize = 0;
        while i < self.items.len()
            invariant
                i <= self.items@.len(),
                items@.len() == i,
                keys_unique(self.items@),
                forall|j: int| 0 <= j < i ==> (#[trigger] items@[j]).0@ == self.items@[j].0@
                    && items@[j].1@ == self.items@[j].1@,
            decreases self.items@.len() - i,
        {
            let k = self.items[i].0.clone();
            let v = self.items[i].1.duplicate();
            items.push((k, v));
            i += 1;
        }
        proof {
            assert forall|a: int, b: int|
                0 <= a < items@.len() && 0 <= b < items@.len() && a != b implies (
                #[trigger] items@[a]).0@ != (#[trigger] items@[b]).0@ by {
                assert(self.items@[a].0@ != self.items@[b].0@);
            }
            lemma_pairs_map_congruent(items@, self.items@);
        }
        Table { items }
    }
}

} // verus!
