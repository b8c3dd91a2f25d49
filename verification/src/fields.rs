//! Text fields keyed by name, as in request headers and form bodies.

use crate::text;
use vstd::prelude::*;

verus! {

/// A map from names to values. Entries are kept in text order of their names.
#[derive(Debug)]
pub struct FieldMap {
    entries: Vec<(String, String)>,
}

/// Whether the names of `pairs` are in strictly ascending text order.
pub open spec fn ascending(pairs: Seq<(Seq<char>, Seq<char>)>) -> bool {
    forall|i: int, j: int|
        0 <= i < j < pairs.len() ==> text::text_before((#[trigger] pairs[i]).0, (#[trigger] pairs[j]).0)
}

/// The map that `pairs` lists.
pub open spec fn pairs_map(pairs: Seq<(Seq<char>, Seq<char>)>) -> Map<Seq<char>, Seq<char>>
    decreases pairs.len(),
{
    if pairs.len() == 0 {
        Map::empty()
    } else {
        pairs_map(pairs.drop_last()).insert(pairs.last().0, pairs.last().1)
    }
}

proof fn lemma_pairs_map_has(pairs: Seq<(Seq<char>, Seq<char>)>, i: int)
    requires
        ascending(pairs),
        0 <= i < pairs.len(),
    ensures
        pairs_map(pairs).contains_key(pairs[i].0),
        pairs_map(pairs)[pairs[i].0] == pairs[i].1,
    decreases pairs.len(),
{
    if i < pairs.len() - 1 {
        lemma_pairs_map_has(pairs.drop_last(), i);
        text::text_before_total(pairs[i].0, pairs.last().0);
    }
}

proof fn lemma_pairs_map_dom(pairs: Seq<(Seq<char>, Seq<char>)>, k: Seq<char>) -> (i: int)
    requires
        pairs_map(pairs).contains_key(k),
    ensures
        0 <= i < pairs.len(),
        pairs[i].0 == k,
    decreases pairs.len(),
{
    if pairs.last().0 == k {
        pairs.len() - 1
    } else {
        lemma_pairs_map_dom(pairs.drop_last(), k)
    }
}

proof fn lemma_ascending_distinct(pairs: Seq<(Seq<char>, Seq<char>)>, i: int, j: int)
    requires
        ascending(pairs),
        0 <= i < pairs.len(),
        0 <= j < pairs.len(),
        pairs[i].0 == pairs[j].0,
    ensures
        i == j,
{
    text::text_before_total(pairs[i].0, pairs[j].0);
}

/// Replacing the value at `i`, or putting a new name in its place in the order, is a map insert.
proof fn lemma_pairs_map_insert(
    before: Seq<(Seq<char>, Seq<char>)>,
    after: Seq<(Seq<char>, Seq<char>)>,
    i: int,
    k: Seq<char>,
    v: Seq<char>,
)
    requires
        ascending(before),
        ascending(after),
        0 <= i < after.len(),
        after[i] == (k, v),
        after == before.insert(i, (k, v)) || (i < before.len() && before[i].0 == k && after
            == before.update(i, (k, v))),
        i <= before.len(),
    ensures
        pairs_map(after) == pairs_map(before).insert(k, v),
{
    let l = pairs_map(after);
    let r = pairs_map(before).insert(k, v);
    assert forall|n: Seq<char>| l.contains_key(n) <==> r.contains_key(n) by {
        if l.contains_key(n) {
            let j = lemma_pairs_map_dom(after, n);
            if n != k {
                if after.len() == before.len() {
                    assert(after[j] == before[j]);
                    lemma_pairs_map_has(before, j);
                } else if j < i {
                    lemma_pairs_map_has(before, j);
                } else {
                    lemma_pairs_map_has(before, j - 1);
                }
            }
        }
        if r.contains_key(n) {
            if n == k {
                lemma_pairs_map_has(after, i);
            } else {
                let j = lemma_pairs_map_dom(before, n);
                if after.len() == before.len() {
                    assert(after[j] == before[j]);
                    lemma_pairs_map_has(after, j);
                } else if j < i {
                    lemma_pairs_map_has(after, j);
                } else {
                    lemma_pairs_map_has(after, j + 1);
                }
            }
        }
    }
    assert forall|n: Seq<char>| l.contains_key(n) implies l[n] == r[n] by {
        let j = lemma_pairs_map_dom(after, n);
        lemma_pairs_map_has(after, j);
        if n == k {
            lemma_ascending_distinct(after, i, j);
        } else if after.len() == before.len() {
            assert(after[j] == before[j]);
            lemma_pairs_map_has(before, j);
        } else if j < i {
            lemma_pairs_map_has(before, j);
        } else {
            lemma_pairs_map_has(before, j - 1);
        }
    }
    assert(l =~= r);
}

/// A map has one ascending listing: two listings of the same map are the same.
pub proof fn listing_is_unique(p: Seq<(Seq<char>, Seq<char>)>, q: Seq<(Seq<char>, Seq<char>)>)
    requires
        ascending(p),
        ascending(q),
        pairs_map(p) == pairs_map(q),
    ensures
        p == q,
    decreases p.len(),
{
    if p.len() == 0 {
        if q.len() > 0 {
            lemma_pairs_map_has(q, 0);
        }
        assert(p =~= q);
    } else {
        lemma_pairs_map_has(p, p.len() - 1);
        let j = lemma_pairs_map_dom(q, p.last().0);
        lemma_pairs_map_has(q, q.len() - 1);
        let i = lemma_pairs_map_dom(p, q.last().0);
        text::text_before_total(p.last().0, q.last().0);
        assert(p.last().0 == q.last().0);
        assert(p.last() == q.last());
        lemma_pairs_map_drop_last(p);
        lemma_pairs_map_drop_last(q);
        listing_is_unique(p.drop_last(), q.drop_last());
        assert(p =~= p.drop_last().push(p.last()));
        assert(q =~= q.drop_last().push(q.last()));
    }
}

proof fn lemma_pairs_map_drop_last(p: Seq<(Seq<char>, Seq<char>)>)
    requires
        ascending(p),
        p.len() > 0,
    ensures
        pairs_map(p.drop_last()) == pairs_map(p).remove(p.last().0),
{
    let d = pairs_map(p.drop_last());
    if d.contains_key(p.last().0) {
        let i = lemma_pairs_map_dom(p.drop_last(), p.last().0);
        lemma_ascending_distinct(p, i, p.len() - 1);
    }
    assert(d =~= pairs_map(p).remove(p.last().0));
}

/// The entries of `m`, in ascending text order of their names.
pub open spec fn listing(m: Map<Seq<char>, Seq<char>>) -> Seq<(Seq<char>, Seq<char>)> {
    choose|p: Seq<(Seq<char>, Seq<char>)>| ascending(p) && #[trigger] pairs_map(p) == m
}

proof fn lemma_listing(p: Seq<(Seq<char>, Seq<char>)>)
    requires
        ascending(p),
    ensures
        listing(pairs_map(p)) == p,
{
    listing_is_unique(p, listing(pairs_map(p)));
}

/// What an optional map holds.
pub open spec fn opt_fields(m: Option<FieldMap>) -> Option<Map<Seq<char>, Seq<char>>> {
    match m {
        Some(m) => Some(m@),
        None => None,
    }
}

/// The names and values of `fields`.
pub open spec fn field_texts(fields: Seq<(&str, &str)>) -> Seq<(Seq<char>, Seq<char>)> {
    fields.map_values(|f: (&str, &str)| (f.0@, f.1@))
}

impl FieldMap {
    /// Names and values, in ascending text order of the names.
    closed spec fn pairs(&self) -> Seq<(Seq<char>, Seq<char>)> {
        self.entries@.map_values(|e: (String, String)| (e.0@, e.1@))
    }

    #[verifier::type_invariant]
    closed spec fn in_order(&self) -> bool {
        ascending(self.pairs())
    }

    pub fn new() -> (m: Self)
        ensures
            m@ == Map::<Seq<char>, Seq<char>>::empty(),
    {
        FieldMap { entries: Vec::new() }
    }

    pub fn len(&self) -> (n: usize)
        ensures
            n == listing(self@).len(),
    {
        proof {
            use_type_invariant(self);
            lemma_listing(self.pairs());
        }
        self.entries.len()
    }

    /// Name and value of the `i`-th entry.
    pub fn entry(&self, i: usize) -> (e: (&str, &str))
        requires
            i < listing(self@).len(),
        ensures
            (e.0@, e.1@) == listing(self@)[i as int],
    {
        proof {
            use_type_invariant(self);
            lemma_listing(self.pairs());
        }
        (self.entries[i].0.as_str(), self.entries[i].1.as_str())
    }

    /// Index of the first entry whose name does not come before `name`.
    fn place(&self, name: &str) -> (i: usize)
        ensures
            i <= self.pairs().len(),
            forall|j: int| 0 <= j < i ==> text::text_before((#[trigger] self.pairs()[j]).0, name@),
            i < self.pairs().len() ==> !text::text_before(self.pairs()[i as int].0, name@),
    {
        let mut i: usize = 0;
        while i < self.entries.len() && text::comes_before(self.entries[i].0.as_str(), name)
            invariant
                i <= self.entries.len(),
                forall|j: int|
                    0 <= j < i ==> text::text_before((#[trigger] self.pairs()[j]).0, name@),
            decreases self.entries.len() - i,
        {
            i = i + 1;
        }
        i
    }

    pub fn get(&self, name: &str) -> (value: Option<&str>)
        ensures
            value is Some <==> self@.contains_key(name@),
            value is Some ==> value->0@ == self@[name@],
    {
        proof {
            use_type_invariant(self);
        }
        let i = self.place(name);
        if i < self.entries.len() && text::same(self.entries[i].0.as_str(), name) {
            proof {
                lemma_pairs_map_has(self.pairs(), i as int);
            }
            Some(self.entries[i].1.as_str())
        } else {
            proof {
                if self@.contains_key(name@) {
                    let j = lemma_pairs_map_dom(self.pairs(), name@);
                    text::text_before_total(self.pairs()[j].0, name@);
                    if i < self.pairs().len() && j > i {
                        text::text_before_transitive(self.pairs()[i as int].0, self.pairs()[j].0, name@);
                    }
                }
            }
            None
        }
    }

    /// Sets `name` to `value`, replacing what it was set to before.
    pub fn insert(&mut self, name: String, value: String)
        ensures
            final(self)@ == old(self)@.insert(name@, value@),
    {
        proof {
            use_type_invariant(&*self);
        }
        let i = self.place(name.as_str());
        let ghost before = self.pairs();
        let ghost k = name@;
        let ghost v = value@;
        let mut entries: Vec<(String, String)> = Vec::new();
        std::mem::swap(&mut entries, &mut self.entries);
        let ghost listing = |es: Seq<(String, String)>| es.map_values(|e: (String, String)| (e.0@, e.1@));
        if i < entries.len() && entries[i].0 == name {
            entries.set(i, (name, value));
            proof {
                let after = listing(entries@);
                assert(after =~= before.update(i as int, (k, v)));
                lemma_pairs_map_insert(before, after, i as int, k, v);
            }
        } else {
            entries.insert(i, (name, value));
            proof {
                let after = listing(entries@);
                assert(after =~= before.insert(i as int, (k, v)));
                assert forall|a: int, b: int| 0 <= a < b < after.len() implies text::text_before(
                    (#[trigger] after[a]).0,
                    (#[trigger] after[b]).0,
                ) by {
                    if a < i && b == i {
                    } else if a < i && b > i {
                        assert(before[b - 1] == after[b]);
                        assert(before[a] == after[a]);
                    } else if a == i {
                        assert(before[b - 1] == after[b]);
                        text::text_before_total(before[i as int].0, k);
                        if b - 1 > i {
                            text::text_before_transitive(k, before[i as int].0, before[b - 1].0);
                        }
                    } else if a > i {
                        assert(before[b - 1] == after[b]);
                        assert(before[a - 1] == after[a]);
                    }
                }
                lemma_pairs_map_insert(before, after, i as int, k, v);
            }
        }
        self.entries = entries;
    }

    /// The map that `fields` lists; of two fields with the same name the later one counts.
    pub fn from_fields(fields: &[(&str, &str)]) -> (m: Self)
        ensures
            m@ == pairs_map(field_texts(fields@)),
    {
        let mut m = FieldMap::new();
        let mut i: usize = 0;
        while i < fields.len()
            invariant
                i <= fields.len(),
                m@ == pairs_map(field_texts(fields@).take(i as int)),
            decreases fields.len() - i,
        {
            let (name, value) = fields[i];
            m.insert(name.to_string(), value.to_string());
            assert(field_texts(fields@).take(i + 1).drop_last() =~= field_texts(fields@).take(
                i as int,
            ));
            i = i + 1;
        }
        assert(field_texts(fields@).take(fields.len() as int) =~= field_texts(fields@));
        m
    }

    /// Sets `name` to `value` unless it is set already.
    pub fn insert_if_absent(&mut self, name: &str, value: &str)
        ensures
            final(self)@ == if old(self)@.contains_key(name@) {
                old(self)@
            } else {
                old(self)@.insert(name@, value@)
            },
    {
        if self.get(name).is_none() {
            self.insert(name.to_string(), value.to_string());
        }
    }
}

impl View for FieldMap {
    type V = Map<Seq<char>, Seq<char>>;

    closed spec fn view(&self) -> Map<Seq<char>, Seq<char>> {
        pairs_map(self.pairs())
    }
}

impl Clone for FieldMap {
    fn clone(&self) -> (r: Self)
        ensures
            r@ == self@,
    {
        proof {
            use_type_invariant(self);
        }
        let mut entries: Vec<(String, String)> = Vec::new();
        let mut i: usize = 0;
        while i < self.entries.len()
            invariant
                i <= self.entries.len(),
                entries.len() == i,
                forall|j: int| 0 <= j < i ==> (#[trigger] entries[j]) == self.entries[j],
            decreases self.entries.len() - i,
        {
            entries.push((self.entries[i].0.clone(), self.entries[i].1.clone()));
            i = i + 1;
        }
        assert(entries@ =~= self.entries@);
        FieldMap { entries }
    }
}

/// A list of fields sets exactly the names that stand in it, each to the value that comes last with
/// it.
pub proof fn the_last_field_of_a_name_counts(
    pairs: Seq<(Seq<char>, Seq<char>)>,
    k: Seq<char>,
    i: int,
)
    ensures
        pairs_map(pairs).contains_key(k) <==> exists|j: int|
            0 <= j < pairs.len() && (#[trigger] pairs[j]).0 == k,
        0 <= i < pairs.len() && (forall|j: int|
            i < j < pairs.len() ==> (#[trigger] pairs[j]).0 != pairs[i].0) ==> pairs_map(
            pairs,
        )[pairs[i].0] == pairs[i].1,
    decreases pairs.len(),
{
    if pairs.len() > 0 {
        let d = pairs.drop_last();
        let n = pairs.len() - 1;
        the_last_field_of_a_name_counts(d, k, i);
        if pairs_map(pairs).contains_key(k) {
            if pairs.last().0 == k {
                assert(pairs[n].0 == k);
            } else {
                let j = choose|j: int| 0 <= j < d.len() && (#[trigger] d[j]).0 == k;
                assert(pairs[j] == d[j]);
            }
        }
        if exists|j: int| 0 <= j < pairs.len() && (#[trigger] pairs[j]).0 == k {
            let j = choose|j: int| 0 <= j < pairs.len() && (#[trigger] pairs[j]).0 == k;
            if j < n {
                assert(d[j].0 == k);
            }
        }
        if 0 <= i < pairs.len() && (forall|j: int|
            i < j < pairs.len() ==> (#[trigger] pairs[j]).0 != pairs[i].0) {
            if i < n {
                assert(pairs[n].0 != pairs[i].0);
                assert(d[i] == pairs[i]);
                assert forall|j: int| i < j < d.len() implies (#[trigger] d[j]).0 != d[i].0 by {
                    assert(d[j] == pairs[j]);
                }
            }
        }
    }
}

/// A map is listed in text order of its names: fields in that order are listed as they are.
pub proof fn fields_in_order_are_listed_as_they_are(p: Seq<(Seq<char>, Seq<char>)>)
    requires
        forall|i: int, j: int|
            0 <= i < j < p.len() ==> text::text_before((#[trigger] p[i]).0, (#[trigger] p[j]).0),
    ensures
        listing(pairs_map(p)) == p,
{
    lemma_listing(p);
}

/// The names and values of a list of fields are its own, one for one and in order.
pub proof fn field_texts_are_those_of_the_fields(fields: Seq<(&str, &str)>, i: int)
    requires
        0 <= i < fields.len(),
    ensures
        field_texts(fields).len() == fields.len(),
        field_texts(fields)[i].0 == fields[i].0@,
        field_texts(fields)[i].1 == fields[i].1@,
{
}

} // verus!
