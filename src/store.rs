use vstd::prelude::*;
use crate::route::same_text;

verus! {

/// A todo item: an id assigned on creation and a title.
#[derive(Debug)]
pub struct Todo {
    pub id: String,
    pub title: String,
}

/// An (id, title) pair as the contracts see it.
pub type Entry = (Seq<char>, Seq<char>);

impl Todo {
    pub fn new(id: String, title: String) -> (r: Todo)
        ensures
            r.id@ == id@,
            r.title@ == title@,
    {
        Todo { id, title }
    }

    /// A copy of this item.
    pub fn duplicate(&self) -> (r: Todo)
        ensures
            r.id@ == self.id@,
            r.title@ == self.title@,
    {
        Todo { id: self.id.clone(), title: self.title.clone() }
    }
}

/// The items of `s` as (id, title) pairs, in order.
pub open spec fn entries_of(s: Seq<Todo>) -> Seq<Entry> {
    s.map_values(|t: Todo| (t.id@, t.title@))
}

/// No id occurs twice.
pub open spec fn keys_unique(p: Seq<Entry>) -> bool {
    forall|i: int, j: int| 0 <= i < p.len() && 0 <= j < p.len() && p[i].0 == p[j].0 ==> i == j
}

/// `k` is the id of some entry.
pub open spec fn has_key(p: Seq<Entry>, k: Seq<char>) -> bool {
    exists|i: int| 0 <= i < p.len() && p[i].0 == k
}

/// The entries as a map from id to title.
pub open spec fn map_of(p: Seq<Entry>) -> Map<Seq<char>, Seq<char>> {
    Map::new(|k: Seq<char>| has_key(p, k), |k: Seq<char>| p[choose|i: int| 0 <= i < p.len() && p[i].0 == k].1)
}

/// Writing `v` under `k`: the entry for `k` is overwritten in place, or appended.
pub open spec fn set_entry(p: Seq<Entry>, k: Seq<char>, v: Seq<char>) -> Seq<Entry> {
    if has_key(p, k) {
        p.update(choose|i: int| 0 <= i < p.len() && p[i].0 == k, (k, v))
    } else {
        p.push((k, v))
    }
}

/// Removing the entry for `k`, if there is one; the others keep their order.
pub open spec fn remove_entry(p: Seq<Entry>, k: Seq<char>) -> Seq<Entry> {
    if has_key(p, k) {
        p.remove(choose|i: int| 0 <= i < p.len() && p[i].0 == k)
    } else {
        p
    }
}

pub proof fn lemma_set_entry(p: Seq<Entry>, k: Seq<char>, v: Seq<char>)
    requires
        keys_unique(p),
    ensures
        keys_unique(set_entry(p, k, v)),
        map_of(set_entry(p, k, v)) == map_of(p).insert(k, v),
{
    let q = set_entry(p, k, v);
    if has_key(p, k) {
        let i = choose|i: int| 0 <= i < p.len() && p[i].0 == k;
        assert(q[i].0 == k);
        assert forall|k2: Seq<char>| #[trigger] has_key(q, k2) == (has_key(p, k2) || k2 == k) by {
            if has_key(p, k2) {
                let j = choose|j: int| 0 <= j < p.len() && p[j].0 == k2;
                assert(q[j].0 == k2);
            }
        }
    } else {
        assert(q[p.len() as int].0 == k);
        assert forall|k2: Seq<char>| #[trigger] has_key(q, k2) == (has_key(p, k2) || k2 == k) by {
            if has_key(p, k2) {
                let j = choose|j: int| 0 <= j < p.len() && p[j].0 == k2;
                assert(q[j].0 == k2);
            }
        }
    }
    assert(map_of(q) =~= map_of(p).insert(k, v));
}

pub proof fn lemma_remove_entry(p: Seq<Entry>, k: Seq<char>)
    requires
        keys_unique(p),
    ensures
        keys_unique(remove_entry(p, k)),
        map_of(remove_entry(p, k)) == map_of(p).remove(k),
{
    let q = remove_entry(p, k);
    if has_key(p, k) {
        let i = choose|i: int| 0 <= i < p.len() && p[i].0 == k;
        assert forall|a: int, b: int| 0 <= a < q.len() && 0 <= b < q.len() && q[a].0 == q[b].0 implies a == b by {
            let a2 = if a < i { a } else { a + 1 };
            let b2 = if b < i { b } else { b + 1 };
            assert(q[a] == p[a2] && q[b] == p[b2]);
        }
        assert forall|k2: Seq<char>| #[trigger] has_key(q, k2) == (has_key(p, k2) && k2 != k) by {
            if has_key(p, k2) && k2 != k {
                let j = choose|j: int| 0 <= j < p.len() && p[j].0 == k2;
                let j2 = if j < i { j } else { j - 1 };
                assert(q[j2].0 == k2);
            }
            if has_key(q, k2) {
                let j = choose|j: int| 0 <= j < q.len() && q[j].0 == k2;
                let j2 = if j < i { j } else { j + 1 };
                assert(p[j2].0 == k2);
            }
        }
        assert forall|k2: Seq<char>| has_key(q, k2) implies map_of(q)[k2] == map_of(p)[k2] by {
            let j = choose|j: int| 0 <= j < q.len() && q[j].0 == k2;
            let j2 = if j < i { j } else { j + 1 };
            assert(p[j2].0 == k2);
        }
    }
    assert(map_of(q) =~= map_of(p).remove(k));
}

/// A key-value store held in memory: ids to titles, in the order the ids were first written.
pub struct MemStore {
    items: Vec<Todo>,
}

impl View for MemStore {
    type V = Seq<Entry>;

    closed spec fn view(&self) -> Seq<Entry> {
        entries_of(self.items@)
    }
}

impl MemStore {
    /// The store's contents as a map from id to title.
    pub open spec fn contents(&self) -> Map<Seq<char>, Seq<char>> {
        map_of(self@)
    }

    pub open spec fn well_formed(&self) -> bool {
        keys_unique(self@)
    }

    /// An empty store.
    pub fn new() -> (r: MemStore)
        ensures
            r@ == Seq::<Entry>::empty(),
            r.well_formed(),
    {
        let r = MemStore { items: Vec::new() };
        assert(r@ =~= Seq::<Entry>::empty());
        r
    }

    fn position(&self, key: &str) -> (r: Option<usize>)
        ensures
            r is Some <==> has_key(self@, key@),
            r matches Some(i) ==> i < self@.len() && self@[i as int].0 == key@,
    {
        let mut i: usize = 0;
        while i < self.items.len()
            invariant
                i <= self.items@.len(),
                self@ == entries_of(self.items@),
                forall|j: int| 0 <= j < i ==> self@[j].0 != key@,
            decreases self.items@.len() - i,
        {
            if same_text(self.items[i].id.as_str(), key) {
                assert(self@[i as int].0 == key@);
                return Some(i);
            }
            i = i + 1;
        }
        None
    }

    /// Writes `title` under `key`, overwriting any earlier title.
    pub fn set(&mut self, key: String, title: String)
        requires
            old(self).well_formed(),
        ensures
            final(self).well_formed(),
            final(self)@ == set_entry(old(self)@, key@, title@),
            final(self).contents() == old(self).contents().insert(key@, title@),
    {
        proof {
            lemma_set_entry(self@, key@, title@);
        }
        let ghost k = key@;
        let ghost before = self@;
        match self.position(key.as_str()) {
            Some(i) => {
                let ghost c = choose|c: int| 0 <= c < before.len() && before[c].0 == k;
                assert(c == i);
                self.items.set(i, Todo::new(key, title));
                assert(self@ =~= set_entry(before, k, title@));
            },
            None => {
                self.items.push(Todo::new(key, title));
                assert(self@ =~= set_entry(before, k, title@));
            },
        }
    }

    /// Removes the entry for `key`; a key that is absent leaves the store as it was.
    pub fn delete(&mut self, key: &str)
        requires
            old(self).well_formed(),
        ensures
            final(self).well_formed(),
            final(self)@ == remove_entry(old(self)@, key@),
            final(self).contents() == old(self).contents().remove(key@),
    {
        proof {
            lemma_remove_entry(self@, key@);
        }
        let ghost before = self@;
        match self.position(key) {
            Some(i) => {
                let ghost c = choose|c: int| 0 <= c < before.len() && before[c].0 == key@;
                assert(c == i);
                self.items.remove(i);
                assert(self@ =~= remove_entry(before, key@));
            },
            None => {},
        }
    }

    /// All items, in the store's order.
    pub fn list(&self) -> (r: Vec<Todo>)
        ensures
            entries_of(r@) == self@,
    {
        let mut r: Vec<Todo> = Vec::new();
        let mut i: usize = 0;
        while i < self.items.len()
            invariant
                i <= self.items@.len(),
                entries_of(r@) == self@.take(i as int),
                self@ == entries_of(self.items@),
            decreases self.items@.len() - i,
        {
            let ghost before = r@;
            let t = self.items[i].duplicate();
            r.push(t);
            assert(entries_of(r@) =~= entries_of(before).push((t.id@, t.title@)));
            assert(self@.take(i + 1) =~= self@.take(i as int).push(self@[i as int]));
            i = i + 1;
        }
        assert(self@.take(i as int) =~= self@);
        r
    }
}

} // verus!
