//! A map from issue ids to values that can be walked entry by entry.

use vstd::prelude::*;

verus! {

/// A map keyed by issue id. Its view is the mathematical map from the ids'
/// characters to the values.
///
/// The entries lie in a vector in the order in which they were
/// inserted. No id occurs twice.
pub struct IssueMap<V> {
    entries: Vec<(String, V)>,
}

/// The ids of `entries`, in order.
spec fn ids_of<V>(entries: Seq<(String, V)>) -> Seq<Seq<char>> {
    entries.map_values(|entry: (String, V)| entry.0@)
}

impl<V> View for IssueMap<V> {
    type V = Map<Seq<char>, V>;

    closed spec fn view(&self) -> Map<Seq<char>, V> {
        Map::new(
            |id: Seq<char>| self.ids().contains(id),
            |id: Seq<char>| self.entries@[self.ids().index_of(id)].1,
        )
    }
}

impl<V> IssueMap<V> {
    /// The ids of the map, in the order in which `entry_at` walks them.
    pub closed spec fn ids(&self) -> Seq<Seq<char>> {
        ids_of(self.entries@)
    }

    #[verifier::type_invariant]
    spec fn ids_are_distinct(&self) -> bool {
        self.ids().no_duplicates()
    }

    /// A map holds finitely many ids.
    pub proof fn lemma_is_finite(&self)
        ensures
            self@.dom().finite(),
    {
        vstd::seq_lib::seq_to_set_is_finite(self.ids());
        assert(self@.dom() =~= self.ids().to_set());
    }

    proof fn lemma_view_at(&self, i: int)
        requires
            self.ids().no_duplicates(),
            0 <= i < self.entries@.len(),
        ensures
            self@.contains_key(self.entries@[i].0@),
            self@[self.entries@[i].0@] == self.entries@[i].1,
            self.ids()[i] == self.entries@[i].0@,
    {
        let id = self.entries@[i].0@;
        assert(self.ids()[i] == id);
        assert(self.ids().contains(id));
        let j = self.ids().index_of(id);
        assert(self.ids()[j] == id);
        assert(i == j);
    }

    /// Creates an empty map.
    pub fn new() -> (map: Self)
        ensures
            map@ == Map::<Seq<char>, V>::empty(),
    {
        let map = IssueMap { entries: Vec::new() };
        assert(map@ =~= Map::<Seq<char>, V>::empty());
        map
    }

    /// The number of ids in the map. The walk of `entry_at` meets each of them
    /// exactly once.
    pub fn len(&self) -> (len: usize)
        ensures
            len == self@.len(),
            self@.dom().finite(),
            len == self.ids().len(),
            self.ids().no_duplicates(),
            forall|id: Seq<char>| #[trigger] self@.contains_key(id) <==> self.ids().contains(id),
    {
        proof {
            use_type_invariant(self);
            self.ids().unique_seq_to_set();
            vstd::seq_lib::seq_to_set_is_finite(self.ids());
            assert(self@.dom() =~= self.ids().to_set());
        }
        self.entries.len()
    }

    /// Whether the map holds no id.
    pub fn is_empty(&self) -> (empty: bool)
        ensures
            empty == (self@.len() == 0),
            empty == (self@ == Map::<Seq<char>, V>::empty()),
    {
        let len: usize = self.len();
        proof {
            if len == 0 {
                assert(self@ =~= Map::<Seq<char>, V>::empty());
            }
        }
        len == 0
    }

    /// The id and the value at position `i` of the walk.
    pub fn entry_at(&self, i: usize) -> (entry: (&String, &V))
        requires
            i < self@.len(),
        ensures
            entry.0@ == self.ids()[i as int],
            self@.contains_key(entry.0@),
            *entry.1 == self@[entry.0@],
    {
        let len: usize = self.len();
        proof {
            use_type_invariant(self);
            self.lemma_view_at(i as int);
        }
        let entry = &self.entries[i];
        (&entry.0, &entry.1)
    }

    /// The position of `id`, if the map holds it.
    fn position(&self, id: &str) -> (found: Option<usize>)
        ensures
            match found {
                Some(i) => i < self.entries@.len() && self.entries@[i as int].0@ == id@
                    && self@.contains_key(id@) && self@[id@] == self.entries@[i as int].1,
                None => !self@.contains_key(id@),
            },
    {
        proof {
            use_type_invariant(self);
        }
        let wanted = id.to_owned();
        let mut i: usize = 0;
        while i < self.entries.len()
            invariant
                i <= self.entries@.len(),
                wanted@ == id@,
                self.ids().no_duplicates(),
                forall|j: int| 0 <= j < i ==> self.entries@[j].0@ != id@,
            decreases self.entries@.len() - i,
        {
            if self.entries[i].0 == wanted {
                proof {
                    self.lemma_view_at(i as int);
                }
                return Some(i);
            }
            i += 1;
        }
        assert(!self.ids().contains(id@)) by {
            if self.ids().contains(id@) {
                let j = self.ids().index_of(id@);
                assert(self.entries@[j].0@ == id@);
            }
        }
        None
    }

    /// Whether the map holds `id`.
    pub fn contains_key(&self, id: &str) -> (found: bool)
        ensures
            found == self@.contains_key(id@),
    {
        self.position(id).is_some()
    }

    /// The value at `id`, if the map holds it.
    pub fn get(&self, id: &str) -> (value: Option<&V>)
        ensures
            match value {
                Some(v) => self@.contains_key(id@) && *v == self@[id@],
                None => !self@.contains_key(id@),
            },
    {
        match self.position(id) {
            Some(i) => Some(&self.entries[i].1),
            None => None,
        }
    }

    /// Removes `id` and returns the value it had.
    pub fn remove(&mut self, id: &str) -> (removed: Option<V>)
        ensures
            final(self)@ == old(self)@.remove(id@),
            match removed {
                Some(v) => old(self)@.contains_key(id@) && v == old(self)@[id@],
                None => !old(self)@.contains_key(id@),
            },
    {
        proof {
            use_type_invariant(&*self);
        }
        match self.position(id) {
            Some(i) => {
                let mut entries = Vec::new();
                std::mem::swap(&mut entries, &mut self.entries);
                let ghost before = entries@;
                let removed = entries.remove(i);
                proof {
                    lemma_remove_at(before, i as int);
                }
                self.entries = entries;
                proof {
                    lemma_view_after_remove(*old(self), *self, i as int);
                }
                Some(removed.1)
            },
            None => {
                assert(self@ =~= old(self)@.remove(id@));
                None
            },
        }
    }

    /// Sets the value at `id` and returns the value it had before.
    pub fn insert(&mut self, id: String, value: V) -> (replaced: Option<V>)
        ensures
            final(self)@ == old(self)@.insert(id@, value),
            match replaced {
                Some(v) => old(self)@.contains_key(id@) && v == old(self)@[id@],
                None => !old(self)@.contains_key(id@),
            },
    {
        let ghost before = *self;
        let replaced = self.remove(id.as_str());
        let ghost between = *self;
        proof {
            use_type_invariant(&*self);
            assert(!between@.contains_key(id@));
        }
        let mut entries = Vec::new();
        std::mem::swap(&mut entries, &mut self.entries);
        entries.push((id, value));
        proof {
            lemma_push(between.entries@, (id, value));
        }
        self.entries = entries;
        proof {
            lemma_view_after_push(between, *self, (id, value));
            assert(self@ =~= before@.insert(id@, value));
        }
        replaced
    }
}

proof fn lemma_remove_at<V>(entries: Seq<(String, V)>, i: int)
    requires
        ids_of(entries).no_duplicates(),
        0 <= i < entries.len(),
    ensures
        ids_of(entries.remove(i)) == ids_of(entries).remove(i),
        ids_of(entries.remove(i)).no_duplicates(),
{
    assert(ids_of(entries.remove(i)) =~= ids_of(entries).remove(i));
}

proof fn lemma_view_after_remove<V>(before: IssueMap<V>, after: IssueMap<V>, i: int)
    requires
        before.ids().no_duplicates(),
        0 <= i < before.entries@.len(),
        after.entries@ == before.entries@.remove(i),
    ensures
        after@ == before@.remove(before.entries@[i].0@),
{
    let removed = before.entries@[i].0@;
    lemma_remove_at(before.entries@, i);
    before.lemma_view_at(i);
    assert forall|id: Seq<char>| #[trigger] after@.contains_key(id) implies before@.contains_key(id)
        && id != removed && after@[id] == before@[id] by {
        let j = after.ids().index_of(id);
        after.lemma_view_at(j);
        let k = if j < i { j } else { j + 1 };
        before.lemma_view_at(k);
        assert(before.ids()[k] == id);
    }
    assert forall|id: Seq<char>| before@.contains_key(id) && id != removed implies
        #[trigger] after@.contains_key(id) by {
        let k = before.ids().index_of(id);
        before.lemma_view_at(k);
        let j = if k < i { k } else { k - 1 };
        after.lemma_view_at(j);
    }
    assert(after@ =~= before@.remove(removed));
}

proof fn lemma_push<V>(entries: Seq<(String, V)>, entry: (String, V))
    requires
        ids_of(entries).no_duplicates(),
        !ids_of(entries).contains(entry.0@),
    ensures
        ids_of(entries.push(entry)) == ids_of(entries).push(entry.0@),
        ids_of(entries.push(entry)).no_duplicates(),
{
    assert(ids_of(entries.push(entry)) =~= ids_of(entries).push(entry.0@));
}

proof fn lemma_view_after_push<V>(before: IssueMap<V>, after: IssueMap<V>, entry: (String, V))
    requires
        before.ids().no_duplicates(),
        !before.ids().contains(entry.0@),
        after.entries@ == before.entries@.push(entry),
    ensures
        after@ == before@.insert(entry.0@, entry.1),
{
    lemma_push(before.entries@, entry);
    let n = before.entries@.len() as int;
    after.lemma_view_at(n);
    assert forall|id: Seq<char>| #[trigger] before@.contains_key(id) implies after@.contains_key(id)
        && after@[id] == before@[id] by {
        let k = before.ids().index_of(id);
        before.lemma_view_at(k);
        after.lemma_view_at(k);
    }
    assert forall|id: Seq<char>| after@.contains_key(id) && id != entry.0@ implies
        #[trigger] before@.contains_key(id) by {
        let j = after.ids().index_of(id);
        after.lemma_view_at(j);
        before.lemma_view_at(j);
    }
    assert(after@ =~= before@.insert(entry.0@, entry.1));
}

} // verus!
