use vstd::prelude::*;

verus! {

/// The map that a sequence of `(key, value)` insertions leaves behind: a later
/// insertion of a key replaces the value that an earlier one gave it.
pub open spec fn fields_map(entries: Seq<(String, String)>) -> Map<Seq<char>, Seq<char>>
    decreases entries.len(),
{
    if entries.len() == 0 {
        Map::empty()
    } else {
        fields_map(entries.drop_last()).insert(entries.last().0@, entries.last().1@)
    }
}

/// No key occurs twice among the entries.
pub open spec fn keys_distinct(entries: Seq<(String, String)>) -> bool {
    forall|i: int, j: int|
        0 <= i < entries.len() && 0 <= j < entries.len() && i != j ==> entries[i].0@
            != entries[j].0@
}

/// With distinct keys, the map holds each entry's key with that entry's value.
pub proof fn lemma_fields_map_lookup(entries: Seq<(String, String)>, i: int)
    requires
        keys_distinct(entries),
        0 <= i < entries.len(),
    ensures
        fields_map(entries).contains_key(entries[i].0@),
        fields_map(entries)[entries[i].0@] == entries[i].1@,
    decreases entries.len(),
{
    if i < entries.len() - 1 {
        let rest = entries.drop_last();
        assert(keys_distinct(rest));
        lemma_fields_map_lookup(rest, i);
        assert(entries.last().0@ != entries[i].0@);
    }
}

/// A key that no entry carries is not in the map.
pub proof fn lemma_fields_map_absent(entries: Seq<(String, String)>, key: Seq<char>)
    requires
        forall|j: int| 0 <= j < entries.len() ==> entries[j].0@ != key,
    ensures
        !fields_map(entries).contains_key(key),
    decreases entries.len(),
{
    if entries.len() > 0 {
        lemma_fields_map_absent(entries.drop_last(), key);
    }
}

/// Replacing the entry of a key that occurs once is an insertion into the map.
pub proof fn lemma_fields_map_update(
    entries: Seq<(String, String)>,
    j: int,
    entry: (String, String),
)
    requires
        keys_distinct(entries),
        0 <= j < entries.len(),
        entries[j].0@ == entry.0@,
    ensures
        fields_map(entries.update(j, entry)) == fields_map(entries).insert(entry.0@, entry.1@),
    decreases entries.len(),
{
    let updated = entries.update(j, entry);
    let rest = entries.drop_last();
    if j == entries.len() - 1 {
        assert(updated.drop_last() =~= rest);
        assert(fields_map(updated) =~= fields_map(entries).insert(entry.0@, entry.1@));
    } else {
        assert(keys_distinct(rest));
        assert(updated.drop_last() =~= rest.update(j, entry));
        lemma_fields_map_update(rest, j, entry);
        assert(entries.last().0@ != entry.0@);
        assert(fields_map(updated) =~= fields_map(entries).insert(entry.0@, entry.1@));
    }
}

/// A JSON object whose values are all strings, as the replies of the
/// service carry them. Its view is the map from keys to values; inserting a key
/// that is already present replaces its value.
pub struct JsonObject {
    entries: Vec<(String, String)>,
}

impl View for JsonObject {
    type V = Map<Seq<char>, Seq<char>>;

    closed spec fn view(&self) -> Map<Seq<char>, Seq<char>> {
        fields_map(self.entries@)
    }
}

impl JsonObject {
    #[verifier::type_invariant]
    closed spec fn keys_unique(self) -> bool {
        keys_distinct(self.entries@)
    }

    /// An object with no field.
    pub fn new() -> (r: JsonObject)
        ensures
            r@ == Map::<Seq<char>, Seq<char>>::empty(),
    {
        JsonObject { entries: Vec::new() }
    }

    /// Sets the field `key` to `value`, replacing the value it had.
    pub fn insert(&mut self, key: String, value: String)
        ensures
            final(self)@ == old(self)@.insert(key@, value@),
    {
        proof {
            use_type_invariant(&*self);
        }
        let n = self.entries.len();
        let mut i: usize = 0;
        while i < n
            invariant
                self.entries@ == old(self).entries@,
                n == self.entries.len(),
                i <= n,
                keys_distinct(self.entries@),
                forall|j: int| 0 <= j < i ==> self.entries@[j].0@ != key@,
            decreases n - i,
        {
            if self.entries[i].0 == key {
                let ghost before = self.entries@;
                let entry = (key, value);
                proof {
                    lemma_fields_map_update(before, i as int, entry);
                }
                let mut entries = Vec::new();
                std::mem::swap(&mut entries, &mut self.entries);
                entries.remove(i);
                entries.insert(i, entry);
                assert(entries@ =~= before.update(i as int, entry));
                self.entries = entries;
                return ;
            }
            i += 1;
        }
        let ghost before = self.entries@;
        let mut entries = Vec::new();
        std::mem::swap(&mut entries, &mut self.entries);
        entries.push((key, value));
        assert(entries@.drop_last() =~= before);
        self.entries = entries;
    }

    /// The value of the field `key`, if the object has that field.
    pub fn get(&self, key: &String) -> (r: Option<String>)
        ensures
            r is Some <==> self@.contains_key(key@),
            r matches Some(v) ==> v@ == self@[key@],
    {
        proof {
            use_type_invariant(self);
        }
        let n = self.entries.len();
        let mut i: usize = 0;
        while i < n
            invariant
                n == self.entries.len(),
                i <= n,
                keys_distinct(self.entries@),
                forall|j: int| 0 <= j < i ==> self.entries@[j].0@ != key@,
            decreases n - i,
        {
            if self.entries[i].0 == *key {
                proof {
                    lemma_fields_map_lookup(self.entries@, i as int);
                }
                return Some(self.entries[i].1.clone());
            }
            i += 1;
        }
        proof {
            lemma_fields_map_absent(self.entries@, key@);
        }
        None
    }

    /// The fields, each key once.
    pub fn entries(&self) -> (r: Vec<(String, String)>)
        ensures
            keys_distinct(r@),
            fields_map(r@) == self@,
    {
        proof {
            use_type_invariant(self);
        }
        let n = self.entries.len();
        let mut out: Vec<(String, String)> = Vec::new();
        let mut i: usize = 0;
        while i < n
            invariant
                n == self.entries.len(),
                i <= n,
                out@.len() == i,
                forall|j: int|
                    #![trigger out@[j]]
                    0 <= j < i ==> out@[j].0@ == self.entries@[j].0@ && out@[j].1@
                        == self.entries@[j].1@,
            decreases n - i,
        {
            let k = self.entries[i].0.clone();
            let v = self.entries[i].1.clone();
            out.push((k, v));
            i += 1;
        }
        proof {
            lemma_fields_map_same_views(out@, self.entries@);
        }
        out
    }
}

/// Two entry sequences with the same keys and values (by view) give the same map.
proof fn lemma_fields_map_same_views(a: Seq<(String, String)>, b: Seq<(String, String)>)
    requires
        a.len() == b.len(),
        forall|j: int| 0 <= j < a.len() ==> a[j].0@ == b[j].0@ && a[j].1@ == b[j].1@,
    ensures
        fields_map(a) == fields_map(b),
        keys_distinct(b) ==> keys_distinct(a),
    decreases a.len(),
{
    if a.len() > 0 {
        lemma_fields_map_same_views(a.drop_last(), b.drop_last());
    }
}

} // verus!
