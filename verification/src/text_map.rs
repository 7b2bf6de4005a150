//! A small map from strings to strings.

use vstd::prelude::*;

verus! {

/// One key with its value.
#[derive(Clone, Debug)]
pub struct TextEntry {
    pub key: String,
    pub value: String,
}

/// A finite map from strings to strings. It is kept as the list of the
/// insertions made, oldest first; of two insertions under one key the later
/// one counts.
#[derive(Clone, Debug)]
pub struct TextMap {
    entries: Vec<TextEntry>,
}

/// The map that a list of insertions stands for.
pub open spec fn entries_map(entries: Seq<TextEntry>) -> Map<Seq<char>, Seq<char>>
    decreases entries.len(),
{
    if entries.len() == 0 {
        Map::empty()
    } else {
        entries_map(entries.drop_last()).insert(entries.last().key@, entries.last().value@)
    }
}

/// A key that no insertion names is absent from the map.
proof fn lemma_absent_key(entries: Seq<TextEntry>, key: Seq<char>)
    requires
        forall|j: int| 0 <= j < entries.len() ==> (#[trigger] entries[j]).key@ != key,
    ensures
        !entries_map(entries).contains_key(key),
    decreases entries.len(),
{
    if entries.len() > 0 {
        lemma_absent_key(entries.drop_last(), key);
    }
}

/// The last insertion under a key decides the value found under it.
proof fn lemma_last_insertion_counts(entries: Seq<TextEntry>, key: Seq<char>, i: int)
    requires
        0 <= i < entries.len(),
        entries[i].key@ == key,
        forall|j: int| i < j < entries.len() ==> (#[trigger] entries[j]).key@ != key,
    ensures
        entries_map(entries).contains_key(key),
        entries_map(entries)[key] == entries[i].value@,
    decreases entries.len(),
{
    if i < entries.len() - 1 {
        lemma_last_insertion_counts(entries.drop_last(), key, i);
    }
}

impl View for TextMap {
    type V = Map<Seq<char>, Seq<char>>;

    closed spec fn view(&self) -> Map<Seq<char>, Seq<char>> {
        entries_map(self.entries@)
    }
}

impl TextMap {
    pub fn new() -> (m: TextMap)
        ensures
            m@ == Map::<Seq<char>, Seq<char>>::empty(),
    {
        TextMap { entries: Vec::new() }
    }

    /// Sets `key` to `value`, replacing what was stored under `key` before.
    pub fn insert(&mut self, key: String, value: String)
        ensures
            final(self)@ == old(self)@.insert(key@, value@),
    {
        let ghost before = self.entries@;
        self.entries.push(TextEntry { key, value });
        proof {
            assert(self.entries@.drop_last() =~= before);
        }
    }

    /// The value stored under `key`, if there is one.
    pub fn get(&self, key: &String) -> (found: Option<String>)
        ensures
            found is Some <==> self@.contains_key(key@),
            found matches Some(v) ==> v@ == self@[key@],
    {
        let mut i: usize = self.entries.len();
        while i > 0
            invariant
                i <= self.entries.len(),
                forall|j: int| i <= j < self.entries.len() ==> (#[trigger] self.entries@[j]).key@ != key@,
            decreases i,
        {
            i -= 1;
            if self.entries[i].key == *key {
                proof {
                    lemma_last_insertion_counts(self.entries@, key@, i as int);
                }
                return Some(self.entries[i].value.clone());
            }
        }
        proof {
            lemma_absent_key(self.entries@, key@);
        }
        None
    }

    /// The insertions made so far, oldest first. Replaying them into an empty
    /// map gives this map.
    pub fn insertions(&self) -> (list: &Vec<TextEntry>)
        ensures
            entries_map(list@) == self@,
    {
        &self.entries
    }

    /// A copy that stands for the same map.
    pub fn duplicate(&self) -> (copy: TextMap)
        ensures
            copy@ == self@,
    {
        let mut entries: Vec<TextEntry> = Vec::new();
        let mut i: usize = 0;
        while i < self.entries.len()
            invariant
                i <= self.entries.len(),
                entries_map(entries@) == entries_map(self.entries@.take(i as int)),
            decreases self.entries.len() - i,
        {
            let ghost before = entries@;
            entries.push(
                TextEntry {
                    key: self.entries[i].key.clone(),
                    value: self.entries[i].value.clone(),
                },
            );
            proof {
                assert(entries@.drop_last() =~= before);
                assert(self.entries@.take(i + 1).drop_last() =~= self.entries@.take(i as int));
            }
            i += 1;
        }
        proof {
            assert(self.entries@.take(i as int) =~= self.entries@);
        }
        TextMap { entries }
    }
}

} // verus!
