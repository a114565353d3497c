//! Wire values: the JSON-like tagged union carried in every payload field,
//! and the string-keyed dictionary built from it.

use vstd::prelude::*;

verus! {

/// One wire value.
///
/// A float is held as the 64 bits of its IEEE-754 double representation, so
/// that two values are equal exactly when their encodings are.
#[derive(Debug, PartialEq)]
pub enum Value {
    Null,
    Bool(bool),
    Integer(i64),
    Float(u64),
    Str(String),
    Bytes(Vec<u8>),
    List(Vec<Value>),
    Dict(Dict),
}

/// A mapping from strings to wire values, held as a list of entries
/// in which no key occurs twice. The entries keep the order in which their
/// keys were first inserted; `==` compares the lists, the view `@` is the
/// mapping itself.
#[derive(Debug, PartialEq)]
pub struct Dict {
    entries: Vec<(String, Value)>,
}

/// The mapping that a list of entries stands for; of two entries with one
/// key the later one counts.
pub open spec fn entries_map(s: Seq<(String, Value)>) -> Map<Seq<char>, Value>
    decreases s.len(),
{
    if s.len() == 0 {
        Map::empty()
    } else {
        entries_map(s.drop_last()).insert(s.last().0@, s.last().1)
    }
}

/// No key occurs at two places of the list.
pub open spec fn distinct_keys(s: Seq<(String, Value)>) -> bool {
    forall|i: int, j: int| 0 <= i < j < s.len() ==> (#[trigger] s[i]).0@ != (#[trigger] s[j]).0@
}

/// A key that occurs nowhere in the list is not in its mapping.
pub proof fn lemma_absent_key(s: Seq<(String, Value)>, key: Seq<char>)
    requires
        forall|i: int| 0 <= i < s.len() ==> (#[trigger] s[i]).0@ != key,
    ensures
        !entries_map(s).contains_key(key),
    decreases s.len(),
{
    if s.len() > 0 {
        lemma_absent_key(s.drop_last(), key);
    }
}

/// In a list without repeated keys, the entry at a place is the mapping's
/// entry for its key.
pub proof fn lemma_present_key(s: Seq<(String, Value)>, i: int)
    requires
        distinct_keys(s),
        0 <= i < s.len(),
    ensures
        entries_map(s).contains_key(s[i].0@),
        entries_map(s)[s[i].0@] == s[i].1,
    decreases s.len(),
{
    if i < s.len() - 1 {
        assert(s[i].0@ != s[s.len() - 1].0@);
        assert(s.drop_last()[i] == s[i]);
        lemma_present_key(s.drop_last(), i);
    }
}

/// Replacing the value at a key's place is inserting at that key.
pub proof fn lemma_replace_value(s: Seq<(String, Value)>, i: int, entry: (String, Value))
    requires
        distinct_keys(s),
        0 <= i < s.len(),
        entry.0@ == s[i].0@,
    ensures
        distinct_keys(s.update(i, entry)),
        entries_map(s.update(i, entry)) == entries_map(s).insert(entry.0@, entry.1),
    decreases s.len(),
{
    let t = s.update(i, entry);
    assert(distinct_keys(t)) by {
        assert forall|a: int, b: int| 0 <= a < b < t.len() implies (#[trigger] t[a]).0@ != (
        #[trigger] t[b]).0@ by {
            assert(s[a].0@ != s[b].0@);
        }
    }
    if i == s.len() - 1 {
        assert(t.drop_last() == s.drop_last());
        assert(entries_map(t) =~= entries_map(s).insert(entry.0@, entry.1));
    } else {
        assert(s[i].0@ != s[s.len() - 1].0@);
        assert(t.drop_last() == s.drop_last().update(i, entry));
        assert(s.drop_last()[i] == s[i]);
        lemma_replace_value(s.drop_last(), i, entry);
        assert(entries_map(t) =~= entries_map(s).insert(entry.0@, entry.1));
    }
}

impl View for Dict {
    type V = Map<Seq<char>, Value>;

    closed spec fn view(&self) -> Map<Seq<char>, Value> {
        entries_map(self.entries@)
    }
}

impl Dict {
    /// The invariant of the type: no key occurs twice among the entries.
    #[verifier::type_invariant]
    closed spec fn wf(&self) -> bool {
        distinct_keys(self.entries@)
    }

    /// The number of entries held.
    pub closed spec fn spec_len(&self) -> nat {
        self.entries@.len()
    }

    /// The empty dictionary.
    pub fn new() -> (d: Dict)
        ensures
            d@ == Map::<Seq<char>, Value>::empty(),
            d.spec_len() == 0,
    {
        Dict { entries: Vec::new() }
    }

    /// The place of `key` among the entries, if it has one.
    fn position(&self, key: &String) -> (r: Option<usize>)
        ensures
            match r {
                Some(i) => i < self.entries@.len() && self.entries@[i as int].0@ == key@,
                None => forall|i: int|
                    0 <= i < self.entries@.len() ==> (#[trigger] self.entries@[i]).0@ != key@,
            },
    {
        let mut i: usize = 0;
        while i < self.entries.len()
            invariant
                i <= self.entries@.len(),
                forall|j: int| 0 <= j < i ==> (#[trigger] self.entries@[j]).0@ != key@,
            decreases self.entries@.len() - i,
        {
            if self.entries[i].0 == *key {
                return Some(i);
            }
            i += 1;
        }
        None
    }

    /// Sets the value at `key`, replacing the one that was there.
    pub fn insert(&mut self, key: &str, value: Value)
        ensures
            final(self)@ == old(self)@.insert(key@, value),
    {
        proof {
            use_type_invariant(&*self);
        }
        let owned: String = key.to_owned();
        let found = self.position(&owned);
        let mut taken = Dict { entries: Vec::new() };
        core::mem::swap(self, &mut taken);
        let mut entries = taken.entries;
        match found {
            Some(i) => {
                proof {
                    lemma_replace_value(entries@, i as int, (owned, value));
                }
                entries.set(i, (owned, value));
            },
            None => {
                proof {
                    let s = entries@;
                    let t = s.push((owned, value));
                    assert(t.drop_last() == s);
                    assert forall|a: int, b: int| 0 <= a < b < t.len() implies (#[trigger] t[a]).0@
                        != (#[trigger] t[b]).0@ by {
                        if b < s.len() {
                            assert(s[a].0@ != s[b].0@);
                        } else {
                            assert(s[a].0@ != key@);
                        }
                    }
                }
                entries.push((owned, value));
            },
        }
        *self = Dict { entries };
    }

    /// The value at `key`, if there is one.
    pub fn get(&self, key: &str) -> (r: Option<&Value>)
        ensures
            match r {
                Some(v) => self@.contains_key(key@) && self@[key@] == *v,
                None => !self@.contains_key(key@),
            },
    {
        proof {
            use_type_invariant(self);
        }
        let owned: String = key.to_owned();
        match self.position(&owned) {
            Some(i) => {
                proof {
                    lemma_present_key(self.entries@, i as int);
                }
                Some(&self.entries[i].1)
            },
            None => {
                proof {
                    lemma_absent_key(self.entries@, key@);
                }
                None
            },
        }
    }

    /// Whether the dictionary has an entry at `key`.
    pub fn contains_key(&self, key: &str) -> (r: bool)
        ensures
            r == self@.contains_key(key@),
    {
        self.get(key).is_some()
    }

    /// The entries as a list, in which no key occurs twice.
    pub fn into_entries(self) -> (entries: Vec<(String, Value)>)
        ensures
            distinct_keys(entries@),
            entries_map(entries@) == self@,
    {
        proof {
            use_type_invariant(&self);
        }
        self.entries
    }

    /// The key and the value at a place among the entries.
    pub fn entry(&self, i: usize) -> (r: (&String, &Value))
        requires
            i < self.spec_len(),
        ensures
            self@.contains_key(r.0@),
            self@[r.0@] == *r.1,
    {
        proof {
            use_type_invariant(self);
            lemma_present_key(self.entries@, i as int);
        }
        (&self.entries[i].0, &self.entries[i].1)
    }

    /// The number of entries.
    pub fn len(&self) -> (n: usize)
        ensures
            n == self.spec_len(),
    {
        self.entries.len()
    }
}

} // verus!
