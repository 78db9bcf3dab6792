use vstd::prelude::*;

verus! {

/// A YAML node. Mappings keep their entries in insertion order, as key and
/// value pairs.
#[derive(Debug)]
pub enum Yaml {
    /// A float, in its text form.
    Real(String),
    Integer(i64),
    Str(String),
    Boolean(bool),
    Array(Vec<Yaml>),
    Hash(Vec<(Yaml, Yaml)>),
    Alias(usize),
    Null,
    BadValue,
}

/// `y` is the string key `key`.
pub open spec fn is_key(y: Yaml, key: Seq<char>) -> bool {
    y matches Yaml::Str(s) && s@ == key
}

/// `y` is a string node whose text is `t`.
pub open spec fn is_text(y: Yaml, t: Seq<char>) -> bool {
    is_key(y, t)
}

/// Entry `i` is the first one whose key is `key`.
pub open spec fn first_key_at(entries: Seq<(Yaml, Yaml)>, key: Seq<char>, i: int) -> bool {
    &&& 0 <= i < entries.len()
    &&& is_key(entries[i].0, key)
    &&& forall|j: int| 0 <= j < i ==> !is_key(#[trigger] entries[j].0, key)
}

/// Some entry has the key `key`.
pub open spec fn has_key(entries: Seq<(Yaml, Yaml)>, key: Seq<char>) -> bool {
    exists|i: int| first_key_at(entries, key, i)
}

/// The position of the first entry with the key `key`.
pub open spec fn key_at(entries: Seq<(Yaml, Yaml)>, key: Seq<char>) -> int {
    choose|i: int| first_key_at(entries, key, i)
}

/// The value of the first entry with the key `key`.
pub open spec fn value_at(entries: Seq<(Yaml, Yaml)>, key: Seq<char>) -> Option<Yaml> {
    if has_key(entries, key) {
        Some(entries[key_at(entries, key)].1)
    } else {
        None
    }
}

/// Only one entry is the first with a given key.
pub proof fn lemma_first_key_unique(entries: Seq<(Yaml, Yaml)>, key: Seq<char>, i: int)
    requires
        first_key_at(entries, key, i),
    ensures
        has_key(entries, key),
        key_at(entries, key) == i,
        value_at(entries, key) == Some(entries[i].1),
{
    let k = key_at(entries, key);
    assert(first_key_at(entries, key, k));
    if k < i {
        assert(!is_key(entries[k].0, key));
    } else if i < k {
        assert(!is_key(entries[i].0, key));
    }
}

/// Two entry lists with the same keys, position by position, find a key at
/// the same place.
pub proof fn lemma_same_keys(a: Seq<(Yaml, Yaml)>, b: Seq<(Yaml, Yaml)>, key: Seq<char>)
    requires
        a.len() == b.len(),
        forall|k: int| 0 <= k < a.len() ==> (#[trigger] a[k]).0 == b[k].0,
    ensures
        has_key(a, key) == has_key(b, key),
        has_key(a, key) ==> key_at(a, key) == key_at(b, key),
{
    if has_key(a, key) {
        let i = key_at(a, key);
        assert(first_key_at(a, key, i));
        assert forall|j: int| 0 <= j < i implies !is_key(#[trigger] b[j].0, key) by {
            assert(a[j].0 == b[j].0);
            assert(!is_key(a[j].0, key));
        }
        assert(a[i].0 == b[i].0);
        assert(first_key_at(b, key, i));
        lemma_first_key_unique(b, key, i);
    }
    if has_key(b, key) {
        let i = key_at(b, key);
        assert(first_key_at(b, key, i));
        assert forall|j: int| 0 <= j < i implies !is_key(#[trigger] a[j].0, key) by {
            assert(a[j].0 == b[j].0);
            assert(!is_key(b[j].0, key));
        }
        assert(a[i].0 == b[i].0);
        assert(first_key_at(a, key, i));
    }
}

/// The position of the first entry whose key is the string `key`.
pub fn find_key(entries: &Vec<(Yaml, Yaml)>, key: &str) -> (r: Option<usize>)
    ensures
        r matches Some(i) ==> first_key_at(entries@, key@, i as int),
        r is None ==> !has_key(entries@, key@),
{
    let name = String::from_str(key);
    let mut i: usize = 0;
    while i < entries.len()
        invariant
            0 <= i <= entries@.len(),
            name@ == key@,
            forall|j: int| 0 <= j < i ==> !is_key(#[trigger] entries@[j].0, key@),
        decreases entries@.len() - i,
    {
        match &entries[i].0 {
            Yaml::Str(s) => {
                if *s == name {
                    return Some(i);
                }
            },
            _ => {},
        }
        i = i + 1;
    }
    assert forall|p: int| !first_key_at(entries@, key@, p) by {
        if 0 <= p < entries@.len() {
            assert(!is_key(entries@[p].0, key@));
        }
    }
    None
}

/// The value of the first entry of a mapping whose key is the string `key`.
pub fn value_of<'a>(entries: &'a Vec<(Yaml, Yaml)>, key: &str) -> (r: Option<&'a Yaml>)
    ensures
        r matches Some(v) ==> value_at(entries@, key@) == Some(*v),
        r is None ==> value_at(entries@, key@) is None,
{
    match find_key(entries, key) {
        Some(i) => {
            proof {
                lemma_first_key_unique(entries@, key@, i as int);
            }
            Some(&entries[i].1)
        },
        None => None,
    }
}

} // verus!
