use vstd::prelude::*;

verus! {

/// A JSON value as the extractor reads it. Objects keep their members in
/// order, as key and value pairs.
#[derive(Debug)]
pub enum Json {
    Null,
    Bool(bool),
    /// A number, in its text form.
    Number(String),
    Str(String),
    Array(Vec<Json>),
    Object(Vec<(String, Json)>),
}

/// The value of the first member named `key`, if any.
pub open spec fn lookup(members: Seq<(String, Json)>, key: Seq<char>) -> Option<Json>
    decreases members.len(),
{
    if members.len() == 0 {
        None
    } else if members[0].0@ == key {
        Some(members[0].1)
    } else {
        lookup(members.drop_first(), key)
    }
}

/// The member `key` of `v`: nothing when `v` is not an object or has no
/// such member.
pub open spec fn member(v: Option<Json>, key: Seq<char>) -> Option<Json> {
    match v {
        Some(Json::Object(members)) => lookup(members@, key),
        _ => None,
    }
}

/// The text of `v` when it is a string.
pub open spec fn text(v: Option<Json>) -> Option<Seq<char>> {
    match v {
        Some(Json::Str(s)) => Some(s@),
        _ => None,
    }
}

impl Json {
    /// The member `key` of this value, when it is an object that has one.
    pub fn get(&self, key: &str) -> (r: Option<&Json>)
        ensures
            r matches Some(v) ==> member(Some(*self), key@) == Some(*v),
            r is None ==> member(Some(*self), key@) is None,
    {
        match self {
            Json::Object(members) => {
                let name = String::from_str(key);
                let mut i: usize = 0;
                assert(members@.subrange(0, members@.len() as int) =~= members@);
                while i < members.len()
                    invariant
                        0 <= i <= members@.len(),
                        name@ == key@,
                        member(Some(*self), key@) == lookup(members@, key@),
                        lookup(members@, key@) == lookup(members@.subrange(i as int, members@.len() as int), key@),
                    decreases members@.len() - i,
                {
                    proof {
                        let rest = members@.subrange(i as int, members@.len() as int);
                        assert(rest.drop_first() =~= members@.subrange(i + 1, members@.len() as int));
                        assert(rest[0] == members@[i as int]);
                    }
                    if members[i].0 == name {
                        assert(lookup(members@.subrange(i as int, members@.len() as int), key@) == Some(members@[i as int].1));
                        return Some(&members[i].1);
                    }
                    i = i + 1;
                }
                None
            },
            _ => None,
        }
    }

    /// The text of this value, when it is a string.
    pub fn as_text(&self) -> (r: Option<&String>)
        ensures
            r matches Some(s) ==> text(Some(*self)) == Some(s@),
            r is None ==> text(Some(*self)) is None,
    {
        match self {
            Json::Str(s) => Some(s),
            _ => None,
        }
    }
}

} // verus!
