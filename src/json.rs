use vstd::prelude::*;

verus! {

/// A parsed JSON document. Numbers keep their source text: nothing here
/// computes with them. An object keeps its members in document order.
#[derive(Debug)]
pub enum Json {
    Null,
    Bool(bool),
    Number(String),
    Str(String),
    Array(Vec<Json>),
    Object(Vec<(String, Json)>),
}

/// The value of the first member of `members` whose name is `key`.
pub open spec fn find_member(members: Seq<(String, Json)>, key: Seq<char>) -> Option<Json>
    decreases members.len(),
{
    if members.len() == 0 {
        None
    } else if members[0].0@ == key {
        Some(members[0].1)
    } else {
        find_member(members.drop_first(), key)
    }
}

/// The member `key` of `j`, if `j` is an object that has one.
pub open spec fn member_of(j: Json, key: Seq<char>) -> Option<Json> {
    match j {
        Json::Object(members) => find_member(members@, key),
        _ => None,
    }
}

/// The member `key` of `j`, if it is present and holds a string.
pub open spec fn string_member(j: Json, key: Seq<char>) -> Option<Seq<char>> {
    match member_of(j, key) {
        Some(Json::Str(s)) => Some(s@),
        _ => None,
    }
}

/// The member `key` of `j`, if it is present and holds a boolean.
pub open spec fn bool_member(j: Json, key: Seq<char>) -> Option<bool> {
    match member_of(j, key) {
        Some(Json::Bool(b)) => Some(b),
        _ => None,
    }
}

impl Json {
    /// Looks up the member `key` of an object; `None` for any other value.
    pub fn member(&self, key: &str) -> (r: Option<&Json>)
        ensures
            match r {
                Some(v) => member_of(*self, key@) == Some(*v),
                None => member_of(*self, key@) is None,
            },
    {
        match self {
            Json::Object(members) => {
                let name = key.to_owned();
                let mut i: usize = 0;
                proof {
                    assert(members@.subrange(0, members@.len() as int) =~= members@);
                }
                while i < members.len()
                    invariant
                        i <= members@.len(),
                        name@ == key@,
                        member_of(*self, key@) == find_member(members@, key@),
                        find_member(members@, key@) == find_member(
                            members@.subrange(i as int, members@.len() as int),
                            key@,
                        ),
                    decreases members@.len() - i,
                {
                    let ghost rest = members@.subrange(i as int, members@.len() as int);
                    proof {
                        assert(rest.drop_first() =~= members@.subrange(
                            i + 1,
                            members@.len() as int,
                        ));
                    }
                    assert(rest[0] == members@[i as int]);
                    if members[i].0 == name {
                        return Some(&members[i].1);
                    }
                    i = i + 1;
                }
                proof {
                    assert(members@.subrange(i as int, members@.len() as int).len() == 0);
                }
                None
            },
            _ => None,
        }
    }

    /// The member `key` of an object, if it is present and holds a string.
    pub fn string_member(&self, key: &str) -> (r: Option<&String>)
        ensures
            match r {
                Some(s) => string_member(*self, key@) == Some(s@),
                None => string_member(*self, key@) is None,
            },
    {
        match self.member(key) {
            Some(Json::Str(s)) => Some(s),
            _ => None,
        }
    }

    /// The member `key` of an object, if it is present and holds a boolean.
    pub fn bool_member(&self, key: &str) -> (r: Option<bool>)
        ensures
            r == bool_member(*self, key@),
    {
        match self.member(key) {
            Some(Json::Bool(b)) => Some(*b),
            _ => None,
        }
    }
}

} // verus!
