//! JSON values as the remote service attaches them to an error response.

use vstd::prelude::*;

verus! {

/// A JSON value, held as plain data.
#[derive(Debug, PartialEq, Eq)]
pub enum Json {
    Null,
    Bool(bool),
    /// A number that is a signed 64-bit integer.
    Int(i64),
    /// Any other number, by its JSON text.
    Number(String),
    Text(String),
    List(Vec<Json>),
    /// The members of an object, in the order in which they were written.
    Object(Vec<(String, Json)>),
}

/// The value under `name` among `members`. Where a name is written twice the
/// later member counts, as it does when an object is read from JSON text.
pub open spec fn member_of(members: Seq<(String, Json)>, name: Seq<char>) -> Option<Json>
    decreases members.len(),
{
    if members.len() == 0 {
        None
    } else if members.last().0@ == name {
        Some(members.last().1)
    } else {
        member_of(members.drop_last(), name)
    }
}

impl Json {
    /// The member `name` of an object; `None` for a missing member and for
    /// every value that is no object.
    pub open spec fn member(self, name: Seq<char>) -> Option<Json> {
        match self {
            Json::Object(members) => member_of(members@, name),
            _ => None,
        }
    }

    /// The integer that this value is, if it is one.
    pub open spec fn integer(self) -> Option<int> {
        match self {
            Json::Int(n) => Some(n as int),
            _ => None,
        }
    }

    /// The text that this value is, if it is a string.
    pub open spec fn text(self) -> Option<Seq<char>> {
        match self {
            Json::Text(s) => Some(s@),
            _ => None,
        }
    }

    /// Looks up the member `name` of an object.
    pub fn get(&self, name: &str) -> (found: Option<&Json>)
        ensures
            match found {
                Some(value) => self.member(name@) == Some(*value),
                None => self.member(name@) is None,
            },
    {
        match self {
            Json::Object(members) => {
                let wanted: String = name.to_owned();
                let mut i: usize = members.len();
                assert(members@.take(i as int) == members@);
                while i > 0
                    invariant
                        i <= members.len(),
                        wanted@ == name@,
                        self.member(name@) == member_of(members@, name@),
                        member_of(members@, name@) == member_of(members@.take(i as int), name@),
                    decreases i,
                {
                    i = i - 1;
                    assert(members@.take(i + 1).last() == members@[i as int]);
                    assert(members@.take(i + 1).drop_last() == members@.take(i as int));
                    assert(members@[i as int].0@ != name@ ==> member_of(members@.take(i + 1), name@)
                        == member_of(members@.take(i as int), name@));
                    if members[i].0 == wanted {
                        return Some(&members[i].1);
                    }
                }
                None
            },
            _ => None,
        }
    }

    /// The integer that this value is, if it is one.
    pub fn as_i64(&self) -> (n: Option<i64>)
        ensures
            match n {
                Some(n) => self.integer() == Some(n as int),
                None => self.integer() is None,
            },
    {
        match self {
            Json::Int(n) => Some(*n),
            _ => None,
        }
    }

    /// The text that this value is, if it is a string.
    pub fn as_str(&self) -> (s: Option<&str>)
        ensures
            match s {
                Some(s) => self.text() == Some(s@),
                None => self.text() is None,
            },
    {
        match self {
            Json::Text(s) => Some(s.as_str()),
            _ => None,
        }
    }
}

} // verus!
