use vstd::prelude::*;

verus! {

/// A JSON value as this library reads and writes it.
///
/// Integers that fit a `u64` or an `i64` are held as integers; any other
/// number is held as the text it was written with, so that no value is lost
/// when a payload is passed through unread.
#[derive(Debug, PartialEq, Eq)]
pub enum Json {
    Null,
    Bool(bool),
    UInt(u64),
    NegInt(i64),
    OtherNumber(String),
    Str(String),
    Array(Vec<Json>),
    Object(Vec<(String, Json)>),
}

/// The value stored under `key` in a list of object members. When a key
/// occurs more than once, the last member wins, as when the members are
/// inserted one after another into a map.
pub open spec fn member(fields: Seq<(String, Json)>, key: Seq<char>) -> Option<Json>
    decreases fields.len(),
{
    if fields.len() == 0 {
        None
    } else if fields.last().0@ == key {
        Some(fields.last().1)
    } else {
        member(fields.drop_last(), key)
    }
}

impl Json {
    /// The member `key` of an object; `None` for a missing key or a value
    /// that is not an object.
    pub open spec fn field(self, key: Seq<char>) -> Option<Json> {
        match self {
            Json::Object(fields) => member(fields@, key),
            _ => None,
        }
    }

    /// The value as an unsigned integer, if it is one.
    pub open spec fn uint_of(self) -> Option<u64> {
        match self {
            Json::UInt(n) => Some(n),
            _ => None,
        }
    }

    /// The string of a string value.
    pub open spec fn string_of(self) -> Option<String> {
        match self {
            Json::Str(s) => Some(s),
            _ => None,
        }
    }

    /// The value of a boolean.
    pub open spec fn bool_of(self) -> Option<bool> {
        match self {
            Json::Bool(b) => Some(b),
            _ => None,
        }
    }

    /// Borrows the member `key` of an object.
    pub fn get(&self, key: &str) -> (r: Option<&Json>)
        ensures
            match r {
                Some(v) => self.field(key@) == Some(*v),
                None => self.field(key@).is_none(),
            },
    {
        match self {
            Json::Object(fields) => {
                let wanted = String::from_str(key);
                let mut i: usize = fields.len();
                assert(fields@.take(i as int) =~= fields@);
                while i > 0
                    invariant
                        i <= fields@.len(),
                        wanted@ == key@,
                        self.field(key@) == member(fields@, key@),
                        member(fields@, key@) == member(fields@.take(i as int), key@),
                    decreases i,
                {
                    let ghost before = fields@.take(i as int);
                    assert(before.drop_last() =~= fields@.take(i - 1));
                    assert(before.last() == fields@[i - 1]);
                    if fields[i - 1].0 == wanted {
                        assert(before.last().0@ == key@);
                        assert(member(before, key@) == Some(before.last().1));
                        return Some(&fields[i - 1].1);
                    }
                    i = i - 1;
                }
                None
            },
            _ => None,
        }
    }

    /// Takes the member `key` out of an object, dropping the rest.
    pub fn into_field(self, key: &str) -> (r: Option<Json>)
        ensures
            r == self.field(key@),
    {
        match self {
            Json::Object(fields) => {
                let wanted = String::from_str(key);
                let ghost all = fields@;
                assert(self.field(key@) == member(all, key@));
                let mut rest = fields;
                while rest.len() > 0
                    invariant
                        wanted@ == key@,
                        self.field(key@) == member(all, key@),
                        member(all, key@) == member(rest@, key@),
                    decreases rest.len(),
                {
                    let ghost before = rest@;
                    let last = rest.pop().unwrap();
                    assert(before.drop_last() =~= rest@);
                    assert(last == before.last());
                    let (k, v) = last;
                    if k == wanted {
                        assert(before.last().0@ == key@);
                        assert(member(before, key@) == Some(before.last().1));
                        return Some(v);
                    }
                }
                None
            },
            _ => None,
        }
    }

    /// The value as an unsigned integer, if it is one.
    pub fn as_u64(&self) -> (r: Option<u64>)
        ensures
            r == self.uint_of(),
    {
        match self {
            Json::UInt(n) => Some(*n),
            _ => None,
        }
    }

    /// A copy of the text of a string value.
    pub fn to_text(&self) -> (r: Option<String>)
        ensures
            r == self.string_of(),
    {
        match self {
            Json::Str(s) => Some(s.clone()),
            _ => None,
        }
    }

    /// The value of a boolean.
    pub fn as_bool(&self) -> (r: Option<bool>)
        ensures
            r == self.bool_of(),
    {
        match self {
            Json::Bool(b) => Some(*b),
            _ => None,
        }
    }

    /// Whether the value is an object.
    pub fn is_object(&self) -> (r: bool)
        ensures
            r == (*self is Object),
    {
        match self {
            Json::Object(_) => true,
            _ => false,
        }
    }

    /// Whether the value is `null`.
    pub fn is_null(&self) -> (r: bool)
        ensures
            r == (*self is Null),
    {
        match self {
            Json::Null => true,
            _ => false,
        }
    }
}

/// Builds an object member from a key and a value.
pub fn entry(key: &str, value: Json) -> (r: (String, Json))
    ensures
        r.0@ == key@,
        r.1 == value,
{
    (String::from_str(key), value)
}

} // verus!
