use vstd::prelude::*;

verus! {

/// A structured document as the protocol exchanges it.
///
/// Numbers that fit an `i64` are held as `Int`; any other number keeps its
/// textual form in `Number`. Object members keep their order.
#[derive(Debug)]
pub enum Json {
    Null,
    Bool(bool),
    Int(i64),
    Number(String),
    Str(String),
    Array(Vec<Json>),
    Object(Vec<(String, Json)>),
}

/// The value behind an optional reference.
pub open spec fn opt_val(o: Option<&Json>) -> Option<Json> {
    match o {
        Some(v) => Some(*v),
        None => None,
    }
}

/// First member of `es`, from index `i` on, whose key is `key`.
pub open spec fn member_from(es: Seq<(String, Json)>, key: Seq<char>, i: int) -> Option<Json>
    decreases es.len() - i,
{
    if i < 0 || i >= es.len() {
        None
    } else if es[i].0@ == key {
        Some(es[i].1)
    } else {
        member_from(es, key, i + 1)
    }
}

/// The member `key` of an object; `None` for a missing key or a non-object.
pub open spec fn jget(j: Json, key: Seq<char>) -> Option<Json> {
    match j {
        Json::Object(es) => member_from(es@, key, 0),
        _ => None,
    }
}

/// The element `i` of an array; `None` when out of range or not an array.
pub open spec fn jat(j: Json, i: int) -> Option<Json> {
    match j {
        Json::Array(v) => if 0 <= i < v@.len() {
            Some(v@[i])
        } else {
            None
        },
        _ => None,
    }
}

/// An absent value reads as `Null`.
pub open spec fn or_null(o: Option<Json>) -> Json {
    match o {
        Some(v) => v,
        None => Json::Null,
    }
}

/// Indexing by key: `Null` where there is no such member.
pub open spec fn idx_key(j: Json, key: Seq<char>) -> Json {
    or_null(jget(j, key))
}

/// Indexing by position: `Null` where there is no such element.
pub open spec fn idx_at(j: Json, i: int) -> Json {
    or_null(jat(j, i))
}

/// The characters of a string value.
pub open spec fn str_of(j: Json) -> Option<Seq<char>> {
    match j {
        Json::Str(s) => Some(s@),
        _ => None,
    }
}

/// An integer value.
pub open spec fn int_of(j: Json) -> Option<i64> {
    match j {
        Json::Int(n) => Some(n),
        _ => None,
    }
}

/// `j` is an array of strings whose characters are `ss`, in order.
pub open spec fn is_str_array(j: Json, ss: Seq<Seq<char>>) -> bool {
    match j {
        Json::Array(v) => v@.len() == ss.len() && forall|i: int|
            0 <= i < ss.len() ==> str_of(#[trigger] v@[i]) == Some(ss[i]),
        _ => false,
    }
}

/// The `i`-th member of object `j`, when its key is `key`.
pub open spec fn member_at(j: Json, i: int, key: Seq<char>) -> Option<Json> {
    match j {
        Json::Object(es) => if 0 <= i < es@.len() && es@[i].0@ == key {
            Some(es@[i].1)
        } else {
            None
        },
        _ => None,
    }
}

impl Json {
    /// The member `key` of an object.
    pub fn get(&self, key: &str) -> (r: Option<&Json>)
        ensures
            opt_val(r) == jget(*self, key@),
    {
        match self {
            Json::Object(es) => {
                let k = String::from_str(key);
                let mut i: usize = 0;
                while i < es.len()
                    invariant
                        i <= es@.len(),
                        k@ == key@,
                        *self == Json::Object(*es),
                        member_from(es@, key@, 0) == member_from(es@, key@, i as int),
                    decreases es@.len() - i,
                {
                    let e = &es[i];
                    if e.0 == k {
                        assert(member_from(es@, key@, i as int) == Some(es@[i as int].1));
                        let r = Some(&e.1);
                        return r;
                    }
                    i = i + 1;
                }
                None
            },
            _ => None,
        }
    }

    /// The element `i` of an array.
    pub fn at(&self, i: usize) -> (r: Option<&Json>)
        ensures
            opt_val(r) == jat(*self, i as int),
    {
        match self {
            Json::Array(v) => if i < v.len() {
                Some(&v[i])
            } else {
                None
            },
            _ => None,
        }
    }

    /// The characters of a string value.
    pub fn as_str(&self) -> (r: Option<&String>)
        ensures
            match r {
                Some(s) => str_of(*self) == Some(s@),
                None => str_of(*self) is None,
            },
    {
        match self {
            Json::Str(s) => Some(s),
            _ => None,
        }
    }

    /// An integer value.
    pub fn as_i64(&self) -> (r: Option<i64>)
        ensures
            r == int_of(*self),
    {
        match self {
            Json::Int(n) => Some(*n),
            _ => None,
        }
    }

    /// The elements of an array.
    pub fn as_array(&self) -> (r: Option<&Vec<Json>>)
        ensures
            match r {
                Some(v) => *self == Json::Array(*v),
                None => !(*self is Array),
            },
    {
        match self {
            Json::Array(v) => Some(v),
            _ => None,
        }
    }

    /// A string value holding the characters of `s`.
    pub fn string(s: &str) -> (r: Json)
        ensures
            str_of(r) == Some(s@),
    {
        Json::Str(String::from_str(s))
    }
}

/// An array of string values, one for each of `items`.
pub fn str_array(items: &Vec<&str>) -> (r: Json)
    ensures
        is_str_array(r, items@.map_values(|s: &str| s@)),
{
    let mut out: Vec<Json> = Vec::new();
    let mut i: usize = 0;
    while i < items.len()
        invariant
            i <= items@.len(),
            out@.len() == i,
            forall|j: int| 0 <= j < i ==> str_of(#[trigger] out@[j]) == Some(items@[j]@),
        decreases items@.len() - i,
    {
        out.push(Json::string(items[i]));
        i = i + 1;
    }
    Json::Array(out)
}

} // verus!
