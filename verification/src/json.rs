//! A JSON document as the library reads it. Numbers keep what the readers
//! need: non-negative and negative integers exactly, other numbers by their
//! decimal text.

use vstd::prelude::*;

verus! {

/// A JSON value.
#[derive(Debug)]
pub enum Json {
    Null,
    Bool(bool),
    /// An integer that is zero or more.
    PosInt(u64),
    /// An integer below zero.
    NegInt(i64),
    /// Any other number, by the decimal text that writes it.
    Float(String),
    Str(String),
    Array(Vec<Json>),
    /// An object's members in order; names are unique in a parsed document.
    Object(Vec<(String, Json)>),
}

/// The value of the first member named `key`.
pub open spec fn field_of(fields: Seq<(String, Json)>, key: Seq<char>) -> Option<Json>
    decreases fields.len(),
{
    if fields.len() == 0 {
        None
    } else if fields[0].0@ == key {
        Some(fields[0].1)
    } else {
        field_of(fields.drop_first(), key)
    }
}

/// `Value::get(key)`: the member `key` of an object; nothing for other values.
pub open spec fn get_spec(j: Json, key: Seq<char>) -> Option<Json> {
    match j {
        Json::Object(fields) => field_of(fields@, key),
        _ => None,
    }
}

/// `Value::as_str`.
pub open spec fn as_str_spec(j: Json) -> Option<Seq<char>> {
    match j {
        Json::Str(s) => Some(s@),
        _ => None,
    }
}

/// `Value::as_i64`: an integer that fits in `i64`.
pub open spec fn as_i64_spec(j: Json) -> Option<i64> {
    match j {
        Json::PosInt(n) => if n <= i64::MAX { Some(n as i64) } else { None },
        Json::NegInt(n) => Some(n),
        _ => None,
    }
}

/// `Value::as_u64`: an integer that is zero or more.
pub open spec fn as_u64_spec(j: Json) -> Option<u64> {
    match j {
        Json::PosInt(n) => Some(n),
        _ => None,
    }
}

/// `Value::as_array`.
pub open spec fn as_array_spec(j: Json) -> Option<Seq<Json>> {
    match j {
        Json::Array(items) => Some(items@),
        _ => None,
    }
}

/// A member looked up on a possibly missing value.
/// A number of any kind (what `as_f64` accepts).
pub open spec fn is_number_spec(j: Json) -> bool {
    j is PosInt || j is NegInt || j is Float
}

pub open spec fn get_opt(j: Option<Json>, key: Seq<char>) -> Option<Json> {
    match j {
        Some(v) => get_spec(v, key),
        None => None,
    }
}

/// A string member.
pub open spec fn str_member(j: Json, key: Seq<char>) -> Option<Seq<char>> {
    match get_spec(j, key) {
        Some(v) => as_str_spec(v),
        None => None,
    }
}

impl Json {
    /// The member `key` of an object.
    pub fn get(&self, key: &str) -> (r: Option<&Json>)
        ensures
            match r {
                Some(v) => get_spec(*self, key@) == Some(*v),
                None => get_spec(*self, key@) is None,
            },
    {
        match self {
            Json::Object(fields) => {
                let k = key.to_owned();
                let mut i: usize = 0;
                proof {
                    assert(fields@.skip(0) =~= fields@);
                }
                while i < fields.len()
                    invariant
                        i <= fields@.len(),
                        k@ == key@,
                        get_spec(*self, key@) == field_of(fields@, key@),
                        field_of(fields@, key@) == field_of(fields@.skip(i as int), key@),
                    decreases fields@.len() - i,
                {
                    proof {
                        assert(fields@.skip(i as int).drop_first() =~= fields@.skip(i + 1));
                        assert(fields@.skip(i as int)[0] == fields@[i as int]);
                    }
                    if fields[i].0 == k {
                        proof {
                            assert(fields@.skip(i as int).len() > 0);
                            assert(fields@.skip(i as int)[0].0@ == key@);
                            assert(field_of(fields@.skip(i as int), key@) == Some(fields@[i as int].1));
                            assert(get_spec(*self, key@) == field_of(fields@, key@));
                        }
                        return Some(&fields[i].1);
                    }
                    i = i + 1;
                }
                proof {
                    assert(fields@.skip(i as int).len() == 0);
                }
                None
            },
            _ => None,
        }
    }

    /// The text of a string value.
    pub fn as_str(&self) -> (r: Option<&String>)
        ensures
            match r {
                Some(s) => as_str_spec(*self) == Some(s@),
                None => as_str_spec(*self) is None,
            },
    {
        match self {
            Json::Str(s) => Some(s),
            _ => None,
        }
    }

    /// An integer value that fits in `i64`.
    pub fn as_i64(&self) -> (r: Option<i64>)
        ensures
            r == as_i64_spec(*self),
    {
        match self {
            Json::PosInt(n) => if *n <= i64::MAX as u64 { Some(*n as i64) } else { None },
            Json::NegInt(n) => Some(*n),
            _ => None,
        }
    }

    /// A non-negative integer value.
    pub fn as_u64(&self) -> (r: Option<u64>)
        ensures
            r == as_u64_spec(*self),
    {
        match self {
            Json::PosInt(n) => Some(*n),
            _ => None,
        }
    }

    /// The items of an array value.
    /// Whether the value is a number.
    pub fn is_number(&self) -> (r: bool)
        ensures
            r == is_number_spec(*self),
    {
        match self {
            Json::PosInt(_) | Json::NegInt(_) | Json::Float(_) => true,
            _ => false,
        }
    }

    pub fn as_array(&self) -> (r: Option<&Vec<Json>>)
        ensures
            match r {
                Some(items) => as_array_spec(*self) == Some(items@),
                None => as_array_spec(*self) is None,
            },
    {
        match self {
            Json::Array(items) => Some(items),
            _ => None,
        }
    }
}

} // verus!

verus! {

/// A JSON value with its texts as character sequences.
pub enum JsonView {
    Null,
    Bool(bool),
    PosInt(u64),
    NegInt(i64),
    Float(Seq<char>),
    Str(Seq<char>),
    Array(Seq<JsonView>),
    Object(Seq<(Seq<char>, JsonView)>),
}

/// The view of a JSON value.
pub open spec fn view_of(j: Json) -> JsonView
    decreases j,
{
    match j {
        Json::Null => JsonView::Null,
        Json::Bool(b) => JsonView::Bool(b),
        Json::PosInt(n) => JsonView::PosInt(n),
        Json::NegInt(n) => JsonView::NegInt(n),
        Json::Float(t) => JsonView::Float(t@),
        Json::Str(s) => JsonView::Str(s@),
        Json::Array(items) => JsonView::Array(
            Seq::new(items@.len(), |i: int| if 0 <= i < items@.len() { view_of(items@[i]) } else { JsonView::Null }),
        ),
        Json::Object(fields) => JsonView::Object(
            Seq::new(fields@.len(), |i: int| if 0 <= i < fields@.len() { (fields@[i].0@, view_of(fields@[i].1)) } else { (Seq::empty(), JsonView::Null) }),
        ),
    }
}

impl View for Json {
    type V = JsonView;

    open spec fn view(&self) -> JsonView {
        view_of(*self)
    }
}

} // verus!

verus! {

impl Json {
    /// A copy of the value.
    pub fn duplicate(&self) -> (r: Json)
        ensures
            r@ == self@,
        decreases self,
    {
        match self {
            Json::Null => Json::Null,
            Json::Bool(b) => Json::Bool(*b),
            Json::PosInt(n) => Json::PosInt(*n),
            Json::NegInt(n) => Json::NegInt(*n),
            Json::Float(t) => Json::Float(t.clone()),
            Json::Str(s) => Json::Str(s.clone()),
            Json::Array(items) => {
                let mut out: Vec<Json> = Vec::new();
                let mut i: usize = 0;
                while i < items.len()
                    invariant
                        i <= items@.len(),
                        out@.len() == i,
                        forall|k: int| 0 <= k < i ==> out@[k]@ == items@[k]@,
                        *self == Json::Array(*items),
                    decreases items@.len() - i,
                {
                    proof {
                        assert(decreases_to!(*self => (*self)->Array_0));
                        assert(decreases_to!(*items => items@));
                        assert(decreases_to!(items@ => items@[i as int]));
                    }
                    let item = items[i].duplicate();
                    out.push(item);
                    i = i + 1;
                }
                let r = Json::Array(out);
                proof {
                    let a = match view_of(r) {
                        JsonView::Array(s) => s,
                        _ => Seq::empty(),
                    };
                    let b = match view_of(*self) {
                        JsonView::Array(s) => s,
                        _ => Seq::empty(),
                    };
                    assert(a =~= b);
                }
                r
            },
            Json::Object(fields) => {
                let mut out: Vec<(String, Json)> = Vec::new();
                let mut i: usize = 0;
                while i < fields.len()
                    invariant
                        i <= fields@.len(),
                        out@.len() == i,
                        forall|k: int| 0 <= k < i ==> out@[k].0@ == fields@[k].0@ && out@[k].1@ == fields@[k].1@,
                        *self == Json::Object(*fields),
                    decreases fields@.len() - i,
                {
                    proof {
                        assert(decreases_to!(*self => (*self)->Object_0));
                        assert(decreases_to!(*fields => fields@));
                        assert(decreases_to!(fields@ => fields@[i as int]));
                        assert(decreases_to!(fields@[i as int] => fields@[i as int].1));
                    }
                    let value = fields[i].1.duplicate();
                    out.push((fields[i].0.clone(), value));
                    i = i + 1;
                }
                let r = Json::Object(out);
                proof {
                    let a = match view_of(r) {
                        JsonView::Object(s) => s,
                        _ => Seq::empty(),
                    };
                    let b = match view_of(*self) {
                        JsonView::Object(s) => s,
                        _ => Seq::empty(),
                    };
                    assert(a =~= b);
                }
                r
            },
        }
    }
}

} // verus!
