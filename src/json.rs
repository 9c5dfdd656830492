use vstd::prelude::*;
use vstd::string::StringExecFns;

verus! {

/// A JSON document as the probe logic reads it.
///
/// Numbers that have an exact `i64` value are kept as that value; any other
/// number (a fraction, or an integer beyond `i64`) keeps only its text.
/// An object holds each key once, its members in the order given; a parsed
/// report lists them sorted by key, a repeated key keeping its last value.
#[derive(Debug)]
pub enum Json {
    Null,
    Bool(bool),
    Int(i64),
    Number(String),
    Str(String),
    Array(Vec<Json>),
    Object(Vec<(String, Json)>),
}

/// What a JSON value says, as mathematical values.
pub enum JsonView {
    Null,
    Bool(bool),
    Int(i64),
    Number(Seq<char>),
    Str(Seq<char>),
    Array(Seq<JsonView>),
    Object(Seq<(Seq<char>, JsonView)>),
}

/// The mathematical value of a JSON value.
pub open spec fn json_view(j: Json) -> JsonView
    decreases j,
{
    match j {
        Json::Null => JsonView::Null,
        Json::Bool(b) => JsonView::Bool(b),
        Json::Int(n) => JsonView::Int(n),
        Json::Number(t) => JsonView::Number(t@),
        Json::Str(s) => JsonView::Str(s@),
        Json::Array(a) => JsonView::Array(
            Seq::new(
                a@.len(),
                |i: int|
                    if 0 <= i < a@.len() {
                        json_view(a@[i])
                    } else {
                        JsonView::Null
                    },
            ),
        ),
        Json::Object(es) => JsonView::Object(
            Seq::new(
                es@.len(),
                |i: int|
                    if 0 <= i < es@.len() {
                        (es@[i].0@, json_view(es@[i].1))
                    } else {
                        (Seq::empty(), JsonView::Null)
                    },
            ),
        ),
    }
}

/// The mathematical values of a sequence of JSON values.
pub open spec fn views_of(a: Seq<Json>) -> Seq<JsonView> {
    Seq::new(a.len(), |i: int| json_view(a[i]))
}

/// The value of the first member named `key` at or after position `i`.
pub open spec fn entry_from(es: Seq<(Seq<char>, JsonView)>, key: Seq<char>, i: int) -> Option<
    JsonView,
>
    decreases es.len() - i,
{
    if i < 0 || i >= es.len() {
        None
    } else if es[i].0 == key {
        Some(es[i].1)
    } else {
        entry_from(es, key, i + 1)
    }
}

/// The member `key` of an object; nothing for any other value.
pub open spec fn member(j: JsonView, key: Seq<char>) -> Option<JsonView> {
    match j {
        JsonView::Object(es) => entry_from(es, key, 0),
        _ => None,
    }
}

/// The text of a string value, if the value is present and is a string.
pub open spec fn text_of(j: Option<JsonView>) -> Option<Seq<char>> {
    match j {
        Some(JsonView::Str(s)) => Some(s),
        _ => None,
    }
}

/// The integer of a number value with an exact `i64` value.
pub open spec fn int_of(j: Option<JsonView>) -> Option<i64> {
    match j {
        Some(JsonView::Int(n)) => Some(n),
        _ => None,
    }
}

/// The elements of an array value.
pub open spec fn elements_of(j: Option<JsonView>) -> Option<Seq<JsonView>> {
    match j {
        Some(JsonView::Array(a)) => Some(a),
        _ => None,
    }
}

impl Json {
    /// The member `key` of this value, when it is an object that has one.
    pub fn member(&self, key: &str) -> (r: Option<&Json>)
        ensures
            r is Some <==> member(json_view(*self), key@) is Some,
            r is Some ==> json_view(*r->0) == member(json_view(*self), key@)->0,
    {
        match self {
            Json::Object(es) => {
                let k = String::from_str(key);
                let ghost ev = match json_view(*self) {
                    JsonView::Object(ev) => ev,
                    _ => Seq::empty(),
                };
                let mut i: usize = 0;
                while i < es.len()
                    invariant
                        i <= es@.len(),
                        k@ == key@,
                        json_view(*self) == JsonView::Object(ev),
                        ev.len() == es@.len(),
                        forall|j: int| 0 <= j < es@.len() ==> #[trigger] ev[j] == (es@[j].0@, json_view(es@[j].1)),
                        member(json_view(*self), key@) == entry_from(ev, key@, i as int),
                    decreases es.len() - i,
                {
                    if es[i].0.eq(&k) {
                        assert(ev[i as int] == (es@[i as int].0@, json_view(es@[i as int].1)));
                        return Some(&es[i].1);
                    }
                    assert(ev[i as int] == (es@[i as int].0@, json_view(es@[i as int].1)));
                    i = i + 1;
                }
                None
            },
            _ => None,
        }
    }

    /// The text of this value, when it is a string.
    pub fn as_str(&self) -> (r: Option<&str>)
        ensures
            r is Some <==> text_of(Some(json_view(*self))) is Some,
            r is Some ==> r->0@ == text_of(Some(json_view(*self)))->0,
    {
        match self {
            Json::Str(s) => Some(s.as_str()),
            _ => None,
        }
    }

    /// The integer of this value, when it is a number with an exact `i64` value.
    pub fn as_i64(&self) -> (r: Option<i64>)
        ensures
            r == int_of(Some(json_view(*self))),
    {
        match self {
            Json::Int(n) => Some(*n),
            _ => None,
        }
    }

    /// The elements of this value, when it is an array.
    pub fn as_array(&self) -> (r: Option<&Vec<Json>>)
        ensures
            r is Some <==> elements_of(Some(json_view(*self))) is Some,
            r is Some ==> views_of(r->0@) == elements_of(Some(json_view(*self)))->0,
    {
        match self {
            Json::Array(a) => {
                assert(views_of(a@) =~= elements_of(Some(json_view(*self)))->0);
                Some(a)
            },
            _ => None,
        }
    }
}

} // verus!
