use vstd::prelude::*;
use crate::json::{Json, JsonView, json_view};

verus! {

#[verifier::external_type_specification]
#[verifier::external_body]
pub struct ExValue(serde_json::Value);

#[verifier::external_type_specification]
#[verifier::external_body]
pub struct ExNumber(serde_json::Number);

/// The bytes are one JSON document, as serde_json's parser accepts it.
pub uninterp spec fn is_json(b: Seq<u8>) -> bool;

/// The document that serde_json's parser reads out of the bytes.
pub uninterp spec fn json_doc(b: Seq<u8>) -> JsonView;

/// What a parsed serde_json value holds: its variant and contents, an
/// object's members in the map's order.
pub uninterp spec fn value_view(v: serde_json::Value) -> JsonView;

/// The value of a serde_json number when it is an integer that fits in `i64`.
pub uninterp spec fn number_int(n: serde_json::Number) -> Option<i64>;

/// The decimal text of a serde_json number.
pub uninterp spec fn number_digits(n: serde_json::Number) -> Seq<char>;

/// What a serde_json number stands for in the library's model.
pub open spec fn number_view(n: serde_json::Number) -> JsonView {
    match number_int(n) {
        Some(i) => JsonView::Int(i),
        None => JsonView::Number(number_digits(n)),
    }
}

/// One level of a parsed JSON value, its children still unconverted.
enum JsonNode {
    Null,
    Bool(bool),
    Number(serde_json::Number),
    Str(String),
    Array(Vec<serde_json::Value>),
    Object(Vec<(String, serde_json::Value)>),
}

/// What one level of a parsed value says, with its children's contents.
spec fn node_view(node: JsonNode) -> JsonView {
    match node {
        JsonNode::Null => JsonView::Null,
        JsonNode::Bool(b) => JsonView::Bool(b),
        JsonNode::Number(n) => number_view(n),
        JsonNode::Str(s) => JsonView::Str(s@),
        JsonNode::Array(items) => JsonView::Array(
            Seq::new(items@.len(), |i: int| value_view(items@[i])),
        ),
        JsonNode::Object(ms) => JsonView::Object(
            Seq::new(ms@.len(), |i: int| (ms@[i].0@, value_view(ms@[i].1))),
        ),
    }
}

/// Relies on serde_json::from_slice: whether the bytes parse, and what they
/// parse to, depends on the bytes alone; the error's text is passed on.
#[verifier::external_body]
fn parse_value(bytes: &[u8]) -> (r: Result<serde_json::Value, String>)
    ensures
        r is Ok <==> is_json(bytes@),
        r is Ok ==> value_view(r->Ok_0) == json_doc(bytes@),
{
    serde_json::from_slice::<serde_json::Value>(bytes).map_err(|e| e.to_string())
}

/// Relies on the variants of serde_json::Value: moves each one's content out,
/// an object's members in the map's order.
#[verifier::external_body]
fn node_of(v: serde_json::Value) -> (r: JsonNode)
    ensures
        node_view(r) == value_view(v),
{
    match v {
        serde_json::Value::Null => JsonNode::Null,
        serde_json::Value::Bool(b) => JsonNode::Bool(b),
        serde_json::Value::Number(n) => JsonNode::Number(n),
        serde_json::Value::String(s) => JsonNode::Str(s),
        serde_json::Value::Array(a) => JsonNode::Array(a),
        serde_json::Value::Object(m) => JsonNode::Object(m.into_iter().collect()),
    }
}

/// Relies on serde_json::Number::as_i64: the number's value when it is an
/// integer that fits in `i64`.
#[verifier::external_body]
fn number_as_i64(n: &serde_json::Number) -> (r: Option<i64>)
    ensures
        r == number_int(*n),
{
    n.as_i64()
}

/// Relies on serde_json::Number's `Display`: the number's decimal text.
#[verifier::external_body]
fn number_text(n: &serde_json::Number) -> (r: String)
    ensures
        r@ == number_digits(*n),
{
    n.to_string()
}

/// Converts a parsed value into the library's model, keeping what it says.
fn json_of_value(v: serde_json::Value) -> (r: Json)
    ensures
        json_view(r) == value_view(v),
    decreases value_view(v),
{
    let ghost whole = value_view(v);
    match node_of(v) {
        JsonNode::Null => Json::Null,
        JsonNode::Bool(b) => Json::Bool(b),
        JsonNode::Number(n) => match number_as_i64(&n) {
            Some(i) => Json::Int(i),
            None => Json::Number(number_text(&n)),
        },
        JsonNode::Str(s) => Json::Str(s),
        JsonNode::Array(items) => {
            let ghost orig = items@;
            let ghost elems = Seq::new(orig.len(), |i: int| value_view(orig[i]));
            assert(whole == JsonView::Array(elems));
            let mut items = items;
            let mut out: Vec<Json> = Vec::new();
            while items.len() > 0
                invariant
                    whole == JsonView::Array(elems),
                    whole == value_view(v),
                    elems.len() == orig.len(),
                    forall|j: int| 0 <= j < orig.len() ==> #[trigger] elems[j] == value_view(orig[j]),
                    out@.len() + items@.len() == orig.len(),
                    items@ == orig.subrange(out@.len() as int, orig.len() as int),
                    forall|j: int| 0 <= j < out@.len() ==> json_view(#[trigger] out@[j]) == elems[j],
                decreases items.len(),
            {
                let ghost k = out@.len() as int;
                let item = items.remove(0);
                assert(item == orig[k]);
                assert(elems[k] == value_view(item));
                proof {
                    vstd::seq::axiom_seq_index_decreases(elems, k);
                    assert(whole->Array_0 == elems);
                    assert(decreases_to!(whole => whole->Array_0));
                }
                let c = json_of_value(item);
                out.push(c);
            }
            let r = Json::Array(out);
            assert(match json_view(r) { JsonView::Array(a) => a =~= elems, _ => false });
            r
        },
        JsonNode::Object(members) => {
            let ghost orig = members@;
            let ghost elems = Seq::new(orig.len(), |i: int| (orig[i].0@, value_view(orig[i].1)));
            assert(whole == JsonView::Object(elems));
            let mut members = members;
            let mut out: Vec<(String, Json)> = Vec::new();
            while members.len() > 0
                invariant
                    whole == JsonView::Object(elems),
                    whole == value_view(v),
                    elems.len() == orig.len(),
                    forall|j: int| 0 <= j < orig.len() ==> #[trigger] elems[j] == (orig[j].0@, value_view(orig[j].1)),
                    out@.len() + members@.len() == orig.len(),
                    members@ == orig.subrange(out@.len() as int, orig.len() as int),
                    forall|j: int| 0 <= j < out@.len() ==> (#[trigger] out@[j]).0@ == elems[j].0 && json_view(out@[j].1) == elems[j].1,
                decreases members.len(),
            {
                let ghost k = out@.len() as int;
                let (key, item) = members.remove(0);
                assert(item == orig[k].1 && key == orig[k].0);
                assert(elems[k].1 == value_view(item));
                proof {
                    vstd::seq::axiom_seq_index_decreases(elems, k);
                    assert(whole->Object_0 == elems);
                    assert(decreases_to!(whole => whole->Object_0));
                    assert(decreases_to!(elems[k] => elems[k].1));
                }
                let c = json_of_value(item);
                out.push((key, c));
            }
            let r = Json::Object(out);
            assert(match json_view(r) { JsonView::Object(a) => a =~= elems, _ => false });
            r
        },
    }
}

/// Parses the prober's report: the document the bytes hold, or, exactly
/// when they are not a JSON document, the parser's message.
pub fn decode_report(bytes: &[u8]) -> (r: Result<Json, String>)
    ensures
        r is Ok <==> is_json(bytes@),
        r is Ok ==> json_view(r->Ok_0) == json_doc(bytes@),
{
    match parse_value(bytes) {
        Ok(v) => Ok(json_of_value(v)),
        Err(e) => Err(e),
    }
}

} // verus!
