//! Reading a request out of JSON parameters.
//!
//! The parameters of a call are a JSON value of any shape. The functions here read
//! the fields that a method requires and never fail on a value of the wrong shape:
//! a field that is absent or of the wrong type reads as `None`.

use crate::editor::{spans_view, SpanModel, StyleSpan};
use crate::json::{json_items, json_member, json_text, json_u64};
use crate::request::{
    build_request, build_spec, checked_view, optional_spans_view, recognize, Malformed, Method,
    Request, RequestModel,
};
use serde_json::Value;
use vstd::prelude::*;

verus! {

/// The parameter field that holds the line index.
pub const LINE_KEY: &'static str = "line";

/// The parameter field that holds the list of style spans.
pub const SPANS_KEY: &'static str = "spans";

/// The field of a style span that holds the start of its range.
pub const START_KEY: &'static str = "start";

/// The field of a style span that holds the end of its range.
pub const END_KEY: &'static str = "end";

/// The field of a style span that holds its attribute.
pub const ATTR_KEY: &'static str = "attr";

/// The unsigned integer under `key` of a JSON object, if `value` is an object that
/// holds one there.
pub open spec fn field_u64(value: Value, key: Seq<char>) -> Option<u64> {
    match json_member(value, key) {
        Some(member) => json_u64(member),
        None => None,
    }
}

/// The text under `key` of a JSON object, if `value` is an object that holds a
/// string there.
pub open spec fn field_text(value: Value, key: Seq<char>) -> Option<Seq<char>> {
    match json_member(value, key) {
        Some(member) => json_text(member),
        None => None,
    }
}

/// The style span made of the three fields read for it; none if one is absent.
pub open spec fn make_span_spec(
    start: Option<u64>,
    end: Option<u64>,
    attr: Option<Seq<char>>,
) -> Option<SpanModel> {
    match (start, end, attr) {
        (Some(start), Some(end), Some(attr)) => Some(SpanModel { start, end, attr }),
        _ => None,
    }
}

/// The style span that `value` describes: an object with an unsigned integer under
/// `start`, one under `end` and a string under `attr`.
pub open spec fn span_of(value: Value) -> Option<SpanModel> {
    make_span_spec(
        field_u64(value, START_KEY@),
        field_u64(value, END_KEY@),
        field_text(value, ATTR_KEY@),
    )
}

/// The spans read for the elements of a list, in order, if every element gave one;
/// none if one element did not.
pub open spec fn gather_spec(read: Seq<Option<SpanModel>>) -> Option<Seq<SpanModel>> {
    if forall|i: int| 0 <= i < read.len() ==> (#[trigger] read[i]) is Some {
        Some(Seq::new(read.len(), |i: int| read[i]->0))
    } else {
        None
    }
}

/// The list of style spans that `value` describes: an array whose every element
/// describes a span, read in order.
pub open spec fn spans_of(value: Value) -> Option<Seq<SpanModel>> {
    match json_items(value) {
        Some(items) => gather_spec(Seq::new(items.len(), |i: int| span_of(items[i]))),
        None => None,
    }
}

/// What an optional span stands for.
pub open spec fn optional_span_view(span: Option<StyleSpan>) -> Option<SpanModel> {
    match span {
        Some(s) => Some(s@),
        None => None,
    }
}

/// What an optional string stands for.
pub open spec fn optional_text_view(text: Option<String>) -> Option<Seq<char>> {
    match text {
        Some(s) => Some(s@),
        None => None,
    }
}

/// The list of style spans under `spans` in the parameters.
pub open spec fn field_spans(params: Value) -> Option<Seq<SpanModel>> {
    match json_member(params, SPANS_KEY@) {
        Some(member) => spans_of(member),
        None => None,
    }
}

/// The request that the method `name` makes with the parameters `params`.
pub open spec fn decode_spec(name: Seq<char>, params: Value) -> Result<RequestModel, Malformed> {
    build_spec(name, field_u64(params, LINE_KEY@), field_spans(params))
}

/// Reads the unsigned integer under `key`.
pub fn read_u64(value: &Value, key: &str) -> (number: Option<u64>)
    ensures
        number == field_u64(*value, key@),
{
    match value.find(key) {
        Some(member) => member.as_u64(),
        None => None,
    }
}

/// Reads the string under `key`.
pub fn read_text(value: &Value, key: &str) -> (text: Option<String>)
    ensures
        optional_text_view(text) == field_text(*value, key@),
{
    match value.find(key) {
        Some(member) => match member.as_str() {
            Some(s) => Some(s.to_owned()),
            None => None,
        },
        None => None,
    }
}

/// Makes a style span of the three fields read for it. A span needs all three.
pub fn make_span(start: Option<u64>, end: Option<u64>, attr: Option<String>) -> (span: Option<
    StyleSpan,
>)
    ensures
        optional_span_view(span) == make_span_spec(start, end, optional_text_view(attr)),
{
    match start {
        Some(start) => match end {
            Some(end) => match attr {
                Some(attr) => Some(StyleSpan { start, end, attr }),
                None => None,
            },
            None => None,
        },
        None => None,
    }
}

/// Reads one style span.
pub fn decode_span(value: &Value) -> (span: Option<StyleSpan>)
    ensures
        optional_span_view(span) == span_of(*value),
{
    make_span(read_u64(value, START_KEY), read_u64(value, END_KEY), read_text(value, ATTR_KEY))
}

/// What a list of optional spans stands for.
pub open spec fn optional_spans_seq(read: Seq<Option<StyleSpan>>) -> Seq<Option<SpanModel>> {
    Seq::new(read.len(), |i: int| optional_span_view(read[i]))
}

/// Gathers the spans read for the elements of a list. One element that gave no
/// span makes the whole list unreadable.
pub fn gather_spans(read: Vec<Option<StyleSpan>>) -> (spans: Option<Vec<StyleSpan>>)
    ensures
        optional_spans_view(spans) == gather_spec(optional_spans_seq(read@)),
{
    let ghost given = read@;
    let mut list: Vec<StyleSpan> = Vec::new();
    for item in it: read
        invariant
            it.seq() == given,
            list@.len() == it.index(),
            forall|k: int|
                0 <= k < list@.len() ==> (#[trigger] given[k]) is Some && given[k]->0@
                    == list@[k]@,
    {
        match item {
            Some(span) => {
                list.push(span);
            },
            None => {
                proof {
                    let at = list@.len() as int;
                    assert(optional_spans_seq(given)[at] is None);
                }
                return None;
            },
        }
    }
    proof {
        let read_models = optional_spans_seq(given);
        assert forall|i: int| 0 <= i < read_models.len() implies (#[trigger] read_models[i])
            is Some by {
            assert(given[i] is Some);
        }
        assert(gather_spec(read_models)->0 =~= spans_view(list@));
    }
    Some(list)
}

/// Reads a list of style spans. One element that is no span makes the whole list
/// unreadable.
pub fn decode_spans(value: &Value) -> (spans: Option<Vec<StyleSpan>>)
    ensures
        optional_spans_view(spans) == spans_of(*value),
{
    let items = match value.as_array() {
        Some(items) => items,
        None => {
            return None;
        },
    };
    let mut read: Vec<Option<StyleSpan>> = Vec::new();
    let n: usize = items.len();
    let mut i: usize = 0;
    while i < n
        invariant
            i <= n,
            n == items@.len(),
            read@.len() == i,
            forall|k: int| 0 <= k < i ==> optional_span_view(#[trigger] read@[k]) == span_of(
                items@[k],
            ),
        decreases n - i,
    {
        read.push(decode_span(&items[i]));
        i += 1;
    }
    proof {
        assert(optional_spans_seq(read@) =~= Seq::new(
            items@.len(),
            |k: int| span_of(items@[k]),
        ));
    }
    gather_spans(read)
}

/// Reads the list of style spans under `spans` in the parameters.
pub fn read_spans(params: &Value) -> (spans: Option<Vec<StyleSpan>>)
    ensures
        optional_spans_view(spans) == field_spans(*params),
{
    match params.find(SPANS_KEY) {
        Some(member) => decode_spans(member),
        None => None,
    }
}

/// Checks one call: turns the method name and its JSON parameters into a request,
/// or reports that a recognized method came with malformed parameters. Only the
/// fields that the method requires are read.
pub fn decode_request(name: &str, params: &Value) -> (checked: Result<Request, Malformed>)
    ensures
        checked_view(checked) == decode_spec(name@, *params),
{
    match recognize(name) {
        Some(Method::GetLine) => build_request(name, read_u64(params, LINE_KEY), None),
        Some(Method::SetLineStyles) => build_request(
            name,
            read_u64(params, LINE_KEY),
            read_spans(params),
        ),
        _ => build_request(name, None, None),
    }
}

} // verus!
