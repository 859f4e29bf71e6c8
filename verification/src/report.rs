//! What a command prints, and the JSON documents that it reports with.

use crate::json;
use crate::json::Json;
use serde_json::Value;
use vstd::prelude::*;
use vstd::string::*;

verus! {

/// Where a line goes.
#[derive(Clone, Copy, Debug, PartialEq, Eq, Structural)]
pub enum Stream {
    /// The standard output.
    Output,
    /// The standard error stream.
    Error,
    /// The log, as a warning.
    Warning,
}

/// A line to print or to log.
#[derive(Debug, PartialEq, Eq)]
pub struct Line {
    pub stream: Stream,
    pub text: String,
}

/// The view of a line.
pub struct LineView {
    pub stream: Stream,
    pub text: Seq<char>,
}

impl View for Line {
    type V = LineView;

    open spec fn view(&self) -> LineView {
        LineView { stream: self.stream, text: self.text@ }
    }
}

/// The views of some lines.
pub open spec fn lines(v: Seq<Line>) -> Seq<LineView> {
    v.map_values(|l: Line| l@)
}

/// A line on the standard output.
pub open spec fn out(text: Seq<char>) -> LineView {
    LineView { stream: Stream::Output, text }
}

/// A line on the standard error stream.
pub open spec fn err(text: Seq<char>) -> LineView {
    LineView { stream: Stream::Error, text }
}

/// A warning in the log.
pub open spec fn warning(text: Seq<char>) -> LineView {
    LineView { stream: Stream::Warning, text }
}

/// One line on the standard output.
pub(crate) fn one_line(text: String) -> (r: Vec<Line>)
    ensures
        lines(r@) == seq![out(text@)],
{
    let r = vec![Line { stream: Stream::Output, text }];
    assert(lines(r@) =~= seq![out(text@)]);
    r
}

/// One line on the standard error stream.
pub(crate) fn one_error_line(text: String) -> (r: Vec<Line>)
    ensures
        lines(r@) == seq![err(text@)],
{
    let r = vec![Line { stream: Stream::Error, text }];
    assert(lines(r@) =~= seq![err(text@)]);
    r
}

/// One warning in the log.
pub(crate) fn one_warning(text: &str) -> (r: Vec<Line>)
    ensures
        lines(r@) == seq![warning(text@)],
{
    let r = vec![Line { stream: Stream::Warning, text: text.to_owned() }];
    assert(lines(r@) =~= seq![warning(text@)]);
    r
}

/// No line at all.
pub(crate) fn no_lines() -> (r: Vec<Line>)
    ensures
        lines(r@) == Seq::<LineView>::empty(),
{
    let r: Vec<Line> = Vec::new();
    assert(lines(r@) =~= Seq::<LineView>::empty());
    r
}

/// Adds a line on the standard output.
pub(crate) fn print_line(to: &mut Vec<Line>, text: String)
    ensures
        lines(final(to)@) == lines(old(to)@).push(out(text@)),
{
    to.push(Line { stream: Stream::Output, text });
    assert(lines(to@) =~= lines(old(to)@).push(out(text@)));
}

/// Two texts, one after the other.
pub(crate) fn joined(a: &str, b: &str) -> (r: String)
    ensures
        r@ == a@ + b@,
{
    let mut r = a.to_owned();
    r.append(b);
    r
}

/// Three texts, one after the other.
pub(crate) fn joined3(a: &str, b: &str, c: &str) -> (r: String)
    ensures
        r@ == a@ + b@ + c@,
{
    let mut r = a.to_owned();
    r.append(b);
    r.append(c);
    r
}

/// The fields of a JSON object that is being put together.
pub(crate) struct Fields {
    map: serde_json::Map<String, Value>,
}

impl View for Fields {
    type V = Map<Seq<char>, Json>;

    closed spec fn view(&self) -> Map<Seq<char>, Json> {
        json::fields_of(self.map)
    }
}

impl Fields {
    /// No fields.
    pub(crate) fn new() -> (r: Fields)
        ensures
            r@ == Map::<Seq<char>, Json>::empty(),
    {
        Fields { map: json::new_map() }
    }

    /// These fields and one more; one of the same name is replaced.
    pub(crate) fn with(self, key: &str, value: Value) -> (r: Fields)
        ensures
            r@ == self@.insert(key@, json::json_of(value)),
    {
        let mut map = self.map;
        let _before = json::insert_field(&mut map, key, value);
        Fields { map }
    }

    /// The object.
    pub(crate) fn build(self) -> (r: Value)
        ensures
            json::json_of(r) == Json::Object(self@),
    {
        json::object_value(self.map)
    }
}

/// An object without fields.
pub open spec fn no_fields() -> Map<Seq<char>, Json> {
    Map::empty()
}

/// What reports a success: the data, and that it is one.
pub open spec fn success_document(data: Json) -> Json {
    Json::Object(no_fields().insert("data"@, data).insert("success"@, Json::Bool(true)))
}

/// What reports a failure: the error, and that it is none.
pub open spec fn failure_document(error: Seq<char>) -> Json {
    Json::Object(
        no_fields().insert("error"@, Json::Str(error)).insert("success"@, Json::Bool(false)),
    )
}

/// Reports a success.
pub(crate) fn success_value(data: Value) -> (r: Value)
    ensures
        json::json_of(r) == success_document(json::json_of(data)),
{
    Fields::new().with("data", data).with("success", json::bool_value(true)).build()
}

/// Reports a failure.
pub(crate) fn failure_value(error: &str) -> (r: Value)
    ensures
        json::json_of(r) == failure_document(error@),
{
    Fields::new().with("error", json::string_value(error)).with(
        "success",
        json::bool_value(false),
    ).build()
}

} // verus!
