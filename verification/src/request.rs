//! Request bodies for `create`/`update`: the fillable `--generate-skeleton`
//! template, and turning `--request` (inline JSON) or `--request-file` (JSON
//! or YAML) into the JSON text that is sent, with `null`-valued object keys
//! dropped (a `null` in a filled-in template means "leave this unset").

use vstd::prelude::*;
use crate::json::{
    entries_view, field, items_view, json_parse, json_text, json_to_serde,
    lemma_array_view, lemma_lookup_push, lemma_object_view, lookup, parse_json, to_json_text,
    Json, JsonView,
};
use crate::text::{concat2, concat3, owned};

verus! {

/// Output format for `--generate-skeleton`.
#[derive(Clone, Copy, Debug, PartialEq, Eq, Structural)]
pub enum SkeletonFormat {
    Json,
    Yaml,
}

/// A request-body file: the path as given (for messages) and its contents.
#[derive(Debug)]
pub struct RequestFile {
    pub path: String,
    pub contents: String,
}

/// Why a request body could not be produced. The `String`s after the
/// context are the outside parser's or writer's messages.
#[derive(Debug)]
pub enum RequestError {
    /// Neither or both of `--request` and `--request-file` were given.
    NotExactlyOne,
    /// The file is neither JSON nor YAML.
    NotJsonOrYaml { path: String, cause: String },
    /// The YAML document has no JSON equivalent (e.g. a non-string key).
    NotRepresentableAsJson(String),
    /// The body is not valid JSON.
    InvalidJson(String),
    /// The embedded skeleton template is not valid JSON.
    SkeletonInvalid(String),
    /// The skeleton could not be written as YAML.
    SkeletonNotYaml(String),
}

/// The mathematical value of a [`RequestError`].
pub enum RequestErrorView {
    NotExactlyOne,
    NotJsonOrYaml(Seq<char>, Seq<char>),
    NotRepresentableAsJson(Seq<char>),
    InvalidJson(Seq<char>),
    SkeletonInvalid(Seq<char>),
    SkeletonNotYaml(Seq<char>),
}

impl View for RequestError {
    type V = RequestErrorView;

    open spec fn view(&self) -> RequestErrorView {
        match self {
            RequestError::NotExactlyOne => RequestErrorView::NotExactlyOne,
            RequestError::NotJsonOrYaml { path, cause } => RequestErrorView::NotJsonOrYaml(
                path@,
                cause@,
            ),
            RequestError::NotRepresentableAsJson(c) => RequestErrorView::NotRepresentableAsJson(c@),
            RequestError::InvalidJson(c) => RequestErrorView::InvalidJson(c@),
            RequestError::SkeletonInvalid(c) => RequestErrorView::SkeletonInvalid(c@),
            RequestError::SkeletonNotYaml(c) => RequestErrorView::SkeletonNotYaml(c@),
        }
    }
}

/// The text of a request error: the context, then `: ` and the cause.
pub open spec fn request_error_text(e: RequestErrorView) -> Seq<char> {
    match e {
        RequestErrorView::NotExactlyOne => "provide exactly one of --request or --request-file"@,
        RequestErrorView::NotJsonOrYaml(p, c) => "parsing "@ + p + " as JSON or YAML: "@ + c,
        RequestErrorView::NotRepresentableAsJson(c) => "re-serializing request body to JSON: "@ + c,
        RequestErrorView::InvalidJson(c) => "request body is not valid JSON: "@ + c,
        RequestErrorView::SkeletonInvalid(c) => "internal error: embedded skeleton is not valid JSON: "@
            + c,
        RequestErrorView::SkeletonNotYaml(c) => "serializing skeleton to YAML: "@ + c,
    }
}

impl RequestError {
    /// The error's text.
    pub fn message(&self) -> (r: String)
        ensures
            r@ == request_error_text(self@),
    {
        match self {
            RequestError::NotExactlyOne => owned("provide exactly one of --request or --request-file"),
            RequestError::NotJsonOrYaml { path, cause } => {
                let a = concat3("parsing ", path.as_str(), " as JSON or YAML: ");
                concat2(a.as_str(), cause.as_str())
            },
            RequestError::NotRepresentableAsJson(c) => concat2(
                "re-serializing request body to JSON: ",
                c.as_str(),
            ),
            RequestError::InvalidJson(c) => concat2("request body is not valid JSON: ", c.as_str()),
            RequestError::SkeletonInvalid(c) => concat2(
                "internal error: embedded skeleton is not valid JSON: ",
                c.as_str(),
            ),
            RequestError::SkeletonNotYaml(c) => concat2("serializing skeleton to YAML: ", c.as_str()),
        }
    }
}

// ---------------------------------------------------------------------------
// Dropping null-valued keys
// ---------------------------------------------------------------------------

/// `v` with every object entry whose value is `null` removed, at any depth.
/// Array items are kept as they are (a `null` item is list content), though
/// objects inside arrays are stripped too.
pub open spec fn strip_nulls(v: JsonView) -> JsonView
    decreases v, 1nat,
{
    match v {
        JsonView::Array(items) => JsonView::Array(strip_items(items)),
        JsonView::Object(entries) => JsonView::Object(strip_entries(entries)),
        _ => v,
    }
}

/// [`strip_nulls`] applied to every item.
pub open spec fn strip_items(items: Seq<JsonView>) -> Seq<JsonView>
    decreases items, 0nat,
{
    if items.len() == 0 {
        Seq::empty()
    } else {
        strip_items(items.subrange(0, items.len() - 1)).push(
            strip_nulls(items[items.len() - 1]),
        )
    }
}

/// The entries whose value is not `null`, each value stripped in turn.
pub open spec fn strip_entries(entries: Seq<(Seq<char>, JsonView)>) -> Seq<(Seq<char>, JsonView)>
    decreases entries, 0nat,
{
    if entries.len() == 0 {
        Seq::empty()
    } else {
        let rest = strip_entries(entries.subrange(0, entries.len() - 1));
        let last = entries[entries.len() - 1];
        if last.1 == JsonView::Null {
            rest
        } else {
            rest.push((last.0, strip_nulls(last.1)))
        }
    }
}

proof fn lemma_strip_items(items: Seq<JsonView>)
    ensures
        strip_items(items).len() == items.len(),
        forall|i: int|
            0 <= i < items.len() ==> #[trigger] strip_items(items)[i] == strip_nulls(items[i]),
    decreases items.len(),
{
    if items.len() > 0 {
        let init = items.subrange(0, items.len() - 1);
        lemma_strip_items(init);
        assert forall|i: int| 0 <= i < items.len() implies #[trigger] strip_items(items)[i]
            == strip_nulls(items[i]) by {
            if i < items.len() - 1 {
                assert(init[i] == items[i]);
            }
        }
    }
}

/// A copy of `j` with every `null`-valued object entry removed.
pub fn stripped(j: &Json) -> (r: Json)
    ensures
        r@ == strip_nulls(j@),
    decreases j,
{
    match j {
        Json::Array(items) => {
            let ghost iv = Seq::new(items@.len(), |k: int| items@[k]@);
            proof {
                lemma_array_view(items);
                lemma_strip_items(iv);
            }
            let mut out: Vec<Json> = Vec::new();
            let mut i: usize = 0;
            while i < items.len()
                invariant
                    *j == Json::Array(*items),
                    i <= items@.len(),
                    out@.len() == i,
                    iv == Seq::new(items@.len(), |k: int| items@[k]@),
                    forall|k: int| 0 <= k < i ==> (#[trigger] out@[k])@ == strip_nulls(iv[k]),
                decreases items@.len() - i,
            {
                proof {
                    assert(decreases_to!(*j => j->Array_0));
                    assert(decreases_to!(j->Array_0 => items@));
                    assert(decreases_to!(items@ => items@[i as int]));
                }
                let s = stripped(&items[i]);
                out.push(s);
                i = i + 1;
            }
            proof {
                lemma_array_view(&out);
                assert(Seq::new(out@.len(), |k: int| out@[k]@) =~= strip_items(iv));
            }
            Json::Array(out)
        },
        Json::Object(entries) => {
            let ghost ev = Seq::new(entries@.len(), |k: int| (entries@[k].0@, entries@[k].1@));
            proof {
                lemma_object_view(entries);
                assert(ev.subrange(0, 0) =~= Seq::<(Seq<char>, JsonView)>::empty());
            }
            let mut out: Vec<(String, Json)> = Vec::new();
            let mut i: usize = 0;
            while i < entries.len()
                invariant
                    *j == Json::Object(*entries),
                    i <= entries@.len(),
                    ev == Seq::new(entries@.len(), |k: int| (entries@[k].0@, entries@[k].1@)),
                    Seq::new(out@.len(), |k: int| (out@[k].0@, out@[k].1@)) == strip_entries(
                        ev.subrange(0, i as int),
                    ),
                decreases entries@.len() - i,
            {
                let ghost before = Seq::new(out@.len(), |k: int| (out@[k].0@, out@[k].1@));
                assert(ev.subrange(0, i + 1).subrange(0, i as int) =~= ev.subrange(0, i as int));
                assert(ev.subrange(0, i + 1)[i as int] == ev[i as int]);
                if !entries[i].1.is_null() {
                    proof {
                        assert(decreases_to!(*j => j->Object_0));
                        assert(decreases_to!(j->Object_0 => entries@));
                        assert(decreases_to!(entries@ => entries@[i as int]));
                        assert(decreases_to!(entries@[i as int] => entries@[i as int].1));
                    }
                    let s = stripped(&entries[i].1);
                    out.push((entries[i].0.clone(), s));
                    assert(Seq::new(out@.len(), |k: int| (out@[k].0@, out@[k].1@)) =~= before.push(
                        (ev[i as int].0, strip_nulls(ev[i as int].1)),
                    ));
                }
                i = i + 1;
            }
            proof {
                lemma_object_view(&out);
                assert(ev.subrange(0, entries@.len() as int) =~= ev);
            }
            Json::Object(out)
        },
        Json::Null => Json::Null,
        Json::Bool(b) => Json::Bool(*b),
        Json::Number(s) => Json::Number(s.clone()),
        Json::Str(s) => Json::Str(s.clone()),
    }
}

/// Whether no object entry anywhere in `v` has the value `null`.
pub open spec fn no_null_keys(v: JsonView) -> bool
    decreases v, 1nat,
{
    match v {
        JsonView::Array(items) => items_without_null_keys(items),
        JsonView::Object(entries) => entries_without_null_keys(entries),
        _ => true,
    }
}

/// [`no_null_keys`] of every item.
pub open spec fn items_without_null_keys(items: Seq<JsonView>) -> bool
    decreases items, 0nat,
{
    if items.len() == 0 {
        true
    } else {
        items_without_null_keys(items.subrange(0, items.len() - 1)) && no_null_keys(
            items[items.len() - 1],
        )
    }
}

/// No entry is `null`, and [`no_null_keys`] of every value.
pub open spec fn entries_without_null_keys(entries: Seq<(Seq<char>, JsonView)>) -> bool
    decreases entries, 0nat,
{
    if entries.len() == 0 {
        true
    } else {
        let last = entries[entries.len() - 1];
        entries_without_null_keys(entries.subrange(0, entries.len() - 1)) && last.1
            != JsonView::Null && no_null_keys(last.1)
    }
}

/// Stripping drops only `null`-valued entries: every field of an object
/// whose value is not `null` (`false`, `0`, `""`, ...) is still there after
/// stripping, with its value stripped in turn, and no field appears that was
/// not there.
pub proof fn law_stripping_keeps_every_non_null_field(
    entries: Seq<(Seq<char>, JsonView)>,
    key: Seq<char>,
)
    ensures
        lookup(entries, key) matches Some(v) ==> (v != JsonView::Null ==> field(
            strip_nulls(JsonView::Object(entries)),
            key,
        ) == Some(strip_nulls(v))),
        lookup(entries, key) is None ==> field(strip_nulls(JsonView::Object(entries)), key) is None,
    decreases entries.len(),
{
    if entries.len() > 0 {
        let init = entries.subrange(0, entries.len() - 1);
        let last = entries[entries.len() - 1];
        assert(entries =~= init.push(last));
        law_stripping_keeps_every_non_null_field(init, key);
        lemma_lookup_push(init, key, last.0, last.1);
        let si = strip_entries(init);
        assert(strip_nulls(JsonView::Object(init)) == JsonView::Object(si));
        if last.1 != JsonView::Null {
            assert(strip_entries(entries) == si.push((last.0, strip_nulls(last.1))));
            lemma_lookup_push(si, key, last.0, strip_nulls(last.1));
        } else {
            assert(strip_entries(entries) == si);
        }
    }
}

/// After stripping, no object entry at any depth is `null`: a body built
/// from a skeleton never sends an explicit `null` field.
pub proof fn law_stripped_has_no_null_keys(v: JsonView)
    ensures
        no_null_keys(strip_nulls(v)),
    decreases v, 1nat,
{
    match v {
        JsonView::Array(items) => {
            lemma_strip_items_clean(items);
        },
        JsonView::Object(entries) => {
            lemma_strip_entries_clean(entries);
        },
        _ => {},
    }
}

proof fn lemma_strip_items_clean(items: Seq<JsonView>)
    ensures
        items_without_null_keys(strip_items(items)),
    decreases items, 0nat,
{
    if items.len() > 0 {
        let init = items.subrange(0, items.len() - 1);
        lemma_strip_items_clean(init);
        law_stripped_has_no_null_keys(items[items.len() - 1]);
        let s = strip_items(items);
        assert(s.subrange(0, s.len() - 1) =~= strip_items(init));
    }
}

proof fn lemma_strip_entries_clean(entries: Seq<(Seq<char>, JsonView)>)
    ensures
        entries_without_null_keys(strip_entries(entries)),
    decreases entries, 0nat,
{
    if entries.len() > 0 {
        let init = entries.subrange(0, entries.len() - 1);
        lemma_strip_entries_clean(init);
        let last = entries[entries.len() - 1];
        if last.1 != JsonView::Null {
            law_stripped_has_no_null_keys(last.1);
            let s = strip_entries(entries);
            assert(s.subrange(0, s.len() - 1) =~= strip_entries(init));
            assert(strip_nulls(last.1) != JsonView::Null);
        }
    }
}

// ---------------------------------------------------------------------------
// YAML boundary
// ---------------------------------------------------------------------------

/// What becomes of a YAML document read as a request body.
pub enum YamlConversion {
    /// `serde_yaml` does not accept the text (its message).
    NotYaml(Seq<char>),
    /// The document has no JSON form (`serde_json`'s message).
    NotJson(Seq<char>),
    /// The document, written by `serde_json::to_string`.
    Json(Seq<char>),
}

/// What reading a YAML document as JSON text gave.
pub enum YamlRead {
    NotYaml(String),
    NotJson(String),
    Json(String),
}

/// What parsing `text` with `serde_yaml::from_str::<serde_yaml::Value>` and
/// writing the result with `serde_json::to_string` gives.
pub uninterp spec fn yaml_as_json(text: Seq<char>) -> YamlConversion;

/// What `serde_yaml::to_string` writes for a JSON value, or its error's
/// message.
pub uninterp spec fn yaml_text(v: JsonView) -> Result<Seq<char>, Seq<char>>;

/// `serde_yaml::from_str::<serde_yaml::Value>` then `serde_json::to_string`
/// of the YAML value (YAML being a superset of JSON, this accepts either).
/// The contract names the outcome only; the errors carry the crates'
/// messages.
#[verifier::external_body]
fn yaml_to_json_text(text: &str) -> (r: YamlRead)
    ensures
        match r {
            YamlRead::Json(t) => yaml_as_json(text@) == YamlConversion::Json(t@),
            YamlRead::NotYaml(e) => yaml_as_json(text@) == YamlConversion::NotYaml(e@),
            YamlRead::NotJson(e) => yaml_as_json(text@) == YamlConversion::NotJson(e@),
        },
{
    match serde_yaml::from_str::<serde_yaml::Value>(text) {
        Err(e) => YamlRead::NotYaml(e.to_string()),
        Ok(v) => match serde_json::to_string(&v) {
            Ok(t) => YamlRead::Json(t),
            Err(e) => YamlRead::NotJson(e.to_string()),
        },
    }
}

/// `serde_yaml::to_string` of a JSON value (the error is its message).
#[verifier::external_body]
fn json_to_yaml(j: &Json) -> (r: Result<String, String>)
    ensures
        match r {
            Ok(t) => yaml_text(j@) == Ok::<Seq<char>, Seq<char>>(t@),
            Err(e) => yaml_text(j@) == Err::<Seq<char>, Seq<char>>(e@),
        },
{
    serde_yaml::to_string(&json_to_serde(j)).map_err(|e| e.to_string())
}

// ---------------------------------------------------------------------------
// Loading a body
// ---------------------------------------------------------------------------

/// The body sent for JSON text `t`: parsed, stripped of `null` keys, and
/// written compactly.
pub open spec fn body_from_json(t: Seq<char>) -> Result<Seq<char>, RequestErrorView> {
    match json_parse(t) {
        Ok(v) => Ok(json_text(strip_nulls(v))),
        Err(c) => Err(RequestErrorView::InvalidJson(c)),
    }
}

/// What [`load_body`] returns.
pub open spec fn load_body_spec(inline: Option<&str>, file: Option<&RequestFile>) -> Result<
    Seq<char>,
    RequestErrorView,
> {
    match (inline, file) {
        (Some(json), None) => body_from_json(json@),
        (None, Some(f)) => match yaml_as_json(f.contents@) {
            YamlConversion::NotYaml(c) => Err(RequestErrorView::NotJsonOrYaml(f.path@, c)),
            YamlConversion::NotJson(c) => Err(RequestErrorView::NotRepresentableAsJson(c)),
            YamlConversion::Json(t) => body_from_json(t),
        },
        _ => Err(RequestErrorView::NotExactlyOne),
    }
}

fn body_from_json_text(t: &str) -> (r: Result<String, RequestError>)
    ensures
        match (r, body_from_json(t@)) {
            (Ok(b), Ok(s)) => b@ == s,
            (Err(e), Err(f)) => e@ == f,
            _ => false,
        },
{
    match parse_json(t) {
        Ok(v) => {
            let s = stripped(&v);
            Ok(to_json_text(&s))
        },
        Err(c) => Err(RequestError::InvalidJson(c)),
    }
}

/// Resolves the request body to the JSON text to send, from either inline
/// JSON (`--request`) or a JSON/YAML file (`--request-file`, already read:
/// when both are given the file's contents are not looked at). Exactly one
/// is expected. Object keys whose value is `null` are dropped at any depth.
pub fn load_body(inline: Option<&str>, file: Option<&RequestFile>) -> (r: Result<
    String,
    RequestError,
>)
    ensures
        match (r, load_body_spec(inline, file)) {
            (Ok(b), Ok(s)) => b@ == s,
            (Err(e), Err(f)) => e@ == f,
            _ => false,
        },
{
    match (inline, file) {
        (Some(json), None) => body_from_json_text(json),
        (None, Some(f)) => match yaml_to_json_text(f.contents.as_str()) {
            YamlRead::Json(t) => body_from_json_text(t.as_str()),
            YamlRead::NotYaml(c) => Err(RequestError::NotJsonOrYaml { path: f.path.clone(), cause: c }),
            YamlRead::NotJson(c) => Err(RequestError::NotRepresentableAsJson(c)),
        },
        _ => Err(RequestError::NotExactlyOne),
    }
}

/// What `--generate-skeleton` prints for `template` (pretty JSON embedded
/// by the generator): the template itself and a newline, or the template
/// rewritten as YAML.
pub open spec fn skeleton_output(template: Seq<char>, format: SkeletonFormat) -> Result<
    Seq<char>,
    RequestErrorView,
> {
    match format {
        SkeletonFormat::Json => Ok(template + seq!['\n']),
        SkeletonFormat::Yaml => match json_parse(template) {
            Err(c) => Err(RequestErrorView::SkeletonInvalid(c)),
            Ok(v) => match yaml_text(v) {
                Ok(y) => Ok(y),
                Err(c) => Err(RequestErrorView::SkeletonNotYaml(c)),
            },
        },
    }
}

/// The text `--generate-skeleton` writes to stdout.
pub fn render_skeleton(template: &str, format: SkeletonFormat) -> (r: Result<String, RequestError>)
    ensures
        match (r, skeleton_output(template@, format)) {
            (Ok(b), Ok(s)) => b@ == s,
            (Err(e), Err(f)) => e@ == f,
            _ => false,
        },
{
    match format {
        SkeletonFormat::Json => {
            let r = concat2(template, "\n");
            proof {
                reveal_strlit("\n");
            }
            Ok(r)
        },
        SkeletonFormat::Yaml => match parse_json(template) {
            Err(c) => Err(RequestError::SkeletonInvalid(c)),
            Ok(v) => match json_to_yaml(&v) {
                Ok(y) => Ok(y),
                Err(c) => Err(RequestError::SkeletonNotYaml(c)),
            },
        },
    }
}

} // verus!
