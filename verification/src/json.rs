//! A JSON value the library can reason about, its mathematical view, and the
//! boundary to `serde_json` (parsing and serialising text).
//!
//! Objects keep their entries in order (as `serde_json` does with its
//! `preserve_order` feature); numbers keep the text `serde_json` prints for
//! them.

use vstd::prelude::*;
use crate::text::{owned, str_eq};

verus! {

/// A JSON value.
#[derive(Debug, PartialEq)]
pub enum Json {
    Null,
    Bool(bool),
    /// A number, held as the text `serde_json` prints for it.
    Number(String),
    Str(String),
    Array(Vec<Json>),
    /// Entries in order; keys are unique in values that came from parsing.
    Object(Vec<(String, Json)>),
}

/// The mathematical value of a [`Json`].
pub enum JsonView {
    Null,
    Bool(bool),
    Number(Seq<char>),
    Str(Seq<char>),
    Array(Seq<JsonView>),
    Object(Seq<(Seq<char>, JsonView)>),
}

/// The views of the first `n` items of `v`.
pub open spec fn items_view(v: &Vec<Json>, n: nat) -> Seq<JsonView>
    decreases v, n,
{
    if n == 0 || n > v@.len() {
        Seq::empty()
    } else {
        items_view(v, (n - 1) as nat).push(json_view(&v@[n - 1]))
    }
}

/// The views of the first `n` entries of `v`.
pub open spec fn entries_view(v: &Vec<(String, Json)>, n: nat) -> Seq<(Seq<char>, JsonView)>
    decreases v, n,
{
    if n == 0 || n > v@.len() {
        Seq::empty()
    } else {
        entries_view(v, (n - 1) as nat).push((v@[n - 1].0@, json_view(&v@[n - 1].1)))
    }
}

/// The view of a JSON value.
pub open spec fn json_view(j: &Json) -> JsonView
    decreases j, 0nat,
{
    match j {
        Json::Null => JsonView::Null,
        Json::Bool(b) => JsonView::Bool(*b),
        Json::Number(s) => JsonView::Number(s@),
        Json::Str(s) => JsonView::Str(s@),
        Json::Array(items) => JsonView::Array(items_view(items, items@.len())),
        Json::Object(entries) => JsonView::Object(entries_view(entries, entries@.len())),
    }
}

impl View for Json {
    type V = JsonView;

    open spec fn view(&self) -> JsonView {
        json_view(self)
    }
}

/// `items_view` lists the views of the items, in order.
pub proof fn lemma_items_view(v: &Vec<Json>, n: nat)
    requires
        n <= v@.len(),
    ensures
        items_view(v, n).len() == n,
        forall|i: int| 0 <= i < n ==> #[trigger] items_view(v, n)[i] == v@[i]@,
    decreases n,
{
    if n > 0 {
        lemma_items_view(v, (n - 1) as nat);
    }
}

/// `entries_view` lists the views of the entries, in order.
pub proof fn lemma_entries_view(v: &Vec<(String, Json)>, n: nat)
    requires
        n <= v@.len(),
    ensures
        entries_view(v, n).len() == n,
        forall|i: int|
            0 <= i < n ==> #[trigger] entries_view(v, n)[i] == (v@[i].0@, v@[i].1@),
    decreases n,
{
    if n > 0 {
        lemma_entries_view(v, (n - 1) as nat);
    }
}

/// The view of an array value.
pub proof fn lemma_array_view(v: &Vec<Json>)
    ensures
        Json::Array(*v)@ == JsonView::Array(Seq::new(v@.len(), |i: int| v@[i]@)),
{
    lemma_items_view(v, v@.len());
    assert(items_view(v, v@.len()) =~= Seq::new(v@.len(), |i: int| v@[i]@));
}

/// The view of an object value.
pub proof fn lemma_object_view(v: &Vec<(String, Json)>)
    ensures
        Json::Object(*v)@ == JsonView::Object(
            Seq::new(v@.len(), |i: int| (v@[i].0@, v@[i].1@)),
        ),
{
    lemma_entries_view(v, v@.len());
    assert(entries_view(v, v@.len()) =~= Seq::new(v@.len(), |i: int| (v@[i].0@, v@[i].1@)));
}

// ---------------------------------------------------------------------------
// Reading values
// ---------------------------------------------------------------------------

/// The value of the first entry named `key`.
pub open spec fn lookup(entries: Seq<(Seq<char>, JsonView)>, key: Seq<char>) -> Option<JsonView>
    decreases entries.len(),
{
    if entries.len() == 0 {
        None
    } else if entries[0].0 == key {
        Some(entries[0].1)
    } else {
        lookup(entries.drop_first(), key)
    }
}

/// `Value::get(key)`: the field `key` of an object, `None` for any other
/// value or a missing field.
pub open spec fn field(v: JsonView, key: Seq<char>) -> Option<JsonView> {
    match v {
        JsonView::Object(entries) => lookup(entries, key),
        _ => None,
    }
}

/// `value[key]`: the field, or `null` when there is none.
pub open spec fn index_key(v: JsonView, key: Seq<char>) -> JsonView {
    match field(v, key) {
        Some(x) => x,
        None => JsonView::Null,
    }
}

/// `value[i]`: the `i`-th item of an array, or `null`.
pub open spec fn index_item(v: JsonView, i: int) -> JsonView {
    match v {
        JsonView::Array(items) => if 0 <= i < items.len() {
            items[i]
        } else {
            JsonView::Null
        },
        _ => JsonView::Null,
    }
}

/// `Value::as_str`.
pub open spec fn as_str(v: JsonView) -> Option<Seq<char>> {
    match v {
        JsonView::Str(s) => Some(s),
        _ => None,
    }
}

/// `value.get(key).and_then(|v| v.as_str())`.
pub open spec fn str_field(v: JsonView, key: Seq<char>) -> Option<Seq<char>> {
    match field(v, key) {
        Some(x) => as_str(x),
        None => None,
    }
}

/// The view of an optional reference to a value.
pub open spec fn opt_view(o: Option<&Json>) -> Option<JsonView> {
    match o {
        Some(j) => Some(j@),
        None => None,
    }
}

/// Whether `entries` has an entry named `key`.
pub open spec fn has_key(entries: Seq<(Seq<char>, JsonView)>, key: Seq<char>) -> bool {
    lookup(entries, key) is Some
}

proof fn lemma_lookup_index(entries: Seq<(Seq<char>, JsonView)>, key: Seq<char>, i: int)
    requires
        0 <= i < entries.len(),
        entries[i].0 == key,
        forall|k: int| 0 <= k < i ==> entries[k].0 != key,
    ensures
        lookup(entries, key) == Some(entries[i].1),
    decreases i,
{
    if i > 0 {
        lemma_lookup_index(entries.drop_first(), key, i - 1);
    }
}

proof fn lemma_lookup_none(entries: Seq<(Seq<char>, JsonView)>, key: Seq<char>)
    requires
        forall|k: int| 0 <= k < entries.len() ==> entries[k].0 != key,
    ensures
        lookup(entries, key) is None,
    decreases entries.len(),
{
    if entries.len() > 0 {
        lemma_lookup_none(entries.drop_first(), key);
    }
}

/// Looking a key up in `entries + [(k, v)]`.
pub proof fn lemma_lookup_push(
    entries: Seq<(Seq<char>, JsonView)>,
    key: Seq<char>,
    k: Seq<char>,
    v: JsonView,
)
    ensures
        lookup(entries.push((k, v)), key) == (if has_key(entries, key) {
            lookup(entries, key)
        } else if k == key {
            Some(v)
        } else {
            None
        }),
    decreases entries.len(),
{
    let p = entries.push((k, v));
    if entries.len() > 0 {
        assert(p[0] == entries[0]);
        assert(p.drop_first() =~= entries.drop_first().push((k, v)));
        lemma_lookup_push(entries.drop_first(), key, k, v);
        if entries[0].0 == key {
            assert(lookup(p, key) == Some(entries[0].1));
            assert(lookup(entries, key) == Some(entries[0].1));
        } else {
            assert(lookup(p, key) == lookup(p.drop_first(), key));
            assert(lookup(entries, key) == lookup(entries.drop_first(), key));
        }
    } else {
        assert(p[0] == (k, v));
        assert(p.drop_first() =~= Seq::<(Seq<char>, JsonView)>::empty());
    }
}

impl Json {
    /// A copy of this value.
    pub fn duplicate(&self) -> (r: Json)
        ensures
            r@ == self@,
        decreases self,
    {
        match self {
            Json::Null => Json::Null,
            Json::Bool(b) => Json::Bool(*b),
            Json::Number(s) => Json::Number(s.clone()),
            Json::Str(s) => Json::Str(s.clone()),
            Json::Array(items) => {
                let mut out: Vec<Json> = Vec::new();
                let mut i: usize = 0;
                while i < items.len()
                    invariant
                        *self == Json::Array(*items),
                        i <= items@.len(),
                        out@.len() == i,
                        forall|k: int| 0 <= k < i ==> (#[trigger] out@[k])@ == items@[k]@,
                    decreases items@.len() - i,
                {
                    proof {
                        assert(decreases_to!(*self => self->Array_0));
                        assert(decreases_to!(self->Array_0 => items@));
                        assert(decreases_to!(items@ => items@[i as int]));
                    }
                    let d = items[i].duplicate();
                    out.push(d);
                    i = i + 1;
                }
                proof {
                    lemma_array_view(items);
                    lemma_array_view(&out);
                    assert(Seq::new(out@.len(), |k: int| out@[k]@) =~= Seq::new(
                        items@.len(),
                        |k: int| items@[k]@,
                    ));
                }
                Json::Array(out)
            },
            Json::Object(entries) => {
                let mut out: Vec<(String, Json)> = Vec::new();
                let mut i: usize = 0;
                while i < entries.len()
                    invariant
                        *self == Json::Object(*entries),
                        i <= entries@.len(),
                        out@.len() == i,
                        forall|k: int|
                            0 <= k < i ==> (#[trigger] out@[k]).0@ == entries@[k].0@ && out@[k].1@
                                == entries@[k].1@,
                    decreases entries@.len() - i,
                {
                    proof {
                        assert(decreases_to!(*self => self->Object_0));
                        assert(decreases_to!(self->Object_0 => entries@));
                        assert(decreases_to!(entries@ => entries@[i as int]));
                        assert(decreases_to!(entries@[i as int] => entries@[i as int].1));
                    }
                    let d = entries[i].1.duplicate();
                    out.push((entries[i].0.clone(), d));
                    i = i + 1;
                }
                proof {
                    lemma_object_view(entries);
                    lemma_object_view(&out);
                    assert(Seq::new(out@.len(), |k: int| (out@[k].0@, out@[k].1@)) =~= Seq::new(
                        entries@.len(),
                        |k: int| (entries@[k].0@, entries@[k].1@),
                    ));
                }
                Json::Object(out)
            },
        }
    }

    /// Whether this is `null`.
    pub fn is_null(&self) -> (r: bool)
        ensures
            r == (self@ == JsonView::Null),
    {
        match self {
            Json::Null => true,
            _ => false,
        }
    }

    /// The string this value holds, if it is a string.
    pub fn as_str(&self) -> (r: Option<&String>)
        ensures
            match r {
                Some(s) => as_str(self@) == Some(s@),
                None => as_str(self@) is None,
            },
    {
        match self {
            Json::Str(s) => Some(s),
            _ => None,
        }
    }

    /// `Value::get(key)`.
    pub fn get(&self, key: &str) -> (r: Option<&Json>)
        ensures
            opt_view(r) == field(self@, key@),
    {
        match self {
            Json::Object(entries) => {
                proof {
                    lemma_object_view(entries);
                }
                let ghost ev = Seq::new(entries@.len(), |i: int| (entries@[i].0@, entries@[i].1@));
                let mut i: usize = 0;
                while i < entries.len()
                    invariant
                        *self == Json::Object(*entries),
                        self@ == JsonView::Object(ev),
                        i <= entries@.len(),
                        ev == Seq::new(entries@.len(), |i: int| (entries@[i].0@, entries@[i].1@)),
                        forall|k: int| 0 <= k < i ==> ev[k].0 != key@,
                    decreases entries@.len() - i,
                {
                    assert(ev[i as int] == (entries@[i as int].0@, entries@[i as int].1@));
                    if str_eq(entries[i].0.as_str(), key) {
                        proof {
                            lemma_lookup_index(ev, key@, i as int);
                        }
                        return Some(&entries[i].1);
                    }
                    i = i + 1;
                }
                proof {
                    lemma_lookup_none(ev, key@);
                }
                None
            },
            _ => None,
        }
    }

    /// `value.get(key).and_then(|v| v.as_str())`, copied out.
    pub fn str_field(&self, key: &str) -> (r: Option<String>)
        ensures
            match r {
                Some(s) => str_field(self@, key@) == Some(s@),
                None => str_field(self@, key@) is None,
            },
    {
        match self.get(key) {
            Some(v) => match v.as_str() {
                Some(s) => Some(s.clone()),
                None => None,
            },
            None => None,
        }
    }

    /// `value[key]`, copied out.
    pub fn index_key(&self, key: &str) -> (r: Json)
        ensures
            r@ == index_key(self@, key@),
    {
        match self.get(key) {
            Some(v) => v.duplicate(),
            None => Json::Null,
        }
    }

    /// A string value.
    pub fn string(s: &str) -> (r: Json)
        ensures
            r@ == JsonView::Str(s@),
    {
        Json::Str(owned(s))
    }
}

// ---------------------------------------------------------------------------
// serde_json boundary
// ---------------------------------------------------------------------------

#[verifier::external_type_specification]
#[verifier::external_body]
pub struct ExSerdeJsonValue(serde_json::Value);

/// Rebuilds a `serde_json::Value` as a [`Json`], variant by variant.
#[verifier::external_body]
pub(crate) fn json_from_serde(v: serde_json::Value) -> Json {
    match v {
        serde_json::Value::Null => Json::Null,
        serde_json::Value::Bool(b) => Json::Bool(b),
        serde_json::Value::Number(n) => Json::Number(n.to_string()),
        serde_json::Value::String(s) => Json::Str(s),
        serde_json::Value::Array(a) => Json::Array(a.into_iter().map(json_from_serde).collect()),
        serde_json::Value::Object(m) => Json::Object(
            m.into_iter().map(|(k, x)| (k, json_from_serde(x))).collect(),
        ),
    }
}

/// Rebuilds a [`Json`] as a `serde_json::Value`, variant by variant (a
/// number whose text `serde_json` does not accept becomes `null`).
#[verifier::external_body]
pub(crate) fn json_to_serde(j: &Json) -> serde_json::Value {
    match j {
        Json::Null => serde_json::Value::Null,
        Json::Bool(b) => serde_json::Value::Bool(*b),
        Json::Number(s) => s.parse::<serde_json::Number>().map(serde_json::Value::Number).unwrap_or(
            serde_json::Value::Null,
        ),
        Json::Str(s) => serde_json::Value::String(s.clone()),
        Json::Array(a) => serde_json::Value::Array(a.iter().map(json_to_serde).collect()),
        Json::Object(m) => serde_json::Value::Object(
            m.iter().map(|(k, x)| (k.clone(), json_to_serde(x))).collect(),
        ),
    }
}

/// What `serde_json::from_str::<serde_json::Value>` gives for `text`: the
/// parsed value, or the `Display` text of the error it reports.
pub uninterp spec fn json_parse(text: Seq<char>) -> Result<JsonView, Seq<char>>;

/// What `serde_json::to_string` (and the `Display` of a `serde_json::Value`)
/// prints for a value: compact JSON.
pub uninterp spec fn json_text(v: JsonView) -> Seq<char>;

/// What `serde_json::to_string_pretty` prints for a value.
pub uninterp spec fn json_pretty_text(v: JsonView) -> Seq<char>;

/// `serde_json::from_str::<serde_json::Value>`: the contract names the
/// result `json_parse(text)` (the value, or the error's text); the JSON
/// grammar itself is not restated.
#[verifier::external_body]
pub fn parse_json(text: &str) -> (r: Result<Json, String>)
    ensures
        match r {
            Ok(j) => json_parse(text@) == Ok::<JsonView, Seq<char>>(j@),
            Err(e) => json_parse(text@) == Err::<JsonView, Seq<char>>(e@),
        },
{
    serde_json::from_str::<serde_json::Value>(text).map(json_from_serde).map_err(|e| e.to_string())
}

/// What `serde_json::from_str::<Vec<serde_json::Value>>` gives for `text`:
/// the items of a JSON array, or the `Display` text of the error it reports
/// (also for valid JSON that is not an array).
pub uninterp spec fn json_array_parse(text: Seq<char>) -> Result<Seq<JsonView>, Seq<char>>;

/// `serde_json::from_str::<Vec<serde_json::Value>>`: the contract names the
/// result `json_array_parse(text)`.
#[verifier::external_body]
pub fn parse_json_array(text: &str) -> (r: Result<Vec<Json>, String>)
    ensures
        match r {
            Ok(v) => json_array_parse(text@) == Ok::<Seq<JsonView>, Seq<char>>(
                v@.map_values(|j: Json| j@),
            ),
            Err(e) => json_array_parse(text@) == Err::<Seq<JsonView>, Seq<char>>(e@),
        },
{
    serde_json::from_str::<Vec<serde_json::Value>>(text)
        .map(|items| items.into_iter().map(json_from_serde).collect())
        .map_err(|e| e.to_string())
}

/// `serde_json::to_string` of a value (which cannot fail for a
/// `serde_json::Value`, whose keys are strings).
#[verifier::external_body]
pub fn to_json_text(j: &Json) -> (r: String)
    ensures
        r@ == json_text(j@),
{
    serde_json::to_string(&json_to_serde(j)).unwrap_or_default()
}

/// `serde_json::to_string_pretty` of a value.
#[verifier::external_body]
pub fn to_json_pretty(j: &Json) -> (r: String)
    ensures
        r@ == json_pretty_text(j@),
{
    serde_json::to_string_pretty(&json_to_serde(j)).unwrap_or_default()
}

} // verus!
