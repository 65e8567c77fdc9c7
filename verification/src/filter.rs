//! Parses repeated `--filter KEY=VALUE` flags into query parameters for
//! `list` commands. The per-resource spec gives the valid keys and their
//! types, so a bad key or a wrongly-typed value is rejected locally instead
//! of round-tripping to the server for a 400.

use vstd::prelude::*;
use crate::text::{chars_of, concat3, index_of, join, join_strings, lemma_index_of, owned, parse_i64, parse_i64_spec, str_eq, string_of};

verus! {

/// The type of a filter's value.
#[derive(Clone, Copy, Debug, PartialEq, Eq, Structural)]
pub enum FilterKind {
    Str,
    Bool,
    I64,
}

/// Why a `--filter` value was refused.
#[derive(Debug)]
pub enum FilterError {
    /// An entry without `=` (holds the entry).
    MissingEquals { entry: String },
    /// A key the spec does not list (holds the key and the valid keys).
    UnknownKey { key: String, valid: Vec<String> },
    /// A boolean filter whose value is neither `true` nor `false`.
    NotBool { key: String, value: String },
    /// An integer filter whose value does not parse as an `i64`.
    NotInteger { key: String, value: String },
}

/// The mathematical value of a [`FilterError`].
pub enum FilterErrorView {
    MissingEquals { entry: Seq<char> },
    UnknownKey { key: Seq<char>, valid: Seq<Seq<char>> },
    NotBool { key: Seq<char>, value: Seq<char> },
    NotInteger { key: Seq<char>, value: Seq<char> },
}

impl View for FilterError {
    type V = FilterErrorView;

    open spec fn view(&self) -> FilterErrorView {
        match self {
            FilterError::MissingEquals { entry } => FilterErrorView::MissingEquals { entry: entry@ },
            FilterError::UnknownKey { key, valid } => FilterErrorView::UnknownKey {
                key: key@,
                valid: valid@.map_values(|s: String| s@),
            },
            FilterError::NotBool { key, value } => FilterErrorView::NotBool {
                key: key@,
                value: value@,
            },
            FilterError::NotInteger { key, value } => FilterErrorView::NotInteger {
                key: key@,
                value: value@,
            },
        }
    }
}

impl FilterError {
    /// The error's text.
    pub fn message(&self) -> (r: String)
        ensures
            self matches FilterError::MissingEquals { entry } ==> r@ == "invalid --filter `"@
                + entry@ + "` -- expected KEY=VALUE"@,
            self matches FilterError::UnknownKey { key, valid } ==> r@ == "unknown filter key `"@
                + key@ + "` -- valid keys: "@ + join(valid@.map_values(|s: String| s@), ", "@),
            self matches FilterError::NotBool { key, value } ==> r@ == "invalid --filter `"@ + key@
                + "="@ + value@ + "` -- expected true or false"@,
            self matches FilterError::NotInteger { key, value } ==> r@ == "invalid --filter `"@
                + key@ + "="@ + value@ + "` -- expected an integer"@,
    {
        match self {
            FilterError::MissingEquals { entry } => concat3(
                "invalid --filter `",
                entry.as_str(),
                "` -- expected KEY=VALUE",
            ),
            FilterError::UnknownKey { key, valid } => {
                let joined = join_strings(valid, ", ");
                concat4_owned("unknown filter key `", key.as_str(), "` -- valid keys: ", joined.as_str())
            },
            FilterError::NotBool { key, value } => {
                let a = concat3("invalid --filter `", key.as_str(), "=");
                concat3(a.as_str(), value.as_str(), "` -- expected true or false")
            },
            FilterError::NotInteger { key, value } => {
                let a = concat3("invalid --filter `", key.as_str(), "=");
                concat3(a.as_str(), value.as_str(), "` -- expected an integer")
            },
        }
    }
}

fn concat4_owned(a: &str, b: &str, c: &str, d: &str) -> (r: String)
    ensures
        r@ == a@ + b@ + c@ + d@,
{
    crate::text::concat4(a, b, c, d)
}

/// `str::split_once('=')`.
pub open spec fn split_at_equals(s: Seq<char>) -> Option<(Seq<char>, Seq<char>)> {
    let i = index_of(s, '=');
    if i < 0 {
        None
    } else {
        Some((s.take(i), s.skip(i + 1)))
    }
}

/// The kind of the first spec entry named `key`.
pub open spec fn kind_of(spec: Seq<(Seq<char>, FilterKind)>, key: Seq<char>) -> Option<FilterKind>
    decreases spec.len(),
{
    if spec.len() == 0 {
        None
    } else if spec[0].0 == key {
        Some(spec[0].1)
    } else {
        kind_of(spec.drop_first(), key)
    }
}

/// What one `--filter` entry yields.
pub open spec fn filter_entry(entry: Seq<char>, spec: Seq<(Seq<char>, FilterKind)>) -> Result<
    (Seq<char>, Seq<char>),
    FilterErrorView,
> {
    match split_at_equals(entry) {
        None => Err(FilterErrorView::MissingEquals { entry }),
        Some((key, value)) => match kind_of(spec, key) {
            None => Err(
                FilterErrorView::UnknownKey { key, valid: spec.map_values(|e: (Seq<char>, FilterKind)| e.0) },
            ),
            Some(FilterKind::Bool) => if value == "true"@ || value == "false"@ {
                Ok((key, value))
            } else {
                Err(FilterErrorView::NotBool { key, value })
            },
            Some(FilterKind::I64) => if parse_i64_spec(value) is Some {
                Ok((key, value))
            } else {
                Err(FilterErrorView::NotInteger { key, value })
            },
            Some(FilterKind::Str) => Ok((key, value)),
        },
    }
}

/// What [`parse_filters`] returns: every entry's pair in order, or the
/// error of the first entry that is refused.
pub open spec fn filters_result(raw: Seq<Seq<char>>, spec: Seq<(Seq<char>, FilterKind)>) -> Result<
    Seq<(Seq<char>, Seq<char>)>,
    FilterErrorView,
>
    decreases raw.len(),
{
    if raw.len() == 0 {
        Ok(Seq::empty())
    } else {
        match filters_result(raw.drop_last(), spec) {
            Err(e) => Err(e),
            Ok(pairs) => match filter_entry(raw.last(), spec) {
                Err(e) => Err(e),
                Ok(p) => Ok(pairs.push(p)),
            },
        }
    }
}

/// The view of a filter spec.
pub open spec fn spec_view(spec: &[(&str, FilterKind)]) -> Seq<(Seq<char>, FilterKind)> {
    spec@.map_values(|e: (&str, FilterKind)| (e.0@, e.1))
}

fn find_kind(spec: &[(&str, FilterKind)], key: &str) -> (r: Option<FilterKind>)
    ensures
        r == kind_of(spec_view(spec), key@),
{
    let ghost sv = spec_view(spec);
    let mut i: usize = 0;
    assert(sv.skip(0) =~= sv);
    while i < spec.len()
        invariant
            i <= spec@.len(),
            sv == spec_view(spec),
            kind_of(sv, key@) == kind_of(sv.skip(i as int), key@),
        decreases spec@.len() - i,
    {
        assert(sv.skip(i as int).drop_first() =~= sv.skip(i + 1));
        if str_eq(spec[i].0, key) {
            return Some(spec[i].1);
        }
        i = i + 1;
    }
    assert(sv.skip(i as int).len() == 0);
    None
}

fn key_names(spec: &[(&str, FilterKind)]) -> (r: Vec<String>)
    ensures
        r@.map_values(|s: String| s@) == spec_view(spec).map_values(
            |e: (Seq<char>, FilterKind)| e.0,
        ),
{
    let mut out: Vec<String> = Vec::new();
    let mut i: usize = 0;
    while i < spec.len()
        invariant
            i <= spec@.len(),
            out@.len() == i,
            forall|k: int| 0 <= k < i ==> (#[trigger] out@[k])@ == spec@[k].0@,
        decreases spec@.len() - i,
    {
        out.push(owned(spec[i].0));
        i = i + 1;
    }
    assert(out@.map_values(|s: String| s@) =~= spec_view(spec).map_values(
        |e: (Seq<char>, FilterKind)| e.0,
    ));
    out
}

fn parse_entry(entry: &str, spec: &[(&str, FilterKind)]) -> (r: Result<(String, String), FilterError>)
    ensures
        match (r, filter_entry(entry@, spec_view(spec))) {
            (Ok(p), Ok(q)) => p.0@ == q.0 && p.1@ == q.1,
            (Err(e), Err(f)) => e@ == f,
            _ => false,
        },
{
    let cs = chars_of(entry);
    let mut i: usize = 0;
    while i < cs.len() && cs[i] != '='
        invariant
            cs@ == entry@,
            i <= cs@.len(),
            forall|k: int| 0 <= k < i ==> cs@[k] != '=',
        decreases cs@.len() - i,
    {
        i = i + 1;
    }
    proof {
        lemma_index_of(entry@, '=', i as int);
    }
    if i == cs.len() {
        return Err(FilterError::MissingEquals { entry: owned(entry) });
    }
    let mut kcs: Vec<char> = Vec::new();
    let mut k0: usize = 0;
    while k0 < i
        invariant
            i < cs@.len(),
            k0 <= i,
            kcs@ == cs@.take(k0 as int),
        decreases i - k0,
    {
        kcs.push(cs[k0]);
        assert(cs@.take(k0 + 1) =~= cs@.take(k0 as int).push(cs@[k0 as int]));
        k0 = k0 + 1;
    }
    let key = string_of(&kcs);
    let mut vcs: Vec<char> = Vec::new();
    let mut k: usize = i + 1;
    while k < cs.len()
        invariant
            i < cs@.len(),
            i + 1 <= k <= cs@.len(),
            vcs@ == cs@.subrange(i + 1, k as int),
        decreases cs@.len() - k,
    {
        vcs.push(cs[k]);
        assert(cs@.subrange(i + 1, k + 1) =~= cs@.subrange(i + 1, k as int).push(cs@[k as int]));
        k = k + 1;
    }
    let value = string_of(&vcs);
    assert(key@ =~= entry@.take(i as int));
    assert(value@ =~= entry@.skip(i + 1));
    match find_kind(spec, key.as_str()) {
        None => Err(FilterError::UnknownKey { key, valid: key_names(spec) }),
        Some(FilterKind::Bool) => {
            if str_eq(value.as_str(), "true") || str_eq(value.as_str(), "false") {
                Ok((key, value))
            } else {
                Err(FilterError::NotBool { key, value })
            }
        },
        Some(FilterKind::I64) => {
            if parse_i64(value.as_str()).is_some() {
                Ok((key, value))
            } else {
                Err(FilterError::NotInteger { key, value })
            }
        },
        Some(FilterKind::Str) => Ok((key, value)),
    }
}

/// Parses and validates `--filter` values against `spec` (each valid key
/// with its type). `raw` holds the flag's `KEY=VALUE` strings, one per
/// occurrence; the value is everything after the first `=`.
pub fn parse_filters(raw: &[String], spec: &[(&str, FilterKind)]) -> (r: Result<
    Vec<(String, String)>,
    FilterError,
>)
    ensures
        match (r, filters_result(raw@.map_values(|s: String| s@), spec_view(spec))) {
            (Ok(ps), Ok(qs)) => ps@.map_values(|p: (String, String)| (p.0@, p.1@)) == qs,
            (Err(e), Err(f)) => e@ == f,
            _ => false,
        },
{
    let ghost rv = raw@.map_values(|s: String| s@);
    let ghost sv = spec_view(spec);
    let mut params: Vec<(String, String)> = Vec::new();
    let mut i: usize = 0;
    assert(rv.take(0) =~= Seq::<Seq<char>>::empty());
    assert(params@.map_values(|p: (String, String)| (p.0@, p.1@)) =~= Seq::<(Seq<char>, Seq<char>)>::empty());
    while i < raw.len()
        invariant
            i <= raw@.len(),
            rv == raw@.map_values(|s: String| s@),
            sv == spec_view(spec),
            filters_result(rv.take(i as int), sv) == Ok::<
                Seq<(Seq<char>, Seq<char>)>,
                FilterErrorView,
            >(params@.map_values(|p: (String, String)| (p.0@, p.1@))),
        decreases raw@.len() - i,
    {
        assert(rv.take(i + 1).drop_last() =~= rv.take(i as int));
        assert(rv.take(i + 1).last() == raw@[i as int]@);
        match parse_entry(raw[i].as_str(), spec) {
            Ok(p) => {
                let ghost before = params@.map_values(|p: (String, String)| (p.0@, p.1@));
                params.push(p);
                assert(params@.map_values(|p: (String, String)| (p.0@, p.1@)) =~= before.push(
                    (p.0@, p.1@),
                ));
            },
            Err(e) => {
                proof {
                    lemma_filters_error_sticks(rv, sv, (i + 1) as int);
                }
                return Err(e);
            },
        }
        i = i + 1;
    }
    assert(rv.take(raw@.len() as int) =~= rv);
    Ok(params)
}

proof fn lemma_filters_error_sticks(
    raw: Seq<Seq<char>>,
    spec: Seq<(Seq<char>, FilterKind)>,
    i: int,
)
    requires
        0 <= i <= raw.len(),
        filters_result(raw.take(i), spec) is Err,
    ensures
        filters_result(raw, spec) == filters_result(raw.take(i), spec),
    decreases raw.len() - i,
{
    if i < raw.len() {
        assert(raw.take(i + 1).drop_last() =~= raw.take(i));
        lemma_filters_error_sticks(raw, spec, i + 1);
    } else {
        assert(raw.take(i) =~= raw);
    }
}

} // verus!
