//! The `schema` command: the CLI's command schema (embedded JSON with
//! `version`, `groups` and `commands`), optionally narrowed to one group
//! and/or trimmed to a compact form of command paths and descriptions.

use vstd::prelude::*;
use crate::json::{
    as_str, index_item, index_key, json_pretty_text, json_text, lemma_array_view,
    lemma_object_view, parse_json, json_parse, to_json_pretty, to_json_text, Json, JsonView,
};
use crate::output::{strs, toon_output, OutputError, OutputFormat, Rendered, RenderedView};
use crate::text::{concat2, owned, str_eq};

verus! {

/// Whether a group is kept: every group without `--group`, else the one
/// whose `name` is the given group.
pub open spec fn group_kept(gr: JsonView, group: Option<Seq<char>>) -> bool {
    match group {
        None => true,
        Some(g) => as_str(index_key(gr, "name"@)) == Some(g),
    }
}

/// Whether a command is kept: every command without `--group`, else those
/// whose `path` starts with the given group.
pub open spec fn command_kept(cmd: JsonView, group: Option<Seq<char>>) -> bool {
    match group {
        None => true,
        Some(g) => as_str(index_item(index_key(cmd, "path"@), 0)) == Some(g),
    }
}

/// A command reduced to its path, description and type.
pub open spec fn compact_command(cmd: JsonView) -> JsonView {
    JsonView::Object(
        seq![
            ("path"@, index_key(cmd, "path"@)),
            ("description"@, index_key(cmd, "description"@)),
            ("type"@, index_key(cmd, "type"@)),
        ],
    )
}

/// The kept groups, in order.
pub open spec fn kept_groups(gs: Seq<JsonView>, group: Option<Seq<char>>) -> Seq<JsonView>
    decreases gs.len(),
{
    if gs.len() == 0 {
        Seq::empty()
    } else {
        let r = kept_groups(gs.drop_last(), group);
        if group_kept(gs.last(), group) {
            r.push(gs.last())
        } else {
            r
        }
    }
}

/// The kept commands, in order, each compacted when `compact`.
pub open spec fn kept_commands(cs: Seq<JsonView>, group: Option<Seq<char>>, compact: bool) -> Seq<
    JsonView,
>
    decreases cs.len(),
{
    if cs.len() == 0 {
        Seq::empty()
    } else {
        let r = kept_commands(cs.drop_last(), group, compact);
        if command_kept(cs.last(), group) {
            r.push(
                if compact {
                    compact_command(cs.last())
                } else {
                    cs.last()
                },
            )
        } else {
            r
        }
    }
}

/// The schema that is printed: the full schema when neither `--group` nor
/// `--compact` is given; otherwise an object of the schema's `version`,
/// then (when the schema has a `groups` array) the kept groups, then (when
/// it has a `commands` array) the kept commands, compacted under
/// `--compact`.
pub open spec fn schema_view(full: JsonView, group: Option<Seq<char>>, compact: bool) -> JsonView {
    if !compact && group is None {
        full
    } else {
        let version = seq![("version"@, index_key(full, "version"@))];
        let with_groups = match index_key(full, "groups"@) {
            JsonView::Array(gs) => version.push(
                ("groups"@, JsonView::Array(kept_groups(gs, group))),
            ),
            _ => version,
        };
        let with_commands = match index_key(full, "commands"@) {
            JsonView::Array(cs) => with_groups.push(
                ("commands"@, JsonView::Array(kept_commands(cs, group, compact))),
            ),
            _ => with_groups,
        };
        JsonView::Object(with_commands)
    }
}

fn index_item_exec(v: &Json, i: usize) -> (r: Json)
    ensures
        r@ == index_item(v@, i as int),
{
    match v {
        Json::Array(items) => {
            proof {
                lemma_array_view(items);
            }
            if i < items.len() {
                items[i].duplicate()
            } else {
                Json::Null
            }
        },
        _ => Json::Null,
    }
}

fn is_kept_group(gr: &Json, group: Option<&str>) -> (r: bool)
    ensures
        r == group_kept(
            gr@,
            match group {
                Some(g) => Some(g@),
                None => None,
            },
        ),
{
    match group {
        None => true,
        Some(g) => {
            let name = gr.index_key("name");
            match name.as_str() {
                Some(s) => str_eq(s.as_str(), g),
                None => false,
            }
        },
    }
}

fn is_kept_command(cmd: &Json, group: Option<&str>) -> (r: bool)
    ensures
        r == command_kept(
            cmd@,
            match group {
                Some(g) => Some(g@),
                None => None,
            },
        ),
{
    match group {
        None => true,
        Some(g) => {
            let path = cmd.index_key("path");
            let first = index_item_exec(&path, 0);
            match first.as_str() {
                Some(s) => str_eq(s.as_str(), g),
                None => false,
            }
        },
    }
}

fn compact_command_exec(cmd: &Json) -> (r: Json)
    ensures
        r@ == compact_command(cmd@),
{
    let mut entries: Vec<(String, Json)> = Vec::new();
    entries.push((owned("path"), cmd.index_key("path")));
    entries.push((owned("description"), cmd.index_key("description")));
    entries.push((owned("type"), cmd.index_key("type")));
    proof {
        lemma_object_view(&entries);
        assert(Seq::new(entries@.len(), |i: int| (entries@[i].0@, entries@[i].1@)) =~= seq![
            ("path"@, index_key(cmd@, "path"@)),
            ("description"@, index_key(cmd@, "description"@)),
            ("type"@, index_key(cmd@, "type"@)),
        ]);
    }
    Json::Object(entries)
}

fn select_groups(gs: &Vec<Json>, group: Option<&str>) -> (r: Vec<Json>)
    ensures
        r@.map_values(|j: Json| j@) == kept_groups(
            gs@.map_values(|j: Json| j@),
            match group {
                Some(g) => Some(g@),
                None => None,
            },
        ),
{
    let ghost gv = gs@.map_values(|j: Json| j@);
    let ghost g = match group {
        Some(g) => Some(g@),
        None => None,
    };
    let mut out: Vec<Json> = Vec::new();
    let mut i: usize = 0;
    assert(gv.take(0) =~= Seq::<JsonView>::empty());
    assert(out@.map_values(|j: Json| j@) =~= Seq::<JsonView>::empty());
    while i < gs.len()
        invariant
            i <= gs@.len(),
            gv == gs@.map_values(|j: Json| j@),
            g == (match group {
                Some(g) => Some(g@),
                None => None,
            }),
            out@.map_values(|j: Json| j@) == kept_groups(gv.take(i as int), g),
        decreases gs@.len() - i,
    {
        assert(gv.take(i + 1).drop_last() =~= gv.take(i as int));
        assert(gv.take(i + 1).last() == gs@[i as int]@);
        if is_kept_group(&gs[i], group) {
            let ghost before = out@.map_values(|j: Json| j@);
            out.push(gs[i].duplicate());
            assert(out@.map_values(|j: Json| j@) =~= before.push(gs@[i as int]@));
        }
        i = i + 1;
    }
    assert(gv.take(gs@.len() as int) =~= gv);
    out
}

fn select_commands(cs: &Vec<Json>, group: Option<&str>, compact: bool) -> (r: Vec<Json>)
    ensures
        r@.map_values(|j: Json| j@) == kept_commands(
            cs@.map_values(|j: Json| j@),
            match group {
                Some(g) => Some(g@),
                None => None,
            },
            compact,
        ),
{
    let ghost cv = cs@.map_values(|j: Json| j@);
    let ghost g = match group {
        Some(g) => Some(g@),
        None => None,
    };
    let mut out: Vec<Json> = Vec::new();
    let mut i: usize = 0;
    assert(cv.take(0) =~= Seq::<JsonView>::empty());
    assert(out@.map_values(|j: Json| j@) =~= Seq::<JsonView>::empty());
    while i < cs.len()
        invariant
            i <= cs@.len(),
            cv == cs@.map_values(|j: Json| j@),
            g == (match group {
                Some(g) => Some(g@),
                None => None,
            }),
            out@.map_values(|j: Json| j@) == kept_commands(cv.take(i as int), g, compact),
        decreases cs@.len() - i,
    {
        assert(cv.take(i + 1).drop_last() =~= cv.take(i as int));
        assert(cv.take(i + 1).last() == cs@[i as int]@);
        if is_kept_command(&cs[i], group) {
            let ghost before = out@.map_values(|j: Json| j@);
            let item = if compact {
                compact_command_exec(&cs[i])
            } else {
                cs[i].duplicate()
            };
            out.push(item);
            assert(out@.map_values(|j: Json| j@) =~= before.push(
                if compact {
                    compact_command(cs@[i as int]@)
                } else {
                    cs@[i as int]@
                },
            ));
        }
        i = i + 1;
    }
    assert(cv.take(cs@.len() as int) =~= cv);
    out
}

/// Narrows the schema to what `--group`/`--compact` ask for.
pub fn narrow_schema(full: Json, group: Option<&str>, compact: bool) -> (r: Json)
    ensures
        r@ == schema_view(
            full@,
            match group {
                Some(g) => Some(g@),
                None => None,
            },
            compact,
        ),
{
    if !compact && group.is_none() {
        return full;
    }
    let mut entries: Vec<(String, Json)> = Vec::new();
    entries.push((owned("version"), full.index_key("version")));
    proof {
        lemma_object_view(&entries);
    }
    let ghost v0 = Seq::new(entries@.len(), |i: int| (entries@[i].0@, entries@[i].1@));
    assert(v0 =~= seq![("version"@, index_key(full@, "version"@))]);
    let groups = full.index_key("groups");
    match &groups {
        Json::Array(gs) => {
            proof {
                lemma_array_view(gs);
            }
            let kept = select_groups(gs, group);
            proof {
                lemma_array_view(&kept);
                assert(Seq::new(kept@.len(), |i: int| kept@[i]@) =~= kept@.map_values(|j: Json| j@));
                assert(Seq::new(gs@.len(), |i: int| gs@[i]@) =~= gs@.map_values(|j: Json| j@));
            }
            entries.push((owned("groups"), Json::Array(kept)));
            proof {
                lemma_object_view(&entries);
            }
        },
        _ => {},
    }
    let ghost v1 = Seq::new(entries@.len(), |i: int| (entries@[i].0@, entries@[i].1@));
    assert(v1 =~= match index_key(full@, "groups"@) {
        JsonView::Array(gs) => v0.push(
            (
                "groups"@,
                JsonView::Array(
                    kept_groups(
                        gs,
                        match group {
                            Some(g) => Some(g@),
                            None => None,
                        },
                    ),
                ),
            ),
        ),
        _ => v0,
    });
    let commands = full.index_key("commands");
    match &commands {
        Json::Array(cs) => {
            proof {
                lemma_array_view(cs);
            }
            let kept = select_commands(cs, group, compact);
            proof {
                lemma_array_view(&kept);
                assert(Seq::new(kept@.len(), |i: int| kept@[i]@) =~= kept@.map_values(|j: Json| j@));
                assert(Seq::new(cs@.len(), |i: int| cs@[i]@) =~= cs@.map_values(|j: Json| j@));
            }
            entries.push((owned("commands"), Json::Array(kept)));
            proof {
                lemma_object_view(&entries);
            }
        },
        _ => {},
    }
    let ghost v2 = Seq::new(entries@.len(), |i: int| (entries@[i].0@, entries@[i].1@));
    assert(v2 =~= match index_key(full@, "commands"@) {
        JsonView::Array(cs) => v1.push(
            (
                "commands"@,
                JsonView::Array(
                    kept_commands(
                        cs,
                        match group {
                            Some(g) => Some(g@),
                            None => None,
                        },
                        compact,
                    ),
                ),
            ),
        ),
        _ => v1,
    });
    Json::Object(entries)
}

/// Why the schema could not be printed.
#[derive(Debug)]
pub enum SchemaError {
    /// The embedded schema is not JSON (holds the parser's message).
    Invalid(String),
    /// Rendering failed.
    Output(OutputError),
}

impl SchemaError {
    /// The error's text.
    pub fn message(&self) -> (r: String)
        ensures
            self matches SchemaError::Invalid(cause) ==> r@
                == "internal error: CLI_SCHEMA_JSON is not valid JSON: "@ + cause@,
            self matches SchemaError::Output(e) ==> r@ == e.message@,
    {
        match self {
            SchemaError::Invalid(cause) => concat2(
                "internal error: CLI_SCHEMA_JSON is not valid JSON: ",
                cause.as_str(),
            ),
            SchemaError::Output(e) => e.message.clone(),
        }
    }
}

/// Why the schema could not be shown, by its views.
pub enum SchemaFailure {
    /// The schema text is not JSON (the parser's message).
    Invalid(Seq<char>),
    /// TOON rendering failed (its message).
    Output(Seq<char>),
}

/// How the schema is shown: TOON, one NDJSON line, or (for json, table and
/// tsv alike, a nested object having no columns) pretty JSON.
pub open spec fn schema_output(
    text: Seq<char>,
    group: Option<Seq<char>>,
    compact: bool,
    format: OutputFormat,
) -> Result<RenderedView, SchemaFailure> {
    match json_parse(text) {
        Err(cause) => Err(SchemaFailure::Invalid(cause)),
        Ok(full) => {
            let v = schema_view(full, group, compact);
            match format {
                OutputFormat::Toon => match toon_output(v) {
                    Ok(t) => Ok(RenderedView::Block(t)),
                    Err(m) => Err(SchemaFailure::Output(m)),
                },
                OutputFormat::Ndjson => Ok(RenderedView::Ndjson(seq![json_text(v)])),
                _ => Ok(RenderedView::Block(json_pretty_text(v))),
            }
        },
    }
}

/// Renders the `schema` command's output from the embedded schema text.
pub fn render_schema(text: &str, group: Option<&str>, compact: bool, format: OutputFormat) -> (r:
    Result<Rendered, SchemaError>)
    ensures
        match (r, schema_output(
            text@,
            match group {
                Some(g) => Some(g@),
                None => None,
            },
            compact,
            format,
        )) {
            (Ok(x), Ok(y)) => x@ == y,
            (Err(SchemaError::Invalid(c)), Err(SchemaFailure::Invalid(d))) => c@ == d,
            (Err(SchemaError::Output(e)), Err(SchemaFailure::Output(m))) => e.message@ == m,
            _ => false,
        },
{
    let full = match parse_json(text) {
        Ok(f) => f,
        Err(cause) => {
            return Err(SchemaError::Invalid(cause));
        },
    };
    let v = narrow_schema(full, group, compact);
    match format {
        OutputFormat::Toon => match crate::output::render_raw(&v, OutputFormat::Toon) {
            Ok(x) => Ok(x),
            Err(e) => Err(SchemaError::Output(e)),
        },
        OutputFormat::Ndjson => {
            let mut lines: Vec<String> = Vec::new();
            lines.push(to_json_text(&v));
            assert(strs(lines@) =~= seq![json_text(v@)]);
            Ok(Rendered::Ndjson(lines))
        },
        _ => Ok(Rendered::Block(to_json_pretty(&v))),
    }
}

} // verus!
