//! Rendering shared by every command: what a result, a dry-run preview or
//! an error looks like in each `--format`. Functions here compute the text;
//! the caller writes it (stopping an ndjson stream when the reader hangs up).

use vstd::prelude::*;
use crate::json::{
    field, json_pretty_text, json_text, json_to_serde, lemma_array_view, lemma_object_view,
    parse_json, json_parse, to_json_pretty, to_json_text, Json, JsonView,
};
use crate::text::{chars_of, concat2, concat3, concat4, join, join_strings, owned, string_of};

verus! {

/// Output format.
#[derive(Clone, Copy, Debug, PartialEq, Eq, Structural)]
pub enum OutputFormat {
    /// Human-readable table (default).
    Table,
    /// Pretty JSON.
    Json,
    /// Tab-separated values, one row per line, no header.
    Tsv,
    /// TOON: complete like JSON, with fewer tokens for uniform arrays.
    Toon,
    /// Newline-delimited JSON: one compact JSON value per line.
    Ndjson,
}

/// What is written to stdout.
#[derive(Debug)]
pub enum Rendered {
    /// One block of text, printed followed by a newline.
    Block(String),
    /// Lines, each printed followed by a newline.
    Lines(Vec<String>),
    /// NDJSON lines; the writer stops early once the reader has hung up.
    Ndjson(Vec<String>),
}

/// The mathematical value of a [`Rendered`].
pub enum RenderedView {
    Block(Seq<char>),
    Lines(Seq<Seq<char>>),
    Ndjson(Seq<Seq<char>>),
}

/// The views of a vector of strings.
pub open spec fn strs(v: Seq<String>) -> Seq<Seq<char>> {
    v.map_values(|s: String| s@)
}

impl View for Rendered {
    type V = RenderedView;

    open spec fn view(&self) -> RenderedView {
        match self {
            Rendered::Block(s) => RenderedView::Block(s@),
            Rendered::Lines(v) => RenderedView::Lines(strs(v@)),
            Rendered::Ndjson(v) => RenderedView::Ndjson(strs(v@)),
        }
    }
}

/// Rendering failed: TOON serialisation refused the value (holds the
/// error's text).
#[derive(Debug)]
pub struct OutputError {
    pub message: String,
}

// ---------------------------------------------------------------------------
// Cells and rows
// ---------------------------------------------------------------------------

/// `s` with tabs, newlines and carriage returns replaced by spaces, so a
/// cell cannot break TSV's one-row-per-line, tab-delimited structure.
pub open spec fn escape_tsv(s: Seq<char>) -> Seq<char> {
    s.map_values(|c: char| if c == '\t' || c == '\n' || c == '\r' { ' ' } else { c })
}

/// An escaped cell holds no tab, newline or carriage return, so each row
/// stays one line and each cell one field.
pub proof fn law_escaped_cell_has_no_separators(s: Seq<char>)
    ensures
        escape_tsv(s).len() == s.len(),
        forall|i: int|
            0 <= i < s.len() ==> #[trigger] escape_tsv(s)[i] != '\t' && escape_tsv(s)[i] != '\n'
                && escape_tsv(s)[i] != '\r',
{
}

/// Escapes a TSV cell.
pub fn tsv_escape(s: &str) -> (r: String)
    ensures
        r@ == escape_tsv(s@),
{
    let cs = chars_of(s);
    let mut out: Vec<char> = Vec::new();
    let mut i: usize = 0;
    while i < cs.len()
        invariant
            cs@ == s@,
            i <= cs@.len(),
            out@ == escape_tsv(s@.take(i as int)),
        decreases cs@.len() - i,
    {
        let c = cs[i];
        let d = if c == '\t' || c == '\n' || c == '\r' { ' ' } else { c };
        out.push(d);
        assert(escape_tsv(s@.take(i + 1)) =~= escape_tsv(s@.take(i as int)).push(d));
        i = i + 1;
    }
    assert(s@.take(s@.len() as int) =~= s@);
    string_of(&out)
}

/// The text of `row`'s `column`: `-` when absent or `null`, a string as it
/// is, anything else as compact JSON.
pub open spec fn cell(row: JsonView, column: Seq<char>) -> Seq<char> {
    match field(row, column) {
        None => "-"@,
        Some(JsonView::Null) => "-"@,
        Some(JsonView::Str(s)) => s,
        Some(o) => json_text(o),
    }
}

/// The text of one cell.
pub fn cell_text(row: &Json, column: &str) -> (r: String)
    ensures
        r@ == cell(row@, column@),
{
    match row.get(column) {
        None => owned("-"),
        Some(Json::Null) => owned("-"),
        Some(Json::Str(s)) => s.clone(),
        Some(other) => to_json_text(other),
    }
}

/// The rows a value is shown as: an array's items, nothing for `null`, and
/// any other value as a single row.
pub open spec fn rows_of(v: JsonView) -> Seq<JsonView> {
    match v {
        JsonView::Array(items) => items,
        JsonView::Null => Seq::empty(),
        _ => seq![v],
    }
}

/// The views of a vector of values.
pub open spec fn values(v: Seq<Json>) -> Seq<JsonView> {
    v.map_values(|j: Json| j@)
}

/// The rows of a value.
pub fn result_rows(value: &Json) -> (r: Vec<Json>)
    ensures
        values(r@) == rows_of(value@),
{
    match value {
        Json::Array(items) => {
            proof {
                lemma_array_view(items);
            }
            let mut out: Vec<Json> = Vec::new();
            let mut i: usize = 0;
            while i < items.len()
                invariant
                    i <= items@.len(),
                    out@.len() == i,
                    forall|k: int| 0 <= k < i ==> (#[trigger] out@[k])@ == items@[k]@,
                decreases items@.len() - i,
            {
                out.push(items[i].duplicate());
                i = i + 1;
            }
            assert(values(out@) =~= Seq::new(items@.len(), |k: int| items@[k]@));
            out
        },
        Json::Null => {
            let out: Vec<Json> = Vec::new();
            assert(values(out@) =~= Seq::<JsonView>::empty());
            out
        },
        _ => {
            let mut out: Vec<Json> = Vec::new();
            out.push(value.duplicate());
            assert(values(out@) =~= seq![value@]);
            out
        },
    }
}

/// The views of the column names.
pub open spec fn cols(columns: &[&str]) -> Seq<Seq<char>> {
    columns@.map_values(|c: &str| c@)
}

/// The cells of `row` for `columns`.
pub open spec fn row_cells(row: JsonView, columns: Seq<Seq<char>>) -> Seq<Seq<char>> {
    columns.map_values(|c: Seq<char>| cell(row, c))
}

/// The TSV line of `row`: its escaped cells joined by tabs.
pub open spec fn tsv_line(row: JsonView, columns: Seq<Seq<char>>) -> Seq<char> {
    join(columns.map_values(|c: Seq<char>| escape_tsv(cell(row, c))), "\t"@)
}

fn cells_of(row: &Json, columns: &[&str], escape: bool) -> (r: Vec<String>)
    ensures
        strs(r@) == (if escape {
            cols(columns).map_values(|c: Seq<char>| escape_tsv(cell(row@, c)))
        } else {
            row_cells(row@, cols(columns))
        }),
{
    let mut out: Vec<String> = Vec::new();
    let mut i: usize = 0;
    while i < columns.len()
        invariant
            i <= columns@.len(),
            out@.len() == i,
            forall|k: int|
                0 <= k < i ==> (#[trigger] out@[k])@ == (if escape {
                    escape_tsv(cell(row@, columns@[k]@))
                } else {
                    cell(row@, columns@[k]@)
                }),
        decreases columns@.len() - i,
    {
        let t = cell_text(row, columns[i]);
        if escape {
            out.push(tsv_escape(t.as_str()));
        } else {
            out.push(t);
        }
        i = i + 1;
    }
    if escape {
        assert(strs(out@) =~= cols(columns).map_values(|c: Seq<char>| escape_tsv(cell(row@, c))));
    } else {
        assert(strs(out@) =~= row_cells(row@, cols(columns)));
    }
    out
}

/// The TSV lines of a value: one per row.
pub fn tsv_lines(value: &Json, columns: &[&str]) -> (r: Vec<String>)
    ensures
        strs(r@) == rows_of(value@).map_values(|row: JsonView| tsv_line(row, cols(columns))),
{
    let rows = result_rows(value);
    let mut out: Vec<String> = Vec::new();
    let mut i: usize = 0;
    while i < rows.len()
        invariant
            i <= rows@.len(),
            values(rows@) == rows_of(value@),
            out@.len() == i,
            forall|k: int| 0 <= k < i ==> (#[trigger] out@[k])@ == tsv_line(rows@[k]@, cols(columns)),
        decreases rows@.len() - i,
    {
        let cells = cells_of(&rows[i], columns, true);
        let line = join_strings(&cells, "\t");
        out.push(line);
        i = i + 1;
    }
    assert(strs(out@) =~= rows_of(value@).map_values(|row: JsonView| tsv_line(row, cols(columns))));
    out
}

// ---------------------------------------------------------------------------
// Outside renderers
// ---------------------------------------------------------------------------

/// What `comfy_table` draws (UTF8_FULL preset) for a header and rows.
pub uninterp spec fn table_text(header: Seq<Seq<char>>, rows: Seq<Seq<Seq<char>>>) -> Seq<char>;

/// What `serde_toon::to_string` gives for a value (the error's text on
/// failure).
pub uninterp spec fn toon_output(v: JsonView) -> Result<Seq<char>, Seq<char>>;

/// A `comfy_table::Table` with the UTF8_FULL preset, `header`, and one row
/// per entry of `rows`, as text. The contract names the drawing only.
#[verifier::external_body]
fn draw_table(header: &Vec<String>, rows: &Vec<Vec<String>>) -> (r: String)
    ensures
        r@ == table_text(
            strs(header@),
            rows@.map_values(|row: Vec<String>| strs(row@)),
        ),
{
    let mut table = comfy_table::Table::new();
    table.load_preset(comfy_table::presets::UTF8_FULL);
    table.set_header(header.clone());
    for row in rows {
        table.add_row(row.clone());
    }
    table.to_string()
}

/// `serde_toon::to_string` of a value.
#[verifier::external_body]
pub(crate) fn toon_text(j: &Json) -> (r: Result<String, String>)
    ensures
        match r {
            Ok(t) => toon_output(j@) == Ok::<Seq<char>, Seq<char>>(t@),
            Err(e) => toon_output(j@) == Err::<Seq<char>, Seq<char>>(e@),
        },
{
    serde_toon::to_string(&json_to_serde(j)).map_err(|e| e.to_string())
}

/// The table block of a value: the drawn table, followed by a
/// `(no results)` line when there are no rows.
pub open spec fn table_block(v: JsonView, columns: Seq<Seq<char>>) -> Seq<char> {
    let rows = rows_of(v);
    let drawn = table_text(columns, rows.map_values(|row: JsonView| row_cells(row, columns)));
    if rows.len() == 0 {
        drawn + "\n(no results)"@
    } else {
        drawn
    }
}

/// The table's header is the column list, in its given order, and header
/// cell `i` labels cell `i` of every row: there is one row per row of the
/// value, holding that row's value for each column, in column order.
pub proof fn law_table_header_labels_each_column(v: JsonView, columns: Seq<Seq<char>>)
    ensures
        exists|header: Seq<Seq<char>>, grid: Seq<Seq<Seq<char>>>|
            #![trigger table_text(header, grid)]
            {
                &&& table_block(v, columns) == if rows_of(v).len() == 0 {
                    table_text(header, grid) + "\n(no results)"@
                } else {
                    table_text(header, grid)
                }
                &&& header.len() == columns.len()
                &&& forall|i: int| 0 <= i < columns.len() ==> header[i] == columns[i]
                &&& grid.len() == rows_of(v).len()
                &&& forall|k: int|
                    0 <= k < grid.len() ==> (#[trigger] grid[k]).len() == columns.len()
                        && forall|i: int|
                        0 <= i < columns.len() ==> grid[k][i] == cell(rows_of(v)[k], columns[i])
            },
{
    let grid = rows_of(v).map_values(|row: JsonView| row_cells(row, columns));
    assert(table_text(columns, grid) == table_text(columns, grid));
}

fn table_of(value: &Json, columns: &[&str]) -> (r: String)
    ensures
        r@ == table_block(value@, cols(columns)),
{
    let rows = result_rows(value);
    let mut header: Vec<String> = Vec::new();
    let mut h: usize = 0;
    while h < columns.len()
        invariant
            h <= columns@.len(),
            header@.len() == h,
            forall|k: int| 0 <= k < h ==> (#[trigger] header@[k])@ == columns@[k]@,
        decreases columns@.len() - h,
    {
        header.push(owned(columns[h]));
        h = h + 1;
    }
    assert(strs(header@) =~= cols(columns));
    let mut cells: Vec<Vec<String>> = Vec::new();
    let mut i: usize = 0;
    while i < rows.len()
        invariant
            i <= rows@.len(),
            values(rows@) == rows_of(value@),
            cells@.len() == i,
            forall|k: int|
                0 <= k < i ==> strs((#[trigger] cells@[k])@) == row_cells(rows@[k]@, cols(columns)),
        decreases rows@.len() - i,
    {
        cells.push(cells_of(&rows[i], columns, false));
        i = i + 1;
    }
    assert(cells@.map_values(|row: Vec<String>| strs(row@)) =~= rows_of(value@).map_values(
        |row: JsonView| row_cells(row, cols(columns)),
    ));
    let drawn = draw_table(&header, &cells);
    if rows.len() == 0 {
        concat2(drawn.as_str(), "\n(no results)")
    } else {
        drawn
    }
}

/// The NDJSON lines of a value: each item of an array, or the value itself,
/// as compact JSON.
pub open spec fn ndjson_lines(v: JsonView) -> Seq<Seq<char>> {
    match v {
        JsonView::Array(items) => items.map_values(|x: JsonView| json_text(x)),
        _ => seq![json_text(v)],
    }
}

fn ndjson_of(value: &Json) -> (r: Vec<String>)
    ensures
        strs(r@) == ndjson_lines(value@),
{
    match value {
        Json::Array(items) => {
            proof {
                lemma_array_view(items);
            }
            let mut out: Vec<String> = Vec::new();
            let mut i: usize = 0;
            while i < items.len()
                invariant
                    i <= items@.len(),
                    out@.len() == i,
                    forall|k: int| 0 <= k < i ==> (#[trigger] out@[k])@ == json_text(items@[k]@),
                decreases items@.len() - i,
            {
                out.push(to_json_text(&items[i]));
                i = i + 1;
            }
            assert(strs(out@) =~= Seq::new(items@.len(), |k: int| items@[k]@).map_values(
                |x: JsonView| json_text(x),
            ));
            out
        },
        _ => {
            let mut out: Vec<String> = Vec::new();
            out.push(to_json_text(value));
            assert(strs(out@) =~= seq![json_text(value@)]);
            out
        },
    }
}

fn toon_block(value: &Json) -> (r: Result<Rendered, OutputError>)
    ensures
        match (r, toon_output(value@)) {
            (Ok(x), Ok(t)) => x@ == RenderedView::Block(t),
            (Err(e), Err(m)) => e.message@ == m,
            _ => false,
        },
{
    match toon_text(value) {
        Ok(t) => Ok(Rendered::Block(t)),
        Err(m) => Err(OutputError { message: m }),
    }
}

/// The TOON block of a value.
pub open spec fn toon_rendered(v: JsonView) -> Result<RenderedView, Seq<char>> {
    match toon_output(v) {
        Ok(t) => Ok(RenderedView::Block(t)),
        Err(m) => Err(m),
    }
}

// ---------------------------------------------------------------------------
// Results
// ---------------------------------------------------------------------------

/// How a command's result is shown: `columns` pick and order the fields of
/// table and TSV rows; JSON, TOON and NDJSON show the complete value.
pub open spec fn result_output(v: JsonView, columns: Seq<Seq<char>>, format: OutputFormat) -> Result<
    RenderedView,
    Seq<char>,
> {
    match format {
        OutputFormat::Json => Ok(RenderedView::Block(json_pretty_text(v))),
        OutputFormat::Table => Ok(RenderedView::Block(table_block(v, columns))),
        OutputFormat::Tsv => Ok(
            RenderedView::Lines(rows_of(v).map_values(|row: JsonView| tsv_line(row, columns))),
        ),
        OutputFormat::Toon => toon_rendered(v),
        OutputFormat::Ndjson => Ok(RenderedView::Ndjson(ndjson_lines(v))),
    }
}

/// Renders a single object or a list of objects.
pub fn render_result(value: &Json, columns: &[&str], format: OutputFormat) -> (r: Result<
    Rendered,
    OutputError,
>)
    ensures
        match (r, result_output(value@, cols(columns), format)) {
            (Ok(x), Ok(y)) => x@ == y,
            (Err(e), Err(m)) => e.message@ == m,
            _ => false,
        },
{
    match format {
        OutputFormat::Json => Ok(Rendered::Block(to_json_pretty(value))),
        OutputFormat::Table => Ok(Rendered::Block(table_of(value, columns))),
        OutputFormat::Tsv => Ok(Rendered::Lines(tsv_lines(value, columns))),
        OutputFormat::Toon => toon_block(value),
        OutputFormat::Ndjson => Ok(Rendered::Ndjson(ndjson_of(value))),
    }
}

/// How a schema-less value (the `api` command's response) is shown: there
/// is no column set, so table and TSV fall back to pretty JSON.
pub open spec fn raw_output(v: JsonView, format: OutputFormat) -> Result<RenderedView, Seq<char>> {
    match format {
        OutputFormat::Toon => toon_rendered(v),
        OutputFormat::Ndjson => Ok(RenderedView::Ndjson(ndjson_lines(v))),
        _ => Ok(RenderedView::Block(json_pretty_text(v))),
    }
}

/// Renders a schema-less value.
pub fn render_raw(value: &Json, format: OutputFormat) -> (r: Result<Rendered, OutputError>)
    ensures
        match (r, raw_output(value@, format)) {
            (Ok(x), Ok(y)) => x@ == y,
            (Err(e), Err(m)) => e.message@ == m,
            _ => false,
        },
{
    match format {
        OutputFormat::Toon => toon_block(value),
        OutputFormat::Ndjson => Ok(Rendered::Ndjson(ndjson_of(value))),
        _ => Ok(Rendered::Block(to_json_pretty(value))),
    }
}

// ---------------------------------------------------------------------------
// Dry runs
// ---------------------------------------------------------------------------

/// The body shown in a dry-run preview: the parsed body, or `null` when
/// there is none or it is not JSON.
pub open spec fn preview_body(body: Option<Seq<char>>) -> JsonView {
    match body {
        Some(b) => match json_parse(b) {
            Ok(v) => v,
            Err(_) => JsonView::Null,
        },
        None => JsonView::Null,
    }
}

/// The structured preview `{dry_run, method, path, body}`.
pub open spec fn preview_object(method: Seq<char>, path: Seq<char>, body: JsonView) -> JsonView {
    JsonView::Object(
        seq![
            ("dry_run"@, JsonView::Bool(true)),
            ("method"@, JsonView::Str(method)),
            ("path"@, JsonView::Str(path)),
            ("body"@, body),
        ],
    )
}

/// What `--dry-run` prints in place of sending a request.
pub open spec fn dry_run_output(
    method: Seq<char>,
    path: Seq<char>,
    body: Option<Seq<char>>,
    format: OutputFormat,
) -> Result<RenderedView, Seq<char>> {
    let b = preview_body(body);
    let obj = preview_object(method, path, b);
    match format {
        OutputFormat::Json => Ok(RenderedView::Block(json_pretty_text(obj))),
        OutputFormat::Toon => toon_rendered(obj),
        OutputFormat::Ndjson => Ok(RenderedView::Ndjson(seq![json_text(obj)])),
        OutputFormat::Table => {
            let first = "DRY RUN -- would send: "@ + method + " "@ + path;
            if b == JsonView::Null {
                Ok(RenderedView::Lines(seq![first]))
            } else {
                Ok(RenderedView::Lines(seq![first, json_pretty_text(b)]))
            }
        },
        OutputFormat::Tsv => Ok(RenderedView::Lines(seq!["dry_run\t"@ + method + "\t"@ + path])),
    }
}

/// The preview of a request that `--dry-run` keeps from being sent.
pub fn render_dry_run(method: &str, path: &str, body: Option<&str>, format: OutputFormat) -> (r:
    Result<Rendered, OutputError>)
    ensures
        match (r, dry_run_output(
            method@,
            path@,
            match body {
                Some(b) => Some(b@),
                None => None,
            },
            format,
        )) {
            (Ok(x), Ok(y)) => x@ == y,
            (Err(e), Err(m)) => e.message@ == m,
            _ => false,
        },
{
    let body_value = match body {
        Some(b) => match parse_json(b) {
            Ok(v) => v,
            Err(_) => Json::Null,
        },
        None => Json::Null,
    };
    let body_null = body_value.is_null();
    let body_pretty = to_json_pretty(&body_value);
    let mut entries: Vec<(String, Json)> = Vec::new();
    entries.push((owned("dry_run"), Json::Bool(true)));
    entries.push((owned("method"), Json::string(method)));
    entries.push((owned("path"), Json::string(path)));
    entries.push((owned("body"), body_value));
    proof {
        lemma_object_view(&entries);
        reveal_strlit("dry_run");
        reveal_strlit("method");
        reveal_strlit("path");
        reveal_strlit("body");
    }
    let obj = Json::Object(entries);
    assert(obj@ == preview_object(
        method@,
        path@,
        preview_body(
            match body {
                Some(b) => Some(b@),
                None => None,
            },
        ),
    )) by {
        assert(Seq::new(entries@.len(), |i: int| (entries@[i].0@, entries@[i].1@)) =~= seq![
            ("dry_run"@, JsonView::Bool(true)),
            ("method"@, JsonView::Str(method@)),
            ("path"@, JsonView::Str(path@)),
            ("body"@, entries@[3].1@),
        ]);
    }
    match format {
        OutputFormat::Json => Ok(Rendered::Block(to_json_pretty(&obj))),
        OutputFormat::Toon => toon_block(&obj),
        OutputFormat::Ndjson => {
            let mut lines: Vec<String> = Vec::new();
            lines.push(to_json_text(&obj));
            assert(strs(lines@) =~= seq![json_text(obj@)]);
            Ok(Rendered::Ndjson(lines))
        },
        OutputFormat::Table => {
            let first = concat4("DRY RUN -- would send: ", method, " ", path);
            let mut lines: Vec<String> = Vec::new();
            lines.push(first);
            if !body_null {
                lines.push(body_pretty);
            }
            assert(strs(lines@) =~= (if body_null {
                seq![lines@[0]@]
            } else {
                seq![lines@[0]@, lines@[1]@]
            }));
            Ok(Rendered::Lines(lines))
        },
        OutputFormat::Tsv => {
            let a = concat3("dry_run\t", method, "\t");
            let mut lines: Vec<String> = Vec::new();
            lines.push(concat2(a.as_str(), path));
            assert(strs(lines@) =~= seq![lines@[0]@]);
            Ok(Rendered::Lines(lines))
        },
    }
}

// ---------------------------------------------------------------------------
// Errors
// ---------------------------------------------------------------------------

/// The structured error object `{"error": message}`.
pub open spec fn error_object(message: Seq<char>) -> JsonView {
    JsonView::Object(seq![("error"@, JsonView::Str(message))])
}

/// How a failed command reports `message` on stderr: a JSON object for
/// json/ndjson, the same object as TOON for toon (plain text if that fails),
/// and `Error: message` for table/tsv.
pub open spec fn error_output(message: Seq<char>, format: OutputFormat) -> Seq<char> {
    match format {
        OutputFormat::Json | OutputFormat::Ndjson => json_text(error_object(message)),
        OutputFormat::Toon => match toon_output(error_object(message)) {
            Ok(t) => t,
            Err(_) => "Error: "@ + message,
        },
        _ => "Error: "@ + message,
    }
}

/// The text a failed command writes to stderr.
pub fn render_error(message: &str, format: OutputFormat) -> (r: String)
    ensures
        r@ == error_output(message@, format),
{
    let mut entries: Vec<(String, Json)> = Vec::new();
    entries.push((owned("error"), Json::string(message)));
    proof {
        lemma_object_view(&entries);
        assert(Seq::new(entries@.len(), |i: int| (entries@[i].0@, entries@[i].1@)) =~= seq![
            ("error"@, JsonView::Str(message@)),
        ]);
    }
    let obj = Json::Object(entries);
    match format {
        OutputFormat::Json | OutputFormat::Ndjson => to_json_text(&obj),
        OutputFormat::Toon => match toon_text(&obj) {
            Ok(t) => t,
            Err(_) => concat2("Error: ", message),
        },
        _ => concat2("Error: ", message),
    }
}

} // verus!
