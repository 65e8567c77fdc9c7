//! The UUIDs a batch-capable command (`delete`, or a bodyless action like
//! `stop`) operates on: the ones given as arguments, or else one per stdin
//! line, where a line may be a bare UUID or a JSON object with a `uuid`
//! field (so `list --format ndjson` output can be piped straight in).
//! Reading stdin, and checking whether it is a terminal, is the caller's
//! job.

use vstd::prelude::*;
use crate::json::{json_parse, parse_json, str_field, Json, JsonView};
use crate::text::{chars_of, concat2, owned, string_of, trim, trim_chars};

verus! {

/// `s` split at every newline (the pieces hold no newline; a trailing
/// newline leaves an empty last piece).
pub open spec fn split_lines(s: Seq<char>) -> Seq<Seq<char>>
    decreases s.len(),
{
    if s.len() == 0 {
        seq![Seq::<char>::empty()]
    } else if s.last() == '\n' {
        split_lines(s.drop_last()).push(Seq::empty())
    } else {
        let t = split_lines(s.drop_last());
        t.update(t.len() - 1, t.last().push(s.last()))
    }
}

proof fn lemma_split_lines_nonempty(s: Seq<char>)
    ensures
        split_lines(s).len() >= 1,
    decreases s.len(),
{
    if s.len() > 0 {
        lemma_split_lines_nonempty(s.drop_last());
    }
}

/// The views of a vector of strings.
pub open spec fn strs(v: Seq<String>) -> Seq<Seq<char>> {
    v.map_values(|s: String| s@)
}

/// Splits `s` at every newline.
pub fn split_on_newlines(s: &str) -> (r: Vec<String>)
    ensures
        strs(r@) == split_lines(s@),
{
    let cs = chars_of(s);
    let mut done: Vec<String> = Vec::new();
    let mut cur: Vec<char> = Vec::new();
    let mut i: usize = 0;
    assert(s@.take(0) =~= Seq::<char>::empty());
    while i < cs.len()
        invariant
            cs@ == s@,
            i <= cs@.len(),
            strs(done@).push(cur@) == split_lines(s@.take(i as int)),
        decreases cs@.len() - i,
    {
        let c = cs[i];
        let ghost before = s@.take(i as int);
        assert(s@.take(i + 1).drop_last() =~= before);
        proof {
            lemma_split_lines_nonempty(before);
        }
        if c == '\n' {
            let line = string_of(&cur);
            done.push(line);
            cur = Vec::new();
            assert(strs(done@).push(cur@) =~= split_lines(before).push(Seq::empty()));
        } else {
            let ghost old_done = strs(done@);
            cur.push(c);
            assert(strs(done@).push(cur@) =~= split_lines(before).update(
                split_lines(before).len() - 1,
                split_lines(before).last().push(c),
            ));
        }
        i = i + 1;
    }
    let last = string_of(&cur);
    done.push(last);
    assert(s@.take(cs@.len() as int) =~= s@);
    assert(strs(done@) =~= split_lines(s@));
    done
}

/// Why no UUIDs could be collected.
#[derive(Debug)]
pub enum BatchError {
    /// No UUIDs were given and stdin is a terminal.
    NoInput,
    /// A stdin line is a JSON object without a string `uuid` (holds the
    /// trimmed line).
    NoUuidField { line: String },
    /// Stdin could not be read as text.
    Unreadable,
}

impl BatchError {
    /// The error's text.
    pub fn message(&self) -> (r: String)
        ensures
            self matches BatchError::NoUuidField { line } ==> r@
                == "stdin line has no string `uuid` field: "@ + line@,
            self matches BatchError::Unreadable ==> r@ == "reading a UUID from stdin"@,
            self matches BatchError::NoInput ==> r@
                == "no UUIDs given, and stdin is a terminal -- pass UUID(s) as arguments, or pipe them in one per line (a bare UUID, or a JSON object with a `uuid` field, e.g. `list --format ndjson`'s own output)"@,
    {
        match self {
            BatchError::NoInput => owned(
                "no UUIDs given, and stdin is a terminal -- pass UUID(s) as arguments, or pipe them in one per line (a bare UUID, or a JSON object with a `uuid` field, e.g. `list --format ndjson`'s own output)",
            ),
            BatchError::NoUuidField { line } => concat2(
                "stdin line has no string `uuid` field: ",
                line.as_str(),
            ),
            BatchError::Unreadable => owned("reading a UUID from stdin"),
        }
    }
}

/// What one trimmed, non-blank line yields: the `uuid` string of a JSON
/// object (an error, holding the line, when it has none), or else the line
/// itself (a bare UUID; a JSON array or scalar is taken literally too).
pub open spec fn uuid_of_line(t: Seq<char>) -> Result<Seq<char>, Seq<char>> {
    match json_parse(t) {
        Ok(JsonView::Object(e)) => match str_field(JsonView::Object(e), "uuid"@) {
            Some(u) => Ok(u),
            None => Err(t),
        },
        _ => Ok(t),
    }
}

/// The UUIDs of `lines`, in order: blank lines (after trimming) are
/// skipped; the first line that yields an error stops the collection.
pub open spec fn uuids_result(lines: Seq<Seq<char>>) -> Result<Seq<Seq<char>>, Seq<char>>
    decreases lines.len(),
{
    if lines.len() == 0 {
        Ok(Seq::empty())
    } else {
        match uuids_result(lines.drop_last()) {
            Err(e) => Err(e),
            Ok(us) => {
                let t = trim(lines.last());
                if t.len() == 0 {
                    Ok(us)
                } else {
                    match uuid_of_line(t) {
                        Err(e) => Err(e),
                        Ok(u) => Ok(us.push(u)),
                    }
                }
            },
        }
    }
}

proof fn lemma_uuids_error_sticks(lines: Seq<Seq<char>>, i: int)
    requires
        0 <= i <= lines.len(),
        uuids_result(lines.take(i)) is Err,
    ensures
        uuids_result(lines) == uuids_result(lines.take(i)),
    decreases lines.len() - i,
{
    if i < lines.len() {
        assert(lines.take(i + 1).drop_last() =~= lines.take(i));
        lemma_uuids_error_sticks(lines, i + 1);
    } else {
        assert(lines.take(i) =~= lines);
    }
}

fn uuid_from_line(t: &str) -> (r: Result<String, BatchError>)
    ensures
        match (r, uuid_of_line(t@)) {
            (Ok(u), Ok(v)) => u@ == v,
            (Err(BatchError::NoUuidField { line }), Err(l)) => line@ == l,
            _ => false,
        },
{
    match parse_json(t) {
        Ok(j) => {
            match &j {
                Json::Object(_) => match j.str_field("uuid") {
                    Some(u) => Ok(u),
                    None => Err(BatchError::NoUuidField { line: owned(t) }),
                },
                _ => Ok(owned(t)),
            }
        },
        Err(_) => Ok(owned(t)),
    }
}

/// The UUIDs in `input` (stdin's text), one per line.
pub fn parse_uuid_lines(input: &str) -> (r: Result<Vec<String>, BatchError>)
    ensures
        match (r, uuids_result(split_lines(input@))) {
            (Ok(us), Ok(vs)) => strs(us@) == vs,
            (Err(BatchError::NoUuidField { line }), Err(l)) => line@ == l,
            _ => false,
        },
{
    let lines = split_on_newlines(input);
    let ghost lv = split_lines(input@);
    let mut uuids: Vec<String> = Vec::new();
    let mut i: usize = 0;
    assert(lv.take(0) =~= Seq::<Seq<char>>::empty());
    assert(strs(uuids@) =~= Seq::<Seq<char>>::empty());
    while i < lines.len()
        invariant
            i <= lines@.len(),
            strs(lines@) == lv,
            lv == split_lines(input@),
            uuids_result(lv.take(i as int)) == Ok::<Seq<Seq<char>>, Seq<char>>(strs(uuids@)),
        decreases lines@.len() - i,
    {
        assert(lv.take(i + 1).drop_last() =~= lv.take(i as int));
        assert(lv.take(i + 1).last() == lines@[i as int]@);
        let cs = chars_of(lines[i].as_str());
        let tc = trim_chars(&cs);
        if tc.len() > 0 {
            let t = string_of(&tc);
            match uuid_from_line(t.as_str()) {
                Ok(u) => {
                    let ghost before = strs(uuids@);
                    uuids.push(u);
                    assert(strs(uuids@) =~= before.push(u@));
                },
                Err(e) => {
                    proof {
                        assert(trim(lv.take(i + 1).last()) == t@);
                        assert(uuids_result(lv.take(i + 1)) == Err::<Seq<Seq<char>>, Seq<char>>(
                            uuid_of_line(t@)->Err_0,
                        ));
                        lemma_uuids_error_sticks(lv, (i + 1) as int);
                    }
                    return Err(e);
                },
            }
        }
        i = i + 1;
    }
    assert(lv.take(lines@.len() as int) =~= lv);
    Ok(uuids)
}

/// The UUIDs to operate on: `explicit` when any were given as arguments;
/// otherwise, when stdin is a terminal, an error (a bare `delete` with
/// nothing piped in is a forgotten argument); otherwise the UUIDs in
/// `stdin` (its text, which the caller reads only in that case).
pub fn resolve_uuids(explicit: Vec<String>, stdin_is_terminal: bool, stdin: Option<&str>) -> (r:
    Result<Vec<String>, BatchError>)
    ensures
        explicit@.len() > 0 ==> (r matches Ok(us) && us@ == explicit@),
        explicit@.len() == 0 && stdin_is_terminal ==> r matches Err(BatchError::NoInput),
        explicit@.len() == 0 && !stdin_is_terminal ==> match (r, uuids_result(
            split_lines(
                match stdin {
                    Some(t) => t@,
                    None => Seq::empty(),
                },
            ),
        )) {
            (Ok(us), Ok(vs)) => strs(us@) == vs,
            (Err(BatchError::NoUuidField { line }), Err(l)) => line@ == l,
            _ => false,
        },
{
    if explicit.len() > 0 {
        return Ok(explicit);
    }
    if stdin_is_terminal {
        return Err(BatchError::NoInput);
    }
    match stdin {
        Some(t) => parse_uuid_lines(t),
        None => {
            let r = parse_uuid_lines("");
            proof {
                reveal_strlit("");
            }
            r
        },
    }
}

} // verus!
