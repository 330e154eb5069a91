//! Parsers for the output of the `jj` commands that the backend runs.

use vstd::prelude::*;

use crate::text::{
    append_str, char_is_alphanumeric, chars_of, concat2, decimal, push_decimal, find_first, first_index, first_match, is_alphanumeric,
    find_first_in, is_ascii_upper, is_blank, is_char, lemma_first_match, lemma_first_match_props,
    starts_with, starts_with_at, lines_of, lines_spec, seqs_view, split_chars,
    split_on, string_from, string_of, strings_of, trim, trim_bounds,
};
use crate::types::{
    ChangeDetail, ChangeDetailV, DiffHunk, DiffHunkV, DiffLine, DiffLineKind, DiffLineV,
    FileChange, FileChangeV, FileStatus, GraphData, GraphLine, GraphLineV, OpLogEntry,
    OpLogEntryV, strings_view,
};

verus! {

/// Separator between display text and metadata in template output.
pub const UNIT_SEP: char = '\x1F';

/// Separator between fields within metadata.
pub const RECORD_SEP: char = '\x1E';

// ---------------------------------------------------------------------------
// Graph glyphs and file summary lines
// ---------------------------------------------------------------------------

/// Characters that `jj log` draws as graph glyphs before a line's content:
/// spaces, `|`, `-`, `@`, `~`, and the box-drawing/symbol characters whose
/// UTF-8 encoding starts with the byte `0xE2` (U+2000..U+2FFF).
pub open spec fn is_glyph(c: char) -> bool {
    ||| c == ' '
    ||| c == '|'
    ||| c == '-'
    ||| c == '@'
    ||| c == '~'
    ||| ('\u{2000}' <= c && c <= '\u{2FFF}')
}

pub open spec fn not_glyph() -> spec_fn(char) -> bool {
    |c: char| !is_glyph(c)
}

/// Number of leading glyph characters of `s`.
pub open spec fn glyph_count(s: Seq<char>) -> int {
    match first_match(s, not_glyph()) {
        Some(k) => k,
        None => s.len() as int,
    }
}

/// `s` without its leading graph glyphs.
pub open spec fn strip_glyphs(s: Seq<char>) -> Seq<char> {
    s.skip(glyph_count(s))
}

fn is_glyph_exec(c: char) -> (b: bool)
    ensures
        b == is_glyph(c),
{
    c == ' ' || c == '|' || c == '-' || c == '@' || c == '~' || ('\u{2000}' <= c && c
        <= '\u{2FFF}')
}

/// Position of the first non-glyph character of `s`.
fn glyph_end(s: &Vec<char>) -> (r: usize)
    ensures
        r == glyph_count(s@),
        r <= s@.len(),
{
    let mut i: usize = 0;
    while i < s.len() && is_glyph_exec(s[i])
        invariant
            i <= s@.len(),
            forall|k: int| 0 <= k < i ==> is_glyph(#[trigger] s@[k]),
        decreases s@.len() - i,
    {
        i += 1;
    }
    proof {
        let f = not_glyph();
        if i < s@.len() {
            lemma_first_match(s@, f, Some(i as int));
        } else {
            lemma_first_match(s@, f, None);
        }
    }
    i
}

/// Strip leading graph glyphs from a line to get the content.
pub fn strip_graph_glyphs(line: &str) -> (r: String)
    ensures
        r@ == strip_glyphs(line@),
{
    let cs = chars_of(line);
    let g = glyph_end(&cs);
    let r = string_from(&cs, g, cs.len());
    assert(cs@.subrange(g as int, cs@.len() as int) =~= cs@.skip(g as int));
    r
}

/// The status that a summary line's status letter stands for.
pub open spec fn status_for(c: char) -> FileStatus {
    if c == 'A' {
        FileStatus::Added
    } else if c == 'M' {
        FileStatus::Modified
    } else if c == 'D' {
        FileStatus::Deleted
    } else if c == 'R' {
        FileStatus::Renamed
    } else {
        FileStatus::Unknown(c)
    }
}

fn status_for_exec(c: char) -> (s: FileStatus)
    ensures
        s == status_for(c),
{
    if c == 'A' {
        FileStatus::Added
    } else if c == 'M' {
        FileStatus::Modified
    } else if c == 'D' {
        FileStatus::Deleted
    } else if c == 'R' {
        FileStatus::Renamed
    } else {
        FileStatus::Unknown(c)
    }
}

/// A continuation line read as a file summary: after the glyphs, an ASCII
/// uppercase status letter, a space, and the path (trimmed).
pub open spec fn file_line_spec(line: Seq<char>) -> Option<FileChangeV> {
    let c = strip_glyphs(line);
    if c.len() >= 2 && is_ascii_upper(c[0]) && c[1] == ' ' {
        Some(FileChangeV { path: trim(c.skip(1)), status: status_for(c[0]) })
    } else {
        None
    }
}

pub open spec fn opt_file_view(o: Option<FileChange>) -> Option<FileChangeV> {
    match o {
        Some(f) => Some(f@),
        None => None,
    }
}

fn file_line_chars(cs: &Vec<char>) -> (r: Option<FileChange>)
    ensures
        opt_file_view(r) == file_line_spec(cs@),
{
    let g = glyph_end(cs);
    let ghost c = strip_glyphs(cs@);
    assert(c =~= cs@.skip(g as int));
    if cs.len() - g < 2 {
        return None;
    }
    let first = cs[g];
    if !('A' <= first && first <= 'Z') || cs[g + 1] != ' ' {
        return None;
    }
    let (lo, hi) = trim_bounds(cs, g + 1, cs.len());
    let path = string_from(cs, lo, hi);
    assert(cs@.subrange(g + 1, cs@.len() as int) =~= c.skip(1));
    Some(FileChange { path, status: status_for_exec(first) })
}

/// Try to parse a continuation line as a file change summary.
pub fn parse_file_line(raw_line: &str) -> (r: Option<FileChange>)
    ensures
        opt_file_view(r) == file_line_spec(raw_line@),
{
    let cs = chars_of(raw_line);
    file_line_chars(&cs)
}

// ---------------------------------------------------------------------------
// Graph output
// ---------------------------------------------------------------------------

/// The state built up while reading `jj log` output line by line.
pub struct GraphFold {
    pub lines: Seq<GraphLineV>,
    pub details: Seq<(Seq<char>, ChangeDetailV)>,
    pub wc: Option<int>,
}

pub open spec fn opt_int(o: Option<usize>) -> Option<int> {
    match o {
        Some(u) => Some(u as int),
        None => None,
    }
}

/// Why graph output was rejected.
pub enum GraphFailure {
    MissingFields(Seq<Seq<char>>),
    DuplicateChangeId(Seq<char>),
    NoChangeNodes(nat),
}

/// Why `jj log` output could not be read.
#[derive(Debug, Clone, PartialEq)]
pub enum GraphParseError {
    /// A node line carried fewer than ten metadata fields.
    MissingFields { fields: Vec<String> },
    /// Two node lines carried the same change ID.
    DuplicateChangeId { change_id: String },
    /// Non-blank output held no node line at all.
    NoChangeNodes { lines: usize },
}

impl View for GraphParseError {
    type V = GraphFailure;

    open spec fn view(&self) -> GraphFailure {
        match self {
            GraphParseError::MissingFields { fields } => GraphFailure::MissingFields(
                strings_of(fields@),
            ),
            GraphParseError::DuplicateChangeId { change_id } => GraphFailure::DuplicateChangeId(
                change_id@,
            ),
            GraphParseError::NoChangeNodes { lines } => GraphFailure::NoChangeNodes(*lines as nat),
        }
    }
}

pub open spec fn has_key(details: Seq<(Seq<char>, ChangeDetailV)>, id: Seq<char>) -> bool {
    exists|i: int| 0 <= i < details.len() && (#[trigger] details[i]).0 == id
}

pub open spec fn is_alnum() -> spec_fn(char) -> bool {
    |c: char| char_is_alphanumeric(c)
}

/// Length of the glyph prefix of a node line's display text: everything
/// before the first alphanumeric character (the whole text when there is
/// none).
pub open spec fn prefix_len(display: Seq<char>) -> int {
    match first_match(display, is_alnum()) {
        Some(k) => k,
        None => display.len() as int,
    }
}

/// The detail that a node line's metadata fields describe.
pub open spec fn detail_from_fields(fields: Seq<Seq<char>>) -> ChangeDetailV {
    ChangeDetailV {
        commit_id: fields[1],
        author: fields[2],
        email: fields[3],
        timestamp: fields[4],
        description: fields[5],
        bookmarks: if fields[6].len() == 0 {
            Seq::empty()
        } else {
            split_on(fields[6], ' ')
        },
        is_empty: fields[7] == "true"@,
        conflict_count: if fields[8] == "true"@ {
            1
        } else {
            0
        },
        files: Seq::empty(),
        parents: Seq::empty(),
    }
}

/// Reading a node line whose metadata starts after position `p`.
pub open spec fn node_step(acc: GraphFold, line: Seq<char>, p: int) -> Result<
    GraphFold,
    GraphFailure,
> {
    let display = line.take(p);
    let fields = split_on(line.skip(p + 1), RECORD_SEP);
    if fields.len() < 10 {
        Err(GraphFailure::MissingFields(fields))
    } else if has_key(acc.details, fields[0]) {
        Err(GraphFailure::DuplicateChangeId(fields[0]))
    } else {
        Ok(
            GraphFold {
                lines: acc.lines.push(
                    GraphLineV {
                        raw: display,
                        change_id: Some(fields[0]),
                        glyph_prefix: display.take(prefix_len(display)),
                    },
                ),
                details: acc.details.push((fields[0], detail_from_fields(fields))),
                wc: if fields[9].len() > 0 {
                    Some(acc.lines.len() as int)
                } else {
                    acc.wc
                },
            },
        )
    }
}

/// `acc` with `f` added to the files of the most recent change.
pub open spec fn attach_file(acc: GraphFold, f: FileChangeV) -> GraphFold {
    if acc.details.len() == 0 {
        acc
    } else {
        let last = acc.details.last();
        let d = last.1;
        GraphFold {
            details: acc.details.update(
                acc.details.len() - 1,
                (last.0, ChangeDetailV { files: d.files.push(f), ..d }),
            ),
            ..acc
        }
    }
}

/// Reading one line of `jj log` output: a node line (it holds the unit
/// separator), a file summary line (attached to the latest change), or a
/// connector line kept verbatim.
pub open spec fn graph_step(acc: GraphFold, line: Seq<char>) -> Result<GraphFold, GraphFailure> {
    match first_index(line, UNIT_SEP) {
        Some(p) => node_step(acc, line, p),
        None => match file_line_spec(line) {
            Some(f) => Ok(attach_file(acc, f)),
            None => Ok(
                GraphFold {
                    lines: acc.lines.push(
                        GraphLineV { raw: line, change_id: None, glyph_prefix: line },
                    ),
                    ..acc
                },
            ),
        },
    }
}

pub open spec fn graph_fold(ls: Seq<Seq<char>>) -> Result<GraphFold, GraphFailure>
    decreases ls.len(),
{
    if ls.len() == 0 {
        Ok(GraphFold { lines: Seq::empty(), details: Seq::empty(), wc: None })
    } else {
        match graph_fold(ls.drop_last()) {
            Ok(acc) => graph_step(acc, ls.last()),
            Err(e) => Err(e),
        }
    }
}

/// What reading the whole `jj log` output gives.
pub open spec fn parse_graph_spec(output: Seq<char>) -> Result<GraphFold, GraphFailure> {
    match graph_fold(lines_spec(output)) {
        Ok(acc) => if trim(output).len() > 0 && acc.details.len() == 0 {
            Err(GraphFailure::NoChangeNodes(acc.lines.len()))
        } else {
            Ok(acc)
        },
        Err(e) => Err(e),
    }
}

pub open spec fn lines_view(v: Seq<GraphLine>) -> Seq<GraphLineV> {
    v.map_values(|l: GraphLine| l@)
}

pub open spec fn details_view(v: Seq<(String, ChangeDetail)>) -> Seq<(Seq<char>, ChangeDetailV)> {
    v.map_values(|p: (String, ChangeDetail)| (p.0@, p.1@))
}

/// The fold state that graph data stands for.
pub open spec fn fold_of(g: GraphData) -> GraphFold {
    GraphFold {
        lines: lines_view(g.lines@),
        details: details_view(g.details@),
        wc: opt_int(g.working_copy_index),
    }
}

/// What every fold state reached from the empty one satisfies: node lines
/// and details come in the same order with the same IDs, IDs are
/// distinct, and the working-copy index points at a node line.
pub open spec fn fold_consistent(acc: GraphFold) -> bool {
    &&& forall|i: int, j: int|
        0 <= i < j < acc.details.len() ==> (#[trigger] acc.details[i]).0 != (
        #[trigger] acc.details[j]).0
    &&& forall|i: int|
        0 <= i < acc.lines.len() && (#[trigger] acc.lines[i]).change_id is Some ==> has_key(
            acc.details,
            acc.lines[i].change_id->0,
        )
    &&& match acc.wc {
        Some(w) => 0 <= w < acc.lines.len() && acc.lines[w].change_id is Some,
        None => true,
    }
}

proof fn lemma_step_consistent(acc: GraphFold, line: Seq<char>)
    requires
        fold_consistent(acc),
    ensures
        graph_step(acc, line) matches Ok(next) ==> fold_consistent(next),
{
    lemma_first_match_props(line, is_char(UNIT_SEP));
    match graph_step(acc, line) {
        Ok(next) => {
            match first_index(line, UNIT_SEP) {
                Some(p) => {
                    let fields = split_on(line.skip(p + 1), RECORD_SEP);
                    let n = acc.details.len();
                    assert(!has_key(acc.details, fields[0]));
                    assert(next.details == acc.details.push((fields[0], detail_from_fields(fields))));
                    assert forall|i: int, j: int|
                        0 <= i < j < next.details.len() implies (#[trigger] next.details[i]).0 != (
                        #[trigger] next.details[j]).0 by {
                        if j == n {
                            assert(next.details[i] == acc.details[i]);
                        } else {
                            assert(next.details[i] == acc.details[i]);
                            assert(next.details[j] == acc.details[j]);
                        }
                    }
                    assert forall|i: int|
                        0 <= i < next.lines.len() && (#[trigger] next.lines[i]).change_id is Some implies has_key(
                        next.details,
                        next.lines[i].change_id->0,
                    ) by {
                        if i < acc.lines.len() {
                            assert(next.lines[i] == acc.lines[i]);
                            let w = choose|w: int|
                                0 <= w < acc.details.len() && (#[trigger] acc.details[w]).0
                                    == acc.lines[i].change_id->0;
                            assert(next.details[w] == acc.details[w]);
                        } else {
                            assert(next.details[n as int].0 == fields[0]);
                        }
                    }
                },
                None => {
                    match file_line_spec(line) {
                        Some(f) => {
                            if acc.details.len() > 0 {
                                let n = acc.details.len();
                                assert forall|i: int| 0 <= i < n implies (#[trigger] next.details[i]).0
                                    == acc.details[i].0 by {}
                                assert forall|i: int, j: int|
                                    0 <= i < j < next.details.len() implies (
                                    #[trigger] next.details[i]).0 != (#[trigger] next.details[j]).0 by {
                                    assert(next.details[i].0 == acc.details[i].0);
                                    assert(next.details[j].0 == acc.details[j].0);
                                }
                                assert forall|i: int|
                                    0 <= i < next.lines.len() && (
                                    #[trigger] next.lines[i]).change_id is Some implies has_key(
                                    next.details,
                                    next.lines[i].change_id->0,
                                ) by {
                                    let w = choose|w: int|
                                        0 <= w < acc.details.len() && (#[trigger] acc.details[w]).0
                                            == acc.lines[i].change_id->0;
                                    assert(next.details[w].0 == acc.details[w].0);
                                }
                            }
                        },
                        None => {
                            assert forall|i: int|
                                0 <= i < next.lines.len() && (#[trigger] next.lines[i]).change_id is Some implies has_key(
                                next.details,
                                next.lines[i].change_id->0,
                            ) by {
                                assert(i < acc.lines.len());
                                assert(next.lines[i] == acc.lines[i]);
                            }
                        },
                    }
                },
            }
        },
        Err(_) => {},
    }
}

proof fn lemma_fold_err_sticks(ls: Seq<Seq<char>>, k: int, e: GraphFailure)
    requires
        0 <= k <= ls.len(),
        graph_fold(ls.take(k)) == Err::<GraphFold, GraphFailure>(e),
    ensures
        graph_fold(ls) == Err::<GraphFold, GraphFailure>(e),
    decreases ls.len() - k,
{
    if k == ls.len() {
        assert(ls.take(k) =~= ls);
    } else {
        assert(ls.take(k + 1).drop_last() =~= ls.take(k));
        lemma_fold_err_sticks(ls, k + 1, e);
    }
}

proof fn lemma_fold_consistent(ls: Seq<Seq<char>>)
    ensures
        graph_fold(ls) matches Ok(acc) ==> fold_consistent(acc),
    decreases ls.len(),
{
    if ls.len() > 0 {
        lemma_fold_consistent(ls.drop_last());
        match graph_fold(ls.drop_last()) {
            Ok(acc) => lemma_step_consistent(acc, ls.last()),
            Err(_) => {},
        }
    }
}

/// Exec counterpart of `has_key` over `done` followed by `pending`.
fn key_taken(
    done: &Vec<(String, ChangeDetail)>,
    pending: &Option<(String, ChangeDetail)>,
    id: &String,
) -> (b: bool)
    ensures
        b == has_key(details_view(done@) + pending_view(*pending), id@),
{
    let ghost all = details_view(done@) + pending_view(*pending);
    let mut i: usize = 0;
    while i < done.len()
        invariant
            i <= done@.len(),
            all == details_view(done@) + pending_view(*pending),
            forall|k: int| 0 <= k < i ==> (#[trigger] all[k]).0 != id@,
        decreases done@.len() - i,
    {
        if done[i].0 == *id {
            assert(all[i as int].0 == id@);
            return true;
        }
        i += 1;
    }
    match pending {
        Some(p) => {
            if p.0 == *id {
                assert(all[done@.len() as int].0 == id@);
                return true;
            }
        },
        None => {},
    }
    assert forall|k: int| 0 <= k < all.len() implies (#[trigger] all[k]).0 != id@ by {
        if k >= done@.len() {
            assert(pending is Some);
        }
    }
    false
}

pub open spec fn pending_view(p: Option<(String, ChangeDetail)>) -> Seq<(Seq<char>, ChangeDetailV)> {
    match p {
        Some(x) => seq![(x.0@, x.1@)],
        None => Seq::empty(),
    }
}

/// Position of the first alphanumeric character of `s[..hi]`, or `hi`.
fn glyph_prefix_end(s: &Vec<char>, hi: usize) -> (r: usize)
    requires
        hi <= s@.len(),
    ensures
        r == prefix_len(s@.take(hi as int)),
        r <= hi,
{
    let ghost d = s@.take(hi as int);
    let mut i: usize = 0;
    while i < hi
        invariant
            i <= hi <= s@.len(),
            d == s@.take(hi as int),
            forall|k: int| 0 <= k < i ==> !char_is_alphanumeric(#[trigger] d[k]),
        decreases hi - i,
    {
        if is_alphanumeric(s[i]) {
            proof {
                lemma_first_match(d, is_alnum(), Some(i as int));
            }
            return i;
        }
        i += 1;
    }
    proof {
        lemma_first_match(d, is_alnum(), None);
    }
    hi
}

fn clone_string(s: &String) -> (r: String)
    ensures
        r@ == s@,
{
    s.clone()
}

/// The fields of a node line, read into a detail.
fn detail_from(fields: &Vec<String>) -> (d: ChangeDetail)
    requires
        fields@.len() >= 10,
    ensures
        d@ == detail_from_fields(strings_of(fields@)),
{
    let ghost fv = strings_of(fields@);
    let bm_chars = chars_of(fields[6].as_str());
    let bookmarks: Vec<String> = if bm_chars.len() == 0 {
        Vec::new()
    } else {
        split_chars(&bm_chars, 0, bm_chars.len(), ' ')
    };
    assert(bm_chars@.subrange(0, bm_chars@.len() as int) =~= bm_chars@);
    let t = String::from_str("true");
    let is_empty = fields[7] == t;
    let conflicted = fields[8] == t;
    let d = ChangeDetail {
        commit_id: clone_string(&fields[1]),
        author: clone_string(&fields[2]),
        email: clone_string(&fields[3]),
        timestamp: clone_string(&fields[4]),
        description: clone_string(&fields[5]),
        bookmarks,
        is_empty,
        conflict_count: if conflicted {
            1
        } else {
            0
        },
        files: Vec::new(),
        parents: Vec::new(),
    };
    assert(d.files@.map_values(|f: FileChange| f@) =~= Seq::<FileChangeV>::empty());
    assert(strings_view(d.parents@) =~= Seq::<Seq<char>>::empty());
    assert(bm_chars@.len() == 0 ==> strings_view(d.bookmarks@) =~= Seq::<Seq<char>>::empty());
    d
}

/// Parse the raw output of `jj log` with our custom template into `GraphData`.
///
/// Every node line's change ID has a detail, the working-copy index (when
/// present) points at a node line, and change IDs are distinct.
pub fn parse_graph_output(output: &str, op_id: String) -> (r: Result<GraphData, GraphParseError>)
    ensures
        match r {
            Ok(g) => {
                &&& parse_graph_spec(output@) == Ok::<GraphFold, GraphFailure>(fold_of(g))
                &&& g.wf()
                &&& g.op_id == op_id
                &&& fold_consistent(fold_of(g))
            },
            Err(e) => parse_graph_spec(output@) == Err::<GraphFold, GraphFailure>(e@),
        },
{
    let cs = chars_of(output);
    let ls = lines_of(&cs);
    let ghost lsv = seqs_view(ls@);
    let mut lines: Vec<GraphLine> = Vec::new();
    let mut done: Vec<(String, ChangeDetail)> = Vec::new();
    let mut pending: Option<(String, ChangeDetail)> = None;
    let mut wc: Option<usize> = None;
    let mut k: usize = 0;
    assert(lsv.take(0) =~= Seq::<Seq<char>>::empty());
    assert(lines_view(lines@) =~= Seq::<GraphLineV>::empty());
    assert(details_view(done@) + pending_view(pending) =~= Seq::<(Seq<char>, ChangeDetailV)>::empty());
    while k < ls.len()
        invariant
            k <= ls@.len(),
            lsv == seqs_view(ls@),
            lsv == lines_spec(cs@),
            cs@ == output@,
            pending is None ==> done@.len() == 0,
            graph_fold(lsv.take(k as int)) == Ok::<GraphFold, GraphFailure>(
                GraphFold {
                    lines: lines_view(lines@),
                    details: details_view(done@) + pending_view(pending),
                    wc: opt_int(wc),
                },
            ),
            lines@.len() <= k,
        decreases ls@.len() - k,
    {
        let line = &ls[k];
        let ghost acc = GraphFold {
            lines: lines_view(lines@),
            details: details_view(done@) + pending_view(pending),
            wc: opt_int(wc),
        };
        assert(lsv.take(k + 1).drop_last() =~= lsv.take(k as int));
        assert(lsv.take(k + 1).last() == line@);
        match find_first(line, UNIT_SEP) {
            Some(p) => {
                let n = line.len();
                let fields = split_chars(line, p + 1, n, RECORD_SEP);
                assert(line@.subrange(p + 1, line@.len() as int) =~= line@.skip(p + 1));
                let ghost fv = strings_of(fields@);
                if fields.len() < 10 {
                    let e = GraphParseError::MissingFields { fields };
                    assert(e@ == GraphFailure::MissingFields(fv));
                    assert(graph_step(acc, line@) == Err::<GraphFold, GraphFailure>(e@));
                    assert(graph_fold(lsv.take(k + 1)) == Err::<GraphFold, GraphFailure>(e@));
                    proof {
                        lemma_fold_err_sticks(lsv, k + 1, e@);
                    }
                    assert(parse_graph_spec(output@) == Err::<GraphFold, GraphFailure>(e@));
                    return Err(e);
                }
                let change_id = clone_string(&fields[0]);
                if key_taken(&done, &pending, &change_id) {
                    assert(fv[0] == change_id@);
                    assert(has_key(acc.details, fv[0]));
                    assert(fv == split_on(line@.skip(p + 1), RECORD_SEP));
                    assert(graph_step(acc, line@) == Err::<GraphFold, GraphFailure>(GraphFailure::DuplicateChangeId(fv[0])));
                    let e = GraphParseError::DuplicateChangeId { change_id };
                    proof {
                        lemma_fold_err_sticks(lsv, k + 1, e@);
                    }
                    return Err(e);
                }
                let detail = detail_from(&fields);
                let display = string_from(line, 0, p);
                assert(line@.subrange(0, p as int) =~= line@.take(p as int));
                let ge = glyph_prefix_end(line, p);
                let glyph_prefix = string_from(line, 0, ge);
                assert(line@.subrange(0, ge as int) =~= line@.take(p as int).take(ge as int));
                let fields9 = chars_of(fields[9].as_str());
                let index = lines.len();
                if fields9.len() > 0 {
                    wc = Some(index);
                }
                let ghost old_lines = lines@;
                lines.push(
                    GraphLine { raw: display, change_id: Some(clone_string(&change_id)), glyph_prefix },
                );
                assert(lines_view(lines@) =~= lines_view(old_lines).push(lines@.last()@));
                let ghost old_all = details_view(done@) + pending_view(pending);
                match pending.take() {
                    Some(prev) => {
                        let ghost od = done@;
                        done.push(prev);
                        assert(details_view(done@) =~= details_view(od).push((prev.0@, prev.1@)));
                    },
                    None => {},
                }
                pending = Some((change_id, detail));
                assert(details_view(done@) + pending_view(pending) =~= old_all.push(
                    (fields[0]@, detail@),
                ));
                assert(lines@.last()@ == GraphLineV {
                        raw: line@.take(p as int),
                        change_id: Some(fv[0]),
                        glyph_prefix: line@.take(p as int).take(prefix_len(line@.take(p as int))),
                    });
                assert(graph_step(acc, line@) == Ok::<GraphFold, GraphFailure>(GraphFold {
                    lines: lines_view(lines@),
                    details: details_view(done@) + pending_view(pending),
                    wc: opt_int(wc),
                }));
            },
            None => {
                match file_line_chars(line) {
                    Some(fc) => {
                        match pending.take() {
                            Some(prev) => {
                                let (pid, mut pd) = prev;
                                let ghost old_pd = pd@;
                                let ghost ofiles = pd.files@;
                                pd.files.push(fc);
                                assert(pd.files@.map_values(|f: FileChange| f@) =~= ofiles.map_values(
                                    |f: FileChange| f@,
                                ).push(fc@));
                                assert(pd@ == ChangeDetailV {
                                    files: old_pd.files.push(fc@),
                                    ..old_pd
                                });
                                pending = Some((pid, pd));
                                assert(details_view(done@) + pending_view(pending) =~= attach_file(
                                    acc,
                                    fc@,
                                ).details);
                                assert(first_index(line@, UNIT_SEP) is None);
                                assert(file_line_spec(line@) == Some(fc@));
                                assert(graph_step(acc, line@) == Ok::<GraphFold, GraphFailure>(GraphFold {
                                    lines: lines_view(lines@),
                                    details: details_view(done@) + pending_view(pending),
                                    wc: opt_int(wc),
                                }));
                            },
                            None => {
                                assert(acc.details.len() == 0);
                            },
                        }
                    },
                    None => {
                        let raw = string_of(line);
                        let glyph_prefix = string_of(line);
                        let ghost old_lines = lines@;
                        lines.push(GraphLine { raw, change_id: None, glyph_prefix });
                        assert(lines_view(lines@) =~= lines_view(old_lines).push(
                            lines@.last()@,
                        ));
                        assert(graph_step(acc, line@) == Ok::<GraphFold, GraphFailure>(GraphFold {
                            lines: lines_view(lines@),
                            details: details_view(done@) + pending_view(pending),
                            wc: opt_int(wc),
                        }));
                    },
                }
            },
        }
        k += 1;
    }
    assert(lsv.take(ls@.len() as int) =~= lsv);
    let ghost final_all = details_view(done@) + pending_view(pending);
    match pending.take() {
        Some(prev) => {
            let ghost od = done@;
            done.push(prev);
            assert(details_view(done@) =~= details_view(od).push((prev.0@, prev.1@)));
        },
        None => {},
    }
    assert(details_view(done@) =~= final_all);
    if !is_blank(&cs) && done.len() == 0 {
        return Err(GraphParseError::NoChangeNodes { lines: lines.len() });
    }
    proof {
        lemma_fold_consistent(lsv);
        assert(fold_consistent(GraphFold { lines: lines_view(lines@), details: details_view(done@), wc: opt_int(wc) }));
        assert forall|i: int, j: int| 0 <= i < j < done@.len() implies (#[trigger] done@[i]).0@ != (
        #[trigger] done@[j]).0@ by {
            assert(details_view(done@)[i].0 == done@[i].0@);
            assert(details_view(done@)[j].0 == done@[j].0@);
        }
    }
    let g = GraphData::new(lines, done, wc, op_id);
    Ok(g)
}

} // verus!

verus! {

// ---------------------------------------------------------------------------
// Diff output
// ---------------------------------------------------------------------------

/// The state built up while reading `jj diff --git` output line by line.
pub struct DiffFold {
    pub hunks: Seq<DiffHunkV>,
    pub current: Option<DiffHunkV>,
    pub header: Seq<DiffLineV>,
}

/// A line inside a hunk: `+` added, `-` removed, ` ` context (prefix
/// dropped); anything else is context kept whole.
pub open spec fn hunk_line(line: Seq<char>) -> DiffLineV {
    if line.len() > 0 && line[0] == '+' {
        DiffLineV { kind: DiffLineKind::Added, content: line.skip(1) }
    } else if line.len() > 0 && line[0] == '-' {
        DiffLineV { kind: DiffLineKind::Removed, content: line.skip(1) }
    } else if line.len() > 0 && line[0] == ' ' {
        DiffLineV { kind: DiffLineKind::Context, content: line.skip(1) }
    } else {
        DiffLineV { kind: DiffLineKind::Context, content: line }
    }
}

pub open spec fn closed_hunks(acc: DiffFold) -> Seq<DiffHunkV> {
    match acc.current {
        Some(h) => acc.hunks.push(h),
        None => acc.hunks,
    }
}

/// Reading one diff line: `@@` opens a hunk; other lines join the open
/// hunk, or, before the first hunk, the header lines.
pub open spec fn diff_step(acc: DiffFold, line: Seq<char>) -> DiffFold {
    if starts_with(line, seq!['@', '@']) {
        DiffFold {
            hunks: closed_hunks(acc),
            current: Some(DiffHunkV { header: line, lines: Seq::empty() }),
            header: acc.header,
        }
    } else {
        match acc.current {
            Some(h) => DiffFold {
                current: Some(DiffHunkV { header: h.header, lines: h.lines.push(hunk_line(line)) }),
                ..acc
            },
            None => DiffFold {
                header: acc.header.push(DiffLineV { kind: DiffLineKind::Header, content: line }),
                ..acc
            },
        }
    }
}

pub open spec fn diff_fold(ls: Seq<Seq<char>>) -> DiffFold
    decreases ls.len(),
{
    if ls.len() == 0 {
        DiffFold { hunks: Seq::empty(), current: None, header: Seq::empty() }
    } else {
        diff_step(diff_fold(ls.drop_last()), ls.last())
    }
}

/// The hunks of a git-format diff. When there is no `@@` hunk but there are
/// header lines (chmod-only, binary, pure rename), one hunk with an empty
/// header holds those lines.
pub open spec fn parse_diff_spec(output: Seq<char>) -> Seq<DiffHunkV> {
    let acc = diff_fold(lines_spec(output));
    let hs = closed_hunks(acc);
    if hs.len() == 0 && acc.header.len() > 0 {
        seq![DiffHunkV { header: Seq::empty(), lines: acc.header }]
    } else {
        hs
    }
}

pub open spec fn hunks_view(v: Seq<DiffHunk>) -> Seq<DiffHunkV> {
    v.map_values(|h: DiffHunk| h@)
}

pub open spec fn diff_lines_view(v: Seq<DiffLine>) -> Seq<DiffLineV> {
    v.map_values(|l: DiffLine| l@)
}

pub open spec fn opt_hunk_view(o: Option<DiffHunk>) -> Option<DiffHunkV> {
    match o {
        Some(h) => Some(h@),
        None => None,
    }
}

fn hunk_line_exec(line: &Vec<char>) -> (d: DiffLine)
    ensures
        d@ == hunk_line(line@),
{
    let n = line.len();
    if n > 0 && (line[0] == '+' || line[0] == '-' || line[0] == ' ') {
        let kind = if line[0] == '+' {
            DiffLineKind::Added
        } else if line[0] == '-' {
            DiffLineKind::Removed
        } else {
            DiffLineKind::Context
        };
        let content = string_from(line, 1, n);
        assert(line@.subrange(1, n as int) =~= line@.skip(1));
        DiffLine { kind, content }
    } else {
        DiffLine { kind: DiffLineKind::Context, content: string_of(line) }
    }
}

/// Parse git-format diff output into hunks.
///
/// Pre-`@@` header lines (`diff --git`, `index`, `new file mode`, etc.) are
/// collected. If the diff has no `@@` hunks (chmod-only, binary, pure rename),
/// a single hunk with these header lines is returned so the user sees something
/// rather than "(empty diff)". Reading never fails.
pub fn parse_diff_output(output: &str) -> (r: Result<Vec<DiffHunk>, String>)
    ensures
        r matches Ok(hs) && hunks_view(hs@) == parse_diff_spec(output@),
{
    let cs = chars_of(output);
    let ls = lines_of(&cs);
    let ghost lsv = seqs_view(ls@);
    let at_at: Vec<char> = vec!['@', '@'];
    let mut hunks: Vec<DiffHunk> = Vec::new();
    let mut current: Option<DiffHunk> = None;
    let mut header: Vec<DiffLine> = Vec::new();
    let mut k: usize = 0;
    assert(lsv.take(0) =~= Seq::<Seq<char>>::empty());
    assert(hunks_view(hunks@) =~= Seq::<DiffHunkV>::empty());
    assert(diff_lines_view(header@) =~= Seq::<DiffLineV>::empty());
    while k < ls.len()
        invariant
            k <= ls@.len(),
            lsv == seqs_view(ls@),
            lsv == lines_spec(output@),
            at_at@ == seq!['@', '@'],
            diff_fold(lsv.take(k as int)) == (DiffFold {
                hunks: hunks_view(hunks@),
                current: opt_hunk_view(current),
                header: diff_lines_view(header@),
            }),
        decreases ls@.len() - k,
    {
        let line = &ls[k];
        assert(lsv.take(k + 1).drop_last() =~= lsv.take(k as int));
        assert(lsv.take(k + 1).last() == line@);
        if starts_with_at(line, 0, &at_at) {
            assert(line@.skip(0) =~= line@);
            match current.take() {
                Some(h) => {
                    let ghost oh = hunks@;
                    hunks.push(h);
                    assert(hunks_view(hunks@) =~= hunks_view(oh).push(h@));
                },
                None => {},
            }
            let nh = DiffHunk { header: string_of(line), lines: Vec::new() };
            assert(diff_lines_view(nh.lines@) =~= Seq::<DiffLineV>::empty());
            current = Some(nh);
        } else {
            assert(line@.skip(0) =~= line@);
            match current.take() {
                Some(h) => {
                    let DiffHunk { header: hh, lines: mut hl } = h;
                    let ghost ol = hl@;
                    let dl = hunk_line_exec(line);
                    hl.push(dl);
                    assert(diff_lines_view(hl@) =~= diff_lines_view(ol).push(dl@));
                    current = Some(DiffHunk { header: hh, lines: hl });
                },
                None => {
                    let ghost oh = header@;
                    header.push(DiffLine { kind: DiffLineKind::Header, content: string_of(line) });
                    assert(diff_lines_view(header@) =~= diff_lines_view(oh).push(header@.last()@));
                },
            }
        }
        k += 1;
    }
    assert(lsv.take(ls@.len() as int) =~= lsv);
    match current.take() {
        Some(h) => {
            let ghost oh = hunks@;
            hunks.push(h);
            assert(hunks_view(hunks@) =~= hunks_view(oh).push(h@));
        },
        None => {},
    }
    if hunks.len() == 0 && header.len() > 0 {
        let only = DiffHunk { header: String::new(), lines: header };
        let mut out: Vec<DiffHunk> = Vec::new();
        out.push(only);
        assert(hunks_view(out@) =~= seq![only@]);
        return Ok(out);
    }
    Ok(hunks)
}

// ---------------------------------------------------------------------------
// Operation log output
// ---------------------------------------------------------------------------

/// Why `jj op log` output was rejected.
pub enum OpLogFailure {
    MissingFields(Seq<Seq<char>>),
    NoEntries,
}

/// Why `jj op log` output could not be read.
#[derive(Debug, Clone, PartialEq)]
pub enum OpLogParseError {
    /// An entry line carried fewer than two fields after its ID.
    MissingFields { fields: Vec<String> },
    /// Non-blank output held no entry line.
    NoEntries,
}

impl View for OpLogParseError {
    type V = OpLogFailure;

    open spec fn view(&self) -> OpLogFailure {
        match self {
            OpLogParseError::MissingFields { fields } => OpLogFailure::MissingFields(
                strings_of(fields@),
            ),
            OpLogParseError::NoEntries => OpLogFailure::NoEntries,
        }
    }
}

/// Reading one op log line (trimmed): blank lines and lines without the
/// unit separator are skipped; others are `<id>\x1f<description>\x1e<timestamp>`.
pub open spec fn op_step(acc: Seq<OpLogEntryV>, raw: Seq<char>) -> Result<
    Seq<OpLogEntryV>,
    OpLogFailure,
> {
    let line = trim(raw);
    match first_index(line, UNIT_SEP) {
        Some(p) => {
            let fields = split_on(line.skip(p + 1), RECORD_SEP);
            if fields.len() < 2 {
                Err(OpLogFailure::MissingFields(fields))
            } else {
                Ok(
                    acc.push(
                        OpLogEntryV { id: line.take(p), description: fields[0], timestamp: fields[1] },
                    ),
                )
            }
        },
        None => Ok(acc),
    }
}

pub open spec fn op_fold(ls: Seq<Seq<char>>) -> Result<Seq<OpLogEntryV>, OpLogFailure>
    decreases ls.len(),
{
    if ls.len() == 0 {
        Ok(Seq::empty())
    } else {
        match op_fold(ls.drop_last()) {
            Ok(acc) => op_step(acc, ls.last()),
            Err(e) => Err(e),
        }
    }
}

/// Whether some line of `ls` is not blank.
pub open spec fn any_nonblank(ls: Seq<Seq<char>>) -> bool {
    exists|i: int| 0 <= i < ls.len() && trim(#[trigger] ls[i]).len() > 0
}

/// What reading the whole `jj op log` output gives.
pub open spec fn parse_op_log_spec(output: Seq<char>) -> Result<Seq<OpLogEntryV>, OpLogFailure> {
    let ls = lines_spec(output);
    match op_fold(ls) {
        Ok(es) => if es.len() == 0 && any_nonblank(ls) {
            Err(OpLogFailure::NoEntries)
        } else {
            Ok(es)
        },
        Err(e) => Err(e),
    }
}

pub open spec fn entries_view(v: Seq<OpLogEntry>) -> Seq<OpLogEntryV> {
    v.map_values(|e: OpLogEntry| e@)
}

proof fn lemma_op_err_sticks(ls: Seq<Seq<char>>, k: int, e: OpLogFailure)
    requires
        0 <= k <= ls.len(),
        op_fold(ls.take(k)) == Err::<Seq<OpLogEntryV>, OpLogFailure>(e),
    ensures
        op_fold(ls) == Err::<Seq<OpLogEntryV>, OpLogFailure>(e),
    decreases ls.len() - k,
{
    if k == ls.len() {
        assert(ls.take(k) =~= ls);
    } else {
        assert(ls.take(k + 1).drop_last() =~= ls.take(k));
        lemma_op_err_sticks(ls, k + 1, e);
    }
}

/// Parse the raw output of `jj op log` with our custom template into a list
/// of `OpLogEntry`.
///
/// Expected line format: `<id>\x1f<description>\x1e<timestamp>`.
pub fn parse_op_log_output(output: &str) -> (r: Result<Vec<OpLogEntry>, OpLogParseError>)
    ensures
        match r {
            Ok(es) => parse_op_log_spec(output@) == Ok::<Seq<OpLogEntryV>, OpLogFailure>(
                entries_view(es@),
            ),
            Err(e) => parse_op_log_spec(output@) == Err::<Seq<OpLogEntryV>, OpLogFailure>(e@),
        },
{
    let cs = chars_of(output);
    let ls = lines_of(&cs);
    let ghost lsv = seqs_view(ls@);
    let mut entries: Vec<OpLogEntry> = Vec::new();
    let mut nonblank = false;
    let mut k: usize = 0;
    assert(lsv.take(0) =~= Seq::<Seq<char>>::empty());
    assert(entries_view(entries@) =~= Seq::<OpLogEntryV>::empty());
    while k < ls.len()
        invariant
            k <= ls@.len(),
            lsv == seqs_view(ls@),
            lsv == lines_spec(output@),
            op_fold(lsv.take(k as int)) == Ok::<Seq<OpLogEntryV>, OpLogFailure>(
                entries_view(entries@),
            ),
            nonblank == any_nonblank(lsv.take(k as int)),
        decreases ls@.len() - k,
    {
        let line = &ls[k];
        let ghost acc = entries_view(entries@);
        assert(lsv.take(k + 1).drop_last() =~= lsv.take(k as int));
        assert(lsv.take(k + 1).last() == line@);
        let n = line.len();
        let (lo, hi) = trim_bounds(line, 0, n);
        assert(line@.subrange(0, n as int) =~= line@);
        let ghost t = trim(line@);
        proof {
            let pre = lsv.take(k as int);
            let post = lsv.take(k + 1);
            if lo < hi {
                assert(trim(post[k as int]).len() > 0);
            } else {
                assert forall|i: int|
                    0 <= i < post.len() && trim(#[trigger] post[i]).len() > 0 implies trim(
                    pre[i],
                ).len() > 0 by {
                    if i == k {
                        assert(false);
                    } else {
                        assert(post[i] == pre[i]);
                    }
                }
                assert forall|i: int|
                    0 <= i < pre.len() && trim(#[trigger] pre[i]).len() > 0 implies trim(
                    post[i],
                ).len() > 0 by {
                    assert(post[i] == pre[i]);
                }
            }
        }
        if lo < hi {
            nonblank = true;
        }
        match find_first_in(line, lo, hi, UNIT_SEP) {
            Some(p) => {
                let fields = split_chars(line, lo + p + 1, hi, RECORD_SEP);
                assert(line@.subrange((lo + p + 1) as int, hi as int) =~= t.skip(p + 1));
                if fields.len() < 2 {
                    let e = OpLogParseError::MissingFields { fields };
                    assert(op_fold(lsv.take(k + 1)) == Err::<Seq<OpLogEntryV>, OpLogFailure>(e@));
                    proof {
                        lemma_op_err_sticks(lsv, k + 1, e@);
                    }
                    return Err(e);
                }
                let id = string_from(line, lo, lo + p);
                assert(line@.subrange(lo as int, (lo + p) as int) =~= t.take(p as int));
                let entry = OpLogEntry {
                    id,
                    description: clone_string(&fields[0]),
                    timestamp: clone_string(&fields[1]),
                };
                let ghost oe = entries@;
                entries.push(entry);
                assert(entries_view(entries@) =~= entries_view(oe).push(entry@));
            },
            None => {},
        }
        k += 1;
    }
    assert(lsv.take(ls@.len() as int) =~= lsv);
    if entries.len() == 0 && nonblank {
        return Err(OpLogParseError::NoEntries);
    }
    Ok(entries)
}

} // verus!

verus! {

// ---------------------------------------------------------------------------
// Messages
// ---------------------------------------------------------------------------

/// What `format!("{:?}", v)` gives for a list of strings.
pub uninterp spec fn debug_strings_repr(v: Seq<Seq<char>>) -> Seq<char>;

/// The `Debug` rendering of a list of strings.
///
/// Trusted wrapper around `format!("{:?}", v)`; the result is named
/// `debug_strings_repr` and depends on the strings alone.
#[verifier::external_body]
fn debug_strings(v: &Vec<String>) -> (s: String)
    ensures
        s@ == debug_strings_repr(strings_of(v@)),
{
    format!("{:?}", v)
}

/// The text of a graph parse error.
pub open spec fn graph_error_text(e: GraphFailure) -> Seq<char> {
    match e {
        GraphFailure::MissingFields(fields) => "Expected 10 metadata fields, got "@ + decimal(
            fields.len(),
        ) + ": "@ + debug_strings_repr(fields),
        GraphFailure::DuplicateChangeId(id) => "Duplicate short change ID '"@ + id
            + "'. This may indicate a truncation collision."@,
        GraphFailure::NoChangeNodes(n) => "Parsed "@ + decimal(n)
            + " lines of jj output but found zero change nodes. The jj template output format may have changed."@,
    }
}

impl GraphParseError {
    /// The human-readable message for this error.
    pub fn message(&self) -> (m: String)
        ensures
            m@ == graph_error_text(self@),
    {
        match self {
            GraphParseError::MissingFields { fields } => {
                let mut m = String::from_str("Expected 10 metadata fields, got ");
                push_decimal(&mut m, fields.len());
                append_str(&mut m, ": ");
                let d = debug_strings(fields);
                append_str(&mut m, d.as_str());
                m
            },
            GraphParseError::DuplicateChangeId { change_id } => {
                let mut m = String::from_str("Duplicate short change ID '");
                append_str(&mut m, change_id.as_str());
                append_str(&mut m, "'. This may indicate a truncation collision.");
                m
            },
            GraphParseError::NoChangeNodes { lines } => {
                let mut m = String::from_str("Parsed ");
                push_decimal(&mut m, *lines);
                append_str(
                    &mut m,
                    " lines of jj output but found zero change nodes. The jj template output format may have changed.",
                );
                m
            },
        }
    }
}

/// The text of an op log parse error.
pub open spec fn op_log_error_text(e: OpLogFailure) -> Seq<char> {
    match e {
        OpLogFailure::MissingFields(fields) => "Expected at least 2 op log fields after id, got "@
            + decimal(fields.len()) + ": "@ + debug_strings_repr(fields),
        OpLogFailure::NoEntries => "Parsed op log output but found zero entries. The jj op log template output format may have changed."@,
    }
}

impl OpLogParseError {
    /// The human-readable message for this error.
    pub fn message(&self) -> (m: String)
        ensures
            m@ == op_log_error_text(self@),
    {
        match self {
            OpLogParseError::MissingFields { fields } => {
                let mut m = String::from_str("Expected at least 2 op log fields after id, got ");
                push_decimal(&mut m, fields.len());
                append_str(&mut m, ": ");
                let d = debug_strings(fields);
                append_str(&mut m, d.as_str());
                m
            },
            OpLogParseError::NoEntries => String::from_str(
                "Parsed op log output but found zero entries. The jj op log template output format may have changed.",
            ),
        }
    }
}

/// The first line of `text` (empty when there is none), cut to 47
/// characters followed by `...` when it is longer than 50 characters.
pub open spec fn preview_spec(text: Seq<char>) -> Seq<char> {
    let ls = lines_spec(text);
    let first = if ls.len() > 0 {
        ls[0]
    } else {
        Seq::empty()
    };
    if first.len() > 50 {
        first.take(47) + "..."@
    } else {
        first
    }
}

/// Truncate text to its first line, capped at 50 chars, for status bar display.
pub fn first_line_preview(text: &str) -> (r: String)
    ensures
        r@ == preview_spec(text@),
{
    let cs = chars_of(text);
    let ls = lines_of(&cs);
    let ghost lsv = seqs_view(ls@);
    let first: Vec<char> = if ls.len() > 0 {
        let mut v: Vec<char> = Vec::new();
        let src = &ls[0];
        let mut i: usize = 0;
        while i < src.len()
            invariant
                i <= src@.len(),
                v@ == src@.take(i as int),
            decreases src@.len() - i,
        {
            v.push(src[i]);
            assert(src@.take(i + 1) =~= src@.take(i as int).push(src@[i as int]));
            i += 1;
        }
        assert(src@.take(src@.len() as int) =~= src@);
        v
    } else {
        Vec::new()
    };
    if first.len() > 50 {
        let mut r = string_from(&first, 0, 47);
        append_str(&mut r, "...");
        assert(first@.subrange(0, 47) =~= first@.take(47));
        r
    } else {
        string_of(&first)
    }
}

// ---------------------------------------------------------------------------
// jj commands
// ---------------------------------------------------------------------------

/// What a `jj` command run reports: stderr when it is not empty (jj prints
/// its human-readable feedback there), else stdout; both trimmed. A failed
/// run reports the same text as its error.
pub open spec fn jj_outcome_spec(success: bool, stdout: Seq<char>, stderr: Seq<char>) -> Result<
    Seq<char>,
    Seq<char>,
> {
    let text = if trim(stderr).len() == 0 {
        trim(stdout)
    } else {
        trim(stderr)
    };
    if success {
        Ok(text)
    } else {
        Err(text)
    }
}

/// Interprets the result of running a `jj` command.
pub fn jj_outcome(success: bool, stdout: &str, stderr: &str) -> (r: Result<String, String>)
    ensures
        match r {
            Ok(s) => jj_outcome_spec(success, stdout@, stderr@) == Ok::<Seq<char>, Seq<char>>(s@),
            Err(s) => jj_outcome_spec(success, stdout@, stderr@) == Err::<Seq<char>, Seq<char>>(
                s@,
            ),
        },
{
    let out = chars_of(stdout);
    let err = chars_of(stderr);
    let (olo, ohi) = trim_bounds(&out, 0, out.len());
    let (elo, ehi) = trim_bounds(&err, 0, err.len());
    assert(out@.subrange(0, out@.len() as int) =~= out@);
    assert(err@.subrange(0, err@.len() as int) =~= err@);
    let text = if elo == ehi {
        string_from(&out, olo, ohi)
    } else {
        string_from(&err, elo, ehi)
    };
    if success {
        Ok(text)
    } else {
        Err(text)
    }
}

/// A mutation that the backend performs by running `jj`.
#[derive(Debug, Clone, PartialEq)]
pub enum JjMutation {
    Describe { change_id: String, text: String },
    New { after: String },
    Edit { change_id: String },
    Abandon { change_id: String },
    Squash { change_id: String },
    Undo,
    Redo,
    BookmarkSet { change_id: String, name: String },
    BookmarkDelete { name: String },
    GitPush { bookmark: String },
    GitFetch,
}

/// The arguments of the `jj` command that performs `m`.
pub open spec fn jj_args_spec(m: JjMutation) -> Seq<Seq<char>> {
    match m {
        JjMutation::Describe { change_id, text } => seq!["describe"@, change_id@, "-m"@, text@],
        // --insert-after rebases children onto the new change, inserting into
        // the stack rather than forking it.
        JjMutation::New { after } => seq!["new"@, "--insert-after"@, after@],
        JjMutation::Edit { change_id } => seq!["edit"@, change_id@],
        JjMutation::Abandon { change_id } => seq!["abandon"@, change_id@],
        // `-u` keeps the destination's description instead of opening an editor.
        JjMutation::Squash { change_id } => seq!["squash"@, "-r"@, change_id@, "-u"@],
        JjMutation::Undo => seq!["undo"@],
        JjMutation::Redo => seq!["redo"@],
        JjMutation::BookmarkSet { change_id, name } => seq![
            "bookmark"@,
            "set"@,
            name@,
            "-r"@,
            change_id@,
        ],
        JjMutation::BookmarkDelete { name } => seq!["bookmark"@, "delete"@, name@],
        JjMutation::GitPush { bookmark } => seq!["git"@, "push"@, "--bookmark"@, bookmark@],
        JjMutation::GitFetch => seq!["git"@, "fetch"@],
    }
}

/// The status message shown after `m` succeeded.
pub open spec fn jj_message_spec(m: JjMutation) -> Seq<char> {
    match m {
        JjMutation::Describe { change_id, text } => "Described "@ + change_id@ + ": \""@
            + preview_spec(text@) + "\""@,
        JjMutation::New { after } => "Created new change after "@ + after@,
        JjMutation::Edit { change_id } => "Now editing "@ + change_id@,
        JjMutation::Abandon { change_id } => "Abandoned "@ + change_id@,
        JjMutation::Squash { change_id } => "Squashed "@ + change_id@ + " into parent"@,
        JjMutation::Undo => "Undid last operation"@,
        JjMutation::Redo => "Redid last operation"@,
        JjMutation::BookmarkSet { change_id, name } => "Set bookmark \""@ + name@ + "\" on "@
            + change_id@,
        JjMutation::BookmarkDelete { name } => "Deleted bookmark \""@ + name@ + "\""@,
        JjMutation::GitPush { bookmark } => "Pushed "@ + bookmark@,
        JjMutation::GitFetch => "Fetched from remote"@,
    }
}

fn lit(t: &str) -> (r: String)
    ensures
        r@ == t@,
{
    String::from_str(t)
}

impl JjMutation {
    /// The arguments of the `jj` command that performs this mutation.
    pub fn args(&self) -> (a: Vec<String>)
        ensures
            strings_of(a@) == jj_args_spec(*self),
    {
        let a: Vec<String> = match self {
            JjMutation::Describe { change_id, text } => vec![
                lit("describe"),
                clone_string(change_id),
                lit("-m"),
                clone_string(text),
            ],
            JjMutation::New { after } => vec![lit("new"), lit("--insert-after"), clone_string(after)],
            JjMutation::Edit { change_id } => vec![lit("edit"), clone_string(change_id)],
            JjMutation::Abandon { change_id } => vec![lit("abandon"), clone_string(change_id)],
            JjMutation::Squash { change_id } => vec![
                lit("squash"),
                lit("-r"),
                clone_string(change_id),
                lit("-u"),
            ],
            JjMutation::Undo => vec![lit("undo")],
            JjMutation::Redo => vec![lit("redo")],
            JjMutation::BookmarkSet { change_id, name } => vec![
                lit("bookmark"),
                lit("set"),
                clone_string(name),
                lit("-r"),
                clone_string(change_id),
            ],
            JjMutation::BookmarkDelete { name } => vec![
                lit("bookmark"),
                lit("delete"),
                clone_string(name),
            ],
            JjMutation::GitPush { bookmark } => vec![
                lit("git"),
                lit("push"),
                lit("--bookmark"),
                clone_string(bookmark),
            ],
            JjMutation::GitFetch => vec![lit("git"), lit("fetch")],
        };
        assert(strings_of(a@) =~= jj_args_spec(*self));
        a
    }

    /// The status message shown after this mutation succeeded.
    pub fn success_message(&self) -> (m: String)
        ensures
            m@ == jj_message_spec(*self),
    {
        match self {
            JjMutation::Describe { change_id, text } => {
                let mut m = lit("Described ");
                append_str(&mut m, change_id.as_str());
                append_str(&mut m, ": \"");
                let p = first_line_preview(text.as_str());
                append_str(&mut m, p.as_str());
                append_str(&mut m, "\"");
                m
            },
            JjMutation::New { after } => concat2("Created new change after ", after.as_str()),
            JjMutation::Edit { change_id } => concat2("Now editing ", change_id.as_str()),
            JjMutation::Abandon { change_id } => concat2("Abandoned ", change_id.as_str()),
            JjMutation::Squash { change_id } => {
                let mut m = concat2("Squashed ", change_id.as_str());
                append_str(&mut m, " into parent");
                m
            },
            JjMutation::Undo => lit("Undid last operation"),
            JjMutation::Redo => lit("Redid last operation"),
            JjMutation::BookmarkSet { change_id, name } => {
                let mut m = concat2("Set bookmark \"", name.as_str());
                append_str(&mut m, "\" on ");
                append_str(&mut m, change_id.as_str());
                m
            },
            JjMutation::BookmarkDelete { name } => {
                let mut m = concat2("Deleted bookmark \"", name.as_str());
                append_str(&mut m, "\"");
                m
            },
            JjMutation::GitPush { bookmark } => concat2("Pushed ", bookmark.as_str()),
            JjMutation::GitFetch => lit("Fetched from remote"),
        }
    }
}


/// The backend that runs the `jj` command line in a workspace.
pub struct JjCliBackend {
    /// Absolute path to the workspace root (from `jj root`).
    pub workspace_root: String,
}

/// The workspace root that `jj root` printed: its output without the
/// whitespace around it.
pub fn workspace_root_from_output(output: &str) -> (r: String)
    ensures
        r@ == trim(output@),
{
    let v = chars_of(output);
    let (lo, hi) = trim_bounds(&v, 0, v.len());
    assert(v@.subrange(0, v@.len() as int) =~= v@);
    string_from(&v, lo, hi)
}

impl JjCliBackend {
    /// A backend for the workspace whose root `jj root` reported.
    pub fn with_root(workspace_root: String) -> (b: Self)
        ensures
            b.workspace_root == workspace_root,
    {
        JjCliBackend { workspace_root }
    }

    /// Returns the workspace root path.
    pub fn workspace_root(&self) -> (r: &str)
        ensures
            r@ == self.workspace_root@,
    {
        self.workspace_root.as_str()
    }
}

/// The `jj log` template: the display text, then (after a unit separator)
/// the ten record-separated metadata fields that `parse_graph_output` reads.
pub open spec fn graph_template() -> Seq<char> {
    "change_id.short() ++ \" \" ++ coalesce(author.name(), \"anonymous\") ++ \" \" ++ committer.timestamp().ago() ++ \"\\x1f\" ++ change_id.short() ++ \"\\x1e\" ++ commit_id.short() ++ \"\\x1e\" ++ coalesce(author.name(), \"\") ++ \"\\x1e\" ++ coalesce(author.email(), \"\") ++ \"\\x1e\" ++ committer.timestamp().ago() ++ \"\\x1e\" ++ coalesce(description.first_line(), \"\") ++ \"\\x1e\" ++ bookmarks ++ \"\\x1e\" ++ empty ++ \"\\x1e\" ++ conflict ++ \"\\x1e\" ++ if(self.current_working_copy(), \"@\", \"\") ++ \"\\n\""@
}

/// The `jj op log` template: ID, then description and time.
pub open spec fn op_log_template() -> Seq<char> {
    "self.id().short(8) ++ \"\\x1f\" ++ description ++ \"\\x1e\" ++ self.time().start().ago() ++ \"\\n\""@
}

/// The arguments of the `jj log` command that loads the graph (of the
/// default revset, or of `revset`).
pub open spec fn log_args_spec(revset: Option<Seq<char>>) -> Seq<Seq<char>> {
    seq!["log"@, "--summary"@, "--color=never"@, "-T"@, graph_template()] + match revset {
        Some(r) => seq!["-r"@, r],
        None => Seq::empty(),
    }
}

/// The arguments of the `jj log` command that loads the graph.
pub fn log_args(revset: Option<&str>) -> (a: Vec<String>)
    ensures
        strings_of(a@) == log_args_spec(match revset {
            Some(r) => Some(r@),
            None => None,
        }),
{
    let mut a: Vec<String> = vec![
        lit("log"),
        lit("--summary"),
        lit("--color=never"),
        lit("-T"),
        lit("change_id.short() ++ \" \" ++ coalesce(author.name(), \"anonymous\") ++ \" \" ++ committer.timestamp().ago() ++ \"\\x1f\" ++ change_id.short() ++ \"\\x1e\" ++ commit_id.short() ++ \"\\x1e\" ++ coalesce(author.name(), \"\") ++ \"\\x1e\" ++ coalesce(author.email(), \"\") ++ \"\\x1e\" ++ committer.timestamp().ago() ++ \"\\x1e\" ++ coalesce(description.first_line(), \"\") ++ \"\\x1e\" ++ bookmarks ++ \"\\x1e\" ++ empty ++ \"\\x1e\" ++ conflict ++ \"\\x1e\" ++ if(self.current_working_copy(), \"@\", \"\") ++ \"\\n\""),
    ];
    match revset {
        Some(r) => {
            a.push(lit("-r"));
            a.push(lit(r));
        },
        None => {},
    }
    assert(strings_of(a@) =~= log_args_spec(match revset {
        Some(r) => Some(r@),
        None => None,
    }));
    a
}

/// The arguments of the `jj op log` command that reads the current
/// operation's ID.
pub open spec fn op_id_args_spec() -> Seq<Seq<char>> {
    seq!["op"@, "log"@, "--limit=1"@, "--no-graph"@, "-T"@, "self.id().short(16)"@]
}

/// The arguments of the `jj op log` command that reads the current
/// operation's ID.
pub fn op_id_args() -> (a: Vec<String>)
    ensures
        strings_of(a@) == op_id_args_spec(),
{
    let a = vec![
        lit("op"),
        lit("log"),
        lit("--limit=1"),
        lit("--no-graph"),
        lit("-T"),
        lit("self.id().short(16)"),
    ];
    assert(strings_of(a@) =~= op_id_args_spec());
    a
}

/// The arguments of the `jj op log` command that loads the operation log.
pub open spec fn op_log_args_spec() -> Seq<Seq<char>> {
    seq!["op"@, "log"@, "--no-graph"@, "--color=never"@, "-T"@, op_log_template()]
}

/// The arguments of the `jj op log` command that loads the operation log.
pub fn op_log_args() -> (a: Vec<String>)
    ensures
        strings_of(a@) == op_log_args_spec(),
{
    let a = vec![
        lit("op"),
        lit("log"),
        lit("--no-graph"),
        lit("--color=never"),
        lit("-T"),
        lit("self.id().short(8) ++ \"\\x1f\" ++ description ++ \"\\x1e\" ++ self.time().start().ago() ++ \"\\n\""),
    ];
    assert(strings_of(a@) =~= op_log_args_spec());
    a
}

/// The arguments of the `jj diff` command for `path` in `change_id`.
pub open spec fn diff_args_spec(change_id: Seq<char>, path: Seq<char>) -> Seq<Seq<char>> {
    seq!["diff"@, "-r"@, change_id, "--git"@, "--color=never"@, path]
}

/// The arguments of the `jj diff` command for `path` in `change_id`.
pub fn diff_args(change_id: &str, path: &str) -> (a: Vec<String>)
    ensures
        strings_of(a@) == diff_args_spec(change_id@, path@),
{
    let a = vec![lit("diff"), lit("-r"), lit(change_id), lit("--git"), lit("--color=never"), lit(path)];
    assert(strings_of(a@) =~= diff_args_spec(change_id@, path@));
    a
}

} // verus!
