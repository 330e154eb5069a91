use vstd::prelude::*;

verus! {

/// An entry in the jj operation log.
#[derive(Debug, Clone, PartialEq)]
pub struct OpLogEntry {
    pub id: String,
    pub description: String,
    pub timestamp: String,
}

pub struct OpLogEntryV {
    pub id: Seq<char>,
    pub description: Seq<char>,
    pub timestamp: Seq<char>,
}

impl View for OpLogEntry {
    type V = OpLogEntryV;

    open spec fn view(&self) -> OpLogEntryV {
        OpLogEntryV { id: self.id@, description: self.description@, timestamp: self.timestamp@ }
    }
}

/// One line of jj's graph output.
#[derive(Debug, Clone, PartialEq)]
pub struct GraphLine {
    /// The display string (graph glyphs + text), delimiter stripped.
    pub raw: String,
    /// The change ID if this is a node line (first line of a change block).
    /// None for continuation/connector lines.
    pub change_id: Option<String>,
    /// Everything in the display string before the first alphanumeric character.
    /// For node lines this is the graph glyph prefix; for connector lines it is
    /// the entire `raw` string.
    pub glyph_prefix: String,
}

pub struct GraphLineV {
    pub raw: Seq<char>,
    pub change_id: Option<Seq<char>>,
    pub glyph_prefix: Seq<char>,
}

pub open spec fn opt_string_view(o: Option<String>) -> Option<Seq<char>> {
    match o {
        Some(s) => Some(s@),
        None => None,
    }
}

impl View for GraphLine {
    type V = GraphLineV;

    open spec fn view(&self) -> GraphLineV {
        GraphLineV {
            raw: self.raw@,
            change_id: opt_string_view(self.change_id),
            glyph_prefix: self.glyph_prefix@,
        }
    }
}

/// Status of a file changed in a change.
#[derive(Debug, Clone, Copy, PartialEq, Eq)]
pub enum FileStatus {
    Added,
    Modified,
    Deleted,
    /// Rename: path contains `{old => new}` format from jj.
    Renamed,
    Conflicted,
    /// Unknown status code from jj — displayed as-is.
    Unknown(char),
}

impl FileStatus {
    /// The one-letter code shown for this status.
    pub fn code(self) -> (c: char)
        ensures
            c == status_code(self),
    {
        match self {
            FileStatus::Added => 'A',
            FileStatus::Modified => 'M',
            FileStatus::Deleted => 'D',
            FileStatus::Renamed => 'R',
            FileStatus::Conflicted => 'C',
            FileStatus::Unknown(c) => c,
        }
    }
}

/// The one-letter code shown for a status.
pub open spec fn status_code(s: FileStatus) -> char {
    match s {
        FileStatus::Added => 'A',
        FileStatus::Modified => 'M',
        FileStatus::Deleted => 'D',
        FileStatus::Renamed => 'R',
        FileStatus::Conflicted => 'C',
        FileStatus::Unknown(c) => c,
    }
}

/// A file changed in a change (parsed from `jj log --summary`).
#[derive(Debug, Clone, PartialEq)]
pub struct FileChange {
    pub path: String,
    pub status: FileStatus,
}

pub struct FileChangeV {
    pub path: Seq<char>,
    pub status: FileStatus,
}

impl View for FileChange {
    type V = FileChangeV;

    open spec fn view(&self) -> FileChangeV {
        FileChangeV { path: self.path@, status: self.status }
    }
}

/// Detailed info for the status bar.
#[derive(Debug, Clone, PartialEq)]
pub struct ChangeDetail {
    pub commit_id: String,
    pub author: String,
    pub email: String,
    pub timestamp: String,
    pub description: String,
    pub bookmarks: Vec<String>,
    pub is_empty: bool,
    pub conflict_count: usize,
    pub files: Vec<FileChange>,
    pub parents: Vec<String>,
}

pub struct ChangeDetailV {
    pub commit_id: Seq<char>,
    pub author: Seq<char>,
    pub email: Seq<char>,
    pub timestamp: Seq<char>,
    pub description: Seq<char>,
    pub bookmarks: Seq<Seq<char>>,
    pub is_empty: bool,
    pub conflict_count: usize,
    pub files: Seq<FileChangeV>,
    pub parents: Seq<Seq<char>>,
}

pub open spec fn strings_view(v: Seq<String>) -> Seq<Seq<char>> {
    v.map_values(|s: String| s@)
}

impl View for ChangeDetail {
    type V = ChangeDetailV;

    open spec fn view(&self) -> ChangeDetailV {
        ChangeDetailV {
            commit_id: self.commit_id@,
            author: self.author@,
            email: self.email@,
            timestamp: self.timestamp@,
            description: self.description@,
            bookmarks: strings_view(self.bookmarks@),
            is_empty: self.is_empty,
            conflict_count: self.conflict_count,
            files: self.files@.map_values(|f: FileChange| f@),
            parents: strings_view(self.parents@),
        }
    }
}

/// All hunks for a single file in a change's diff.
#[derive(Debug, Clone, PartialEq)]
pub struct FileDiff {
    pub path: String,
    pub hunks: Vec<DiffHunk>,
}

/// User's hunk selection for a single file (sent to backend for split/squash).
#[derive(Debug, Clone, PartialEq)]
pub struct FileHunkSelection {
    pub path: String,
    pub selected_hunks: Vec<usize>,
    pub total_hunks: usize,
}

/// Structured conflict data for a single file.
#[derive(Debug, Clone, PartialEq)]
pub struct ConflictData {
    pub regions: Vec<ConflictRegion>,
}

/// A region of a conflicted file — either resolved content or a conflict hunk.
#[derive(Debug, Clone, PartialEq)]
pub enum ConflictRegion {
    /// Non-conflicting content between conflict hunks.
    Resolved(String),
    /// A single conflict hunk with its three sides.
    /// An empty string for any side means that side deleted the file/region.
    Conflict { base: String, left: String, right: String },
}

/// A hunk from a file diff (parsed from `jj diff --git`).
#[derive(Debug, Clone, PartialEq)]
pub struct DiffHunk {
    pub header: String,
    pub lines: Vec<DiffLine>,
}

#[derive(Debug, Clone, PartialEq)]
pub struct DiffLine {
    pub kind: DiffLineKind,
    pub content: String,
}

#[derive(Debug, Clone, Copy, PartialEq, Eq)]
pub enum DiffLineKind {
    Context,
    Added,
    Removed,
    Header,
}

pub struct DiffLineV {
    pub kind: DiffLineKind,
    pub content: Seq<char>,
}

impl View for DiffLine {
    type V = DiffLineV;

    open spec fn view(&self) -> DiffLineV {
        DiffLineV { kind: self.kind, content: self.content@ }
    }
}

pub struct DiffHunkV {
    pub header: Seq<char>,
    pub lines: Seq<DiffLineV>,
}

impl View for DiffHunk {
    type V = DiffHunkV;

    open spec fn view(&self) -> DiffHunkV {
        DiffHunkV { header: self.header@, lines: self.lines@.map_values(|l: DiffLine| l@) }
    }
}

/// `idx` lists, in increasing order, exactly the positions of `lines` that
/// are node lines (lines that carry a change ID).
pub open spec fn is_node_index_list(lines: Seq<GraphLine>, idx: Seq<usize>) -> bool {
    &&& forall|k: int| 0 <= k < idx.len() ==> #[trigger] idx[k] < lines.len()
    &&& forall|k: int| 0 <= k < idx.len() ==> (#[trigger] lines[idx[k] as int]).change_id is Some
    &&& forall|k: int, m: int| 0 <= k < m < idx.len() ==> #[trigger] idx[k] < #[trigger] idx[m]
    &&& forall|i: int|
        0 <= i < lines.len() && (#[trigger] lines[i]).change_id is Some ==> idx.contains(
            i as usize,
        )
}

/// No key occurs twice among `entries` (a list standing for a map).
pub open spec fn keys_distinct<V>(entries: Seq<(String, V)>) -> bool {
    forall|i: int, j: int|
        0 <= i < j < entries.len() ==> (#[trigger] entries[i]).0@ != (#[trigger] entries[j]).0@
}

/// Whether line `i` of `lines` is a node line.
pub open spec fn is_node(lines: Seq<GraphLine>, i: int) -> bool {
    0 <= i < lines.len() && lines[i].change_id is Some
}

/// The first entry of `details` whose key is `id`, if any.
pub open spec fn lookup_detail(details: Seq<(String, ChangeDetail)>, id: Seq<char>) -> Option<
    ChangeDetail,
>
    decreases details.len(),
{
    if details.len() == 0 {
        None
    } else if details[0].0@ == id {
        Some(details[0].1)
    } else {
        lookup_detail(details.drop_first(), id)
    }
}

/// The indices of the node lines among the first `i` lines, in order.
pub open spec fn nodes_before(lines: Seq<GraphLine>, i: int) -> Seq<usize>
    decreases i,
{
    if i <= 0 {
        Seq::empty()
    } else if lines[i - 1].change_id is Some {
        nodes_before(lines, i - 1).push((i - 1) as usize)
    } else {
        nodes_before(lines, i - 1)
    }
}

/// The node list of a shorter prefix is a prefix of that of a longer one.
proof fn lemma_nodes_prefix(lines: Seq<GraphLine>, i: int, j: int)
    requires
        0 <= i <= j,
    ensures
        nodes_before(lines, i).len() <= nodes_before(lines, j).len(),
        nodes_before(lines, j).take(nodes_before(lines, i).len() as int) == nodes_before(lines, i),
    decreases j - i,
{
    if i == j {
        assert(nodes_before(lines, j).take(nodes_before(lines, j).len() as int) =~= nodes_before(
            lines,
            j,
        ));
    } else {
        lemma_nodes_prefix(lines, i, j - 1);
        let a = nodes_before(lines, i);
        let b = nodes_before(lines, j - 1);
        assert(nodes_before(lines, j).take(a.len() as int) =~= b.take(a.len() as int));
    }
}

/// Every entry of `nodes_before(lines, i)` is a node line below `i`, and
/// the entries increase.
proof fn lemma_nodes_shape(lines: Seq<GraphLine>, i: int)
    requires
        0 <= i <= lines.len() <= usize::MAX,
    ensures
        forall|k: int|
            0 <= k < nodes_before(lines, i).len() ==> #[trigger] nodes_before(lines, i)[k] < i
                && lines[nodes_before(lines, i)[k] as int].change_id is Some,
        forall|k: int, m: int|
            0 <= k < m < nodes_before(lines, i).len() ==> #[trigger] nodes_before(lines, i)[k]
                < #[trigger] nodes_before(lines, i)[m],
        forall|j: int|
            0 <= j < i && (#[trigger] lines[j]).change_id is Some ==> nodes_before(
                lines,
                i,
            ).contains(j as usize),
    decreases i,
{
    if i > 0 {
        lemma_nodes_shape(lines, i - 1);
        let prev = nodes_before(lines, i - 1);
        let cur = nodes_before(lines, i);
        if lines[i - 1].change_id is Some {
            assert(cur == prev.push((i - 1) as usize));
            assert forall|k: int| 0 <= k < cur.len() implies #[trigger] cur[k] < i
                && lines[cur[k] as int].change_id is Some by {
                if k < prev.len() {
                    assert(cur[k] == prev[k]);
                }
            }
            assert forall|k: int, m: int| 0 <= k < m < cur.len() implies #[trigger] cur[k]
                < #[trigger] cur[m] by {
                assert(cur[k] == prev[k]);
                if m < prev.len() {
                    assert(cur[m] == prev[m]);
                }
            }
            assert forall|j: int|
                0 <= j < i && (#[trigger] lines[j]).change_id is Some implies cur.contains(
                j as usize,
            ) by {
                if j < i - 1 {
                    let w = choose|w: int| 0 <= w < prev.len() && prev[w] == j as usize;
                    assert(cur[w] == j as usize);
                } else {
                    assert(cur[prev.len() as int] == j as usize);
                }
            }
        } else {
            assert(cur == prev);
        }
    }
}

/// The node list of all lines is a node index list.
proof fn lemma_nodes_listed(lines: Seq<GraphLine>, n: int)
    requires
        n == lines.len() <= usize::MAX,
    ensures
        is_node_index_list(lines, nodes_before(lines, n)),
{
    lemma_nodes_shape(lines, n);
}

/// A node index list is the node list of all lines.
proof fn lemma_nodes_of_list(lines: Seq<GraphLine>, idx: Seq<usize>)
    requires
        lines.len() <= usize::MAX,
    ensures
        is_node_index_list(lines, idx) ==> idx == nodes_before(lines, lines.len() as int),
{
    if is_node_index_list(lines, idx) {
        lemma_nodes_split(lines, idx, lines.len() as int);
        let c = nodes_before(lines, lines.len() as int).len();
        if idx.len() > c {
            assert(idx[c as int] >= lines.len());
            assert(idx[c as int] < lines.len());
        }
        assert(idx =~= idx.take(c as int));
    }
}

/// In a node index list, the entries below `i` come first and are the
/// node list of the first `i` lines; the rest are at least `i`.
proof fn lemma_nodes_split(lines: Seq<GraphLine>, idx: Seq<usize>, i: int)
    requires
        is_node_index_list(lines, idx),
        0 <= i <= lines.len() <= usize::MAX,
    ensures
        nodes_before(lines, i).len() <= idx.len(),
        idx.take(nodes_before(lines, i).len() as int) == nodes_before(lines, i),
        forall|k: int| nodes_before(lines, i).len() <= k < idx.len() ==> #[trigger] idx[k] >= i,
    decreases i,
{
    if i == 0 {
        assert(idx.take(0) =~= Seq::<usize>::empty());
    } else {
        lemma_nodes_split(lines, idx, i - 1);
        let c = nodes_before(lines, i - 1).len() as int;
        if lines[i - 1].change_id is Some {
            assert(nodes_before(lines, i) == nodes_before(lines, i - 1).push((i - 1) as usize));
            assert(idx.contains((i - 1) as usize));
            let w = choose|w: int| 0 <= w < idx.len() && idx[w] == (i - 1) as usize;
            assert(w >= c) by {
                if w < c {
                    assert(idx.take(c)[w] == idx[w]);
                    lemma_nodes_shape(lines, i - 1);
                    assert(nodes_before(lines, i - 1)[w] < i - 1);
                }
            }
            assert(idx[c] == (i - 1) as usize) by {
                if c < w {
                    assert(idx[c] < idx[w]);
                }
            }
            assert(idx.take(c + 1) =~= idx.take(c).push(idx[c]));
            assert forall|k: int| c + 1 <= k < idx.len() implies #[trigger] idx[k] >= i by {
                assert(idx[c] < idx[k]);
            }
        } else {
            assert forall|k: int| c <= k < idx.len() implies #[trigger] idx[k] >= i by {
                assert(lines[idx[k] as int].change_id is Some);
            }
        }
    }
}

/// Whether no key occurs twice among `entries`.
fn distinct_keys_exec(entries: &Vec<(String, ChangeDetail)>) -> (b: bool)
    ensures
        b == keys_distinct(entries@),
{
    let n = entries.len();
    let mut j: usize = 0;
    while j < n
        invariant
            n == entries@.len(),
            j <= n,
            forall|a: int, c: int|
                0 <= a < c < j ==> (#[trigger] entries@[a]).0@ != (#[trigger] entries@[c]).0@,
        decreases n - j,
    {
        let kj = crate::text::chars_of(entries[j].0.as_str());
        let mut a: usize = 0;
        while a < j
            invariant
                n == entries@.len(),
                j < n,
                a <= j,
                kj@ == entries@[j as int].0@,
                forall|x: int, c: int|
                    0 <= x < c < j ==> (#[trigger] entries@[x]).0@ != (#[trigger] entries@[c]).0@,
                forall|x: int| 0 <= x < a ==> (#[trigger] entries@[x]).0@ != entries@[j as int].0@,
            decreases j - a,
        {
            let ka = crate::text::chars_of(entries[a].0.as_str());
            if crate::text::same_chars(&ka, &kj) {
                return false;
            }
            a += 1;
        }
        j += 1;
    }
    true
}

/// Complete graph data returned by `load_graph()`.
#[derive(Debug, Clone, PartialEq)]
pub struct GraphData {
    /// All lines of graph output.
    pub lines: Vec<GraphLine>,
    /// Details for each change, keyed by change ID.
    pub details: Vec<(String, ChangeDetail)>,
    /// Index of the working-copy change's node line in `lines`.
    pub working_copy_index: Option<usize>,
    /// Pre-computed indices of node lines (lines with a `change_id`).
    /// Kept consistent with `lines` by `GraphData::new`; see `wf`.
    pub cached_node_indices: Vec<usize>,
    /// jj operation ID at the time this snapshot was taken.
    /// Used to identify which repo state this graph represents.
    pub op_id: String,
}

impl GraphData {
    /// The cached node index list matches the lines (and every line has a
    /// `usize` index).
    pub open spec fn wf(&self) -> bool {
        &&& is_node_index_list(self.lines@, self.cached_node_indices@)
        &&& self.lines@.len() <= usize::MAX
        &&& keys_distinct(self.details@)
    }

    /// The node index list, as the spec sees it.
    pub open spec fn node_index_seq(&self) -> Seq<usize> {
        self.cached_node_indices@
    }

    /// The detail recorded for change `id`, if any.
    pub open spec fn detail_spec(&self, id: Seq<char>) -> Option<ChangeDetail> {
        lookup_detail(self.details@, id)
    }

    /// The detail of the node line at `index`, if any.
    pub open spec fn detail_at_spec(&self, index: int) -> Option<ChangeDetail> {
        if 0 <= index < self.lines@.len() {
            match self.lines@[index].change_id {
                Some(id) => self.detail_spec(id@),
                None => None,
            }
        } else {
            None
        }
    }

    pub proof fn lemma_wf(&self)
        requires
            self.wf(),
        ensures
            is_node_index_list(self.lines@, self.node_index_seq()),
    {
    }

    pub fn new(
        lines: Vec<GraphLine>,
        details: Vec<(String, ChangeDetail)>,
        working_copy_index: Option<usize>,
        op_id: String,
    ) -> (g: Self)
        requires
            keys_distinct(details@),
        ensures
            g.wf(),
            g.lines == lines,
            g.details == details,
            g.working_copy_index == working_copy_index,
            g.op_id == op_id,
    {
        let mut cached: Vec<usize> = Vec::new();
        let n = lines.len();
        let mut i: usize = 0;
        while i < n
            invariant
                n == lines@.len(),
                i <= n,
                forall|k: int| 0 <= k < cached@.len() ==> #[trigger] cached@[k] < i,
                forall|k: int|
                    0 <= k < cached@.len() ==> (#[trigger] lines@[cached@[k] as int]).change_id is Some,
                forall|k: int, m: int|
                    0 <= k < m < cached@.len() ==> #[trigger] cached@[k] < #[trigger] cached@[m],
                forall|j: int|
                    0 <= j < i && (#[trigger] lines@[j]).change_id is Some ==> cached@.contains(
                        j as usize,
                    ),
            decreases n - i,
        {
            if lines[i].change_id.is_some() {
                let ghost old_cached = cached@;
                cached.push(i);
                assert forall|j: int|
                    0 <= j < i + 1 && (#[trigger] lines@[j]).change_id is Some implies cached@.contains(
                    j as usize,
                ) by {
                    if j < i {
                        let w = choose|w: int| 0 <= w < old_cached.len() && old_cached[w] == j as usize;
                        assert(cached@[w] == j as usize);
                    } else {
                        assert(cached@[cached@.len() - 1] == j as usize);
                    }
                }
            }
            i += 1;
        }
        GraphData { lines, details, working_copy_index, cached_node_indices: cached, op_id }
    }

    /// Returns the indices of all node lines (lines with a change ID).
    pub fn node_indices(&self) -> (r: &[usize])
        ensures
            r@ == self.node_index_seq(),
    {
        self.cached_node_indices.as_slice()
    }

    /// Whether the graph is well formed: its cached node list is the list
    /// of its node lines, and no change has two details.
    pub fn is_wf(&self) -> (b: bool)
        ensures
            b == self.wf(),
    {
        let n = self.lines.len();
        let ghost ls = self.lines@;
        let ghost idx = self.cached_node_indices@;
        let mut p: usize = 0;
        let mut i: usize = 0;
        while i < n
            invariant
                n == ls.len(),
                ls == self.lines@,
                idx == self.cached_node_indices@,
                i <= n,
                p <= idx.len(),
                idx.take(p as int) == nodes_before(ls, i as int),
            decreases n - i,
        {
            if self.lines[i].change_id.is_some() {
                if p < self.cached_node_indices.len() && self.cached_node_indices[p] == i {
                    assert(idx.take(p + 1) =~= idx.take(p as int).push(i));
                    p += 1;
                } else {
                    proof {
                        lemma_nodes_prefix(ls, i + 1, n as int);
                        lemma_nodes_of_list(ls, idx);
                        assert(nodes_before(ls, i + 1) == nodes_before(ls, i as int).push(i));
                        if is_node_index_list(ls, idx) {
                            assert(idx.take(p as int).len() == p);
                            assert(nodes_before(ls, i + 1)[p as int] == i);
                            assert(nodes_before(ls, n as int).take(p + 1)[p as int] == i);
                            assert(nodes_before(ls, n as int)[p as int] == i);
                            assert(nodes_before(ls, n as int).take(p as int) =~= idx.take(p as int));
                        }
                    }
                    return false;
                }
            }
            i += 1;
        }
        proof {
            lemma_nodes_of_list(ls, idx);
            lemma_nodes_listed(ls, n as int);
        }
        if p != self.cached_node_indices.len() {
            return false;
        }
        assert(idx.take(p as int) =~= idx);
        distinct_keys_exec(&self.details)
    }

    /// Returns the `ChangeDetail` recorded for the change `id`, if any.
    pub fn detail(&self, id: &str) -> (r: Option<&ChangeDetail>)
        ensures
            match r {
                Some(d) => self.detail_spec(id@) == Some(*d),
                None => self.detail_spec(id@) is None,
            },
    {
        find_detail(&self.details, id)
    }

    /// Returns the `ChangeDetail` for the node line at the given index, if any.
    pub fn detail_at(&self, index: usize) -> (r: Option<&ChangeDetail>)
        ensures
            match r {
                Some(d) => self.detail_at_spec(index as int) == Some(*d),
                None => self.detail_at_spec(index as int) is None,
            },
    {
        if index < self.lines.len() {
            match &self.lines[index].change_id {
                Some(id) => self.detail(id.as_str()),
                None => None,
            }
        } else {
            None
        }
    }
}


/// The first entry of `details` recorded for change `id`, if any.
pub fn find_detail<'a>(details: &'a Vec<(String, ChangeDetail)>, id: &str) -> (r: Option<
    &'a ChangeDetail,
>)
    ensures
        match r {
            Some(d) => lookup_detail(details@, id@) == Some(*d),
            None => lookup_detail(details@, id@) is None,
        },
{
    let key = String::from_str(id);
    let mut i: usize = 0;
    assert(details@.skip(0) =~= details@);
    while i < details.len()
        invariant
            i <= details@.len(),
            key@ == id@,
            lookup_detail(details@, id@) == lookup_detail(details@.skip(i as int), id@),
        decreases details@.len() - i,
    {
        let ghost rest = details@.skip(i as int);
        assert(rest.drop_first() =~= details@.skip(i + 1));
        if details[i].0 == key {
            return Some(&details[i].1);
        }
        i += 1;
    }
    None
}

} // verus!
