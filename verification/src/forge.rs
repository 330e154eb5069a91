//! Forge (GitHub) data and the interface to a forge CLI.

use vstd::prelude::*;

use crate::text::{chars_of, same_chars};

verus! {

#[derive(Debug, Clone, Copy, PartialEq, Eq)]
pub enum ForgeKind {
    GitHub,
}

#[derive(Debug, Clone, PartialEq)]
pub struct PrInfo {
    pub number: u32,
    pub title: String,
    pub state: PrState,
    pub review: ReviewStatus,
    pub head_ref: String,
    pub url: String,
}

#[derive(Debug, Clone, Copy, PartialEq, Eq)]
pub enum PrState {
    Open,
    Merged,
    Closed,
}

#[derive(Debug, Clone, Copy, PartialEq, Eq)]
pub enum ReviewStatus {
    Approved,
    ChangesRequested,
    ReviewRequired,
    Unknown,
}

/// Abstraction over forge (GitHub/GitLab/Gerrit) access.
/// Separate from `RepoBackend` — forge operations use different CLI tools.
pub trait ForgeBackend {
    /// Which forge CLI is available, if any.
    fn forge_kind(&self) -> Option<ForgeKind>;

    /// Fetch PR/MR status from the forge.
    /// Returns `Ok(None)` when no forge CLI is available.
    fn fetch_status(&self) -> Result<Option<Vec<PrInfo>>, String>;
}

/// The PR state that `gh` reports as `state`: `MERGED`, `CLOSED`, and
/// anything else (`OPEN` or unknown) is open.
pub open spec fn pr_state_spec(s: Seq<char>) -> PrState {
    if s == seq!['M', 'E', 'R', 'G', 'E', 'D'] {
        PrState::Merged
    } else if s == seq!['C', 'L', 'O', 'S', 'E', 'D'] {
        PrState::Closed
    } else {
        PrState::Open
    }
}

/// The review status that `gh` reports as `reviewDecision`.
pub open spec fn review_spec(s: Seq<char>) -> ReviewStatus {
    if s == seq!['A', 'P', 'P', 'R', 'O', 'V', 'E', 'D'] {
        ReviewStatus::Approved
    } else if s == seq![
        'C', 'H', 'A', 'N', 'G', 'E', 'S', '_', 'R', 'E', 'Q', 'U', 'E', 'S', 'T', 'E', 'D'
    ] {
        ReviewStatus::ChangesRequested
    } else if s == seq![
        'R', 'E', 'V', 'I', 'E', 'W', '_', 'R', 'E', 'Q', 'U', 'I', 'R', 'E', 'D'
    ] {
        ReviewStatus::ReviewRequired
    } else {
        ReviewStatus::Unknown
    }
}


/// Reads the `state` that `gh pr list` reports.
pub fn pr_state_from(state: &str) -> (r: PrState)
    ensures
        r == pr_state_spec(state@),
{
    let v = chars_of(state);
    let merged = vec!['M', 'E', 'R', 'G', 'E', 'D'];
    let closed = vec!['C', 'L', 'O', 'S', 'E', 'D'];
    if same_chars(&v, &merged) {
        PrState::Merged
    } else if same_chars(&v, &closed) {
        PrState::Closed
    } else {
        PrState::Open
    }
}

/// Reads the `reviewDecision` that `gh pr list` reports.
pub fn review_status_from(decision: &str) -> (r: ReviewStatus)
    ensures
        r == review_spec(decision@),
{
    let v = chars_of(decision);
    let approved = vec!['A', 'P', 'P', 'R', 'O', 'V', 'E', 'D'];
    let changes = vec![
        'C', 'H', 'A', 'N', 'G', 'E', 'S', '_', 'R', 'E', 'Q', 'U', 'E', 'S', 'T', 'E', 'D'
    ];
    let required = vec!['R', 'E', 'V', 'I', 'E', 'W', '_', 'R', 'E', 'Q', 'U', 'I', 'R', 'E', 'D'];
    if same_chars(&v, &approved) {
        ReviewStatus::Approved
    } else if same_chars(&v, &changes) {
        ReviewStatus::ChangesRequested
    } else if same_chars(&v, &required) {
        ReviewStatus::ReviewRequired
    } else {
        ReviewStatus::Unknown
    }
}

/// Builds the PR record from the fields of one `gh pr list --json` entry.
pub fn pr_info_from_fields(
    number: u32,
    title: String,
    state: &str,
    head_ref: String,
    review_decision: &str,
    url: String,
) -> (p: PrInfo)
    ensures
        p.number == number,
        p.title == title,
        p.state == pr_state_spec(state@),
        p.review == review_spec(review_decision@),
        p.head_ref == head_ref,
        p.url == url,
{
    PrInfo {
        number,
        title,
        state: pr_state_from(state),
        review: review_status_from(review_decision),
        head_ref,
        url,
    }
}


/// The forge backend that runs the `gh` command line.
pub struct GhCliForge {
    pub workspace_root: String,
    /// Whether `gh --version` ran successfully when the forge was set up.
    pub available: bool,
}

impl GhCliForge {
    /// A forge for `workspace_root`; `available` says whether `gh` could be
    /// run.
    pub fn with_availability(workspace_root: String, available: bool) -> (f: Self)
        ensures
            f.workspace_root == workspace_root,
            f.available == available,
    {
        GhCliForge { workspace_root, available }
    }

    pub fn workspace_root(&self) -> (r: &str)
        ensures
            r@ == self.workspace_root@,
    {
        self.workspace_root.as_str()
    }

    /// Which forge CLI is available: GitHub's when `gh` runs, else none.
    pub fn forge_kind(&self) -> (k: Option<ForgeKind>)
        ensures
            k == if self.available {
                Some(ForgeKind::GitHub)
            } else {
                None
            },
    {
        if self.available {
            Some(ForgeKind::GitHub)
        } else {
            None
        }
    }
}

/// The arguments of the `gh` command that lists the open PRs as JSON.
pub open spec fn pr_list_args_spec() -> Seq<Seq<char>> {
    seq![
        "pr"@,
        "list"@,
        "--state"@,
        "open"@,
        "--limit"@,
        "100"@,
        "--json"@,
        "number,title,state,headRefName,reviewDecision,url"@,
    ]
}

/// The arguments of the `gh` command that lists the open PRs as JSON.
pub fn pr_list_args() -> (a: Vec<String>)
    ensures
        crate::text::strings_of(a@) == pr_list_args_spec(),
{
    let a = vec![
        String::from_str("pr"),
        String::from_str("list"),
        String::from_str("--state"),
        String::from_str("open"),
        String::from_str("--limit"),
        String::from_str("100"),
        String::from_str("--json"),
        String::from_str("number,title,state,headRefName,reviewDecision,url"),
    ];
    assert(crate::text::strings_of(a@) =~= pr_list_args_spec());
    a
}

} // verus!
