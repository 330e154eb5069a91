//! Work that dispatch asks the executor to perform.

use vstd::prelude::*;

use crate::action::{Action, HunkPickerOp, MutationKind};
use crate::backend::RepoBackend;
use crate::forge::ForgeBackend;
use crate::types::GraphData;
use crate::types::FileHunkSelection;

verus! {

/// Effects emitted by dispatch, executed by the application.
#[derive(Debug, Clone, PartialEq)]
pub enum Effect {
    // Read-only
    LoadGraph {
        /// Currently always `None` (default revset) when emitted by a refresh.
        revset: Option<String>,
    },
    LoadOpLog,
    LoadFileDiff { change_id: String, path: String },
    // Mutations
    Describe { change_id: String, text: String },
    New { after: String },
    Edit { change_id: String },
    Abandon { change_id: String },
    LoadChangeDiff { change_id: String, operation: HunkPickerOp },
    Split { change_id: String, selections: Vec<FileHunkSelection> },
    SquashPartial { change_id: String, selections: Vec<FileHunkSelection> },
    Undo,
    Redo,
    BookmarkSet { change_id: String, name: String },
    BookmarkDelete { name: String },
    GitPush { bookmark: String },
    GitFetch,
    RebaseSingle { source: String, destination: String },
    RebaseWithDescendants { source: String, destination: String },
    /// Try evaluating a revset expression. Executor calls `load_graph(Some(&query))`.
    EvalRevset { query: String },
    Absorb { change_id: String },
    Duplicate { change_id: String },
    Revert { change_id: String },
    // Conflict handling
    LoadConflictData { change_id: String, path: String },
    ResolveFile { change_id: String, path: String, content: Vec<u8> },
    LaunchMergeTool { change_id: String, path: String },
    // Forge
    FetchForgeStatus,
    /// Try to open the PR in a browser; if no PR exists, suspend and run `gh pr create`.
    OpenOrCreatePr { bookmark: String },
    // Non-repo
    SuspendForEditor { change_id: String, initial_text: String },
}

/// Whether executing `e` ends with loading a graph snapshot: a graph
/// load, a revset evaluation, or a mutation of the repository (resolving
/// a file included).
pub open spec fn loads_graph(e: Effect) -> bool {
    match e {
        Effect::LoadOpLog | Effect::LoadFileDiff { .. } | Effect::LoadChangeDiff { .. }
        | Effect::LoadConflictData { .. } | Effect::LaunchMergeTool { .. }
        | Effect::SuspendForEditor { .. } | Effect::FetchForgeStatus
        | Effect::OpenOrCreatePr { .. } | Effect::Absorb { .. } | Effect::Duplicate { .. }
        | Effect::Revert { .. } => false,
        _ => true,
    }
}

/// The generation to stamp on the graph that executing `effect` loads,
/// given the counter's current value: effects that load a graph take the
/// next value (the counter advances, wrapping as `fetch_add` does); others
/// get 0 and leave the counter alone. Returns `(new counter, generation)`.
pub fn next_graph_generation(counter: u64, effect: &Effect) -> (r: (u64, u64))
    ensures
        loads_graph(*effect) ==> r.0 == (if counter == u64::MAX {
            0
        } else {
            counter + 1
        }) && r.1 == r.0,
        !loads_graph(*effect) ==> r.0 == counter && r.1 == 0,
{
    let loads = match effect {
        Effect::LoadOpLog | Effect::LoadFileDiff { .. } | Effect::LoadChangeDiff { .. }
        | Effect::LoadConflictData { .. } | Effect::LaunchMergeTool { .. }
        | Effect::SuspendForEditor { .. } | Effect::FetchForgeStatus
        | Effect::OpenOrCreatePr { .. } | Effect::Absorb { .. } | Effect::Duplicate { .. }
        | Effect::Revert { .. } => false,
        _ => true,
    };
    if loads {
        let next = if counter == u64::MAX {
            0
        } else {
            counter + 1
        };
        (next, next)
    } else {
        (counter, 0)
    }
}


/// Runs mutation `op` and reports how it went: on success, with the
/// message `mutate` returned and the graph `load_graph` then loaded
/// (stamped with `generation`); on failure, with the error.
pub fn run_mutation<F, G>(op: MutationKind, generation: u64, mutate: F, load_graph: G) -> (r: Action)
    where
        F: FnOnce() -> Result<String, String>,
        G: FnOnce() -> Result<GraphData, String>,
    requires
        mutate.requires(()),
        load_graph.requires(()),
    ensures
        match r {
            Action::RepoOpSuccess { op: o, message, graph } => {
                &&& o == op
                &&& mutate.ensures((), Ok(message))
                &&& graph matches Some((g, res))
                &&& g == generation
                &&& load_graph.ensures((), res)
            },
            Action::RepoOpFailed { op: o, error } => o == op && mutate.ensures((), Err(error)),
            _ => false,
        },
{
    match mutate() {
        Ok(message) => {
            let graph = load_graph();
            Action::RepoOpSuccess { op, message, graph: Some((generation, graph)) }
        },
        Err(error) => Action::RepoOpFailed { op, error },
    }
}

/// The mutation that executing `e` performs on the repository, if any.
pub open spec fn mutation_of(e: Effect) -> Option<MutationKind> {
    match e {
        Effect::Describe { .. } => Some(MutationKind::Describe),
        Effect::New { .. } => Some(MutationKind::New),
        Effect::Edit { .. } => Some(MutationKind::Edit),
        Effect::Abandon { .. } => Some(MutationKind::Abandon),
        Effect::Split { .. } => Some(MutationKind::Split),
        Effect::SquashPartial { .. } => Some(MutationKind::SquashPartial),
        Effect::Undo => Some(MutationKind::Undo),
        Effect::Redo => Some(MutationKind::Redo),
        Effect::BookmarkSet { .. } => Some(MutationKind::BookmarkSet),
        Effect::BookmarkDelete { .. } => Some(MutationKind::BookmarkDelete),
        Effect::GitPush { .. } => Some(MutationKind::GitPush),
        Effect::GitFetch => Some(MutationKind::GitFetch),
        Effect::RebaseSingle { .. } => Some(MutationKind::RebaseSingle),
        Effect::RebaseWithDescendants { .. } => Some(MutationKind::RebaseWithDescendants),
        Effect::ResolveFile { .. } => Some(MutationKind::ResolveConflict),
        Effect::Absorb { .. } => Some(MutationKind::Absorb),
        Effect::Duplicate { .. } => Some(MutationKind::Duplicate),
        Effect::Revert { .. } => Some(MutationKind::Revert),
        _ => None,
    }
}

/// Whether `op` is a mutation that the repository interface offers.
pub open spec fn backend_mutation(op: MutationKind) -> bool {
    match op {
        MutationKind::ResolveConflict | MutationKind::Absorb | MutationKind::Duplicate
        | MutationKind::Revert => false,
        _ => true,
    }
}

/// The message with which a mutation the repository interface does not
/// offer fails.
pub open spec fn unsupported_message(op: MutationKind) -> Seq<char> {
    match op {
        MutationKind::ResolveConflict => "resolving files is not supported by this backend"@,
        MutationKind::Absorb => "absorb is not supported by this backend"@,
        MutationKind::Duplicate => "duplicate is not supported by this backend"@,
        _ => "revert is not supported by this backend"@,
    }
}

/// What the repository returned (`outcome`) when asked to carry out the
/// mutation that effect `e` stands for: the result of calling the
/// matching `RepoBackend` method with the effect's own arguments (string
/// slices with the text of the effect's strings).
pub open spec fn mutation_call<B: RepoBackend>(
    backend: &B,
    e: Effect,
    outcome: Result<String, String>,
) -> bool {
    match e {
        Effect::Describe { change_id, text } => exists|c: &str, t: &str|
            #![trigger call_ensures(B::describe, (backend, c, t), outcome)]
            c@ == change_id@ && t@ == text@ && call_ensures(B::describe, (backend, c, t), outcome),
        Effect::New { after } => exists|a: &str|
            #![trigger call_ensures(B::new_change, (backend, a), outcome)]
            a@ == after@ && call_ensures(B::new_change, (backend, a), outcome),
        Effect::Edit { change_id } => exists|c: &str|
            #![trigger call_ensures(B::edit_change, (backend, c), outcome)]
            c@ == change_id@ && call_ensures(B::edit_change, (backend, c), outcome),
        Effect::Abandon { change_id } => exists|c: &str|
            #![trigger call_ensures(B::abandon, (backend, c), outcome)]
            c@ == change_id@ && call_ensures(B::abandon, (backend, c), outcome),
        Effect::Split { change_id, selections } => exists|c: &str, sel: &[FileHunkSelection]|
            #![trigger call_ensures(B::split, (backend, c, sel), outcome)]
            c@ == change_id@ && sel@ == selections@ && call_ensures(
                B::split,
                (backend, c, sel),
                outcome,
            ),
        Effect::SquashPartial { change_id, selections } => exists|
            c: &str,
            sel: &[FileHunkSelection],
        |
            #![trigger call_ensures(B::squash_partial, (backend, c, sel), outcome)]
            c@ == change_id@ && sel@ == selections@ && call_ensures(
                B::squash_partial,
                (backend, c, sel),
                outcome,
            ),
        Effect::Undo => call_ensures(B::undo, (backend,), outcome),
        Effect::Redo => call_ensures(B::redo, (backend,), outcome),
        Effect::BookmarkSet { change_id, name } => exists|c: &str, n: &str|
            #![trigger call_ensures(B::bookmark_set, (backend, c, n), outcome)]
            c@ == change_id@ && n@ == name@ && call_ensures(B::bookmark_set, (backend, c, n), outcome),
        Effect::BookmarkDelete { name } => exists|n: &str|
            #![trigger call_ensures(B::bookmark_delete, (backend, n), outcome)]
            n@ == name@ && call_ensures(B::bookmark_delete, (backend, n), outcome),
        Effect::GitPush { bookmark } => exists|b: &str|
            #![trigger call_ensures(B::git_push, (backend, b), outcome)]
            b@ == bookmark@ && call_ensures(B::git_push, (backend, b), outcome),
        Effect::GitFetch => call_ensures(B::git_fetch, (backend,), outcome),
        Effect::RebaseSingle { source, destination } => exists|a: &str, d: &str|
            #![trigger call_ensures(B::rebase_single, (backend, a, d), outcome)]
            a@ == source@ && d@ == destination@ && call_ensures(
                B::rebase_single,
                (backend, a, d),
                outcome,
            ),
        Effect::RebaseWithDescendants { source, destination } => exists|a: &str, d: &str|
            #![trigger call_ensures(B::rebase_with_descendants, (backend, a, d), outcome)]
            a@ == source@ && d@ == destination@ && call_ensures(
                B::rebase_with_descendants,
                (backend, a, d),
                outcome,
            ),
        _ => false,
    }
}

/// How the mutation `op` that effect `e` stands for is reported: success
/// with the message the repository returned and the graph `reload` then
/// gave (stamped with `generation`), or failure with the error the
/// repository returned; a mutation the repository interface does not
/// offer always fails with its fixed message, without calling anything.
pub open spec fn mutation_reported<B: RepoBackend, G: FnOnce() -> Result<GraphData, String>>(
    backend: &B,
    e: Effect,
    a: Action,
    op: MutationKind,
    generation: u64,
    reload: G,
) -> bool {
    if backend_mutation(op) {
        match a {
            Action::RepoOpSuccess { op: o, message, graph } => {
                &&& o == op
                &&& mutation_call(backend, e, Ok(message))
                &&& graph matches Some((g, res))
                &&& g == generation
                &&& call_ensures(reload, (), res)
            },
            Action::RepoOpFailed { op: o, error } => o == op && mutation_call(backend, e, Err(error)),
            _ => false,
        }
    } else {
        a matches Action::RepoOpFailed { op: o, error } && o == op && error@ == unsupported_message(op)
    }
}

/// What loading a graph for the revset `revset` (the default one for
/// `None`) returned: the result of `RepoBackend::load_graph` with it.
pub open spec fn graph_load_call<B: RepoBackend>(
    backend: &B,
    revset: Option<String>,
    res: Result<GraphData, String>,
) -> bool {
    match revset {
        None => call_ensures(B::load_graph, (backend, None::<&str>), res),
        Some(q) => exists|s: &str|
            #![trigger call_ensures(B::load_graph, (backend, Some(s)), res)]
            s@ == q@ && call_ensures(B::load_graph, (backend, Some(s)), res),
    }
}

/// What executing effect `e` reports back: each load answers with its own
/// action, holding what the matching `RepoBackend` or `ForgeBackend`
/// method returned for the effect's arguments (a graph stamped with
/// `generation`, a revset evaluation naming its query, a change diff
/// naming the operation it is for); each mutation as `mutation_reported`
/// says; conflict sides and pull request creation are not offered by the
/// interfaces and fail; the merge tool and the editor are run by the
/// application itself, so nothing is reported for them.
pub open spec fn effect_reported<
    B: RepoBackend,
    F: ForgeBackend,
    G: FnOnce() -> Result<GraphData, String>,
>(backend: &B, forge: &F, e: Effect, generation: u64, r: Option<Action>, reload: G) -> bool {
    match e {
        Effect::LoadGraph { revset } => r matches Some(Action::GraphLoaded { generation: g, result })
            && g == generation && graph_load_call(backend, revset, result),
        Effect::LoadOpLog => r matches Some(Action::OpLogLoaded(res)) && call_ensures(
            B::op_log,
            (backend,),
            res,
        ),
        Effect::LoadFileDiff { change_id, path } => r matches Some(Action::FileDiffLoaded(res))
            && exists|c: &str, p: &str|
            #![trigger call_ensures(B::file_diff, (backend, c, p), res)]
            c@ == change_id@ && p@ == path@ && call_ensures(B::file_diff, (backend, c, p), res),
        Effect::LoadChangeDiff { change_id, operation } => r matches Some(
            Action::ChangeDiffLoaded { operation: o, result },
        ) && o == operation && exists|c: &str|
            #![trigger call_ensures(B::change_diff, (backend, c), result)]
            c@ == change_id@ && call_ensures(B::change_diff, (backend, c), result),
        Effect::EvalRevset { query } => r matches Some(
            Action::RevsetLoaded { query: q, generation: g, result },
        ) && q == query && g == generation && graph_load_call(backend, Some(query), result),
        Effect::LoadConflictData { change_id, path } => r matches Some(
            Action::ConflictDataLoaded { change_id: c, path: p, result: Err(error) },
        ) && c == change_id && p == path && error@
            == "conflict sides are not supported by this backend"@,
        Effect::FetchForgeStatus => r matches Some(Action::ForgeStatusLoaded(res)) && call_ensures(
            F::fetch_status,
            (forge,),
            res,
        ),
        Effect::OpenOrCreatePr { .. } => r matches Some(Action::PrCreateFailed { error }) && error@
            == "opening pull requests is not supported"@,
        Effect::LaunchMergeTool { .. } | Effect::SuspendForEditor { .. } => r is None,
        _ => match mutation_of(e) {
            Some(op) => r matches Some(a) && mutation_reported(backend, e, a, op, generation, reload),
            None => false,
        },
    }
}

fn unsupported(op: MutationKind, message: &str) -> (r: Option<Action>)
    ensures
        r matches Some(Action::RepoOpFailed { op: o, error }) && o == op && error@ == message@,
{
    Some(Action::RepoOpFailed { op, error: String::from_str(message) })
}

/// Executes `effect` against `backend` and `forge` and returns the action
/// that reports its outcome (`None` for the effects the application runs
/// itself). A mutation that succeeds is followed by `reload`, whose graph
/// is stamped with `generation`.
pub fn perform_effect<B: RepoBackend, F: ForgeBackend, G: FnOnce() -> Result<GraphData, String>>(
    backend: &B,
    forge: &F,
    effect: Effect,
    generation: u64,
    reload: G,
) -> (r: Option<Action>)
    requires
        reload.requires(()),
    ensures
        effect_reported(backend, forge, effect, generation, r, reload),
{
    match effect {
        Effect::LoadGraph { revset } => {
            let result = match &revset {
                Some(q) => {
                    let s = q.as_str();
                    let res = backend.load_graph(Some(s));
                    assert(call_ensures(B::load_graph, (backend, Some(s)), res));
                    res
                },
                None => backend.load_graph(None),
            };
            Some(Action::GraphLoaded { generation, result })
        },
        Effect::LoadOpLog => Some(Action::OpLogLoaded(backend.op_log())),
        Effect::LoadFileDiff { change_id, path } => {
            let c = change_id.as_str();
            let p = path.as_str();
            let res = backend.file_diff(c, p);
            assert(call_ensures(B::file_diff, (backend, c, p), res));
            Some(Action::FileDiffLoaded(res))
        },
        Effect::LoadChangeDiff { change_id, operation } => {
            let c = change_id.as_str();
            let result = backend.change_diff(c);
            assert(call_ensures(B::change_diff, (backend, c), result));
            Some(Action::ChangeDiffLoaded { operation, result })
        },
        Effect::EvalRevset { query } => {
            let s = query.as_str();
            let result = backend.load_graph(Some(s));
            assert(call_ensures(B::load_graph, (backend, Some(s)), result));
            Some(Action::RevsetLoaded { query, generation, result })
        },
        Effect::Describe { change_id, text } => {
            let c = change_id.as_str();
            let t = text.as_str();
            let a = run_mutation(
                MutationKind::Describe,
                generation,
                (|| -> (o: Result<String, String>)
                    ensures
                        call_ensures(B::describe, (backend, c, t), o),
                    { backend.describe(c, t) }),
                reload,
            );
            Some(a)
        },
        Effect::New { after } => {
            let c = after.as_str();
            let a = run_mutation(
                MutationKind::New,
                generation,
                (|| -> (o: Result<String, String>)
                    ensures
                        call_ensures(B::new_change, (backend, c), o),
                    { backend.new_change(c) }),
                reload,
            );
            Some(a)
        },
        Effect::Edit { change_id } => {
            let c = change_id.as_str();
            let a = run_mutation(
                MutationKind::Edit,
                generation,
                (|| -> (o: Result<String, String>)
                    ensures
                        call_ensures(B::edit_change, (backend, c), o),
                    { backend.edit_change(c) }),
                reload,
            );
            Some(a)
        },
        Effect::Abandon { change_id } => {
            let c = change_id.as_str();
            let a = run_mutation(
                MutationKind::Abandon,
                generation,
                (|| -> (o: Result<String, String>)
                    ensures
                        call_ensures(B::abandon, (backend, c), o),
                    { backend.abandon(c) }),
                reload,
            );
            Some(a)
        },
        Effect::Split { change_id, selections } => {
            let c = change_id.as_str();
            let sel = selections.as_slice();
            let a = run_mutation(
                MutationKind::Split,
                generation,
                (|| -> (o: Result<String, String>)
                    ensures
                        call_ensures(B::split, (backend, c, sel), o),
                    { backend.split(c, sel) }),
                reload,
            );
            Some(a)
        },
        Effect::SquashPartial { change_id, selections } => {
            let c = change_id.as_str();
            let sel = selections.as_slice();
            let a = run_mutation(
                MutationKind::SquashPartial,
                generation,
                (|| -> (o: Result<String, String>)
                    ensures
                        call_ensures(B::squash_partial, (backend, c, sel), o),
                    { backend.squash_partial(c, sel) }),
                reload,
            );
            Some(a)
        },
        Effect::Undo => {
            let a = run_mutation(
                MutationKind::Undo,
                generation,
                (|| -> (o: Result<String, String>)
                    ensures
                        call_ensures(B::undo, (backend,), o),
                    { backend.undo() }),
                reload,
            );
            Some(a)
        },
        Effect::Redo => {
            let a = run_mutation(
                MutationKind::Redo,
                generation,
                (|| -> (o: Result<String, String>)
                    ensures
                        call_ensures(B::redo, (backend,), o),
                    { backend.redo() }),
                reload,
            );
            Some(a)
        },
        Effect::BookmarkSet { change_id, name } => {
            let c = change_id.as_str();
            let n = name.as_str();
            let a = run_mutation(
                MutationKind::BookmarkSet,
                generation,
                (|| -> (o: Result<String, String>)
                    ensures
                        call_ensures(B::bookmark_set, (backend, c, n), o),
                    { backend.bookmark_set(c, n) }),
                reload,
            );
            Some(a)
        },
        Effect::BookmarkDelete { name } => {
            let n = name.as_str();
            let a = run_mutation(
                MutationKind::BookmarkDelete,
                generation,
                (|| -> (o: Result<String, String>)
                    ensures
                        call_ensures(B::bookmark_delete, (backend, n), o),
                    { backend.bookmark_delete(n) }),
                reload,
            );
            Some(a)
        },
        Effect::GitPush { bookmark } => {
            let b = bookmark.as_str();
            let a = run_mutation(
                MutationKind::GitPush,
                generation,
                (|| -> (o: Result<String, String>)
                    ensures
                        call_ensures(B::git_push, (backend, b), o),
                    { backend.git_push(b) }),
                reload,
            );
            Some(a)
        },
        Effect::GitFetch => {
            let a = run_mutation(
                MutationKind::GitFetch,
                generation,
                (|| -> (o: Result<String, String>)
                    ensures
                        call_ensures(B::git_fetch, (backend,), o),
                    { backend.git_fetch() }),
                reload,
            );
            Some(a)
        },
        Effect::RebaseSingle { source, destination } => {
            let s = source.as_str();
            let d = destination.as_str();
            let a = run_mutation(
                MutationKind::RebaseSingle,
                generation,
                (|| -> (o: Result<String, String>)
                    ensures
                        call_ensures(B::rebase_single, (backend, s, d), o),
                    { backend.rebase_single(s, d) }),
                reload,
            );
            Some(a)
        },
        Effect::RebaseWithDescendants { source, destination } => {
            let s = source.as_str();
            let d = destination.as_str();
            let a = run_mutation(
                MutationKind::RebaseWithDescendants,
                generation,
                (|| -> (o: Result<String, String>)
                    ensures
                        call_ensures(B::rebase_with_descendants, (backend, s, d), o),
                    { backend.rebase_with_descendants(s, d) }),
                reload,
            );
            Some(a)
        },
        Effect::ResolveFile { .. } => unsupported(
            MutationKind::ResolveConflict,
            "resolving files is not supported by this backend",
        ),
        Effect::Absorb { .. } => unsupported(
            MutationKind::Absorb,
            "absorb is not supported by this backend",
        ),
        Effect::Duplicate { .. } => unsupported(
            MutationKind::Duplicate,
            "duplicate is not supported by this backend",
        ),
        Effect::Revert { .. } => unsupported(
            MutationKind::Revert,
            "revert is not supported by this backend",
        ),
        Effect::LoadConflictData { change_id, path } => Some(
            Action::ConflictDataLoaded {
                change_id,
                path,
                result: Err(String::from_str("conflict sides are not supported by this backend")),
            },
        ),
        Effect::FetchForgeStatus => Some(Action::ForgeStatusLoaded(forge.fetch_status())),
        Effect::OpenOrCreatePr { .. } => Some(
            Action::PrCreateFailed { error: String::from_str("opening pull requests is not supported") },
        ),
        Effect::LaunchMergeTool { .. } | Effect::SuspendForEditor { .. } => None,
    }
}

} // verus!
