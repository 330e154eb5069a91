//! Fuzzy search over the changes of a graph.

use vstd::prelude::*;

use nucleo_matcher::pattern::{AtomKind, CaseMatching, Normalization, Pattern};

use crate::text::{append_str, push_char};
use crate::types::{ChangeDetail, GraphData, is_node};

verus! {

/// The score that nucleo's fuzzy `Pattern::score` gives `haystack` for
/// `pattern`, with smart case matching, smart normalization and the
/// default matcher configuration (`None` when it does not match).
pub uninterp spec fn nucleo_score(pattern: Seq<char>, haystack: Seq<char>) -> Option<u32>;

/// Scores `haystack` against the fuzzy pattern `pattern`.
///
/// Trusted wrapper around `nucleo_matcher::pattern::Pattern::score` with a
/// pattern built by `Pattern::new(pattern, CaseMatching::Smart,
/// Normalization::Smart, AtomKind::Fuzzy)` and a matcher with
/// `Config::DEFAULT`. The result is named `nucleo_score`; it depends on
/// the two strings alone. Nothing more about nucleo's scoring is claimed.
#[verifier::external_body]
fn fuzzy_score(pattern: &str, haystack: &str) -> (r: Option<u32>)
    ensures
        r == nucleo_score(pattern@, haystack@),
{
    let mut matcher = nucleo_matcher::Matcher::new(nucleo_matcher::Config::DEFAULT);
    let pat = Pattern::new(pattern, CaseMatching::Smart, Normalization::Smart, AtomKind::Fuzzy);
    let mut buf: Vec<char> = Vec::new();
    pat.score(nucleo_matcher::Utf32Str::new(haystack, &mut buf), &mut matcher)
}

/// The text a change is searched by: `"<change id> <author> <description>"`.
pub open spec fn haystack(id: Seq<char>, d: ChangeDetail) -> Seq<char> {
    id + seq![' '] + d.author@ + seq![' '] + d.description@
}

/// The score of node line `i` for `query`; `None` when `i` is not a node
/// line, its change has no detail, or it does not match.
pub open spec fn fuzzy_key(g: GraphData, query: Seq<char>, i: int) -> Option<u32> {
    if is_node(g.lines@, i) {
        let id = g.lines@[i].change_id->0@;
        match g.detail_spec(id) {
            Some(d) => nucleo_score(query, haystack(id, d)),
            None => None,
        }
    } else {
        None
    }
}

/// `a` ranks before `b`: higher score first, then earlier line.
pub open spec fn ranks_before(g: GraphData, query: Seq<char>, a: usize, b: usize) -> bool {
    let sa = fuzzy_key(g, query, a as int)->0;
    let sb = fuzzy_key(g, query, b as int)->0;
    sa > sb || (sa == sb && a < b)
}

/// `r` lists every matching node line exactly once, best score first and,
/// among equal scores, in graph order.
pub open spec fn is_ranking(g: GraphData, query: Seq<char>, r: Seq<usize>) -> bool {
    &&& forall|k: int| 0 <= k < r.len() ==> fuzzy_key(g, query, #[trigger] r[k] as int) is Some
    &&& forall|k: int, m: int|
        0 <= k < m < r.len() ==> ranks_before(g, query, #[trigger] r[k], #[trigger] r[m])
    &&& forall|i: int|
        0 <= i < g.lines@.len() && (#[trigger] fuzzy_key(g, query, i)) is Some ==> r.contains(
            i as usize,
        )
}

fn haystack_of(id: &String, d: &ChangeDetail) -> (h: String)
    ensures
        h@ == haystack(id@, *d),
{
    let mut h = String::new();
    append_str(&mut h, id.as_str());
    push_char(&mut h, ' ');
    append_str(&mut h, d.author.as_str());
    push_char(&mut h, ' ');
    append_str(&mut h, d.description.as_str());
    assert(h@ =~= haystack(id@, *d));
    h
}

/// The node lines of `graph` that match `query`, ranked best first; all node
/// lines, in graph order, when the query is empty.
pub fn fuzzy_match(query: &str, graph: &GraphData) -> (r: Vec<usize>)
    requires
        graph.wf(),
    ensures
        query@.len() == 0 ==> r@ == graph.node_index_seq(),
        query@.len() > 0 ==> is_ranking(*graph, query@, r@),
{
    let nodes = graph.node_indices();
    let ghost ns = graph.node_index_seq();
    if query.is_empty() {
        let mut all: Vec<usize> = Vec::new();
        let mut i: usize = 0;
        while i < nodes.len()
            invariant
                i <= nodes@.len(),
                nodes@ == ns,
                all@ == ns.take(i as int),
            decreases nodes@.len() - i,
        {
            all.push(nodes[i]);
            assert(ns.take(i + 1) =~= ns.take(i as int).push(ns[i as int]));
            i += 1;
        }
        assert(ns.take(nodes@.len() as int) =~= ns);
        return all;
    }
    proof {
        graph.lemma_wf();
    }
    let ghost q = query@;
    let mut ranked: Vec<usize> = Vec::new();
    let mut scores: Vec<u32> = Vec::new();
    let mut j: usize = 0;
    while j < nodes.len()
        invariant
            j <= nodes@.len(),
            nodes@ == ns,
            graph.wf(),
            q == query@,
            crate::types::is_node_index_list(graph.lines@, ns),
            ranked@.len() == scores@.len(),
            forall|k: int|
                0 <= k < ranked@.len() ==> fuzzy_key(*graph, q, #[trigger] ranked@[k] as int)
                    == Some(scores@[k]),
            forall|k: int, m: int|
                0 <= k < m < ranked@.len() ==> ranks_before(
                    *graph,
                    q,
                    #[trigger] ranked@[k],
                    #[trigger] ranked@[m],
                ),
            forall|k: int| 0 <= k < ranked@.len() ==> j > 0 && #[trigger] ranked@[k] <= ns[j - 1],
            forall|t: int|
                0 <= t < j && (#[trigger] fuzzy_key(*graph, q, ns[t] as int)) is Some
                    ==> ranked@.contains(ns[t]),
        decreases nodes@.len() - j,
    {
        let idx = nodes[j];
        let mut score: Option<u32> = None;
        match &graph.lines[idx].change_id {
            Some(cid) => {
                match graph.detail(cid.as_str()) {
                    Some(d) => {
                        let h = haystack_of(cid, d);
                        score = fuzzy_score(query, h.as_str());
                    },
                    None => {},
                }
            },
            None => {},
        }
        assert(score == fuzzy_key(*graph, q, idx as int));
        match score {
            Some(sc) => {
                // Insert after every entry that ranks before it.
                let mut pos: usize = 0;
                while pos < scores.len() && scores[pos] >= sc
                    invariant
                        pos <= scores@.len() == ranked@.len(),
                        forall|k: int| 0 <= k < pos ==> scores@[k] >= sc,
                    decreases scores@.len() - pos,
                {
                    pos += 1;
                }
                let ghost old_ranked = ranked@;
                let ghost old_scores = scores@;
                proof {
                    // Entries from `pos` on score lower than `sc`: scores never
                    // increase along the ranking.
                    assert forall|k: int| pos <= k < old_scores.len() implies old_scores[k]
                        < sc by {
                        if k > pos {
                            assert(ranks_before(*graph, q, old_ranked[pos as int], old_ranked[k]));
                        }
                    }
                    if j > 0 {
                        assert(ns[j - 1] < ns[j as int]);
                    }
                }
                ranked.insert(pos, idx);
                scores.insert(pos, sc);
                proof {
                    assert forall|k: int, m: int|
                        0 <= k < m < ranked@.len() implies ranks_before(
                        *graph,
                        q,
                        #[trigger] ranked@[k],
                        #[trigger] ranked@[m],
                    ) by {
                        if k < pos && m == pos {
                            assert(old_scores[k] >= sc);
                            assert(old_ranked[k] <= ns[j - 1]);
                        } else if k == pos && m > pos {
                            assert(old_scores[m - 1] < sc);
                        } else if k < pos && m > pos {
                            assert(ranks_before(*graph, q, old_ranked[k], old_ranked[m - 1]));
                        } else if k > pos {
                            assert(ranks_before(*graph, q, old_ranked[k - 1], old_ranked[m - 1]));
                        }
                    }
                    assert forall|t: int|
                        0 <= t < j + 1 && (#[trigger] fuzzy_key(*graph, q, ns[t] as int)) is Some implies ranked@.contains(
                        ns[t],
                    ) by {
                        if t < j {
                            let w = choose|w: int| 0 <= w < old_ranked.len() && old_ranked[w] == ns[t];
                            if w < pos {
                                assert(ranked@[w] == ns[t]);
                            } else {
                                assert(ranked@[w + 1] == ns[t]);
                            }
                        } else {
                            assert(ranked@[pos as int] == ns[t]);
                        }
                    }
                    assert forall|k: int| 0 <= k < ranked@.len() implies #[trigger] ranked@[k]
                        <= ns[j as int] by {
                        if k < pos {
                            assert(ranked@[k] == old_ranked[k]);
                        } else if k > pos {
                            assert(ranked@[k] == old_ranked[k - 1]);
                        }
                    }
                }
            },
            None => {
                proof {
                    assert forall|t: int|
                        0 <= t < j + 1 && (#[trigger] fuzzy_key(*graph, q, ns[t] as int)) is Some implies ranked@.contains(
                        ns[t],
                    ) by {
                        assert(t < j);
                    }
                    if j > 0 {
                        assert(ns[j - 1] < ns[j as int]);
                    }
                }
            },
        }
        j += 1;
    }
    let nlines = graph.lines.len();
    proof {
        assert forall|i: int|
            0 <= i < graph.lines@.len() && (#[trigger] fuzzy_key(*graph, q, i)) is Some implies ranked@.contains(
            i as usize,
        ) by {
            assert(ns.contains(i as usize));
            let t = choose|t: int| 0 <= t < ns.len() && ns[t] == i as usize;
            assert(fuzzy_key(*graph, q, ns[t] as int) is Some);
        }
    }
    ranked
}

} // verus!
