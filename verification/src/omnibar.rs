//! Omnibar completions: revset functions, bookmarks and change IDs that
//! extend the word being typed.

use vstd::prelude::*;

use crate::action::{Arity, CompletionItem};
use crate::dispatch::{bookmark_list, collect_bookmarks};
use crate::text::{
    append_str, chars_of, lowercase_of, starts_with, starts_with_at, string_from, to_lowercase,
};
use crate::types::GraphData;

verus! {

/// Whether `c` ends a revset word: an operator, a parenthesis, a comma or
/// ASCII whitespace.
pub open spec fn is_boundary(c: char) -> bool {
    c == '&' || c == '|' || c == '~' || c == '(' || c == ')' || c == ':' || c == '.' || c == ','
        || c == '+' || c == '-' || c == ' ' || c == '\t' || c == '\n' || c == '\x0C' || c == '\r'
}

/// Whether `c` ends a revset word.
pub fn is_revset_boundary(c: char) -> (b: bool)
    ensures
        b == is_boundary(c),
{
    c == '&' || c == '|' || c == '~' || c == '(' || c == ')' || c == ':' || c == '.' || c == ','
        || c == '+' || c == '-' || c == ' ' || c == '\t' || c == '\n' || c == '\x0C' || c == '\r'
}

/// The number of bytes UTF-8 takes for `c`.
pub open spec fn utf8_len(c: char) -> nat {
    let u = c as u32;
    if u < 0x80 {
        1
    } else if u < 0x800 {
        2
    } else if u < 0x10000 {
        3
    } else {
        4
    }
}

/// The number of bytes UTF-8 takes for `s`.
pub open spec fn byte_len(s: Seq<char>) -> nat
    decreases s.len(),
{
    if s.len() == 0 {
        0
    } else {
        byte_len(s.drop_last()) + utf8_len(s.last())
    }
}

/// The position of the last boundary character of `s`.
pub open spec fn last_boundary(s: Seq<char>) -> Option<int>
    decreases s.len(),
{
    if s.len() == 0 {
        None
    } else if is_boundary(s.last()) {
        Some(s.len() - 1)
    } else {
        last_boundary(s.drop_last())
    }
}

/// Where the word being typed at the end of `s` starts.
pub open spec fn word_start(s: Seq<char>) -> int {
    match last_boundary(s) {
        Some(p) => p + 1,
        None => 0,
    }
}

/// The word being typed at the end of `s`: what follows its last boundary.
pub open spec fn current_word(s: Seq<char>) -> Seq<char> {
    s.skip(word_start(s))
}

proof fn lemma_last_boundary(s: Seq<char>)
    ensures
        last_boundary(s) matches Some(p) ==> 0 <= p < s.len(),
    decreases s.len(),
{
    if s.len() > 0 {
        lemma_last_boundary(s.drop_last());
    }
}

proof fn lemma_byte_len_prefix(s: Seq<char>, i: int)
    requires
        0 <= i <= s.len(),
    ensures
        byte_len(s.take(i)) <= byte_len(s),
    decreases s.len() - i,
{
    if i < s.len() {
        lemma_byte_len_prefix(s, i + 1);
        assert(s.take(i + 1).drop_last() =~= s.take(i));
    } else {
        assert(s.take(i) =~= s);
    }
}

fn utf8_width(c: char) -> (n: usize)
    ensures
        n == utf8_len(c),
{
    let u = c as u32;
    if u < 0x80 {
        1
    } else if u < 0x800 {
        2
    } else if u < 0x10000 {
        3
    } else {
        4
    }
}

/// The word being typed at the end of `query`, with the byte offset where
/// it starts.
pub fn extract_current_word(query: &str) -> (r: (usize, String))
    requires
        byte_len(query@) <= usize::MAX,
    ensures
        r.0 == byte_len(query@.take(word_start(query@))),
        r.1@ == current_word(query@),
{
    let v = chars_of(query);
    let mut i: usize = v.len();
    assert(v@.take(v@.len() as int) =~= v@);
    while i > 0
        invariant
            v@ == query@,
            i <= v@.len(),
            last_boundary(v@) == last_boundary(v@.take(i as int)),
        ensures
            i <= v@.len(),
            i == 0 ==> last_boundary(v@) is None,
            i > 0 ==> last_boundary(v@) == Some((i - 1) as int),
        decreases i,
    {
        assert(v@.take(i as int).drop_last() =~= v@.take(i - 1));
        if is_revset_boundary(v[i - 1]) {
            break;
        }
        i -= 1;
    }
    let start = i;
    assert(word_start(query@) == start);
    let mut bytes: usize = 0;
    let mut k: usize = 0;
    proof {
        lemma_byte_len_prefix(v@, start as int);
    }
    while k < start
        invariant
            v@ == query@,
            k <= start,
            start <= v@.len(),
            byte_len(v@.take(start as int)) <= usize::MAX,
            bytes == byte_len(v@.take(k as int)),
        decreases start - k,
    {
        assert(v@.take(k + 1).drop_last() =~= v@.take(k as int));
        proof {
            lemma_byte_len_prefix(v@.take(start as int), k + 1);
            assert(v@.take(start as int).take(k + 1) =~= v@.take(k + 1));
        }
        bytes = bytes + utf8_width(v[k]);
        k += 1;
    }
    let word = string_from(&v, start, v.len());
    assert(word@ =~= current_word(query@));
    (bytes, word)
}


/// The revset functions offered for completion, with their arity.
pub open spec fn revset_table() -> Seq<(Seq<char>, Arity)> {
    seq![
        ("all"@, Arity::Nullary),
        ("ancestors"@, Arity::Required),
        ("author"@, Arity::Required),
        ("bookmarks"@, Arity::Optional),
        ("committer"@, Arity::Required),
        ("conflicts"@, Arity::Nullary),
        ("connected"@, Arity::Required),
        ("descendants"@, Arity::Required),
        ("description"@, Arity::Required),
        ("diff_contains"@, Arity::Required),
        ("empty"@, Arity::Nullary),
        ("file"@, Arity::Required),
        ("fork_point"@, Arity::Required),
        ("heads"@, Arity::Required),
        ("immutable"@, Arity::Nullary),
        ("mine"@, Arity::Nullary),
        ("none"@, Arity::Nullary),
        ("present"@, Arity::Required),
        ("remote_bookmarks"@, Arity::Optional),
        ("root"@, Arity::Nullary),
        ("roots"@, Arity::Required),
        ("tags"@, Arity::Optional),
        ("trunk"@, Arity::Nullary),
        ("visible_heads"@, Arity::Nullary),
    ]
}

/// The revset functions offered for completion, with their arity.
pub fn revset_functions() -> (v: Vec<(&'static str, Arity)>)
    ensures
        v@.map_values(|p: (&str, Arity)| (p.0@, p.1)) == revset_table(),
{
    let v = vec![
        ("all", Arity::Nullary),
        ("ancestors", Arity::Required),
        ("author", Arity::Required),
        ("bookmarks", Arity::Optional),
        ("committer", Arity::Required),
        ("conflicts", Arity::Nullary),
        ("connected", Arity::Required),
        ("descendants", Arity::Required),
        ("description", Arity::Required),
        ("diff_contains", Arity::Required),
        ("empty", Arity::Nullary),
        ("file", Arity::Required),
        ("fork_point", Arity::Required),
        ("heads", Arity::Required),
        ("immutable", Arity::Nullary),
        ("mine", Arity::Nullary),
        ("none", Arity::Nullary),
        ("present", Arity::Required),
        ("remote_bookmarks", Arity::Optional),
        ("root", Arity::Nullary),
        ("roots", Arity::Required),
        ("tags", Arity::Optional),
        ("trunk", Arity::Nullary),
        ("visible_heads", Arity::Nullary),
    ];
    assert(v@.map_values(|p: (&str, Arity)| (p.0@, p.1)) =~= revset_table());
    v
}

/// What a completion inserts and what it shows.
pub open spec fn item_view(c: CompletionItem) -> (Seq<char>, Seq<char>) {
    (c.insert_text@, c.display_text@)
}

/// A list of completions as the spec sees it.
pub open spec fn items_view(v: Seq<CompletionItem>) -> Seq<(Seq<char>, Seq<char>)> {
    v.map_values(|c: CompletionItem| item_view(c))
}

/// The call a function completion inserts: `name()` when it takes no
/// argument, else `name(`.
pub open spec fn call_text(name: Seq<char>, a: Arity) -> Seq<char> {
    match a {
        Arity::Nullary => name + "()"@,
        _ => name + "("@,
    }
}

/// The functions of table `t` whose name starts with `wl`, as completions.
pub open spec fn function_items(t: Seq<(Seq<char>, Arity)>, wl: Seq<char>) -> Seq<(Seq<char>, Seq<char>)>
    decreases t.len(),
{
    if t.len() == 0 {
        Seq::empty()
    } else {
        function_items(t.drop_last(), wl) + if starts_with(t.last().0, wl) {
            let c = call_text(t.last().0, t.last().1);
            seq![(c, c)]
        } else {
            Seq::empty()
        }
    }
}

/// `a` sorts before `b` (character by character, a prefix first).
pub open spec fn lex_lt(a: Seq<char>, b: Seq<char>) -> bool
    decreases a.len(),
{
    if a.len() == 0 {
        b.len() > 0
    } else if b.len() == 0 {
        false
    } else if a[0] != b[0] {
        a[0] < b[0]
    } else {
        lex_lt(a.drop_first(), b.drop_first())
    }
}

/// `x` inserted into the sorted list `s` (nothing changes when `x` is
/// already there).
pub open spec fn insert_sorted(s: Seq<Seq<char>>, x: Seq<char>) -> Seq<Seq<char>>
    decreases s.len(),
{
    if s.len() == 0 {
        seq![x]
    } else if x == s[0] {
        s
    } else if lex_lt(x, s[0]) {
        seq![x] + s
    } else {
        seq![s[0]] + insert_sorted(s.drop_first(), x)
    }
}

/// The distinct strings of `s`, sorted.
pub open spec fn sort_dedup(s: Seq<Seq<char>>) -> Seq<Seq<char>>
    decreases s.len(),
{
    if s.len() == 0 {
        Seq::empty()
    } else {
        insert_sorted(sort_dedup(s.drop_last()), s.last())
    }
}

/// The bookmark names of the graph, in graph order.
pub open spec fn bookmark_names(g: GraphData) -> Seq<Seq<char>> {
    bookmark_list(g, g.node_index_seq()).map_values(|p: (Seq<char>, Seq<char>)| p.0)
}

/// The names of `names` whose lowercase form starts with `wl`, as
/// completions.
pub open spec fn bookmark_items(names: Seq<Seq<char>>, wl: Seq<char>) -> Seq<(Seq<char>, Seq<char>)>
    decreases names.len(),
{
    if names.len() == 0 {
        Seq::empty()
    } else {
        bookmark_items(names.drop_last(), wl) + if starts_with(lowercase_of(names.last()), wl) {
            seq![(names.last(), names.last())]
        } else {
            Seq::empty()
        }
    }
}

/// The change IDs of the node lines `ns` whose lowercase form starts with
/// `wl` (only once `wl` is two bytes long), as completions showing the
/// change's description.
pub open spec fn change_items(g: GraphData, ns: Seq<usize>, wl: Seq<char>) -> Seq<(Seq<char>, Seq<char>)>
    decreases ns.len(),
{
    if ns.len() == 0 {
        Seq::empty()
    } else {
        let i = ns.last();
        change_items(g, ns.drop_last(), wl) + if i < g.lines@.len() && g.lines@[i as int].change_id
            is Some {
            let id = g.lines@[i as int].change_id->0@;
            match g.detail_spec(id) {
                Some(d) => if byte_len(wl) >= 2 && starts_with(lowercase_of(id), wl) {
                    let desc = if d.description@.len() == 0 {
                        "(no description)"@
                    } else {
                        d.description@
                    };
                    seq![(id, id + " \u{2014} "@ + desc)]
                } else {
                    Seq::empty()
                },
                None => Seq::empty(),
            }
        } else {
            Seq::empty()
        }
    }
}

/// The completions of the lowercase word `wl`: matching functions first,
/// then matching bookmarks (sorted, each once), then matching change IDs;
/// at most twenty.
pub open spec fn completions_spec(wl: Seq<char>, g: GraphData) -> Seq<(Seq<char>, Seq<char>)> {
    let all = function_items(revset_table(), wl) + bookmark_items(sort_dedup(bookmark_names(g)), wl)
        + change_items(g, g.node_index_seq(), wl);
    if all.len() > 20 {
        all.take(20)
    } else {
        all
    }
}


fn lex_less(a: &Vec<char>, b: &Vec<char>) -> (r: bool)
    ensures
        r == lex_lt(a@, b@),
{
    let mut i: usize = 0;
    assert(a@.skip(0) =~= a@ && b@.skip(0) =~= b@);
    while i < a.len() && i < b.len()
        invariant
            i <= a@.len(),
            i <= b@.len(),
            lex_lt(a@, b@) == lex_lt(a@.skip(i as int), b@.skip(i as int)),
        decreases a@.len() - i,
    {
        assert(a@.skip(i as int)[0] == a@[i as int]);
        assert(b@.skip(i as int)[0] == b@[i as int]);
        if a[i] != b[i] {
            return a[i] < b[i];
        }
        assert(a@.skip(i as int).drop_first() =~= a@.skip(i + 1));
        assert(b@.skip(i as int).drop_first() =~= b@.skip(i + 1));
        i += 1;
    }
    i == a.len() && i < b.len()
}

fn same_text(a: &Vec<char>, b: &Vec<char>) -> (r: bool)
    ensures
        r == (a@ == b@),
{
    if a.len() != b.len() {
        return false;
    }
    let mut i: usize = 0;
    while i < a.len()
        invariant
            a@.len() == b@.len(),
            i <= a@.len(),
            forall|k: int| 0 <= k < i ==> a@[k] == b@[k],
        decreases a@.len() - i,
    {
        if a[i] != b[i] {
            return false;
        }
        i += 1;
    }
    assert(a@ =~= b@);
    true
}

/// Inserts `x` into the sorted list `s`, unless it is already there.
fn insert_sorted_exec(s: &mut Vec<Vec<char>>, x: Vec<char>)
    ensures
        seqs(final(s)@) == insert_sorted(seqs(old(s)@), x@),
{
    let ghost orig = seqs(s@);
    let mut k: usize = 0;
    assert(orig.skip(0) =~= orig);
    assert(orig.take(0) + insert_sorted(orig.skip(0), x@) =~= insert_sorted(orig, x@));
    while k < s.len()
        invariant
            seqs(s@) == orig,
            seqs(old(s)@) == orig,
            k <= orig.len(),
            insert_sorted(orig, x@) == orig.take(k as int) + insert_sorted(orig.skip(k as int), x@),
        decreases orig.len() - k,
    {
        let ghost rest = orig.skip(k as int);
        assert(rest[0] == s@[k as int]@);
        if same_text(&x, &s[k]) {
            assert(insert_sorted(rest, x@) == rest);
            assert(orig.take(k as int) + rest =~= orig);
            return;
        }
        if lex_less(&x, &s[k]) {
            let ghost before = s@;
            let ghost xv = x@;
            assert(insert_sorted(rest, xv) == seq![xv] + rest);
            s.insert(k, x);
            assert(s@ == before.insert(k as int, x));
            assert(seqs(s@) =~= orig.take(k as int) + (seq![xv] + rest));
            return;
        }
        assert(rest.drop_first() =~= orig.skip(k + 1));
        assert(orig.take(k + 1) =~= orig.take(k as int) + seq![rest[0]]);
        k += 1;
    }
    assert(orig.skip(k as int) =~= Seq::<Seq<char>>::empty());
    let ghost before = s@;
    s.push(x);
    assert(seqs(s@) =~= orig.take(k as int) + seq![x@]);
}

/// A list of character vectors as the spec sees it.
pub open spec fn seqs(v: Seq<Vec<char>>) -> Seq<Seq<char>> {
    v.map_values(|x: Vec<char>| x@)
}

/// The distinct strings of `v`, sorted.
fn sort_dedup_exec(v: &Vec<String>) -> (r: Vec<Vec<char>>)
    ensures
        seqs(r@) == sort_dedup(crate::text::strings_of(v@)),
{
    let ghost names = crate::text::strings_of(v@);
    let mut out: Vec<Vec<char>> = Vec::new();
    let mut i: usize = 0;
    while i < v.len()
        invariant
            i <= v@.len(),
            names == crate::text::strings_of(v@),
            seqs(out@) == sort_dedup(names.take(i as int)),
        decreases v@.len() - i,
    {
        assert(names.take(i + 1).drop_last() =~= names.take(i as int));
        insert_sorted_exec(&mut out, chars_of(v[i].as_str()));
        i += 1;
    }
    assert(names.take(v@.len() as int) =~= names);
    out
}

proof fn lemma_byte_len_two(s: Seq<char>)
    ensures
        byte_len(s) >= 2 <==> s.len() >= 2 || (s.len() == 1 && s[0] as u32 >= 0x80),
    decreases s.len(),
{
    if s.len() > 0 {
        lemma_byte_len_two(s.drop_last());
        if s.len() == 1 {
            assert(s.drop_last().len() == 0);
        }
    }
}

fn push_item(v: &mut Vec<CompletionItem>, insert_text: String, display_text: String)
    ensures
        items_view(final(v)@) == items_view(old(v)@).push((insert_text@, display_text@)),
{
    let ghost before = v@;
    let item = CompletionItem { insert_text, display_text };
    v.push(item);
    assert(v@ == before.push(item));
    assert(items_view(v@) =~= items_view(before).push(item_view(item)));
}

/// The completions of `word_lower`, the lowercase form of the word being
/// typed: matching revset functions, then matching bookmarks (sorted, each
/// once), then matching change IDs; at most twenty.
pub fn completions_for(word_lower: &str, graph: &GraphData) -> (r: Vec<CompletionItem>)
    ensures
        items_view(r@) == completions_spec(word_lower@, *graph),
{
    let wl = chars_of(word_lower);
    let mut out: Vec<CompletionItem> = Vec::new();
    // Revset functions.
    let table = revset_functions();
    let ghost t = revset_table();
    let mut i: usize = 0;
    while i < table.len()
        invariant
            wl@ == word_lower@,
            t == revset_table(),
            table@.map_values(|p: (&str, Arity)| (p.0@, p.1)) == t,
            i <= table@.len(),
            items_view(out@) == function_items(t.take(i as int), wl@),
        decreases table@.len() - i,
    {
        assert(t.take(i + 1).drop_last() =~= t.take(i as int));
        assert(t.take(i + 1).last() == t[i as int]);
        let (name, arity) = table[i];
        assert(t[i as int] == (name@, arity));
        let nv = chars_of(name);
        if starts_with_at(&nv, 0, &wl) {
            assert(nv@.skip(0) =~= nv@);
            let mut text = String::new();
            append_str(&mut text, name);
            match arity {
                Arity::Nullary => append_str(&mut text, "()"),
                _ => append_str(&mut text, "("),
            }
            let display = text.clone();
            push_item(&mut out, text, display);
        } else {
            assert(nv@.skip(0) =~= nv@);
        }
        i += 1;
    }
    assert(t.take(table@.len() as int) =~= t);
    let ghost fns = items_view(out@);
    // Bookmarks.
    let pairs = collect_bookmarks(graph);
    let mut names: Vec<String> = Vec::new();
    let mut j: usize = 0;
    while j < pairs.len()
        invariant
            j <= pairs@.len(),
            crate::text::strings_of(names@) == crate::dispatch::pairs_view(pairs@).take(j as int).map_values(
                |p: (Seq<char>, Seq<char>)| p.0,
            ),
        decreases pairs@.len() - j,
    {
        let ghost before = names@;
        let nm = pairs[j].0.clone();
        names.push(nm);
        assert(names@ == before.push(nm));
        assert(crate::text::strings_of(names@) =~= crate::text::strings_of(before).push(nm@));
        assert(crate::dispatch::pairs_view(pairs@)[j as int].0 == nm@);
        assert(crate::text::strings_of(names@) =~= crate::dispatch::pairs_view(pairs@).take(
            j + 1,
        ).map_values(|p: (Seq<char>, Seq<char>)| p.0));
        j += 1;
    }
    assert(crate::dispatch::pairs_view(pairs@).take(pairs@.len() as int) =~= crate::dispatch::pairs_view(pairs@));
    assert(crate::text::strings_of(names@) =~= bookmark_names(*graph));
    let sorted = sort_dedup_exec(&names);
    let ghost sv = seqs(sorted@);
    let mut m: usize = 0;
    while m < sorted.len()
        invariant
            wl@ == word_lower@,
            sv == seqs(sorted@),
            m <= sorted@.len(),
            items_view(out@) == fns + bookmark_items(sv.take(m as int), wl@),
        decreases sorted@.len() - m,
    {
        assert(sv.take(m + 1).drop_last() =~= sv.take(m as int));
        assert(sv.take(m + 1).last() == sorted@[m as int]@);
        let name = string_from(&sorted[m], 0, sorted[m].len());
        assert(sorted@[m as int]@.subrange(0, sorted@[m as int]@.len() as int) =~= sorted@[m as int]@);
        let lower = chars_of(to_lowercase(name.as_str()).as_str());
        if starts_with_at(&lower, 0, &wl) {
            assert(lower@.skip(0) =~= lower@);
            let display = name.clone();
            push_item(&mut out, name, display);
        } else {
            assert(lower@.skip(0) =~= lower@);
        }
        m += 1;
    }
    assert(sv.take(sorted@.len() as int) =~= sv);
    let ghost with_bms = items_view(out@);
    // Change IDs.
    proof {
        lemma_byte_len_two(wl@);
    }
    let wn = wl.len();
    let long_enough = if wn >= 2 {
        true
    } else if wn == 1 {
        (wl[0] as u32) >= 0x80
    } else {
        false
    };
    let nodes = graph.node_indices();
    let ghost ns = graph.node_index_seq();
    let mut c: usize = 0;
    while c < nodes.len()
        invariant
            wl@ == word_lower@,
            nodes@ == ns,
            ns == graph.node_index_seq(),
            long_enough == (byte_len(wl@) >= 2),
            c <= nodes@.len(),
            items_view(out@) == with_bms + change_items(*graph, ns.take(c as int), wl@),
        decreases nodes@.len() - c,
    {
        assert(ns.take(c + 1).drop_last() =~= ns.take(c as int));
        assert(ns.take(c + 1).last() == ns[c as int]);
        let idx = nodes[c];
        if idx < graph.lines.len() {
            match &graph.lines[idx].change_id {
                Some(cid) => match graph.detail(cid.as_str()) {
                    Some(d) => {
                        let lower = chars_of(to_lowercase(cid.as_str()).as_str());
                        if long_enough && starts_with_at(&lower, 0, &wl) {
                            assert(lower@.skip(0) =~= lower@);
                            let mut display = String::new();
                            append_str(&mut display, cid.as_str());
                            append_str(&mut display, " \u{2014} ");
                            if d.description.as_str().is_empty() {
                                append_str(&mut display, "(no description)");
                            } else {
                                append_str(&mut display, d.description.as_str());
                            }
                            push_item(&mut out, cid.clone(), display);
                        } else {
                            assert(lower@.skip(0) =~= lower@);
                        }
                    },
                    None => {},
                },
                None => {},
            }
        }
        c += 1;
    }
    assert(ns.take(nodes@.len() as int) =~= ns);
    assert(items_view(out@) =~= function_items(revset_table(), wl@) + bookmark_items(
        sort_dedup(bookmark_names(*graph)),
        wl@,
    ) + change_items(*graph, graph.node_index_seq(), wl@));
    let ghost all = items_view(out@);
    out.truncate(20);
    proof {
        if all.len() > 20 {
            assert(items_view(out@) =~= all.take(20));
        } else {
            assert(items_view(out@) =~= all);
        }
    }
    out
}

/// `query` with the word being typed at its end replaced by `insert`.
pub open spec fn accepted_query(query: Seq<char>, insert: Seq<char>) -> Seq<char> {
    query.take(word_start(query)) + insert
}

/// Where the word being typed at the end of `v` starts.
fn word_start_exec(v: &Vec<char>) -> (r: usize)
    ensures
        r == word_start(v@),
        r <= v@.len(),
{
    let mut i: usize = v.len();
    assert(v@.take(v@.len() as int) =~= v@);
    while i > 0
        invariant
            i <= v@.len(),
            last_boundary(v@) == last_boundary(v@.take(i as int)),
        ensures
            i <= v@.len(),
            i == 0 ==> last_boundary(v@) is None,
            i > 0 ==> last_boundary(v@) == Some((i - 1) as int),
        decreases i,
    {
        assert(v@.take(i as int).drop_last() =~= v@.take(i - 1));
        if is_revset_boundary(v[i - 1]) {
            break;
        }
        i -= 1;
    }
    i
}

/// `query` with the word being typed at its end replaced by `insert` (a
/// completion taken).
pub fn accept_completion(query: &str, insert: &str) -> (r: String)
    ensures
        r@ == accepted_query(query@, insert@),
{
    let v = chars_of(query);
    let start = word_start_exec(&v);
    let mut r = string_from(&v, 0, start);
    append_str(&mut r, insert);
    assert(v@.subrange(0, start as int) =~= query@.take(word_start(query@)));
    r
}

/// The completions of the word being typed at the end of `query` (none
/// when no word is being typed).
pub fn compute_completions(query: &str, graph: &GraphData) -> (r: Vec<CompletionItem>)
    requires
        byte_len(query@) <= usize::MAX,
    ensures
        current_word(query@).len() == 0 ==> r@.len() == 0,
        current_word(query@).len() > 0 ==> items_view(r@) == completions_spec(
            lowercase_of(current_word(query@)),
            *graph,
        ),
{
    let (_, word) = extract_current_word(query);
    if word.as_str().is_empty() {
        return Vec::new();
    }
    let word_lower = to_lowercase(word.as_str());
    completions_for(word_lower.as_str(), graph)
}

} // verus!
