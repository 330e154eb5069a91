use vstd::prelude::*;

verus! {

/// Appends one character to a `String`.
///
/// Trusted wrapper around `String::push`: the std documentation says it
/// appends the given char to the end of the string, so the view grows by
/// exactly that character.
#[verifier::external_body]
pub(crate) fn push_char(s: &mut String, c: char)
    ensures
        final(s)@ == old(s)@.push(c),
{
    s.push(c);
}

/// Removes and returns the last character of a `String`.
///
/// Trusted wrapper around `String::pop`: the std documentation says it
/// removes the last character and returns it, or returns `None` (leaving
/// the string as it is) when the string is empty.
#[verifier::external_body]
pub(crate) fn pop_char(s: &mut String) -> (r: Option<char>)
    ensures
        old(s)@.len() == 0 ==> r is None && final(s)@ == old(s)@,
        old(s)@.len() > 0 ==> r == Some(old(s)@.last()) && final(s)@ == old(s)@.drop_last(),
{
    s.pop()
}

/// The characters of `s`, in order.
pub fn chars_of(s: &str) -> (v: Vec<char>)
    ensures
        v@ == s@,
{
    let mut v: Vec<char> = Vec::new();
    for c in it: s.chars()
        invariant
            v@ == it.seq().take(it.index() as int),
    {
        v.push(c);
    }
    v
}

/// A `String` holding `v[lo..hi]`.
pub fn string_from(v: &Vec<char>, lo: usize, hi: usize) -> (s: String)
    requires
        lo <= hi <= v@.len(),
    ensures
        s@ == v@.subrange(lo as int, hi as int),
{
    let mut s = String::new();
    let mut i = lo;
    while i < hi
        invariant
            lo <= i <= hi <= v@.len(),
            s@ == v@.subrange(lo as int, i as int),
        decreases hi - i,
    {
        push_char(&mut s, v[i]);
        assert(v@.subrange(lo as int, i + 1) =~= v@.subrange(lo as int, i as int).push(v@[i as int]));
        i += 1;
    }
    s
}

/// A `String` holding all of `v`.
pub fn string_of(v: &Vec<char>) -> (s: String)
    ensures
        s@ == v@,
{
    let s = string_from(v, 0, v.len());
    assert(v@.subrange(0, v@.len() as int) =~= v@);
    s
}

/// Appends all of `t` to `s`.
pub fn append_str(s: &mut String, t: &str)
    ensures
        final(s)@ == old(s)@ + t@,
{
    let v = chars_of(t);
    let mut i: usize = 0;
    while i < v.len()
        invariant
            i <= v@.len(),
            v@ == t@,
            s@ == old(s)@ + v@.take(i as int),
        decreases v@.len() - i,
    {
        push_char(s, v[i]);
        assert(v@.take(i + 1) =~= v@.take(i as int).push(v@[i as int]));
        i += 1;
    }
    assert(v@.take(v@.len() as int) =~= v@);
}

/// The concatenation of `a` and `b` as a new `String`.
pub fn concat2(a: &str, b: &str) -> (s: String)
    ensures
        s@ == a@ + b@,
{
    let mut s = String::new();
    append_str(&mut s, a);
    append_str(&mut s, b);
    assert(Seq::<char>::empty() + a@ =~= a@);
    s
}

/// Whether `c` is a Unicode `White_Space` character, which is what
/// `char::is_whitespace` tests.
pub open spec fn is_ws(c: char) -> bool {
    ||| c == '\t'
    ||| c == '\n'
    ||| c == '\u{0B}'
    ||| c == '\u{0C}'
    ||| c == '\r'
    ||| c == ' '
    ||| c == '\u{85}'
    ||| c == '\u{A0}'
    ||| c == '\u{1680}'
    ||| ('\u{2000}' <= c && c <= '\u{200A}')
    ||| c == '\u{2028}'
    ||| c == '\u{2029}'
    ||| c == '\u{202F}'
    ||| c == '\u{205F}'
    ||| c == '\u{3000}'
}

pub fn is_ws_exec(c: char) -> (b: bool)
    ensures
        b == is_ws(c),
{
    c == '\t' || c == '\n' || c == '\u{0B}' || c == '\u{0C}' || c == '\r' || c == ' ' || c
        == '\u{85}' || c == '\u{A0}' || c == '\u{1680}' || ('\u{2000}' <= c && c <= '\u{200A}')
        || c == '\u{2028}' || c == '\u{2029}' || c == '\u{202F}' || c == '\u{205F}' || c
        == '\u{3000}'
}

/// `s` without its leading whitespace.
pub open spec fn trim_start(s: Seq<char>) -> Seq<char>
    decreases s.len(),
{
    if s.len() > 0 && is_ws(s[0]) {
        trim_start(s.drop_first())
    } else {
        s
    }
}

/// `s` without its trailing whitespace.
pub open spec fn trim_end(s: Seq<char>) -> Seq<char>
    decreases s.len(),
{
    if s.len() > 0 && is_ws(s.last()) {
        trim_end(s.drop_last())
    } else {
        s
    }
}

/// `s` without leading and trailing whitespace, as `str::trim` gives it.
pub open spec fn trim(s: Seq<char>) -> Seq<char> {
    trim_end(trim_start(s))
}

proof fn lemma_trim_start_skip(s: Seq<char>, i: int)
    requires
        0 <= i <= s.len(),
        forall|k: int| 0 <= k < i ==> is_ws(#[trigger] s[k]),
    ensures
        trim_start(s) == trim_start(s.skip(i)),
    decreases i,
{
    if i > 0 {
        assert(is_ws(s[0]));
        assert(s.drop_first().skip(i - 1) =~= s.skip(i));
        lemma_trim_start_skip(s.drop_first(), i - 1);
    } else {
        assert(s.skip(0) =~= s);
    }
}

proof fn lemma_trim_end_take(s: Seq<char>, j: int)
    requires
        0 <= j <= s.len(),
        forall|k: int| j <= k < s.len() ==> is_ws(#[trigger] s[k]),
    ensures
        trim_end(s) == trim_end(s.take(j)),
    decreases s.len() - j,
{
    if j < s.len() {
        assert(is_ws(s.last()));
        assert(s.drop_last().take(j) =~= s.take(j));
        lemma_trim_end_take(s.drop_last(), j);
    } else {
        assert(s.take(j) =~= s);
    }
}

/// Bounds `(lo, hi)` such that `s[lo..hi]` is `s` trimmed.
pub fn trim_bounds(s: &Vec<char>, lo0: usize, hi0: usize) -> (r: (usize, usize))
    requires
        lo0 <= hi0 <= s@.len(),
    ensures
        lo0 <= r.0 <= r.1 <= hi0,
        s@.subrange(r.0 as int, r.1 as int) == trim(s@.subrange(lo0 as int, hi0 as int)),
{
    let ghost t = s@.subrange(lo0 as int, hi0 as int);
    let mut lo = lo0;
    while lo < hi0 && is_ws_exec(s[lo])
        invariant
            lo0 <= lo <= hi0 <= s@.len(),
            forall|k: int| lo0 <= k < lo ==> is_ws(#[trigger] s@[k]),
        decreases hi0 - lo,
    {
        lo += 1;
    }
    proof {
        assert forall|k: int| 0 <= k < lo - lo0 implies is_ws(#[trigger] t[k]) by {
            assert(t[k] == s@[k + lo0]);
        }
        lemma_trim_start_skip(t, lo - lo0);
        assert(t.skip(lo - lo0) =~= s@.subrange(lo as int, hi0 as int));
        if lo < hi0 {
            assert(!is_ws(s@.subrange(lo as int, hi0 as int)[0]));
        }
    }
    let mut hi = hi0;
    while hi > lo && is_ws_exec(s[hi - 1])
        invariant
            lo0 <= lo <= hi <= hi0 <= s@.len(),
            forall|k: int| hi <= k < hi0 ==> is_ws(#[trigger] s@[k]),
        decreases hi - lo,
    {
        hi -= 1;
    }
    proof {
        let u = s@.subrange(lo as int, hi0 as int);
        assert(trim_start(t) == u);
        assert forall|k: int| hi - lo <= k < u.len() implies is_ws(#[trigger] u[k]) by {
            assert(u[k] == s@[k + lo]);
        }
        lemma_trim_end_take(u, hi - lo);
        assert(u.take(hi - lo) =~= s@.subrange(lo as int, hi as int));
        if hi > lo {
            assert(!is_ws(s@.subrange(lo as int, hi as int).last()));
        }
    }
    (lo, hi)
}

/// Whether `t` is empty or all whitespace.
pub fn is_blank(s: &Vec<char>) -> (b: bool)
    ensures
        b == (trim(s@).len() == 0),
{
    let (lo, hi) = trim_bounds(s, 0, s.len());
    assert(s@.subrange(0, s@.len() as int) =~= s@);
    lo == hi
}

/// The pieces of `s` between `'\n'` characters; there is always at least one.
pub open spec fn split_newlines(s: Seq<char>) -> Seq<Seq<char>>
    decreases s.len(),
{
    if s.len() == 0 {
        seq![Seq::<char>::empty()]
    } else {
        let p = split_newlines(s.drop_last());
        if s.last() == '\n' {
            p.push(Seq::<char>::empty())
        } else {
            p.update(p.len() - 1, p.last().push(s.last()))
        }
    }
}

pub proof fn lemma_split_newlines_nonempty(s: Seq<char>)
    ensures
        split_newlines(s).len() >= 1,
    decreases s.len(),
{
    if s.len() > 0 {
        lemma_split_newlines_nonempty(s.drop_last());
    }
}

/// `l` without one trailing `'\r'`.
pub open spec fn strip_cr(l: Seq<char>) -> Seq<char> {
    if l.len() > 0 && l.last() == '\r' {
        l.drop_last()
    } else {
        l
    }
}

/// The lines of `s` as `str::lines` yields them: split at `'\n'`, a
/// `'\r'` just before a `'\n'` removed, and no empty final line after a
/// trailing `'\n'`.
pub open spec fn lines_spec(s: Seq<char>) -> Seq<Seq<char>> {
    let g = split_newlines(s);
    let n = if g.len() > 0 && g.last().len() == 0 {
        g.len() - 1
    } else {
        g.len() as int
    };
    Seq::new(
        n as nat,
        |i: int|
            if i < g.len() - 1 {
                strip_cr(g[i])
            } else {
                g[i]
            },
    )
}

/// The character sequences held by a vector of character vectors.
pub open spec fn seqs_view(v: Seq<Vec<char>>) -> Seq<Seq<char>> {
    v.map_values(|x: Vec<char>| x@)
}

/// The lines of `s`, as `str::lines` yields them.
pub fn lines_of(s: &Vec<char>) -> (ls: Vec<Vec<char>>)
    ensures
        seqs_view(ls@) == lines_spec(s@),
{
    let mut done: Vec<Vec<char>> = Vec::new();
    let mut cur: Vec<char> = Vec::new();
    let mut i: usize = 0;
    while i < s.len()
        invariant
            i <= s@.len(),
            split_newlines(s@.take(i as int)) == seqs_view(done@).push(cur@),
        decreases s@.len() - i,
    {
        let ghost pre = s@.take(i as int);
        assert(s@.take(i + 1).drop_last() =~= pre);
        assert(s@.take(i + 1).last() == s@[i as int]);
        let c = s[i];
        if c == '\n' {
            let ghost old_done = done@;
            let finished = cur;
            done.push(finished);
            cur = Vec::new();
            assert(seqs_view(done@) =~= seqs_view(old_done).push(finished@));
        } else {
            cur.push(c);
            assert(seqs_view(done@).push(cur@) =~= split_newlines(pre).update(
                split_newlines(pre).len() - 1,
                split_newlines(pre).last().push(c),
            ));
        }
        i += 1;
    }
    assert(s@.take(s@.len() as int) =~= s@);
    let ghost g = split_newlines(s@);
    // Strip the '\r' of every terminated line.
    let mut out: Vec<Vec<char>> = Vec::new();
    let mut k: usize = 0;
    let nd = done.len();
    while k < nd
        invariant
            k <= nd == done@.len(),
            g == seqs_view(done@).push(cur@),
            out@.len() == k,
            forall|m: int| 0 <= m < k ==> (#[trigger] out@[m])@ == strip_cr(g[m]),
        decreases nd - k,
    {
        let line = &done[k];
        let n = line.len();
        assert(g[k as int] == line@);
        let mut copy: Vec<char> = Vec::new();
        let end = if n > 0 && line[n - 1] == '\r' {
            n - 1
        } else {
            n
        };
        let mut j: usize = 0;
        while j < end
            invariant
                end <= n == line@.len(),
                j <= end,
                copy@ == line@.take(j as int),
            decreases end - j,
        {
            copy.push(line[j]);
            assert(line@.take(j + 1) =~= line@.take(j as int).push(line@[j as int]));
            j += 1;
        }
        assert(copy@ =~= strip_cr(line@));
        out.push(copy);
        k += 1;
    }
    if cur.len() > 0 {
        out.push(cur);
    }
    assert(seqs_view(out@) =~= lines_spec(s@));
    out
}

/// The first position of `c` in `s[lo..hi]`, if any.
pub fn find_char(s: &Vec<char>, lo: usize, hi: usize, c: char) -> (r: Option<usize>)
    requires
        lo <= hi <= s@.len(),
    ensures
        match r {
            Some(p) => lo <= p < hi && s@[p as int] == c && forall|k: int|
                lo <= k < p ==> s@[k] != c,
            None => forall|k: int| lo <= k < hi ==> s@[k] != c,
        },
{
    let mut i = lo;
    while i < hi
        invariant
            lo <= i <= hi <= s@.len(),
            forall|k: int| lo <= k < i ==> s@[k] != c,
        decreases hi - i,
    {
        if s[i] == c {
            return Some(i);
        }
        i += 1;
    }
    None
}

/// The position of the first `c` in `s[lo..hi]`, relative to `lo`.
pub fn find_first_in(s: &Vec<char>, lo: usize, hi: usize, c: char) -> (r: Option<usize>)
    requires
        lo <= hi <= s@.len(),
    ensures
        match r {
            Some(p) => first_index(s@.subrange(lo as int, hi as int), c) == Some(p as int) && p < hi - lo
                && s@[lo + p] == c,
            None => first_index(s@.subrange(lo as int, hi as int), c) is None,
        },
{
    let ghost t = s@.subrange(lo as int, hi as int);
    let r = find_char(s, lo, hi, c);
    match r {
        Some(p) => {
            proof {
                assert forall|k: int| 0 <= k < p - lo implies !is_char(c)(#[trigger] t[k]) by {
                    assert(t[k] == s@[lo + k]);
                }
                assert(t[p - lo] == s@[p as int]);
                lemma_first_match(t, is_char(c), Some(p - lo));
            }
            Some(p - lo)
        },
        None => {
            proof {
                assert forall|k: int| 0 <= k < t.len() implies !is_char(c)(#[trigger] t[k]) by {
                    assert(t[k] == s@[lo + k]);
                }
                lemma_first_match(t, is_char(c), None);
            }
            None
        },
    }
}

/// Whether `s` begins with `p`.
pub open spec fn starts_with(s: Seq<char>, p: Seq<char>) -> bool {
    p.len() <= s.len() && s.take(p.len() as int) == p
}

/// Whether `s[at..]` begins with `p`.
pub fn starts_with_at(s: &Vec<char>, at: usize, p: &Vec<char>) -> (b: bool)
    requires
        at <= s@.len(),
    ensures
        b == starts_with(s@.skip(at as int), p@),
{
    let n = s.len();
    if p.len() > n - at {
        return false;
    }
    let mut i: usize = 0;
    while i < p.len()
        invariant
            n == s@.len(),
            at <= s@.len(),
            i <= p@.len() <= s@.len() - at,
            forall|k: int| 0 <= k < i ==> s@[at + k] == p@[k],
        decreases p@.len() - i,
    {
        if s[at + i] != p[i] {
            assert(s@.skip(at as int).take(p@.len() as int)[i as int] != p@[i as int]);
            return false;
        }
        i += 1;
    }
    assert(s@.skip(at as int).take(p@.len() as int) =~= p@);
    true
}

/// Whether the strings hold the same characters.
pub fn same_chars(a: &Vec<char>, b: &Vec<char>) -> (r: bool)
    ensures
        r == (a@ == b@),
{
    if a.len() != b.len() {
        return false;
    }
    let mut i: usize = 0;
    while i < a.len()
        invariant
            a@.len() == b@.len(),
            i <= a@.len(),
            forall|k: int| 0 <= k < i ==> a@[k] == b@[k],
        decreases a@.len() - i,
    {
        if a[i] != b[i] {
            return false;
        }
        i += 1;
    }
    assert(a@ =~= b@);
    true
}

/// The pieces of `s` between occurrences of `sep`, as `str::split` with a
/// char pattern yields them (always at least one piece).
pub open spec fn split_on(s: Seq<char>, sep: char) -> Seq<Seq<char>>
    decreases s.len(),
{
    if s.len() == 0 {
        seq![Seq::<char>::empty()]
    } else {
        let p = split_on(s.drop_last(), sep);
        if s.last() == sep {
            p.push(Seq::<char>::empty())
        } else {
            p.update(p.len() - 1, p.last().push(s.last()))
        }
    }
}

pub proof fn lemma_split_on_nonempty(s: Seq<char>, sep: char)
    ensures
        split_on(s, sep).len() >= 1,
    decreases s.len(),
{
    if s.len() > 0 {
        lemma_split_on_nonempty(s.drop_last(), sep);
    }
}

/// Appending text without `sep` to `x` extends the last piece of
/// `split_on(x, sep)` by that text.
pub proof fn lemma_split_on_extend(x: Seq<char>, b: Seq<char>, sep: char)
    requires
        !b.contains(sep),
    ensures
        split_on(x + b, sep) == split_on(x, sep).update(
            split_on(x, sep).len() - 1,
            split_on(x, sep).last() + b,
        ),
    decreases b.len(),
{
    lemma_split_on_nonempty(x, sep);
    let p = split_on(x, sep);
    if b.len() == 0 {
        assert(x + b =~= x);
        assert(p.last() + b =~= p.last());
        assert(p.update(p.len() - 1, p.last() + b) =~= p);
    } else {
        let bl = b.drop_last();
        assert(!bl.contains(sep)) by {
            if bl.contains(sep) {
                let k = choose|k: int| 0 <= k < bl.len() && bl[k] == sep;
                assert(b[k] == sep);
            }
        }
        assert(b.last() != sep) by {
            assert(b[b.len() - 1] == b.last());
        }
        lemma_split_on_extend(x, bl, sep);
        assert((x + b).drop_last() =~= x + bl);
        assert((x + b).last() == b.last());
        let q = p.update(p.len() - 1, p.last() + bl);
        assert(q.last() == p.last() + bl);
        assert((p.last() + bl).push(b.last()) =~= p.last() + b);
        assert(q.update(q.len() - 1, q.last().push(b.last())) =~= p.update(
            p.len() - 1,
            p.last() + b,
        ));
    }
}

/// The text `a`, a separator, then `b`, where neither `a` nor `b` holds
/// the separator, splits into exactly `a` and `b`.
pub proof fn lemma_split_on_two(a: Seq<char>, b: Seq<char>, sep: char)
    requires
        !a.contains(sep),
        !b.contains(sep),
    ensures
        split_on(a + seq![sep] + b, sep) == seq![a, b],
{
    let e = Seq::<char>::empty();
    lemma_split_on_extend(e, a, sep);
    assert(e + a =~= a);
    assert(split_on(e, sep) == seq![e]);
    assert(seq![e].update(0, e + a) =~= seq![a]);
    let x = a + seq![sep];
    assert(x.drop_last() =~= a);
    assert(x.last() == sep);
    assert(split_on(x, sep) =~= seq![a, e]);
    lemma_split_on_extend(x, b, sep);
    assert(e + b =~= b);
    assert(seq![a, e].update(1, e + b) =~= seq![a, b]);
}

/// Text without `'\n'` is a single piece of `split_newlines`.
pub proof fn lemma_split_newlines_single(s: Seq<char>)
    requires
        !s.contains('\n'),
    ensures
        split_newlines(s) == seq![s],
    decreases s.len(),
{
    if s.len() > 0 {
        let t = s.drop_last();
        assert(!t.contains('\n')) by {
            if t.contains('\n') {
                let k = choose|k: int| 0 <= k < t.len() && t[k] == '\n';
                assert(s[k] == '\n');
            }
        }
        assert(s.last() != '\n') by {
            assert(s[s.len() - 1] == s.last());
        }
        lemma_split_newlines_single(t);
        assert(t.push(s.last()) =~= s);
        assert(seq![t].update(0, t.push(s.last())) =~= seq![s]);
    } else {
        assert(s =~= Seq::<char>::empty());
    }
}

/// The strings held by a vector of `String`s.
pub open spec fn strings_of(v: Seq<String>) -> Seq<Seq<char>> {
    v.map_values(|x: String| x@)
}

/// Splits `s[lo..hi]` at every `sep`.
pub fn split_chars(s: &Vec<char>, lo: usize, hi: usize, sep: char) -> (parts: Vec<String>)
    requires
        lo <= hi <= s@.len(),
    ensures
        strings_of(parts@) == split_on(s@.subrange(lo as int, hi as int), sep),
{
    let mut done: Vec<String> = Vec::new();
    let mut start = lo;
    let mut i = lo;
    assert(s@.subrange(lo as int, lo as int) =~= Seq::<char>::empty());
    assert(strings_of(done@).push(s@.subrange(lo as int, lo as int)) =~= seq![Seq::<char>::empty()]);
    while i < hi
        invariant
            lo <= start <= i <= hi <= s@.len(),
            split_on(s@.subrange(lo as int, i as int), sep) == strings_of(done@).push(
                s@.subrange(start as int, i as int),
            ),
        decreases hi - i,
    {
        let ghost pre = s@.subrange(lo as int, i as int);
        assert(s@.subrange(lo as int, i + 1).drop_last() =~= pre);
        assert(s@.subrange(lo as int, i + 1).last() == s@[i as int]);
        if s[i] == sep {
            let piece = string_from(s, start, i);
            let ghost old_done = done@;
            done.push(piece);
            assert(strings_of(done@) =~= strings_of(old_done).push(piece@));
            start = i + 1;
            assert(s@.subrange(start as int, i + 1) =~= Seq::<char>::empty());
        } else {
            assert(s@.subrange(start as int, i + 1) =~= s@.subrange(start as int, i as int).push(
                s@[i as int],
            ));
        }
        i += 1;
    }
    let last = string_from(s, start, hi);
    let ghost old_done = done@;
    done.push(last);
    assert(strings_of(done@) =~= strings_of(old_done).push(last@));
    done
}

/// The decimal digit for `d < 10`.
pub open spec fn digit_char(d: nat) -> char {
    if d == 0 { '0' }
    else if d == 1 { '1' }
    else if d == 2 { '2' }
    else if d == 3 { '3' }
    else if d == 4 { '4' }
    else if d == 5 { '5' }
    else if d == 6 { '6' }
    else if d == 7 { '7' }
    else if d == 8 { '8' }
    else { '9' }
}

fn digit_char_exec(d: usize) -> (c: char)
    requires
        d < 10,
    ensures
        c == digit_char(d as nat),
{
    if d == 0 { '0' }
    else if d == 1 { '1' }
    else if d == 2 { '2' }
    else if d == 3 { '3' }
    else if d == 4 { '4' }
    else if d == 5 { '5' }
    else if d == 6 { '6' }
    else if d == 7 { '7' }
    else if d == 8 { '8' }
    else { '9' }
}

/// The decimal representation of `n`, as `{}` formats an unsigned integer.
pub open spec fn decimal(n: nat) -> Seq<char>
    decreases n,
{
    if n < 10 {
        seq![digit_char(n)]
    } else {
        decimal(n / 10).push(digit_char(n % 10))
    }
}

/// Appends the decimal representation of `n` to `s`.
pub fn push_decimal(s: &mut String, n: usize)
    ensures
        final(s)@ == old(s)@ + decimal(n as nat),
    decreases n,
{
    if n < 10 {
        push_char(s, digit_char_exec(n));
        assert(old(s)@.push(digit_char(n as nat)) =~= old(s)@ + seq![digit_char(n as nat)]);
    } else {
        push_decimal(s, n / 10);
        push_char(s, digit_char_exec(n % 10));
        assert(old(s)@ + decimal((n / 10) as nat) + seq![digit_char((n % 10) as nat)] =~= old(s)@
            + decimal((n / 10) as nat).push(digit_char((n % 10) as nat)));
    }
}

/// The position of the first character of `s` satisfying `f`, if any.
pub open spec fn first_match(s: Seq<char>, f: spec_fn(char) -> bool) -> Option<int>
    decreases s.len(),
{
    if s.len() == 0 {
        None
    } else {
        match first_match(s.drop_last(), f) {
            Some(k) => Some(k),
            None => if f(s.last()) {
                Some(s.len() - 1)
            } else {
                None
            },
        }
    }
}

/// `first_match` is pinned by what it means.
pub proof fn lemma_first_match(s: Seq<char>, f: spec_fn(char) -> bool, r: Option<int>)
    requires
        match r {
            Some(p) => 0 <= p < s.len() && f(s[p]) && forall|k: int| 0 <= k < p ==> !f(#[trigger] s[k]),
            None => forall|k: int| 0 <= k < s.len() ==> !f(#[trigger] s[k]),
        },
    ensures
        first_match(s, f) == r,
    decreases s.len(),
{
    if s.len() > 0 {
        let t = s.drop_last();
        match r {
            Some(p) => {
                if p < s.len() - 1 {
                    lemma_first_match(t, f, Some(p));
                } else {
                    assert forall|k: int| 0 <= k < t.len() implies !f(#[trigger] t[k]) by {
                        assert(t[k] == s[k]);
                    }
                    lemma_first_match(t, f, None);
                }
            },
            None => {
                assert forall|k: int| 0 <= k < t.len() implies !f(#[trigger] t[k]) by {
                    assert(t[k] == s[k]);
                }
                lemma_first_match(t, f, None);
                assert(!f(s[s.len() - 1]));
            },
        }
    }
}

/// What `first_match` returns means what it says.
pub proof fn lemma_first_match_props(s: Seq<char>, f: spec_fn(char) -> bool)
    ensures
        match first_match(s, f) {
            Some(p) => 0 <= p < s.len() && f(s[p]) && forall|k: int| 0 <= k < p ==> !f(#[trigger] s[k]),
            None => forall|k: int| 0 <= k < s.len() ==> !f(#[trigger] s[k]),
        },
    decreases s.len(),
{
    if s.len() > 0 {
        let t = s.drop_last();
        lemma_first_match_props(t, f);
        match first_match(t, f) {
            Some(p) => {
                assert forall|k: int| 0 <= k < p implies !f(#[trigger] s[k]) by {
                    assert(s[k] == t[k]);
                }
                assert(s[p] == t[p]);
            },
            None => {
                assert forall|k: int| 0 <= k < s.len() - 1 implies !f(#[trigger] s[k]) by {
                    assert(s[k] == t[k]);
                }
            },
        }
    }
}

/// The position of the first `c` in `s`, if any.
pub open spec fn first_index(s: Seq<char>, c: char) -> Option<int> {
    first_match(s, is_char(c))
}

/// The predicate "is the character `c`".
pub open spec fn is_char(c: char) -> spec_fn(char) -> bool {
    |x: char| x == c
}

/// The position of the first `c` in `s`.
pub fn find_first(s: &Vec<char>, c: char) -> (r: Option<usize>)
    ensures
        match r {
            Some(p) => first_index(s@, c) == Some(p as int) && p < s@.len() && s@[p as int] == c,
            None => first_index(s@, c) is None,
        },
{
    let r = find_char(s, 0, s.len(), c);
    proof {
        let f = is_char(c);
        match r {
            Some(p) => lemma_first_match(s@, f, Some(p as int)),
            None => lemma_first_match(s@, f, None),
        }
    }
    r
}

/// What `char::is_alphanumeric` answers for `c` (Unicode `Alphabetic` or
/// `Numeric`).
pub uninterp spec fn char_is_alphanumeric(c: char) -> bool;

/// Whether `c` is alphanumeric.
///
/// Trusted wrapper around `char::is_alphanumeric`; its result is named
/// `char_is_alphanumeric`, which depends on the character alone.
#[verifier::external_body]
pub(crate) fn is_alphanumeric(c: char) -> (b: bool)
    ensures
        b == char_is_alphanumeric(c),
{
    c.is_alphanumeric()
}

/// Whether `c` is an ASCII uppercase letter.
pub open spec fn is_ascii_upper(c: char) -> bool {
    'A' <= c && c <= 'Z'
}


/// `parts` joined with `sep` between consecutive parts.
pub open spec fn join(parts: Seq<Seq<char>>, sep: Seq<char>) -> Seq<char>
    decreases parts.len(),
{
    if parts.len() == 0 {
        Seq::empty()
    } else if parts.len() == 1 {
        parts[0]
    } else {
        join(parts.drop_last(), sep) + sep + parts.last()
    }
}

/// Appends the strings of `v`, joined with `sep`, to `s`.
pub fn append_joined(s: &mut String, v: &Vec<String>, sep: &str)
    ensures
        final(s)@ == old(s)@ + join(strings_of(v@), sep@),
{
    let ghost start = s@;
    let mut i: usize = 0;
    while i < v.len()
        invariant
            i <= v@.len(),
            s@ == start + join(strings_of(v@).take(i as int), sep@),
        decreases v@.len() - i,
    {
        let ghost parts = strings_of(v@).take(i + 1);
        assert(parts.drop_last() =~= strings_of(v@).take(i as int));
        if i > 0 {
            append_str(s, sep);
        }
        append_str(s, v[i].as_str());
        proof {
            if i == 0 {
                assert(join(strings_of(v@).take(0), sep@) =~= Seq::<char>::empty());
            }
            assert(s@ =~= start + join(parts, sep@));
        }
        i += 1;
    }
    assert(strings_of(v@).take(v@.len() as int) =~= strings_of(v@));
}


/// What `str::to_lowercase` returns for `s`: its Unicode lowercase mapping.
pub uninterp spec fn lowercase_of(s: Seq<char>) -> Seq<char>;

/// The lowercase form of `s`.
///
/// Trusted wrapper around `str::to_lowercase`, which maps each character by
/// Unicode's lowercase mapping; the contract only names the result (a
/// function of `s` alone), since the mapping tables are not restated here.
#[verifier::external_body]
pub(crate) fn to_lowercase(s: &str) -> (r: String)
    ensures
        r@ == lowercase_of(s@),
{
    s.to_lowercase()
}

/// Whether `p` occurs in `s` (the empty string occurs everywhere).
pub open spec fn contains_sub(s: Seq<char>, p: Seq<char>) -> bool {
    exists|i: int| 0 <= i && i + p.len() <= s.len() && #[trigger] s.subrange(i, i + p.len()) == p
}

/// Whether `s` and `p` agree on `p.len()` characters from position `at` of `s`.
fn matches_at(s: &Vec<char>, at: usize, p: &Vec<char>) -> (b: bool)
    requires
        at + p@.len() <= s@.len(),
    ensures
        b == (s@.subrange(at as int, at + p@.len()) == p@),
{
    let n = s.len();
    let mut j: usize = 0;
    while j < p.len()
        invariant
            j <= p@.len(),
            n == s@.len(),
            at + p@.len() <= s@.len(),
            forall|k: int| 0 <= k < j ==> s@[at + k] == p@[k],
        decreases p@.len() - j,
    {
        if s[at + j] != p[j] {
            assert(s@.subrange(at as int, at + p@.len())[j as int] != p@[j as int]);
            return false;
        }
        j += 1;
    }
    assert(s@.subrange(at as int, at + p@.len()) =~= p@);
    true
}

/// Whether `p` occurs in `s`.
pub fn has_substring(s: &str, p: &str) -> (b: bool)
    ensures
        b == contains_sub(s@, p@),
{
    let sv = chars_of(s);
    let pv = chars_of(p);
    if pv.len() == 0 {
        assert(s@.subrange(0int, 0int + p@.len()) =~= p@);
        return true;
    }
    if pv.len() > sv.len() {
        return false;
    }
    let ends = sv.len() - pv.len() + 1;
    let mut i: usize = 0;
    while i < ends
        invariant
            sv@ == s@,
            pv@ == p@,
            pv@.len() >= 1,
            ends == sv@.len() - pv@.len() + 1,
            i <= ends,
            forall|k: int| 0 <= k < i ==> #[trigger] s@.subrange(k, k + p@.len()) != p@,
        decreases ends - i,
    {
        if matches_at(&sv, i, &pv) {
            return true;
        }
        i += 1;
    }
    assert forall|k: int| 0 <= k && k + p@.len() <= s@.len() implies #[trigger] s@.subrange(
        k,
        k + p@.len(),
    ) != p@ by {
        assert(k < ends);
    }
    false
}

} // verus!
