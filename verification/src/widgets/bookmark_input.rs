//! The bookmark name input overlay, with the known names that match.

use vstd::prelude::*;

use crate::text::{contains_sub, has_substring, lowercase_of, to_lowercase};
use crate::widgets::style::{
    Color, Span, Style, fg, fg_style, plain, plain_style, push_span, push_text, spans_view,
};

verus! {

pub struct BookmarkInputWidget<'a> {
    pub input: &'a str,
    pub completions: &'a [String],
}

/// The names among `cs` whose lowercase form contains `q`, in order.
pub open spec fn matching_names(cs: Seq<String>, q: Seq<char>) -> Seq<Seq<char>>
    decreases cs.len(),
{
    if cs.len() == 0 {
        Seq::empty()
    } else {
        matching_names(cs.drop_last(), q) + if contains_sub(lowercase_of(cs.last()@), q) {
            seq![cs.last()@]
        } else {
            Seq::empty()
        }
    }
}

/// Names in magenta, two spaces between consecutive ones.
pub open spec fn name_spans(names: Seq<Seq<char>>) -> Seq<(Seq<char>, Style)>
    decreases names.len(),
{
    if names.len() == 0 {
        Seq::empty()
    } else {
        name_spans(names.drop_last()) + (if names.len() > 1 {
            seq![("  "@, plain_style())]
        } else {
            Seq::empty()
        }) + seq![(names.last(), fg_style(Color::Magenta))]
    }
}

/// The input line: a prompt, the typed name and a cursor mark.
pub open spec fn input_spans(input: Seq<char>) -> Seq<(Seq<char>, Style)> {
    seq![("Bookmark: "@, fg_style(Color::Yellow)), (input, plain_style()), ("|"@, fg_style(Color::DarkGray))]
}

/// The lines an overlay `height` rows high and `width` columns wide shows:
/// the input line, then (with room for it) the known names matching the
/// input case-insensitively, as many as the width allows (one per ten
/// columns, plus one).
pub open spec fn input_lines(w: BookmarkInputWidget, height: u16, width: u16) -> Seq<Seq<(Seq<char>, Style)>> {
    if height == 0 {
        Seq::empty()
    } else if height < 2 || w.completions@.len() == 0 {
        seq![input_spans(w.input@)]
    } else {
        let m = matching_names(w.completions@, lowercase_of(w.input@));
        let cap = width / 10 + 1;
        let shown = if m.len() < cap {
            m
        } else {
            m.take(cap as int)
        };
        if shown.len() == 0 {
            seq![input_spans(w.input@)]
        } else {
            seq![input_spans(w.input@), name_spans(shown)]
        }
    }
}

/// A list of lines as the spec sees it.
pub open spec fn lines_view(v: Seq<Vec<Span>>) -> Seq<Seq<(Seq<char>, Style)>> {
    v.map_values(|l: Vec<Span>| spans_view(l@))
}

proof fn lemma_matching_prefix(cs: Seq<String>, q: Seq<char>, i: int)
    requires
        0 <= i <= cs.len(),
    ensures
        matching_names(cs.take(i), q).len() <= matching_names(cs, q).len(),
        matching_names(cs, q).take(matching_names(cs.take(i), q).len() as int) == matching_names(
            cs.take(i),
            q,
        ),
    decreases cs.len(),
{
    if i == cs.len() {
        assert(cs.take(i) =~= cs);
        assert(matching_names(cs, q).take(matching_names(cs, q).len() as int) =~= matching_names(
            cs,
            q,
        ));
    } else {
        assert(cs.drop_last().take(i) =~= cs.take(i));
        lemma_matching_prefix(cs.drop_last(), q, i);
        let a = matching_names(cs.drop_last(), q);
        let b = matching_names(cs.take(i), q);
        assert(matching_names(cs, q).take(b.len() as int) =~= a.take(b.len() as int));
    }
}

impl<'a> BookmarkInputWidget<'a> {
    pub fn new(input: &'a str, completions: &'a [String]) -> (w: Self)
        ensures
            w.input == input,
            w.completions == completions,
    {
        BookmarkInputWidget { input, completions }
    }

    /// The lines of an overlay `height` rows high and `width` wide.
    pub fn lines(&self, height: u16, width: u16) -> (v: Vec<Vec<Span>>)
        ensures
            lines_view(v@) == input_lines(*self, height, width),
    {
        let mut out: Vec<Vec<Span>> = Vec::new();
        if height == 0 {
            assert(lines_view(out@) =~= input_lines(*self, height, width));
            return out;
        }
        let mut first: Vec<Span> = Vec::new();
        push_text(&mut first, "Bookmark: ", fg(Color::Yellow));
        push_text(&mut first, self.input, plain());
        push_text(&mut first, "|", fg(Color::DarkGray));
        assert(spans_view(first@) =~= input_spans(self.input@));
        out.push(first);
        if height < 2 || self.completions.len() == 0 {
            assert(lines_view(out@) =~= input_lines(*self, height, width));
            return out;
        }
        let query = to_lowercase(self.input);
        let cap: usize = (width / 10) as usize + 1;
        let ghost all = matching_names(self.completions@, query@);
        let mut second: Vec<Span> = Vec::new();
        let mut shown: usize = 0;
        let mut i: usize = 0;
        while i < self.completions.len() && shown < cap
            invariant
                i <= self.completions@.len(),
                cap == width / 10 + 1,
                shown <= cap,
                all == matching_names(self.completions@, query@),
                matching_names(self.completions@.take(i as int), query@).len() == shown,
                spans_view(second@) == name_spans(matching_names(self.completions@.take(i as int), query@)),
            decreases self.completions@.len() - i,
        {
            assert(self.completions@.take(i + 1).drop_last() =~= self.completions@.take(i as int));
            let name = &self.completions[i];
            let ghost before = matching_names(self.completions@.take(i as int), query@);
            let ghost after = matching_names(self.completions@.take(i + 1), query@);
            assert(self.completions@.take(i + 1).last() == self.completions@[i as int]);
            let lower = to_lowercase(name.as_str());
            if has_substring(lower.as_str(), query.as_str()) {
                if shown > 0 {
                    push_text(&mut second, "  ", plain());
                }
                push_span(&mut second, name.clone(), fg(Color::Magenta));
                shown += 1;
                assert(after =~= before.push(name@));
                assert(after.drop_last() =~= before);
                assert(spans_view(second@) =~= name_spans(after));
            } else {
                assert(after =~= before);
            }
            i += 1;
        }
        proof {
            lemma_matching_prefix(self.completions@, query@, i as int);
            let sv = matching_names(self.completions@.take(i as int), query@);
            if i == self.completions@.len() {
                assert(self.completions@.take(i as int) =~= self.completions@);
            }
            let shown_spec = if all.len() < cap {
                all
            } else {
                all.take(cap as int)
            };
            assert(shown_spec =~= sv);
        }
        if shown > 0 {
            out.push(second);
        }
        assert(lines_view(out@) =~= input_lines(*self, height, width));
        out
    }
}

} // verus!
