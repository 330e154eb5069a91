//! The help overlay: the keys of the focused panel.

use vstd::prelude::*;

use crate::modal::{HelpContext, help_line_count};
use crate::text::{append_str, chars_of, push_char};
use crate::widgets::style::{Color, Row, Span, Style, plain, plain_style, push_span, push_text, row_shows, spans_view, window};

verus! {

pub struct HelpWidget {
    pub context: HelpContext,
    pub scroll: usize,
}

/// The (key, what it does) pairs listed for each help page.
pub open spec fn help_entries(c: HelpContext) -> Seq<(Seq<char>, Seq<char>)> {
    match c {
        HelpContext::Graph => seq![
            ("j/k"@, "Move between changes"@),
            ("g/G"@, "Jump to top/bottom"@),
            ("@"@, "Jump to working copy"@),
            ("Tab"@, "Switch to detail pane"@),
            ("R"@, "Refresh"@),
            ("/"@, "Fuzzy-find"@),
            ("b"@, "Bookmarks"@),
            ("O"@, "Operation log"@),
            ("?"@, "This help"@),
            ("q"@, "Quit"@),
            ("d"@, "Abandon selected change"@),
            ("n"@, "New change after selected"@),
            ("e"@, "Edit description (inline)"@),
            ("Ctrl-E"@, "Switch working copy (edit)"@),
            ("S"@, "Squash into parent"@),
            ("u"@, "Undo last operation"@),
            ("Ctrl-R"@, "Redo"@),
            ("B"@, "Set bookmark"@),
            ("P"@, "Git push"@),
            ("f"@, "Git fetch"@),
        ],
        HelpContext::DetailFileList => seq![
            ("j/k"@, "Move between files"@),
            ("Enter"@, "Open diff view"@),
            ("Esc"@, "Return to graph"@),
            ("Tab"@, "Switch to graph pane"@),
        ],
        HelpContext::DetailDiffView => seq![
            ("j/k"@, "Scroll diff"@),
            ("n/N"@, "Next/previous hunk"@),
            ("Esc"@, "Return to file list"@),
        ],
    }
}

/// The title of each help page.
pub open spec fn help_title(c: HelpContext) -> Seq<char> {
    match c {
        HelpContext::Graph => "Help — Graph"@,
        HelpContext::DetailFileList => "Help — File List"@,
        HelpContext::DetailDiffView => "Help — Diff View"@,
    }
}

/// `s` right-aligned in a field `w` characters wide.
pub open spec fn pad_left(s: Seq<char>, w: nat) -> Seq<char> {
    if s.len() < w {
        Seq::new((w - s.len()) as nat, |i: int| ' ') + s
    } else {
        s
    }
}

/// The style of the keys.
pub open spec fn key_style() -> Style {
    Style { fg: Some(Color::Yellow), bg: None, bold: true, italic: false, reversed: false }
}

/// The spans of a help entry: the key right-aligned in ten columns, then
/// what it does.
pub open spec fn entry_spans(e: (Seq<char>, Seq<char>)) -> Seq<(Seq<char>, Style)> {
    seq![(pad_left(e.0, 10), key_style()), ("  "@, plain_style()), (e.1, plain_style())]
}

fn pad_to(s: &str, w: usize) -> (r: String)
    ensures
        r@ == pad_left(s@, w as nat),
{
    let n = chars_of(s).len();
    let mut r = String::new();
    if n < w {
        let mut i: usize = 0;
        while i < w - n
            invariant
                n == s@.len(),
                n < w,
                i <= w - n,
                r@ == Seq::new(i as nat, |j: int| ' '),
            decreases w - n - i,
        {
            push_char(&mut r, ' ');
            assert(r@ =~= Seq::new((i + 1) as nat, |j: int| ' '));
            i += 1;
        }
    }
    append_str(&mut r, s);
    proof {
        if n >= w {
            assert(Seq::<char>::empty() + s@ =~= s@);
        }
    }
    r
}

impl HelpWidget {
    pub fn new(context: HelpContext, scroll: usize) -> (w: Self)
        ensures
            w.context == context,
            w.scroll == scroll,
    {
        HelpWidget { context, scroll }
    }

    /// The (key, what it does) pairs of help page `context`.
    pub fn help_lines(context: HelpContext) -> (v: Vec<(&'static str, &'static str)>)
        ensures
            v@.map_values(|p: (&str, &str)| (p.0@, p.1@)) == help_entries(context),
            v@.len() == help_line_count(context),
    {
        let v = match context {
            HelpContext::Graph => vec![
                ("j/k", "Move between changes"),
                ("g/G", "Jump to top/bottom"),
                ("@", "Jump to working copy"),
                ("Tab", "Switch to detail pane"),
                ("R", "Refresh"),
                ("/", "Fuzzy-find"),
                ("b", "Bookmarks"),
                ("O", "Operation log"),
                ("?", "This help"),
                ("q", "Quit"),
                ("d", "Abandon selected change"),
                ("n", "New change after selected"),
                ("e", "Edit description (inline)"),
                ("Ctrl-E", "Switch working copy (edit)"),
                ("S", "Squash into parent"),
                ("u", "Undo last operation"),
                ("Ctrl-R", "Redo"),
                ("B", "Set bookmark"),
                ("P", "Git push"),
                ("f", "Git fetch"),
            ],
            HelpContext::DetailFileList => vec![
                ("j/k", "Move between files"),
                ("Enter", "Open diff view"),
                ("Esc", "Return to graph"),
                ("Tab", "Switch to graph pane"),
            ],
            HelpContext::DetailDiffView => vec![
                ("j/k", "Scroll diff"),
                ("n/N", "Next/previous hunk"),
                ("Esc", "Return to file list"),
            ],
        };
        assert(v@.map_values(|p: (&str, &str)| (p.0@, p.1@)) =~= help_entries(context));
        v
    }

    /// The title of the overlay.
    pub fn title(&self) -> (t: &'static str)
        ensures
            t@ == help_title(self.context),
    {
        match self.context {
            HelpContext::Graph => "Help — Graph",
            HelpContext::DetailFileList => "Help — File List",
            HelpContext::DetailDiffView => "Help — Diff View",
        }
    }

    /// The rows an overlay `height` rows high shows, from the scroll
    /// position on.
    pub fn rows(&self, height: usize) -> (v: Vec<Row>)
        ensures
            v@.len() == window(help_entries(self.context).len() as int, self.scroll as int, height as int),
            forall|k: int|
                0 <= k < v@.len() ==> row_shows(
                    #[trigger] v@[k],
                    entry_spans(help_entries(self.context)[self.scroll + k]),
                    None,
                ),
    {
        let lines = Self::help_lines(self.context);
        let ghost es = help_entries(self.context);
        let mut v: Vec<Row> = Vec::new();
        let mut k: usize = 0;
        while k < height && self.scroll < lines.len() && k < lines.len() - self.scroll
            invariant
                lines@.map_values(|p: (&str, &str)| (p.0@, p.1@)) == es,
                es == help_entries(self.context),
                k <= height,
                self.scroll < lines@.len() ==> k <= lines@.len() - self.scroll,
                self.scroll >= lines@.len() ==> k == 0,
                v@.len() == k,
                forall|j: int|
                    0 <= j < v@.len() ==> row_shows(#[trigger] v@[j], entry_spans(es[self.scroll + j]), None),
            decreases height - k,
        {
            let (key, desc) = lines[self.scroll + k];
            assert(es[self.scroll + k] == (key@, desc@));
            let mut spans: Vec<Span> = Vec::new();
            push_span(
                &mut spans,
                pad_to(key, 10),
                Style { fg: Some(Color::Yellow), bg: None, bold: true, italic: false, reversed: false },
            );
            push_text(&mut spans, "  ", plain());
            push_text(&mut spans, desc, plain());
            assert(spans_view(spans@) =~= entry_spans(es[self.scroll + k]));
            let ghost old_v = v@;
            v.push(Row { spans, patch: None });
            assert forall|j: int| 0 <= j < v@.len() implies row_shows(
                #[trigger] v@[j],
                entry_spans(es[self.scroll + j]),
                None,
            ) by {
                if j < old_v.len() {
                    assert(v@[j] == old_v[j]);
                }
            }
            k += 1;
        }
        v
    }
}

} // verus!
