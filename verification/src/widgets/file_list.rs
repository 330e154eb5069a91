//! The files changed by the selected change.

use vstd::prelude::*;

use crate::text::{append_str, push_char};
use crate::types::{FileChange, FileStatus, status_code};
use crate::widgets::style::{Color, Row, Style, fg_style, row_shows, single_row};

verus! {

pub struct FileListWidget<'a> {
    pub files: &'a [FileChange],
    pub cursor: usize,
    pub focused: bool,
}

/// The colour of a file of status `s`.
pub open spec fn status_color_spec(s: FileStatus) -> Color {
    match s {
        FileStatus::Added => Color::Green,
        FileStatus::Modified => Color::Yellow,
        FileStatus::Deleted => Color::Red,
        FileStatus::Renamed => Color::Cyan,
        FileStatus::Conflicted => Color::Magenta,
        FileStatus::Unknown(_) => Color::Reset,
    }
}

/// The style of file row `i`: its status colour, reversed (focused) or
/// bold (unfocused) under the cursor.
pub open spec fn file_style(w: FileListWidget, i: int) -> Style {
    let c = status_color_spec(w.files@[i].status);
    if i == w.cursor {
        Style { fg: Some(c), bg: None, bold: !w.focused, italic: false, reversed: w.focused }
    } else {
        fg_style(c)
    }
}

/// The text of a file row: status code and path.
pub open spec fn file_text(f: FileChange) -> Seq<char> {
    "  "@ + seq![status_code(f.status), ' '] + f.path@
}

impl<'a> FileListWidget<'a> {
    pub fn new(files: &'a [FileChange], cursor: usize, focused: bool) -> (w: Self)
        ensures
            w.files == files,
            w.cursor == cursor,
            w.focused == focused,
    {
        FileListWidget { files, cursor, focused }
    }

    /// The colour of a file of status `status`.
    pub fn status_color(status: FileStatus) -> (c: Color)
        ensures
            c == status_color_spec(status),
    {
        match status {
            FileStatus::Added => Color::Green,
            FileStatus::Modified => Color::Yellow,
            FileStatus::Deleted => Color::Red,
            FileStatus::Renamed => Color::Cyan,
            FileStatus::Conflicted => Color::Magenta,
            FileStatus::Unknown(_) => Color::Reset,
        }
    }

    /// The rows a panel `height` rows high shows: the first files, or a
    /// note when there are none.
    pub fn rows(&self, height: usize) -> (v: Vec<Row>)
        ensures
            self.files@.len() == 0 ==> v@.len() == 1 && row_shows(
                v@[0],
                seq![("(no files changed)"@, fg_style(Color::DarkGray))],
                None,
            ),
            self.files@.len() > 0 ==> {
                &&& v@.len() == if self.files@.len() < height {
                    self.files@.len() as int
                } else {
                    height as int
                }
                &&& forall|i: int|
                    0 <= i < v@.len() ==> row_shows(
                        #[trigger] v@[i],
                        seq![(file_text(self.files@[i]), file_style(*self, i))],
                        None,
                    )
            },
    {
        let mut v: Vec<Row> = Vec::new();
        if self.files.len() == 0 {
            v.push(
                single_row(
                    String::from_str("(no files changed)"),
                    crate::widgets::style::fg(Color::DarkGray),
                    None,
                ),
            );
            return v;
        }
        let mut i: usize = 0;
        while i < self.files.len() && i < height
            invariant
                i <= self.files@.len(),
                i <= height,
                v@.len() == i,
                forall|j: int|
                    0 <= j < v@.len() ==> row_shows(
                        #[trigger] v@[j],
                        seq![(file_text(self.files@[j]), file_style(*self, j))],
                        None,
                    ),
            decreases height - i,
        {
            let file = &self.files[i];
            let color = Self::status_color(file.status);
            let style = if i == self.cursor {
                Style { fg: Some(color), bg: None, bold: !self.focused, italic: false, reversed: self.focused }
            } else {
                crate::widgets::style::fg(color)
            };
            let mut text = String::new();
            append_str(&mut text, "  ");
            push_char(&mut text, file.status.code());
            push_char(&mut text, ' ');
            append_str(&mut text, file.path.as_str());
            assert(text@ =~= file_text(*file));
            let ghost old_v = v@;
            v.push(single_row(text, style, None));
            assert forall|j: int| 0 <= j < v@.len() implies row_shows(
                #[trigger] v@[j],
                seq![(file_text(self.files@[j]), file_style(*self, j))],
                None,
            ) by {
                if j < old_v.len() {
                    assert(v@[j] == old_v[j]);
                }
            }
            i += 1;
        }
        v
    }
}

} // verus!
