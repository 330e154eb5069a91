//! Key bindings: which action a key press asks for, given where the focus is
//! and which overlay or picking mode is active.

use vstd::prelude::*;

use crate::action::CompletionItem;

use crate::action::{Action, DetailMode, PanelFocus};
use crate::app::{AppState, PickingMode};
use crate::modal::Modal;

verus! {

/// The key of a key press, as far as the bindings tell keys apart.
#[derive(Debug, Clone, Copy, PartialEq, Eq, Structural)]
pub enum KeyCode {
    Char(char),
    Enter,
    Esc,
    Tab,
    BackTab,
    Backspace,
    Up,
    Down,
    Left,
    Right,
    /// Any key that no binding uses.
    Other,
}

/// The modifier keys held during a key press.
#[derive(Debug, Clone, Copy, PartialEq, Eq, Structural)]
pub struct KeyModifiers {
    pub shift: bool,
    pub control: bool,
    pub alt: bool,
    pub super_key: bool,
    pub hyper: bool,
    pub meta: bool,
}

/// A key press.
#[derive(Debug, Clone, Copy, PartialEq, Eq, Structural)]
pub struct KeyEvent {
    pub code: KeyCode,
    pub modifiers: KeyModifiers,
}

/// No modifier held.
pub open spec fn no_mods(m: KeyModifiers) -> bool {
    !m.shift && !m.control && !m.alt && !m.super_key && !m.hyper && !m.meta
}

/// Exactly Control held.
pub open spec fn only_control(m: KeyModifiers) -> bool {
    !m.shift && m.control && !m.alt && !m.super_key && !m.hyper && !m.meta
}

/// Exactly Shift held.
pub open spec fn only_shift(m: KeyModifiers) -> bool {
    m.shift && !m.control && !m.alt && !m.super_key && !m.hyper && !m.meta
}

/// Exactly Control and Shift held.
pub open spec fn control_shift(m: KeyModifiers) -> bool {
    m.shift && m.control && !m.alt && !m.super_key && !m.hyper && !m.meta
}

impl KeyModifiers {
    /// No modifier.
    pub fn none() -> (m: KeyModifiers)
        ensures
            no_mods(m),
    {
        KeyModifiers {
            shift: false,
            control: false,
            alt: false,
            super_key: false,
            hyper: false,
            meta: false,
        }
    }

    /// Control alone.
    pub fn control() -> (m: KeyModifiers)
        ensures
            only_control(m),
    {
        KeyModifiers { control: true, ..KeyModifiers::none() }
    }

    /// Shift alone.
    pub fn shift() -> (m: KeyModifiers)
        ensures
            only_shift(m),
    {
        KeyModifiers { shift: true, ..KeyModifiers::none() }
    }

    fn is_none(&self) -> (b: bool)
        ensures
            b == no_mods(*self),
    {
        !self.shift && !self.control && !self.alt && !self.super_key && !self.hyper && !self.meta
    }

    fn is_control(&self) -> (b: bool)
        ensures
            b == only_control(*self),
    {
        !self.shift && self.control && !self.alt && !self.super_key && !self.hyper && !self.meta
    }

    fn is_shift(&self) -> (b: bool)
        ensures
            b == only_shift(*self),
    {
        self.shift && !self.control && !self.alt && !self.super_key && !self.hyper && !self.meta
    }

    fn is_control_shift(&self) -> (b: bool)
        ensures
            b == control_shift(*self),
    {
        self.shift && self.control && !self.alt && !self.super_key && !self.hyper && !self.meta
    }
}

impl KeyEvent {
    /// A key press with the given modifiers.
    pub fn new(code: KeyCode, modifiers: KeyModifiers) -> (e: KeyEvent)
        ensures
            e.code == code,
            e.modifiers == modifiers,
    {
        KeyEvent { code, modifiers }
    }
}

/// The key is character `c` (whatever the modifiers).
pub open spec fn key_is(e: KeyEvent, c: char) -> bool {
    e.code == KeyCode::Char(c)
}

/// The key is character `c`, with no modifier.
pub open spec fn plain(e: KeyEvent, c: char) -> bool {
    key_is(e, c) && no_mods(e.modifiers)
}

/// The key is character `c`, with Control alone.
pub open spec fn ctrl(e: KeyEvent, c: char) -> bool {
    key_is(e, c) && only_control(e.modifiers)
}

/// The key is character `c` (with no modifier), or the arrow key `arrow`
/// (with any).
pub open spec fn plain_or(e: KeyEvent, c: char, arrow: KeyCode) -> bool {
    plain(e, c) || e.code == arrow
}

/// The keys that work wherever the focus is. While the hunk picker is open
/// only Control-C (which cancels it) and `?` are global.
pub open spec fn global_binding(e: KeyEvent, mode: DetailMode) -> Option<Action> {
    let picker = mode == DetailMode::HunkPicker;
    if plain(e, 'q') && !picker {
        Some(Action::Quit)
    } else if ctrl(e, 'c') {
        Some(
            if picker {
                Action::HunkCancel
            } else {
                Action::Quit
            },
        )
    } else if e.code == KeyCode::Tab && !picker {
        Some(Action::TabFocus)
    } else if e.code == KeyCode::BackTab && !picker {
        Some(Action::BackTabFocus)
    } else if key_is(e, 'R') && !e.modifiers.control && !picker {
        Some(Action::Refresh)
    } else if key_is(e, '@') && !picker {
        Some(Action::JumpToWorkingCopy)
    } else if key_is(e, 'O') && !picker {
        Some(Action::ToggleOpLog)
    } else if plain(e, 'b') && !picker {
        Some(Action::OpenBookmarks)
    } else if key_is(e, '/') && !picker {
        Some(Action::OpenOmnibar)
    } else if key_is(e, '?') {
        Some(Action::OpenHelp)
    } else {
        None
    }
}

/// The keys of the graph panel.
pub open spec fn graph_binding(e: KeyEvent) -> Option<Action> {
    if plain_or(e, 'j', KeyCode::Down) {
        Some(Action::MoveDown)
    } else if plain_or(e, 'k', KeyCode::Up) {
        Some(Action::MoveUp)
    } else if plain(e, 'g') {
        Some(Action::JumpToTop)
    } else if key_is(e, 'G') {
        Some(Action::JumpToBottom)
    } else if plain(e, 'd') {
        Some(Action::Abandon)
    } else if plain(e, 'n') {
        Some(Action::NewChange)
    } else if ctrl(e, 'e') {
        Some(Action::EditChange)
    } else if plain(e, 'e') {
        Some(Action::OpenDescribe)
    } else if plain(e, 's') {
        Some(Action::Split)
    } else if key_is(e, 'S') {
        Some(Action::SquashPartial)
    } else if plain(e, 'u') {
        Some(Action::Undo)
    } else if plain(e, 'r') {
        Some(Action::RebaseSingle)
    } else if ctrl(e, 'r') {
        Some(Action::RebaseWithDescendants)
    } else if key_is(e, 'r') && control_shift(e.modifiers) {
        Some(Action::Redo)
    } else if ctrl(e, 'R') {
        Some(Action::Redo)
    } else if key_is(e, 'B') {
        Some(Action::OpenBookmarkSet)
    } else if key_is(e, 'P') {
        Some(Action::GitPush)
    } else if plain(e, 'f') {
        Some(Action::GitFetch)
    } else {
        None
    }
}

/// The keys of the detail panel in mode `mode`.
pub open spec fn detail_binding(e: KeyEvent, mode: DetailMode) -> Option<Action> {
    match mode {
        DetailMode::FileList => if plain_or(e, 'j', KeyCode::Down) {
            Some(Action::DetailMoveDown)
        } else if plain_or(e, 'k', KeyCode::Up) {
            Some(Action::DetailMoveUp)
        } else if e.code == KeyCode::Enter {
            Some(Action::DetailEnter)
        } else if e.code == KeyCode::Esc {
            Some(Action::DetailBack)
        } else {
            None
        },
        DetailMode::DiffView => if plain_or(e, 'j', KeyCode::Down) {
            Some(Action::DiffScrollDown)
        } else if plain_or(e, 'k', KeyCode::Up) {
            Some(Action::DiffScrollUp)
        } else if plain(e, 'n') {
            Some(Action::DiffNextHunk)
        } else if key_is(e, 'N') {
            Some(Action::DiffPrevHunk)
        } else if e.code == KeyCode::Esc {
            Some(Action::DetailBack)
        } else {
            None
        },
        DetailMode::ConflictView => if e.code == KeyCode::Esc {
            Some(Action::DetailBack)
        } else {
            None
        },
        DetailMode::HunkPicker => if plain_or(e, 'j', KeyCode::Down) {
            Some(Action::DetailMoveDown)
        } else if plain_or(e, 'k', KeyCode::Up) {
            Some(Action::DetailMoveUp)
        } else if key_is(e, 'J') {
            Some(Action::HunkNextFile)
        } else if key_is(e, 'K') {
            Some(Action::HunkPrevFile)
        } else if key_is(e, ' ') {
            Some(Action::HunkToggle)
        } else if plain(e, 'a') {
            Some(Action::HunkSelectAll)
        } else if key_is(e, 'A') {
            Some(Action::HunkDeselectAll)
        } else if e.code == KeyCode::Enter {
            Some(Action::HunkConfirm)
        } else if e.code == KeyCode::Esc {
            Some(Action::HunkCancel)
        } else {
            None
        },
    }
}

/// The action a key press asks for when no overlay is open: a global key
/// first, then the keys of the focused panel.
pub open spec fn key_binding(e: KeyEvent, focus: PanelFocus, mode: DetailMode) -> Option<Action> {
    match global_binding(e, mode) {
        Some(a) => Some(a),
        None => match focus {
            PanelFocus::Graph => graph_binding(e),
            PanelFocus::Detail => detail_binding(e, mode),
        },
    }
}

fn is_char(e: &KeyEvent, c: char) -> (b: bool)
    ensures
        b == key_is(*e, c),
{
    e.code == KeyCode::Char(c)
}

fn is_plain(e: &KeyEvent, c: char) -> (b: bool)
    ensures
        b == plain(*e, c),
{
    is_char(e, c) && e.modifiers.is_none()
}

fn is_ctrl(e: &KeyEvent, c: char) -> (b: bool)
    ensures
        b == ctrl(*e, c),
{
    is_char(e, c) && e.modifiers.is_control()
}

fn is_plain_or(e: &KeyEvent, c: char, arrow: KeyCode) -> (b: bool)
    ensures
        b == plain_or(*e, c, arrow),
{
    is_plain(e, c) || e.code == arrow
}

fn global_key(e: &KeyEvent, mode: DetailMode) -> (r: Option<Action>)
    ensures
        r == global_binding(*e, mode),
{
    let picker = match mode {
        DetailMode::HunkPicker => true,
        _ => false,
    };
    if is_plain(e, 'q') && !picker {
        Some(Action::Quit)
    } else if is_ctrl(e, 'c') {
        Some(
            if picker {
                Action::HunkCancel
            } else {
                Action::Quit
            },
        )
    } else if e.code == KeyCode::Tab && !picker {
        Some(Action::TabFocus)
    } else if e.code == KeyCode::BackTab && !picker {
        Some(Action::BackTabFocus)
    } else if is_char(e, 'R') && !e.modifiers.control && !picker {
        Some(Action::Refresh)
    } else if is_char(e, '@') && !picker {
        Some(Action::JumpToWorkingCopy)
    } else if is_char(e, 'O') && !picker {
        Some(Action::ToggleOpLog)
    } else if is_plain(e, 'b') && !picker {
        Some(Action::OpenBookmarks)
    } else if is_char(e, '/') && !picker {
        Some(Action::OpenOmnibar)
    } else if is_char(e, '?') {
        Some(Action::OpenHelp)
    } else {
        None
    }
}

fn graph_key(e: &KeyEvent) -> (r: Option<Action>)
    ensures
        r == graph_binding(*e),
{
    if is_plain_or(e, 'j', KeyCode::Down) {
        Some(Action::MoveDown)
    } else if is_plain_or(e, 'k', KeyCode::Up) {
        Some(Action::MoveUp)
    } else if is_plain(e, 'g') {
        Some(Action::JumpToTop)
    } else if is_char(e, 'G') {
        Some(Action::JumpToBottom)
    } else if is_plain(e, 'd') {
        Some(Action::Abandon)
    } else if is_plain(e, 'n') {
        Some(Action::NewChange)
    } else if is_ctrl(e, 'e') {
        Some(Action::EditChange)
    } else if is_plain(e, 'e') {
        Some(Action::OpenDescribe)
    } else if is_plain(e, 's') {
        Some(Action::Split)
    } else if is_char(e, 'S') {
        Some(Action::SquashPartial)
    } else if is_plain(e, 'u') {
        Some(Action::Undo)
    } else if is_plain(e, 'r') {
        Some(Action::RebaseSingle)
    } else if is_ctrl(e, 'r') {
        Some(Action::RebaseWithDescendants)
    } else if is_char(e, 'r') && e.modifiers.is_control_shift() {
        Some(Action::Redo)
    } else if is_ctrl(e, 'R') {
        Some(Action::Redo)
    } else if is_char(e, 'B') {
        Some(Action::OpenBookmarkSet)
    } else if is_char(e, 'P') {
        Some(Action::GitPush)
    } else if is_plain(e, 'f') {
        Some(Action::GitFetch)
    } else {
        None
    }
}

fn detail_key(e: &KeyEvent, mode: DetailMode) -> (r: Option<Action>)
    ensures
        r == detail_binding(*e, mode),
{
    match mode {
        DetailMode::FileList => if is_plain_or(e, 'j', KeyCode::Down) {
            Some(Action::DetailMoveDown)
        } else if is_plain_or(e, 'k', KeyCode::Up) {
            Some(Action::DetailMoveUp)
        } else if e.code == KeyCode::Enter {
            Some(Action::DetailEnter)
        } else if e.code == KeyCode::Esc {
            Some(Action::DetailBack)
        } else {
            None
        },
        DetailMode::DiffView => if is_plain_or(e, 'j', KeyCode::Down) {
            Some(Action::DiffScrollDown)
        } else if is_plain_or(e, 'k', KeyCode::Up) {
            Some(Action::DiffScrollUp)
        } else if is_plain(e, 'n') {
            Some(Action::DiffNextHunk)
        } else if is_char(e, 'N') {
            Some(Action::DiffPrevHunk)
        } else if e.code == KeyCode::Esc {
            Some(Action::DetailBack)
        } else {
            None
        },
        DetailMode::ConflictView => if e.code == KeyCode::Esc {
            Some(Action::DetailBack)
        } else {
            None
        },
        DetailMode::HunkPicker => if is_plain_or(e, 'j', KeyCode::Down) {
            Some(Action::DetailMoveDown)
        } else if is_plain_or(e, 'k', KeyCode::Up) {
            Some(Action::DetailMoveUp)
        } else if is_char(e, 'J') {
            Some(Action::HunkNextFile)
        } else if is_char(e, 'K') {
            Some(Action::HunkPrevFile)
        } else if is_char(e, ' ') {
            Some(Action::HunkToggle)
        } else if is_plain(e, 'a') {
            Some(Action::HunkSelectAll)
        } else if is_char(e, 'A') {
            Some(Action::HunkDeselectAll)
        } else if e.code == KeyCode::Enter {
            Some(Action::HunkConfirm)
        } else if e.code == KeyCode::Esc {
            Some(Action::HunkCancel)
        } else {
            None
        },
    }
}

/// The action a key press asks for when no overlay is open and no target is
/// being picked; `None` when the key is not bound there.
pub fn map_event(event: KeyEvent, focus: PanelFocus, detail_mode: DetailMode) -> (r: Option<Action>)
    ensures
        r == key_binding(event, focus, detail_mode),
{
    match global_key(&event, detail_mode) {
        Some(a) => Some(a),
        None => match focus {
            PanelFocus::Graph => graph_key(&event),
            PanelFocus::Detail => detail_key(&event, detail_mode),
        },
    }
}


/// Exactly Alt held.
pub open spec fn only_alt(m: KeyModifiers) -> bool {
    !m.shift && !m.control && m.alt && !m.super_key && !m.hyper && !m.meta
}

/// The keys of the description editor: Ctrl-S, or Enter with Control or
/// Alt, saves; Esc closes; Shift-E hands the text to the external editor;
/// every other key belongs to the text editor.
pub open spec fn describe_binding(e: KeyEvent) -> Option<Action> {
    if (key_is(e, 's') && only_control(e.modifiers)) || (e.code == KeyCode::Enter && (only_control(
        e.modifiers,
    ) || only_alt(e.modifiers))) {
        Some(Action::DescribeSave)
    } else if e.code == KeyCode::Esc {
        Some(Action::ModalDismiss)
    } else if key_is(e, 'E') && only_shift(e.modifiers) {
        Some(Action::DescribeEscalateEditor)
    } else {
        None
    }
}

/// The keys of the bookmark name input: Esc closes, Enter confirms,
/// Backspace erases, and a typed character (alone or with Shift) is
/// appended.
pub open spec fn bookmark_input_binding(e: KeyEvent) -> Option<Action> {
    match e.code {
        KeyCode::Esc => Some(Action::ModalDismiss),
        KeyCode::Enter => Some(Action::BookmarkInputConfirm),
        KeyCode::Backspace => Some(Action::BookmarkInputBackspace),
        KeyCode::Char(c) => if no_mods(e.modifiers) || only_shift(e.modifiers) {
            Some(Action::BookmarkInputChar(c))
        } else {
            None
        },
        _ => None,
    }
}

/// The keys of the omnibar past the common ones: Tab takes the selected
/// completion when there are completions, Backspace erases, Ctrl-N and
/// Ctrl-P move, and a typed character (alone or with Shift) is text.
pub open spec fn omnibar_binding(e: KeyEvent, completions: Seq<CompletionItem>) -> Option<Action> {
    if e.code == KeyCode::Tab && completions.len() > 0 {
        Some(Action::OmnibarAcceptCompletion)
    } else if e.code == KeyCode::Backspace {
        Some(Action::OmnibarBackspace)
    } else if ctrl(e, 'n') {
        Some(Action::ModalMoveDown)
    } else if ctrl(e, 'p') {
        Some(Action::ModalMoveUp)
    } else {
        match e.code {
            KeyCode::Char(c) => if no_mods(e.modifiers) || only_shift(e.modifiers) {
                Some(Action::OmnibarInput(c))
            } else {
                None
            },
            _ => None,
        }
    }
}

/// The action a key press asks for while overlay `m` is open. The
/// description editor and the bookmark input have keys of their own.
/// Elsewhere Esc, Enter and the arrows work in every overlay; the omnibar
/// then takes its own keys; in the others `q`, `j` and `k` close and
/// move, `d` deletes in the bookmark picker, and `O` and `?` close the
/// overlay they opened.
pub open spec fn modal_binding(e: KeyEvent, m: Modal) -> Option<Action> {
    match m {
        Modal::Describe { .. } => describe_binding(e),
        Modal::BookmarkInput { .. } => bookmark_input_binding(e),
        _ => if e.code == KeyCode::Esc {
            Some(Action::ModalDismiss)
        } else if e.code == KeyCode::Enter {
            Some(Action::ModalEnter)
        } else if e.code == KeyCode::Up {
            Some(Action::ModalMoveUp)
        } else if e.code == KeyCode::Down {
            Some(Action::ModalMoveDown)
        } else if m is Omnibar {
            omnibar_binding(e, m->Omnibar_completions@)
        } else if plain(e, 'q') {
            Some(Action::ModalDismiss)
        } else if plain(e, 'j') {
            Some(Action::ModalMoveDown)
        } else if plain(e, 'k') {
            Some(Action::ModalMoveUp)
        } else if plain(e, 'd') && m is BookmarkPicker {
            Some(Action::BookmarkDelete)
        } else if key_is(e, 'O') && m is OpLog {
            Some(Action::ModalDismiss)
        } else if key_is(e, '?') && m is Help {
            Some(Action::ModalDismiss)
        } else {
            None
        },
    }
}

fn describe_key(e: &KeyEvent) -> (r: Option<Action>)
    ensures
        r == describe_binding(*e),
{
    let m = &e.modifiers;
    if (is_char(e, 's') && m.is_control()) || (e.code == KeyCode::Enter && (m.is_control()
        || (!m.shift && !m.control && m.alt && !m.super_key && !m.hyper && !m.meta))) {
        Some(Action::DescribeSave)
    } else if e.code == KeyCode::Esc {
        Some(Action::ModalDismiss)
    } else if is_char(e, 'E') && m.is_shift() {
        Some(Action::DescribeEscalateEditor)
    } else {
        None
    }
}

fn bookmark_input_key(e: &KeyEvent) -> (r: Option<Action>)
    ensures
        r == bookmark_input_binding(*e),
{
    match e.code {
        KeyCode::Esc => Some(Action::ModalDismiss),
        KeyCode::Enter => Some(Action::BookmarkInputConfirm),
        KeyCode::Backspace => Some(Action::BookmarkInputBackspace),
        KeyCode::Char(c) => if e.modifiers.is_none() || e.modifiers.is_shift() {
            Some(Action::BookmarkInputChar(c))
        } else {
            None
        },
        _ => None,
    }
}

fn omnibar_key(e: &KeyEvent, completions: &Vec<CompletionItem>) -> (r: Option<Action>)
    ensures
        r == omnibar_binding(*e, completions@),
{
    if e.code == KeyCode::Tab && completions.len() > 0 {
        Some(Action::OmnibarAcceptCompletion)
    } else if e.code == KeyCode::Backspace {
        Some(Action::OmnibarBackspace)
    } else if is_ctrl(e, 'n') {
        Some(Action::ModalMoveDown)
    } else if is_ctrl(e, 'p') {
        Some(Action::ModalMoveUp)
    } else {
        match e.code {
            KeyCode::Char(c) => if e.modifiers.is_none() || e.modifiers.is_shift() {
                Some(Action::OmnibarInput(c))
            } else {
                None
            },
            _ => None,
        }
    }
}

/// Map a key event when a modal is active. Returns `None` to swallow the key.
pub fn map_modal_event(event: KeyEvent, modal: &Modal) -> (r: Option<Action>)
    ensures
        r == modal_binding(event, *modal),
{
    let e = &event;
    match modal {
        Modal::Describe { .. } => return describe_key(e),
        Modal::BookmarkInput { .. } => return bookmark_input_key(e),
        _ => {},
    }
    if e.code == KeyCode::Esc {
        Some(Action::ModalDismiss)
    } else if e.code == KeyCode::Enter {
        Some(Action::ModalEnter)
    } else if e.code == KeyCode::Up {
        Some(Action::ModalMoveUp)
    } else if e.code == KeyCode::Down {
        Some(Action::ModalMoveDown)
    } else if let Modal::Omnibar { completions, .. } = modal {
        omnibar_key(e, completions)
    } else if is_plain(e, 'q') {
        Some(Action::ModalDismiss)
    } else if is_plain(e, 'j') {
        Some(Action::ModalMoveDown)
    } else if is_plain(e, 'k') {
        Some(Action::ModalMoveUp)
    } else if is_plain(e, 'd') && matches!(modal, Modal::BookmarkPicker { .. }) {
        Some(Action::BookmarkDelete)
    } else if is_char(e, 'O') && matches!(modal, Modal::OpLog { .. }) {
        Some(Action::ModalDismiss)
    } else if is_char(e, '?') && matches!(modal, Modal::Help { .. }) {
        Some(Action::ModalDismiss)
    } else {
        None
    }
}

/// A printable key: a character typed with no modifier or with Shift alone.
pub open spec fn typed_char(e: KeyEvent) -> Option<char> {
    match e.code {
        KeyCode::Char(c) => if no_mods(e.modifiers) || only_shift(e.modifiers) {
            Some(c)
        } else {
            None
        },
        _ => None,
    }
}

/// The action a key press asks for while a rebase target is being picked:
/// browsing moves with `j`/`k` and starts a filter with any other typed
/// character; filtering moves with Control-`j`/`k` and the arrows, edits
/// the filter with typed characters and Backspace.
pub open spec fn picking_binding(e: KeyEvent, p: PickingMode) -> Option<Action> {
    match p {
        PickingMode::Browsing => if plain_or(e, 'j', KeyCode::Down) {
            Some(Action::MoveDown)
        } else if plain_or(e, 'k', KeyCode::Up) {
            Some(Action::MoveUp)
        } else if e.code == KeyCode::Enter {
            Some(Action::PickConfirm)
        } else if e.code == KeyCode::Esc {
            Some(Action::PickCancel)
        } else {
            match typed_char(e) {
                Some(c) => Some(Action::PickFilterChar(c)),
                None => None,
            }
        },
        PickingMode::Filtering { .. } => if ctrl(e, 'j') || e.code == KeyCode::Down {
            Some(Action::MoveDown)
        } else if ctrl(e, 'k') || e.code == KeyCode::Up {
            Some(Action::MoveUp)
        } else if e.code == KeyCode::Enter {
            Some(Action::PickConfirm)
        } else if e.code == KeyCode::Esc {
            Some(Action::PickCancel)
        } else if e.code == KeyCode::Backspace {
            Some(Action::PickFilterBackspace)
        } else {
            match typed_char(e) {
                Some(c) => Some(Action::PickFilterChar(c)),
                None => None,
            }
        },
    }
}

fn typed_char_of(e: &KeyEvent) -> (r: Option<char>)
    ensures
        r == typed_char(*e),
{
    match e.code {
        KeyCode::Char(c) => if e.modifiers.is_none() || e.modifiers.is_shift() {
            Some(c)
        } else {
            None
        },
        _ => None,
    }
}

/// Map a key event while a rebase target is being picked.
pub fn map_picking_event(event: KeyEvent, picking: &PickingMode) -> (r: Option<Action>)
    ensures
        r == picking_binding(event, *picking),
{
    let e = &event;
    let browsing = match picking {
        PickingMode::Browsing => true,
        PickingMode::Filtering { .. } => false,
    };
    if browsing {
        if is_plain_or(e, 'j', KeyCode::Down) {
            Some(Action::MoveDown)
        } else if is_plain_or(e, 'k', KeyCode::Up) {
            Some(Action::MoveUp)
        } else if e.code == KeyCode::Enter {
            Some(Action::PickConfirm)
        } else if e.code == KeyCode::Esc {
            Some(Action::PickCancel)
        } else {
            match typed_char_of(e) {
                Some(c) => Some(Action::PickFilterChar(c)),
                None => None,
            }
        }
    } else if is_ctrl(e, 'j') || e.code == KeyCode::Down {
        Some(Action::MoveDown)
    } else if is_ctrl(e, 'k') || e.code == KeyCode::Up {
        Some(Action::MoveUp)
    } else if e.code == KeyCode::Enter {
        Some(Action::PickConfirm)
    } else if e.code == KeyCode::Esc {
        Some(Action::PickCancel)
    } else if e.code == KeyCode::Backspace {
        Some(Action::PickFilterBackspace)
    } else {
        match typed_char_of(e) {
            Some(c) => Some(Action::PickFilterChar(c)),
            None => None,
        }
    }
}


/// The action a key press asks for in state `s`: while a rebase target is
/// picked the picking keys take every key; else, with an overlay open, its
/// keys; else the panel keys.
pub open spec fn route_spec(s: AppState, e: KeyEvent) -> Option<Action> {
    match s.target_pick {
        Some(p) => picking_binding(e, p.picking),
        None => match s.modal {
            Some(m) => modal_binding(e, m),
            None => key_binding(e, s.focus, s.detail_mode),
        },
    }
}

/// The action a key press asks for in the current state.
pub fn route_key(state: &AppState, event: KeyEvent) -> (r: Option<Action>)
    ensures
        r == route_spec(*state, event),
{
    match &state.target_pick {
        Some(p) => map_picking_event(event, &p.picking),
        None => match &state.modal {
            Some(m) => map_modal_event(event, m),
            None => map_event(event, state.focus, state.detail_mode),
        },
    }
}

} // verus!
