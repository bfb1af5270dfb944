//! The editor's application state and the operations that act on it directly.
use vstd::prelude::*;

verus! {

/// Number of entry rows that the list shows at once.
pub const VISIBLE_ROWS: usize = 10;

/// How long a status message stays, in milliseconds.
pub const MESSAGE_MILLIS: u64 = 2000;

/// The editor's current interaction state.
#[derive(Debug, PartialEq, Eq)]
pub enum Mode {
    List,
    Add,
    /// Editing the value of the entry with this name.
    Edit(String),
    /// Waiting for confirmation to delete the entries with this name.
    Delete(String),
}

/// Which of the two buffers receives typed text in add mode.
#[derive(Debug, Clone, Copy, PartialEq, Eq)]
pub enum InputFocus {
    Key,
    Value,
}

/// The entries seen as pairs of character sequences.
pub open spec fn pairs_view(e: Seq<(String, String)>) -> Seq<(Seq<char>, Seq<char>)> {
    e.map_values(|p: (String, String)| (p.0@, p.1@))
}

/// The text of an optional string.
pub open spec fn opt_view(o: Option<String>) -> Option<Seq<char>> {
    match o {
        Some(s) => Some(s@),
        None => None,
    }
}

/// The message left at `now_ms` of `msg`, which lapses at `expiry`.
pub open spec fn lapse(msg: Option<Seq<char>>, expiry: Option<u64>, now_ms: u64) -> Option<
    Seq<char>,
> {
    match expiry {
        Some(e) => if now_ms > e {
            None
        } else {
            msg
        },
        None => msg,
    }
}

/// A message shown at `shown_ms` for `duration_ms` is still there at every
/// time up to its expiry and gone at every time after it.
pub proof fn lemma_message_lapses(msg: Seq<char>, shown_ms: u64, duration_ms: u64, now_ms: u64)
    ensures
        now_ms <= shown_ms.saturating_add(duration_ms) ==> lapse(
            Some(msg),
            Some(shown_ms.saturating_add(duration_ms)),
            now_ms,
        ) == Some(msg),
        now_ms > shown_ms.saturating_add(duration_ms) ==> lapse(
            Some(msg),
            Some(shown_ms.saturating_add(duration_ms)),
            now_ms,
        ) is None,
{
}

/// Relies on `SystemTime::now`: the system clock, in milliseconds since the
/// Unix epoch (0 for a clock set before it). Nothing is known of the value.
#[verifier::external_body]
fn clock_millis() -> (r: u64) {
    match std::time::SystemTime::now().duration_since(std::time::UNIX_EPOCH) {
        Ok(d) => d.as_millis() as u64,
        Err(_) => 0,
    }
}

pub struct AppState {
    pub mode: Mode,
    pub should_quit: bool,
    pub entries: Vec<(String, String)>,
    pub current_index: usize,
    pub scroll_offset: usize,
    /// Horizontal scroll, in characters, into the selected entry's value.
    pub value_scroll_offset: usize,
    pub message: Option<String>,
    /// When the message lapses, in milliseconds since the Unix epoch.
    pub message_expiry: Option<u64>,
    pub input_key: String,
    pub input_value: String,
    pub input_cursor_key: usize,
    pub input_cursor_value: usize,
    pub input_focus: InputFocus,
    pub reload_requested: bool,
}

/// The mode with its key seen as a character sequence.
pub enum ModeView {
    List,
    Add,
    Edit(Seq<char>),
    Delete(Seq<char>),
}

pub open spec fn mode_view(m: Mode) -> ModeView {
    match m {
        Mode::List => ModeView::List,
        Mode::Add => ModeView::Add,
        Mode::Edit(k) => ModeView::Edit(k@),
        Mode::Delete(k) => ModeView::Delete(k@),
    }
}

/// The editor state as mathematical values. The expiry time of the message
/// is left out: it depends on the clock.
#[verifier::ext_equal]
pub struct EditorView {
    pub mode: ModeView,
    pub should_quit: bool,
    pub entries: Seq<(Seq<char>, Seq<char>)>,
    pub current_index: nat,
    pub scroll_offset: nat,
    pub value_scroll_offset: nat,
    pub message: Option<Seq<char>>,
    pub input_key: Seq<char>,
    pub input_value: Seq<char>,
    pub cursor_key: nat,
    pub cursor_value: nat,
    pub focus: InputFocus,
    pub reload_requested: bool,
}

impl EditorView {
    /// Length of the selected entry's value, 0 where nothing is selected.
    pub open spec fn selected_value_len(self) -> nat {
        if self.current_index < self.entries.len() {
            self.entries[self.current_index as int].1.len()
        } else {
            0
        }
    }

    /// The selection lies inside the entries and inside the visible window.
    pub open spec fn rows_ok(self) -> bool {
        &&& (self.entries.len() == 0 ==> self.current_index == 0)
        &&& (self.entries.len() > 0 ==> self.current_index < self.entries.len())
        &&& self.scroll_offset <= self.current_index
        &&& self.current_index < self.scroll_offset + VISIBLE_ROWS
    }

    /// Cursors and scroll positions address existing text.
    pub open spec fn wf(self) -> bool {
        &&& self.rows_ok()
        &&& self.cursor_key <= self.input_key.len()
        &&& self.cursor_value <= self.input_value.len()
        &&& self.value_scroll_offset <= self.selected_value_len()
    }
}

impl View for AppState {
    type V = EditorView;

    open spec fn view(&self) -> EditorView {
        EditorView {
            mode: mode_view(self.mode),
            should_quit: self.should_quit,
            entries: pairs_view(self.entries@),
            current_index: self.current_index as nat,
            scroll_offset: self.scroll_offset as nat,
            value_scroll_offset: self.value_scroll_offset as nat,
            message: opt_view(self.message),
            input_key: self.input_key@,
            input_value: self.input_value@,
            cursor_key: self.input_cursor_key as nat,
            cursor_value: self.input_cursor_value as nat,
            focus: self.input_focus,
            reload_requested: self.reload_requested,
        }
    }
}

impl AppState {
    /// The invariant that every controller step keeps.
    pub open spec fn wf(&self) -> bool {
        &&& self@.wf()
        &&& (self.message.is_some() <==> self.message_expiry.is_some())
    }

    /// All fields but the message and its expiry agree.
    pub open spec fn same_but_message(&self, other: &AppState) -> bool {
        self@ == (EditorView { message: self@.message, ..other@ })
    }

    pub fn new(entries: Vec<(String, String)>) -> (r: AppState)
        ensures
            r.wf(),
            r.entries@ == entries@,
            r.mode == Mode::List,
            !r.should_quit,
            r.current_index == 0,
            r.scroll_offset == 0,
            r.value_scroll_offset == 0,
            r.message.is_none(),
            r.message_expiry.is_none(),
            r.input_key@.len() == 0,
            r.input_value@.len() == 0,
            r.input_cursor_key == 0,
            r.input_cursor_value == 0,
            r.input_focus == InputFocus::Key,
            !r.reload_requested,
    {
        AppState {
            mode: Mode::List,
            should_quit: false,
            entries,
            current_index: 0,
            scroll_offset: 0,
            value_scroll_offset: 0,
            message: None,
            message_expiry: None,
            input_key: String::new(),
            input_value: String::new(),
            input_cursor_key: 0,
            input_cursor_value: 0,
            input_focus: InputFocus::Key,
            reload_requested: false,
        }
    }

    /// Shows `msg` until `duration_ms` milliseconds after `now_ms`.
    pub fn show_message_at(&mut self, msg: &str, duration_ms: u64, now_ms: u64)
        ensures
            final(self)@.message == Some(msg@),
            final(self).message_expiry == Some(now_ms.saturating_add(duration_ms)),
            final(self).same_but_message(old(self)),
            old(self).wf() ==> final(self).wf(),
    {
        self.message = Some(String::from_str(msg));
        self.message_expiry = Some(now_ms.saturating_add(duration_ms));
    }

    /// Shows `msg` for `duration_ms` milliseconds from now.
    pub fn show_message(&mut self, msg: &str, duration_ms: u64)
        ensures
            final(self)@.message == Some(msg@),
            final(self).message_expiry.is_some(),
            final(self).same_but_message(old(self)),
            old(self).wf() ==> final(self).wf(),
    {
        let now = clock_millis();
        self.show_message_at(msg, duration_ms, now);
    }

    pub fn clear_message(&mut self)
        ensures
            final(self).message.is_none(),
            final(self).message_expiry.is_none(),
            final(self).same_but_message(old(self)),
            old(self).wf() ==> final(self).wf(),
    {
        self.message = None;
        self.message_expiry = None;
    }

    /// Clears the message once `now_ms` is past its expiry; keeps it otherwise.
    pub fn expire_message(&mut self, now_ms: u64)
        ensures
            final(self).same_but_message(old(self)),
            final(self)@.message == lapse(old(self)@.message, old(self).message_expiry, now_ms),
            final(self).message_expiry == (match old(self).message_expiry {
                Some(e) => if now_ms > e {
                    None
                } else {
                    Some(e)
                },
                None => None,
            }),
            old(self).wf() ==> final(self).wf(),
    {
        if let Some(e) = self.message_expiry {
            if now_ms > e {
                self.clear_message();
            }
        }
    }

    pub fn request_reload(&mut self)
        ensures
            final(self)@ == (EditorView { reload_requested: true, ..old(self)@ }),
            final(self).message_expiry == old(self).message_expiry,
            old(self).wf() ==> final(self).wf(),
    {
        self.reload_requested = true;
    }

    /// Replaces the entries by `entries`, freshly read from the variable
    /// source, and moves every cursor of the list back to the start.
    pub fn reload(&mut self, entries: Vec<(String, String)>)
        ensures
            final(self)@ == (EditorView {
                entries: pairs_view(entries@),
                current_index: 0,
                scroll_offset: 0,
                value_scroll_offset: 0,
                reload_requested: false,
                message: Some("List reloaded"@),
                ..old(self)@
            }),
            final(self).message_expiry.is_some(),
            old(self).wf() ==> final(self).wf(),
    {
        self.entries = entries;
        self.current_index = 0;
        self.scroll_offset = 0;
        self.value_scroll_offset = 0;
        self.reload_requested = false;
        self.show_message("List reloaded", MESSAGE_MILLIS);
    }
}

} // verus!
