//! The editor's controller: one transition per mode, from the state and one
//! key press to the next state.
//!
//! Each transition is stated as a spec function over [`EditorView`]; the
//! handlers are proved to compute exactly that function and to keep the
//! state's invariant.
use vstd::prelude::*;
use crate::keys::{KeyCode, KeyEvent, KeyModifiers};
use crate::state::{
    AppState, EditorView, InputFocus, Mode, ModeView, MESSAGE_MILLIS, VISIBLE_ROWS, lapse,
    pairs_view,
};
use crate::text::{
    char_count, insert_at, insert_char, is_blank, is_unpadded, remove_char, trim, trim_seq,
};

verus! {

/// Moves the selection one row down, scrolling the window by one row when
/// the selection would leave it. The last row is a fixed point.
pub open spec fn move_down(v: EditorView) -> EditorView {
    if v.current_index + 1 < v.entries.len() {
        let i = v.current_index + 1;
        EditorView {
            current_index: i,
            scroll_offset: if i >= v.scroll_offset + VISIBLE_ROWS {
                v.scroll_offset + 1
            } else {
                v.scroll_offset
            },
            value_scroll_offset: 0,
            ..v
        }
    } else {
        v
    }
}

/// Moves the selection one row up; the window snaps to the selection when it
/// would leave it. The first row is a fixed point.
pub open spec fn move_up(v: EditorView) -> EditorView {
    if v.current_index > 0 {
        let i = (v.current_index - 1) as nat;
        EditorView {
            current_index: i,
            scroll_offset: if i < v.scroll_offset {
                i
            } else {
                v.scroll_offset
            },
            value_scroll_offset: 0,
            ..v
        }
    } else {
        v
    }
}

/// Scrolls the selected value one character back, saturating at 0.
pub open spec fn scroll_left(v: EditorView) -> EditorView {
    if v.value_scroll_offset > 0 {
        EditorView { value_scroll_offset: (v.value_scroll_offset - 1) as nat, ..v }
    } else {
        v
    }
}

/// Scrolls the selected value one character on, staying below its length.
pub open spec fn scroll_right(v: EditorView) -> EditorView {
    if v.value_scroll_offset + 1 < v.selected_value_len() {
        EditorView { value_scroll_offset: v.value_scroll_offset + 1, ..v }
    } else {
        v
    }
}

/// The list mode's transition.
pub open spec fn list_next(v: EditorView, key: KeyEvent) -> EditorView {
    match key.code {
        KeyCode::Char(c) => {
            if c == 'q' && key.modifiers.control {
                EditorView { should_quit: true, ..v }
            } else if c == 'a' {
                EditorView {
                    mode: ModeView::Add,
                    input_key: Seq::empty(),
                    input_value: Seq::empty(),
                    cursor_key: 0,
                    cursor_value: 0,
                    focus: InputFocus::Key,
                    ..v
                }
            } else if c == 'e' {
                if v.current_index < v.entries.len() {
                    let e = v.entries[v.current_index as int];
                    EditorView {
                        mode: ModeView::Edit(e.0),
                        input_value: e.1,
                        cursor_value: e.1.len(),
                        ..v
                    }
                } else {
                    v
                }
            } else if c == 'd' {
                if v.current_index < v.entries.len() {
                    EditorView {
                        mode: ModeView::Delete(v.entries[v.current_index as int].0),
                        ..v
                    }
                } else {
                    v
                }
            } else if c == 'r' && key.modifiers.control {
                EditorView { reload_requested: true, ..v }
            } else {
                v
            }
        },
        KeyCode::Down => move_down(v),
        KeyCode::Up => move_up(v),
        KeyCode::Left => scroll_left(v),
        KeyCode::Right => scroll_right(v),
        _ => v,
    }
}

/// One editing key applied to a text buffer and its cursor: the new text and
/// the new cursor. Keys that do not edit leave both as they are.
pub open spec fn edit_text(buf: Seq<char>, cur: nat, code: KeyCode) -> (Seq<char>, nat) {
    match code {
        KeyCode::Left => if cur > 0 {
            (buf, (cur - 1) as nat)
        } else {
            (buf, cur)
        },
        KeyCode::Right => if cur < buf.len() {
            (buf, cur + 1)
        } else {
            (buf, cur)
        },
        KeyCode::Backspace => if 0 < cur <= buf.len() {
            (buf.remove(cur - 1), (cur - 1) as nat)
        } else {
            (buf, cur)
        },
        KeyCode::Char(c) => if cur <= buf.len() && buf.len() < usize::MAX {
            (insert_at(buf, cur as int, c), cur + 1)
        } else {
            (buf, cur)
        },
        _ => (buf, cur),
    }
}

/// The add mode's transition.
pub open spec fn add_next(v: EditorView, key: KeyEvent) -> EditorView {
    match key.code {
        KeyCode::Enter => if trim_seq(v.input_key).len() > 0 {
            EditorView {
                entries: v.entries.push((trim_seq(v.input_key), trim_seq(v.input_value))),
                message: Some("Variable added"@),
                mode: ModeView::List,
                ..v
            }
        } else {
            EditorView { message: Some("Key cannot be empty"@), ..v }
        },
        KeyCode::Esc => EditorView { mode: ModeView::List, ..v },
        KeyCode::Tab => EditorView {
            focus: match v.focus {
                InputFocus::Key => InputFocus::Value,
                InputFocus::Value => InputFocus::Key,
            },
            ..v
        },
        _ => match v.focus {
            InputFocus::Key => {
                let t = edit_text(v.input_key, v.cursor_key, key.code);
                EditorView { input_key: t.0, cursor_key: t.1, ..v }
            },
            InputFocus::Value => {
                let t = edit_text(v.input_value, v.cursor_value, key.code);
                EditorView { input_value: t.0, cursor_value: t.1, ..v }
            },
        },
    }
}

/// `i` is the first index of an entry named `k`.
pub open spec fn is_first_key(e: Seq<(Seq<char>, Seq<char>)>, k: Seq<char>, i: int) -> bool {
    &&& 0 <= i < e.len()
    &&& e[i].0 == k
    &&& forall|j: int| 0 <= j < i ==> e[j].0 != k
}

/// Some entry is named `k`.
pub open spec fn has_key(e: Seq<(Seq<char>, Seq<char>)>, k: Seq<char>) -> bool {
    exists|i: int| 0 <= i < e.len() && e[i].0 == k
}

/// The index of the first entry named `k` (meaningful where `has_key`).
pub open spec fn first_key_index(e: Seq<(Seq<char>, Seq<char>)>, k: Seq<char>) -> int {
    choose|i: int| is_first_key(e, k, i)
}

/// The entries that are not named `k`, in their order.
pub open spec fn without_key(e: Seq<(Seq<char>, Seq<char>)>, k: Seq<char>) -> Seq<
    (Seq<char>, Seq<char>),
> {
    e.filter(named_otherwise(k))
}

/// Holds of an entry whose name is not `k`.
pub open spec fn named_otherwise(k: Seq<char>) -> spec_fn((Seq<char>, Seq<char>)) -> bool {
    |p: (Seq<char>, Seq<char>)| p.0 != k
}

/// The edit mode's transition.
pub open spec fn edit_next(v: EditorView, key: KeyEvent) -> EditorView {
    match key.code {
        KeyCode::Enter => match v.mode {
            ModeView::Edit(k) => if has_key(v.entries, k) {
                EditorView {
                    entries: v.entries.update(
                        first_key_index(v.entries, k),
                        (k, trim_seq(v.input_value)),
                    ),
                    message: Some("Variable updated"@),
                    mode: ModeView::List,
                    value_scroll_offset: 0,
                    ..v
                }
            } else {
                EditorView { mode: ModeView::List, ..v }
            },
            _ => v,
        },
        KeyCode::Esc => EditorView { mode: ModeView::List, ..v },
        _ => {
            let t = edit_text(v.input_value, v.cursor_value, key.code);
            EditorView { input_value: t.0, cursor_value: t.1, ..v }
        },
    }
}

/// Brings the selection and the window back inside entries that shrank, and
/// resets the horizontal scroll.
pub open spec fn clamp_rows(v: EditorView) -> EditorView {
    let i: nat = if v.entries.len() == 0 {
        0
    } else if v.current_index < v.entries.len() {
        v.current_index
    } else {
        (v.entries.len() - 1) as nat
    };
    EditorView {
        current_index: i,
        scroll_offset: if v.scroll_offset <= i {
            v.scroll_offset
        } else {
            i
        },
        value_scroll_offset: 0,
        ..v
    }
}

/// The delete mode's transition.
pub open spec fn delete_next(v: EditorView, key: KeyEvent) -> EditorView {
    match key.code {
        KeyCode::Char(c) => if c == 'y' {
            match v.mode {
                ModeView::Delete(k) => clamp_rows(
                    EditorView {
                        entries: without_key(v.entries, k),
                        message: Some("Variable deleted"@),
                        mode: ModeView::List,
                        ..v
                    },
                ),
                _ => EditorView { mode: ModeView::List, ..v },
            }
        } else if c == 'n' {
            EditorView { mode: ModeView::List, ..v }
        } else {
            v
        },
        KeyCode::Esc => EditorView { mode: ModeView::List, ..v },
        _ => v,
    }
}

/// The transition of whichever mode the editor is in.
pub open spec fn key_next(v: EditorView, key: KeyEvent) -> EditorView {
    match v.mode {
        ModeView::List => list_next(v, key),
        ModeView::Add => add_next(v, key),
        ModeView::Edit(_) => edit_next(v, key),
        ModeView::Delete(_) => delete_next(v, key),
    }
}

/// Add mode posts a message on Enter, whether the entry is added or refused.
pub open spec fn add_posts(key: KeyEvent) -> bool {
    key.code == KeyCode::Enter
}

/// Edit mode posts a message when Enter finds the edited entry.
pub open spec fn edit_posts(v: EditorView, key: KeyEvent) -> bool {
    key.code == KeyCode::Enter && match v.mode {
        ModeView::Edit(k) => has_key(v.entries, k),
        _ => false,
    }
}

/// Delete mode posts a message when `y` confirms a deletion.
pub open spec fn delete_posts(v: EditorView, key: KeyEvent) -> bool {
    key.code == KeyCode::Char('y') && v.mode is Delete
}

/// Whether the key press posts a status message (with a fresh expiry) in the
/// current mode; every other key press leaves the expiry as it was.
pub open spec fn posts_message(v: EditorView, key: KeyEvent) -> bool {
    match v.mode {
        ModeView::List => false,
        ModeView::Add => add_posts(key),
        ModeView::Edit(_) => edit_posts(v, key),
        ModeView::Delete(_) => delete_posts(v, key),
    }
}

/// The expiry left at `now_ms` of one set to `expiry`.
pub open spec fn lapse_expiry(expiry: Option<u64>, now_ms: u64) -> Option<u64> {
    match expiry {
        Some(e) => if now_ms > e {
            None
        } else {
            Some(e)
        },
        None => None,
    }
}

proof fn lemma_first_key_unique(e: Seq<(Seq<char>, Seq<char>)>, k: Seq<char>, i: int)
    requires
        is_first_key(e, k, i),
    ensures
        has_key(e, k),
        first_key_index(e, k) == i,
{
    assert(e[i].0 == k);
    let j = first_key_index(e, k);
    assert(is_first_key(e, k, j));
    if j < i {
        assert(e[j].0 != k);
    }
    if i < j {
        assert(e[i].0 != k);
    }
}

/// One editing key applied to `buf` and `cur`: the new text where it changed,
/// and the new cursor.
fn apply_edit(buf: &String, cur: usize, code: KeyCode) -> (r: (Option<String>, usize))
    ensures
        r.1 as nat == edit_text(buf@, cur as nat, code).1,
        match r.0 {
            Some(s) => s@ == edit_text(buf@, cur as nat, code).0,
            None => buf@ == edit_text(buf@, cur as nat, code).0,
        },
{
    match code {
        KeyCode::Left => if cur > 0 {
            (None, cur - 1)
        } else {
            (None, cur)
        },
        KeyCode::Right => {
            let n = char_count(buf);
            if cur < n {
                (None, cur + 1)
            } else {
                (None, cur)
            }
        },
        KeyCode::Backspace => {
            let n = char_count(buf);
            if 0 < cur && cur <= n {
                (Some(remove_char(buf, cur - 1)), cur - 1)
            } else {
                (None, cur)
            }
        },
        KeyCode::Char(c) => {
            let n = char_count(buf);
            if cur <= n && n < usize::MAX {
                (Some(insert_char(buf, cur, c)), cur + 1)
            } else {
                (None, cur)
            }
        },
        _ => (None, cur),
    }
}

/// Finds the first entry named `k`.
fn find_key(e: &Vec<(String, String)>, k: &String) -> (r: Option<usize>)
    ensures
        match r {
            Some(i) => is_first_key(pairs_view(e@), k@, i as int),
            None => !has_key(pairs_view(e@), k@),
        },
{
    let mut i: usize = 0;
    while i < e.len()
        invariant
            i <= e.len(),
            forall|j: int| 0 <= j < i ==> pairs_view(e@)[j].0 != k@,
        decreases e.len() - i,
    {
        if e[i].0 == *k {
            return Some(i);
        }
        i = i + 1;
    }
    None
}

/// The entries that are not named `k`, in their order.
fn retain_other_keys(e: &Vec<(String, String)>, k: &String) -> (r: Vec<(String, String)>)
    ensures
        pairs_view(r@) == without_key(pairs_view(e@), k@),
{
    let mut out: Vec<(String, String)> = Vec::new();
    let mut i: usize = 0;
    while i < e.len()
        invariant
            i <= e.len(),
            pairs_view(out@) == without_key(pairs_view(e@).take(i as int), k@),
        decreases e.len() - i,
    {
        proof {
            reveal(Seq::filter);
            assert(pairs_view(e@).take(i + 1).drop_last() =~= pairs_view(e@).take(i as int));
        }
        if !(e[i].0 == *k) {
            let p = (e[i].0.clone(), e[i].1.clone());
            out.push(p);
            assert(pairs_view(out@) =~= pairs_view(e@).take(i as int).filter(
                named_otherwise(k@),
            ).push(pairs_view(e@)[i as int]));
        }
        i = i + 1;
    }
    assert(pairs_view(e@).take(e.len() as int) =~= pairs_view(e@));
    out
}

pub fn handle_list_mode(state: &mut AppState, key: KeyEvent)
    ensures
        final(state)@ == list_next(old(state)@, key),
        final(state).message_expiry == old(state).message_expiry,
        old(state).wf() ==> final(state).wf(),
{
    match key.code {
        KeyCode::Char(c) => {
            if c == 'q' && key.modifiers.control {
                state.should_quit = true;
            } else if c == 'a' {
                state.mode = Mode::Add;
                state.input_key = String::new();
                state.input_value = String::new();
                state.input_cursor_key = 0;
                state.input_cursor_value = 0;
                state.input_focus = InputFocus::Key;
            } else if c == 'e' {
                if state.current_index < state.entries.len() {
                    let k = state.entries[state.current_index].0.clone();
                    let v = state.entries[state.current_index].1.clone();
                    state.input_cursor_value = char_count(&v);
                    state.mode = Mode::Edit(k);
                    state.input_value = v;
                }
            } else if c == 'd' {
                if state.current_index < state.entries.len() {
                    let k = state.entries[state.current_index].0.clone();
                    state.mode = Mode::Delete(k);
                }
            } else if c == 'r' && key.modifiers.control {
                state.request_reload();
            }
        },
        KeyCode::Down => {
            let n = state.entries.len();
            if n > 0 && state.current_index < n - 1 {
                state.current_index = state.current_index + 1;
                if state.current_index >= state.scroll_offset && state.current_index
                    - state.scroll_offset >= VISIBLE_ROWS {
                    state.scroll_offset = state.scroll_offset + 1;
                }
                state.value_scroll_offset = 0;
            }
        },
        KeyCode::Up => {
            if state.current_index > 0 {
                state.current_index = state.current_index - 1;
                if state.current_index < state.scroll_offset {
                    state.scroll_offset = state.current_index;
                }
                state.value_scroll_offset = 0;
            }
        },
        KeyCode::Left => {
            if state.value_scroll_offset > 0 {
                state.value_scroll_offset = state.value_scroll_offset - 1;
            }
        },
        KeyCode::Right => {
            let len = if state.current_index < state.entries.len() {
                char_count(&state.entries[state.current_index].1)
            } else {
                0
            };
            if len > 0 && state.value_scroll_offset < len - 1 {
                state.value_scroll_offset = state.value_scroll_offset + 1;
            }
        },
        _ => {},
    }
    assert(state@ =~= list_next(old(state)@, key));
}

pub fn handle_add_mode(state: &mut AppState, key: KeyEvent)
    ensures
        final(state)@ == add_next(old(state)@, key),
        if add_posts(key) {
            final(state).message_expiry is Some
        } else {
            final(state).message_expiry == old(state).message_expiry
        },
        old(state).wf() ==> final(state).wf(),
{
    match key.code {
        KeyCode::Enter => {
            let k = trim(state.input_key.as_str());
            proof {
                crate::text::lemma_trim_empty_iff_blank(state.input_key@);
            }
            if char_count(&k) > 0 {
                let v = trim(state.input_value.as_str());
                state.entries.push((k, v));
                state.show_message("Variable added", MESSAGE_MILLIS);
                state.mode = Mode::List;
            } else {
                state.show_message("Key cannot be empty", MESSAGE_MILLIS);
            }
        },
        KeyCode::Esc => {
            state.mode = Mode::List;
        },
        KeyCode::Tab => {
            state.input_focus = match state.input_focus {
                InputFocus::Key => InputFocus::Value,
                InputFocus::Value => InputFocus::Key,
            };
        },
        _ => match state.input_focus {
            InputFocus::Key => {
                let (b, c) = apply_edit(&state.input_key, state.input_cursor_key, key.code);
                if let Some(b) = b {
                    state.input_key = b;
                }
                state.input_cursor_key = c;
            },
            InputFocus::Value => {
                let (b, c) = apply_edit(&state.input_value, state.input_cursor_value, key.code);
                if let Some(b) = b {
                    state.input_value = b;
                }
                state.input_cursor_value = c;
            },
        },
    }
    assert(state@ =~= add_next(old(state)@, key));
}

pub fn handle_edit_mode(state: &mut AppState, key: KeyEvent)
    ensures
        final(state)@ == edit_next(old(state)@, key),
        if edit_posts(old(state)@, key) {
            final(state).message_expiry is Some
        } else {
            final(state).message_expiry == old(state).message_expiry
        },
        old(state).wf() ==> final(state).wf(),
{
    match key.code {
        KeyCode::Enter => {
            let target = match &state.mode {
                Mode::Edit(k) => Some(k.clone()),
                _ => None,
            };
            if let Some(k) = target {
                match find_key(&state.entries, &k) {
                    Some(i) => {
                        proof {
                            lemma_first_key_unique(pairs_view(state.entries@), k@, i as int);
                        }
                        let v = trim(state.input_value.as_str());
                        let ghost before = state.entries@;
                        state.entries.set(i, (k, v));
                        assert(pairs_view(state.entries@) =~= pairs_view(before).update(
                            i as int,
                            (pairs_view(before)[i as int].0, trim_seq(old(state).input_value@)),
                        ));
                        state.show_message("Variable updated", MESSAGE_MILLIS);
                        state.value_scroll_offset = 0;
                    },
                    None => {},
                }
                state.mode = Mode::List;
            }
        },
        KeyCode::Esc => {
            state.mode = Mode::List;
        },
        _ => {
            let (b, c) = apply_edit(&state.input_value, state.input_cursor_value, key.code);
            if let Some(b) = b {
                state.input_value = b;
            }
            state.input_cursor_value = c;
        },
    }
    assert(state@ =~= edit_next(old(state)@, key));
}

pub fn handle_delete_mode(state: &mut AppState, key: KeyEvent)
    ensures
        final(state)@ == delete_next(old(state)@, key),
        if delete_posts(old(state)@, key) {
            final(state).message_expiry is Some
        } else {
            final(state).message_expiry == old(state).message_expiry
        },
        old(state).wf() ==> final(state).wf(),
{
    match key.code {
        KeyCode::Char('y') => {
            let target = match &state.mode {
                Mode::Delete(k) => Some(k.clone()),
                _ => None,
            };
            if let Some(k) = target {
                let kept = retain_other_keys(&state.entries, &k);
                state.entries = kept;
                state.show_message("Variable deleted", MESSAGE_MILLIS);
                let n = state.entries.len();
                if n == 0 {
                    state.current_index = 0;
                } else if state.current_index >= n {
                    state.current_index = n - 1;
                }
                if state.scroll_offset > state.current_index {
                    state.scroll_offset = state.current_index;
                }
                state.value_scroll_offset = 0;
            }
            state.mode = Mode::List;
        },
        KeyCode::Char('n') | KeyCode::Esc => {
            state.mode = Mode::List;
        },
        _ => {},
    }
    assert(state@ =~= delete_next(old(state)@, key));
}

/// Hands one key press to the handler of the current mode.
pub fn handle_key(state: &mut AppState, key: KeyEvent)
    ensures
        final(state)@ == key_next(old(state)@, key),
        if posts_message(old(state)@, key) {
            final(state).message_expiry is Some
        } else {
            final(state).message_expiry == old(state).message_expiry
        },
        old(state).wf() ==> final(state).wf(),
{
    match state.mode {
        Mode::List => handle_list_mode(state, key),
        Mode::Add => handle_add_mode(state, key),
        Mode::Edit(_) => handle_edit_mode(state, key),
        Mode::Delete(_) => handle_delete_mode(state, key),
    }
}

/// One tick of the editor: the key press, if one came, goes to the current
/// mode's handler; then a message whose expiry `now_ms` has passed is
/// cleared. A reload that the key requested is left for the caller to
/// service through `AppState::reload`, with the entries read afresh.
pub fn handle_input(state: &mut AppState, key: Option<KeyEvent>, now_ms: u64)
    ensures
        ({
            let posted = key matches Some(k) && posts_message(old(state)@, k);
            let v = match key {
                Some(k) => key_next(old(state)@, k),
                None => old(state)@,
            };
            exists|e: Option<u64>|
                {
                    &&& (posted ==> e is Some)
                    &&& (!posted ==> e == old(state).message_expiry)
                    &&& final(state)@ == (EditorView {
                        message: lapse(v.message, e, now_ms),
                        ..v
                    })
                    &&& #[trigger] lapse_expiry(e, now_ms) == final(state).message_expiry
                }
        }),
        old(state).wf() ==> final(state).wf(),
{
    if let Some(k) = key {
        handle_key(state, k);
    }
    let ghost mid = state.message_expiry;
    state.expire_message(now_ms);
    assert(lapse_expiry(mid, now_ms) == state.message_expiry);
}

/// A plain key press of `code`.
pub open spec fn plain(code: KeyCode) -> KeyEvent {
    KeyEvent { code, modifiers: KeyModifiers { control: false } }
}

/// The list after a run of vertical moves, `true` standing for Down and
/// `false` for Up.
pub open spec fn navigate(v: EditorView, moves: Seq<bool>) -> EditorView
    decreases moves.len(),
{
    if moves.len() == 0 {
        v
    } else {
        let code = if moves[0] {
            KeyCode::Down
        } else {
            KeyCode::Up
        };
        navigate(list_next(v, plain(code)), moves.drop_first())
    }
}

/// Whatever run of Down and Up presses the list receives, the selection stays
/// inside the entries (at 0 when there are none) and inside the visible
/// window: `scroll_offset <= current_index < scroll_offset + VISIBLE_ROWS`.
pub proof fn lemma_navigation_stays_in_window(v: EditorView, moves: Seq<bool>)
    requires
        v.rows_ok(),
    ensures
        navigate(v, moves).rows_ok(),
        navigate(v, moves).entries == v.entries,
    decreases moves.len(),
{
    if moves.len() > 0 {
        let code = if moves[0] {
            KeyCode::Down
        } else {
            KeyCode::Up
        };
        lemma_navigation_stays_in_window(list_next(v, plain(code)), moves.drop_first());
    }
}

/// Enter in add mode with a key that is not blank appends exactly one entry,
/// the trimmed key with the trimmed value, and returns to the list.
pub proof fn lemma_add_appends_entry(v: EditorView)
    requires
        v.mode == ModeView::Add,
        !is_blank(v.input_key),
    ensures
        add_next(v, plain(KeyCode::Enter)).entries == v.entries.push(
            (trim_seq(v.input_key), trim_seq(v.input_value)),
        ),
        add_next(v, plain(KeyCode::Enter)).mode == ModeView::List,
{
    crate::text::lemma_trim_empty_iff_blank(v.input_key);
}

/// Enter in add mode with a key and a value that neither start nor end with
/// whitespace, the key not empty, appends exactly that pair as the last entry.
pub proof fn lemma_add_unpadded_entry(v: EditorView)
    requires
        v.mode == ModeView::Add,
        v.input_key.len() > 0,
        is_unpadded(v.input_key),
        is_unpadded(v.input_value),
    ensures
        add_next(v, plain(KeyCode::Enter)).entries == v.entries.push((v.input_key, v.input_value)),
        add_next(v, plain(KeyCode::Enter)).mode == ModeView::List,
        add_next(v, plain(KeyCode::Enter)).message == Some("Variable added"@),
{
    crate::text::lemma_trim_unpadded(v.input_key);
    crate::text::lemma_trim_unpadded(v.input_value);
}

/// Enter in add mode with an empty or whitespace-only key changes no entry,
/// stays in add mode and says why.
pub proof fn lemma_add_blank_key_rejected(v: EditorView)
    requires
        v.mode == ModeView::Add,
        is_blank(v.input_key),
    ensures
        add_next(v, plain(KeyCode::Enter)).entries == v.entries,
        add_next(v, plain(KeyCode::Enter)).mode == ModeView::Add,
        add_next(v, plain(KeyCode::Enter)).message == Some("Key cannot be empty"@),
{
    crate::text::lemma_trim_empty_iff_blank(v.input_key);
}

/// Enter in edit mode on the key of the entry at `i`, the first of that name,
/// gives that entry the trimmed buffer as its value; the number of entries
/// and every other entry stay as they were.
pub proof fn lemma_edit_replaces_value(v: EditorView, k: Seq<char>, i: int)
    requires
        v.mode == ModeView::Edit(k),
        is_first_key(v.entries, k, i),
    ensures
        edit_next(v, plain(KeyCode::Enter)).entries.len() == v.entries.len(),
        edit_next(v, plain(KeyCode::Enter)).entries[i] == (k, trim_seq(v.input_value)),
        forall|j: int|
            0 <= j < v.entries.len() && j != i ==> edit_next(v, plain(KeyCode::Enter)).entries[j]
                == v.entries[j],
        edit_next(v, plain(KeyCode::Enter)).mode == ModeView::List,
{
    lemma_first_key_unique(v.entries, k, i);
}

/// Enter in edit mode with a buffer that neither starts nor ends with
/// whitespace gives the first entry named `k` exactly that buffer as value.
pub proof fn lemma_edit_unpadded_value(v: EditorView, k: Seq<char>, i: int)
    requires
        v.mode == ModeView::Edit(k),
        is_first_key(v.entries, k, i),
        is_unpadded(v.input_value),
    ensures
        edit_next(v, plain(KeyCode::Enter)).entries == v.entries.update(i, (k, v.input_value)),
        edit_next(v, plain(KeyCode::Enter)).mode == ModeView::List,
{
    lemma_first_key_unique(v.entries, k, i);
    crate::text::lemma_trim_unpadded(v.input_value);
}

/// `y` in delete mode removes every entry named `k` and keeps the others in
/// order; `n` and Esc change no entry. All three return to the list.
pub proof fn lemma_delete_confirm_or_cancel(v: EditorView, k: Seq<char>)
    requires
        v.mode == ModeView::Delete(k),
    ensures
        delete_next(v, plain(KeyCode::Char('y'))).entries == without_key(v.entries, k),
        forall|j: int|
            0 <= j < delete_next(v, plain(KeyCode::Char('y'))).entries.len() ==> (
            #[trigger] delete_next(v, plain(KeyCode::Char('y'))).entries[j]).0 != k,
        delete_next(v, plain(KeyCode::Char('y'))).mode == ModeView::List,
        delete_next(v, plain(KeyCode::Char('n'))).entries == v.entries,
        delete_next(v, plain(KeyCode::Char('n'))).mode == ModeView::List,
        delete_next(v, plain(KeyCode::Esc)).entries == v.entries,
        delete_next(v, plain(KeyCode::Esc)).mode == ModeView::List,
{
    let e = without_key(v.entries, k);
    assert forall|j: int| 0 <= j < e.len() implies (#[trigger] e[j]).0 != k by {
        v.entries.lemma_filter_pred(named_otherwise(k), j);
    }
}

/// Left and Right in the list keep the horizontal scroll within the selected
/// value: Right never passes its length, Left stops at 0.
pub proof fn lemma_value_scroll_bounded(v: EditorView)
    requires
        v.mode == ModeView::List,
        v.wf(),
    ensures
        list_next(v, plain(KeyCode::Right)).value_scroll_offset <= v.selected_value_len(),
        list_next(v, plain(KeyCode::Right)).wf(),
        list_next(v, plain(KeyCode::Left)).wf(),
        v.value_scroll_offset == 0 ==> list_next(v, plain(KeyCode::Left)).value_scroll_offset
            == 0,
        v.value_scroll_offset > 0 ==> list_next(v, plain(KeyCode::Left)).value_scroll_offset
            == v.value_scroll_offset - 1,
{
}

proof fn lemma_filter_keeps_all(e: Seq<(Seq<char>, Seq<char>)>, k: Seq<char>)
    requires
        !has_key(e, k),
    ensures
        without_key(e, k) == e,
    decreases e.len(),
{
    reveal(Seq::filter);
    if e.len() > 0 {
        assert(!has_key(e.drop_last(), k)) by {
            if has_key(e.drop_last(), k) {
                let i = choose|i: int| 0 <= i < e.drop_last().len() && e.drop_last()[i].0 == k;
                assert(e[i].0 == k);
            }
        }
        lemma_filter_keeps_all(e.drop_last(), k);
        assert(e.last().0 != k) by {
            if e.last().0 == k {
                assert(e[e.len() - 1].0 == k);
            }
        }
        assert(e.drop_last().push(e.last()) =~= e);
    }
}

/// Adding an entry under a name that no entry has, then confirming the
/// deletion of that name, gives back the entries from before the add.
pub proof fn lemma_add_then_delete_round_trip(v: EditorView)
    requires
        v.mode == ModeView::Add,
        !is_blank(v.input_key),
        !has_key(v.entries, trim_seq(v.input_key)),
    ensures
        ({
            let added = add_next(v, plain(KeyCode::Enter));
            let asked = EditorView { mode: ModeView::Delete(trim_seq(v.input_key)), ..added };
            delete_next(asked, plain(KeyCode::Char('y'))).entries == v.entries
        }),
{
    crate::text::lemma_trim_empty_iff_blank(v.input_key);
    let k = trim_seq(v.input_key);
    let pushed = v.entries.push((k, trim_seq(v.input_value)));
    reveal(Seq::filter);
    assert(pushed.drop_last() =~= v.entries);
    lemma_filter_keeps_all(v.entries, k);
}

} // verus!
