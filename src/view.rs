//! What the editor's screen shows, computed from the state alone. Drawing it
//! on a terminal is left to the caller.
use vstd::prelude::*;
use crate::state::{AppState, VISIBLE_ROWS};

verus! {

/// The key bindings shown in the footer when there is no message.
pub const KEY_HINT: &'static str = "Press [a]dd, [e]dit, [d]elete, [Ctrl+r] reload, [Ctrl+q] quit";

/// The marker appended to a value cut short.
pub const ELLIPSIS: &'static str = "...";

/// One row of the entry list.
#[derive(Debug, PartialEq, Eq)]
pub struct ListRow {
    pub name: String,
    /// The value, cut to the display width.
    pub value: String,
    pub selected: bool,
}

/// The panel that shows part of the selected entry's value.
#[derive(Debug, PartialEq, Eq)]
pub struct ValuePanel {
    pub name: String,
    /// The part of the value inside the panel.
    pub visible: String,
    /// Part of the value lies before the panel.
    pub more_left: bool,
    /// Part of the value lies after the panel.
    pub more_right: bool,
}

/// Everything that the list screen shows.
#[derive(Debug, PartialEq, Eq)]
pub struct ScreenLayout {
    /// The rows of the visible window, top first.
    pub rows: Vec<ListRow>,
    /// Entries lie above the window.
    pub more_above: bool,
    /// Entries lie below the window.
    pub more_below: bool,
    /// The selected entry's value, where an entry is selected.
    pub value_panel: Option<ValuePanel>,
    /// The status message, or the key bindings.
    pub footer: String,
}

/// `v` cut to `width` characters, with an ellipsis where something was cut.
pub open spec fn truncated(v: Seq<char>, width: nat) -> Seq<char> {
    if v.len() > width {
        v.take(width as int) + ELLIPSIS@
    } else {
        v
    }
}

/// The first entry of the visible window.
pub open spec fn window_start(len: nat, offset: nat) -> nat {
    if offset < len {
        offset
    } else {
        len
    }
}

/// One past the last entry of the visible window.
pub open spec fn window_end(len: nat, offset: nat) -> nat {
    if offset + VISIBLE_ROWS < len {
        (offset + VISIBLE_ROWS) as nat
    } else {
        len
    }
}

/// Where the value panel starts: the scroll offset, no further than the end.
pub open spec fn panel_start(len: nat, offset: nat) -> nat {
    if offset < len {
        offset
    } else {
        len
    }
}

/// Where the value panel ends: `width` characters on, no further than the end.
pub open spec fn panel_end(len: nat, offset: nat, width: nat) -> nat {
    if panel_start(len, offset) + width < len {
        panel_start(len, offset) + width
    } else {
        len
    }
}

/// `p` shows `value` scrolled by `offset` in a panel `width` characters wide.
pub open spec fn shows_window(
    p: ValuePanel,
    name: Seq<char>,
    value: Seq<char>,
    offset: nat,
    width: nat,
) -> bool {
    let start = panel_start(value.len(), offset);
    let end = panel_end(value.len(), offset, width);
    &&& p.name@ == name
    &&& p.visible@ == value.subrange(start as int, end as int)
    &&& p.more_left == (start > 0)
    &&& p.more_right == (end < value.len())
}

/// `value` cut to `width` characters, with an ellipsis where it is longer.
pub fn truncate_value(value: &str, width: usize) -> (r: String)
    ensures
        r@ == truncated(value@, width as nat),
{
    let n = value.unicode_len();
    if n > width {
        let mut r = String::from_str(value.substring_char(0, width));
        r.append(ELLIPSIS);
        proof {
            assert(value@.subrange(0, width as int) =~= value@.take(width as int));
        }
        r
    } else {
        String::from_str(value)
    }
}

/// The part of `value` inside a panel `width` characters wide, scrolled by
/// `offset` characters (no further than the value's end).
pub fn value_window(name: &str, value: &str, offset: usize, width: usize) -> (r: ValuePanel)
    ensures
        shows_window(r, name@, value@, offset as nat, width as nat),
{
    let len = value.unicode_len();
    let start = if offset < len {
        offset
    } else {
        len
    };
    let end = if width < len - start {
        start + width
    } else {
        len
    };
    ValuePanel {
        name: String::from_str(name),
        visible: String::from_str(value.substring_char(start, end)),
        more_left: start > 0,
        more_right: end < len,
    }
}

/// The footer: the status message where there is one, else the key bindings.
pub fn footer_text(state: &AppState) -> (r: String)
    ensures
        r@ == match state@.message {
            Some(m) => m,
            None => KEY_HINT@,
        },
{
    match &state.message {
        Some(m) => m.clone(),
        None => String::from_str(KEY_HINT),
    }
}

/// What the list screen shows for `state`, with values cut to `value_width`
/// characters in the rows and `panel_width` characters in the value panel.
pub fn layout(state: &AppState, value_width: usize, panel_width: usize) -> (r: ScreenLayout)
    ensures
        ({
            let v = state@;
            let start = window_start(v.entries.len(), v.scroll_offset);
            let end = window_end(v.entries.len(), v.scroll_offset);
            &&& r.rows@.len() == end - start
            &&& forall|j: int|
                0 <= j < r.rows@.len() ==> {
                    &&& (#[trigger] r.rows@[j]).name@ == v.entries[start + j].0
                    &&& r.rows@[j].value@ == truncated(v.entries[start + j].1, value_width as nat)
                    &&& r.rows@[j].selected == (start + j == v.current_index)
                }
            &&& r.more_above == (v.scroll_offset > 0)
            &&& r.more_below == (end < v.entries.len())
            &&& (v.current_index < v.entries.len() <==> r.value_panel is Some)
            &&& r.footer@ == match v.message {
                Some(m) => m,
                None => KEY_HINT@,
            }
        }),
        forall|p: ValuePanel|
            r.value_panel == Some(p) ==> shows_window(
                p,
                state@.entries[state@.current_index as int].0,
                state@.entries[state@.current_index as int].1,
                state@.value_scroll_offset,
                panel_width as nat,
            ),
{
    let ghost v = state@;
    let n = state.entries.len();
    let start = if state.scroll_offset < n {
        state.scroll_offset
    } else {
        n
    };
    let end = if VISIBLE_ROWS < n - start {
        start + VISIBLE_ROWS
    } else {
        n
    };
    let mut rows: Vec<ListRow> = Vec::new();
    let mut i = start;
    while i < end
        invariant
            start <= i <= end <= n,
            n == state.entries@.len(),
            v == state@,
            start == window_start(v.entries.len(), v.scroll_offset),
            rows@.len() == i - start,
            forall|j: int|
                0 <= j < rows@.len() ==> {
                    &&& (#[trigger] rows@[j]).name@ == v.entries[start + j].0
                    &&& rows@[j].value@ == truncated(v.entries[start + j].1, value_width as nat)
                    &&& rows@[j].selected == (start + j == v.current_index)
                },
        decreases end - i,
    {
        let row = ListRow {
            name: state.entries[i].0.clone(),
            value: truncate_value(state.entries[i].1.as_str(), value_width),
            selected: i == state.current_index,
        };
        rows.push(row);
        i = i + 1;
    }
    let value_panel = if state.current_index < n {
        let e = &state.entries[state.current_index];
        Some(value_window(e.0.as_str(), e.1.as_str(), state.value_scroll_offset, panel_width))
    } else {
        None
    };
    ScreenLayout {
        rows,
        more_above: state.scroll_offset > 0,
        more_below: end < n,
        value_panel,
        footer: footer_text(state),
    }
}

} // verus!
