//! The interactive editor as a whole: its state, started from the variables.
use vstd::prelude::*;
use crate::state::{AppState, EditorView, InputFocus, ModeView, pairs_view};

verus! {

pub struct InteractiveApp {
    pub state: AppState,
}

impl InteractiveApp {
    /// An editor over `entries`, in list mode with the first entry selected.
    pub fn new(entries: Vec<(String, String)>) -> (r: InteractiveApp)
        ensures
            r.state.wf(),
            r.state@ == (EditorView {
                mode: ModeView::List,
                should_quit: false,
                entries: pairs_view(entries@),
                current_index: 0,
                scroll_offset: 0,
                value_scroll_offset: 0,
                message: None,
                input_key: Seq::empty(),
                input_value: Seq::empty(),
                cursor_key: 0,
                cursor_value: 0,
                focus: InputFocus::Key,
                reload_requested: false,
            }),
    {
        let state = AppState::new(entries);
        assert(state@ =~= (EditorView {
            mode: ModeView::List,
            should_quit: false,
            entries: pairs_view(entries@),
            current_index: 0,
            scroll_offset: 0,
            value_scroll_offset: 0,
            message: None,
            input_key: Seq::empty(),
            input_value: Seq::empty(),
            cursor_key: 0,
            cursor_value: 0,
            focus: InputFocus::Key,
            reload_requested: false,
        }));
        InteractiveApp { state }
    }

    /// The editor goes on until a quit was requested.
    pub fn is_running(&self) -> (r: bool)
        ensures
            r == !self.state.should_quit,
    {
        !self.state.should_quit
    }
}

} // verus!
