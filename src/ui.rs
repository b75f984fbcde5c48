//! Presentation state: the active listing, overlays, search text,
//! selected severity and cursor.
use vstd::prelude::*;
use crate::app::App;
use crate::journal::JournalLog;
use crate::system::{ServiceUnitFiles, ServiceUnits};

verus! {

/// Which service listing is shown while browsing.
#[derive(Debug, Clone, Copy, PartialEq, Eq, Structural)]
pub enum ServiceView {
    Units,
    UnitFiles,
}

/// The item under the cursor.
#[derive(Debug)]
pub enum CurrentLine {
    Log(JournalLog),
    ServiceUnit(ServiceUnits),
    ServiceUnitFile(ServiceUnitFiles),
}

#[derive(Debug)]
pub struct UI {
    pub view: ServiceView,
    pub is_showing_help: bool,
    pub is_showing_line_in_modal: bool,
    pub is_in_logs: bool,
    pub is_in_search_mode: bool,
    pub is_showing_docs: bool,
    pub search_query: String,
    pub search_matches: Vec<CurrentLine>,
    pub selected_priority: Option<u8>,
    pub current_line: usize,
}

/// The severity shown in the log view: the selected one, else `default`.
pub open spec fn shown_priority(ui: UI, default: u8) -> u8 {
    match ui.selected_priority {
        Some(p) => p,
        None => default,
    }
}

/// The item under the cursor of `ui` in the collections of `app`.
pub open spec fn line_under_cursor(ui: UI, app: App) -> Option<CurrentLine> {
    let k = ui.current_line as int;
    if ui.is_in_logs {
        let p = shown_priority(ui, app.config.options.initial_priority);
        match app.logs {
            Some(m) => if m@.contains_key(p) && k < m@[p]@.len() {
                Some(CurrentLine::Log(m@[p]@[k]))
            } else {
                None
            },
            None => None,
        }
    } else {
        match app.services {
            Some((u, f)) => match ui.view {
                ServiceView::Units => if k < u@.len() {
                    Some(CurrentLine::ServiceUnit(u@[k]))
                } else {
                    None
                },
                ServiceView::UnitFiles => if k < f@.len() {
                    Some(CurrentLine::ServiceUnitFile(f@[k]))
                } else {
                    None
                },
            },
            None => None,
        }
    }
}

/// The first row shown when `rows` rows fit on screen: the cursor row is
/// kept two rows above the bottom once the list scrolls.
pub open spec fn scroll_start(current_line: int, rows: int) -> int {
    if rows < 3 {
        current_line
    } else if current_line + 2 >= rows {
        current_line + 3 - rows
    } else {
        0
    }
}

/// The index of the first item to draw, so that the cursor stays in view.
pub fn scroll_offset(current_line: usize, rows: usize) -> (r: usize)
    ensures
        r == scroll_start(current_line as int, rows as int),
        r <= current_line,
        rows > 0 ==> current_line < r + rows,
{
    if rows < 3 {
        current_line
    } else if current_line >= rows - 2 {
        current_line - (rows - 3)
    } else {
        0
    }
}

impl UI {
    pub fn new() -> (r: Self)
        ensures
            r.view == ServiceView::Units,
            !r.is_showing_help,
            !r.is_showing_line_in_modal,
            !r.is_showing_docs,
            !r.is_in_logs,
            !r.is_in_search_mode,
            r.search_query@ == Seq::<char>::empty(),
            r.search_matches@ == Seq::<CurrentLine>::empty(),
            r.selected_priority == Some(5u8),
            r.current_line == 0,
    {
        UI {
            view: ServiceView::Units,
            is_showing_help: false,
            is_showing_line_in_modal: false,
            is_showing_docs: false,
            is_in_logs: false,
            is_in_search_mode: false,
            search_query: String::new(),
            search_matches: Vec::new(),
            selected_priority: Some(5),
            current_line: 0,
        }
    }

    pub fn toggle_help(&mut self)
        ensures
            *final(self) == (UI { is_showing_help: !old(self).is_showing_help, ..*old(self) }),
    {
        self.is_showing_help = !self.is_showing_help;
    }

    pub fn toggle_logs(&mut self)
        ensures
            *final(self) == (UI { is_in_logs: !old(self).is_in_logs, ..*old(self) }),
    {
        self.is_in_logs = !self.is_in_logs;
    }

    pub fn set_view(&mut self, new_view: ServiceView)
        ensures
            *final(self) == (UI { view: new_view, ..*old(self) }),
    {
        self.view = new_view;
    }

    pub fn set_is_showing_help(&mut self, state: bool)
        ensures
            *final(self) == (UI { is_showing_help: state, ..*old(self) }),
    {
        self.is_showing_help = state;
    }

    pub fn set_is_showing_line_in_modal(&mut self, state: bool)
        ensures
            *final(self) == (UI { is_showing_line_in_modal: state, ..*old(self) }),
    {
        self.is_showing_line_in_modal = state;
    }

    pub fn set_is_showing_docs(&mut self, state: bool)
        ensures
            *final(self) == (UI { is_showing_docs: state, ..*old(self) }),
    {
        self.is_showing_docs = state;
    }

    pub fn set_is_in_search_mode(&mut self, state: bool)
        ensures
            *final(self) == (UI { is_in_search_mode: state, ..*old(self) }),
    {
        self.is_in_search_mode = state;
    }

    /// Selects a severity; the cursor goes back to the first entry.
    pub fn set_priority(&mut self, priority: u8)
        ensures
            *final(self) == (UI { selected_priority: Some(priority), current_line: 0, ..*old(self) }),
    {
        self.selected_priority = Some(priority);
        self.current_line = 0;
    }

    pub fn set_current_line(&mut self, position: usize)
        ensures
            *final(self) == (UI { current_line: position, ..*old(self) }),
    {
        self.current_line = position;
    }

    /// Moves the cursor one item down in a listing of `max` items; at the
    /// last item it stays.
    pub fn move_cursor_down(&mut self, max: usize)
        ensures
            *final(self) == (UI {
                current_line: if old(self).current_line + 1 < max {
                    (old(self).current_line + 1) as usize
                } else {
                    old(self).current_line
                },
                ..*old(self)
            }),
    {
        if max > 0 && self.current_line < max - 1 {
            self.current_line = self.current_line + 1;
        }
    }

    /// Moves the cursor one item up; at the first item it stays.
    pub fn move_cursor_up(&mut self)
        ensures
            *final(self) == (UI {
                current_line: if old(self).current_line > 0 {
                    (old(self).current_line - 1) as usize
                } else {
                    0
                },
                ..*old(self)
            }),
    {
        if self.current_line > 0 {
            self.current_line = self.current_line - 1;
        }
    }

    /// The item under the cursor, in the collection that is shown.
    pub fn get_current_line(&self, app: &App) -> (r: Option<CurrentLine>)
        ensures
            r == line_under_cursor(*self, *app),
    {
        broadcast use vstd::std_specs::hash::group_hash_axioms;

        let k = self.current_line;
        if self.is_in_logs {
            let p = match self.selected_priority {
                Some(p) => p,
                None => app.config.options.initial_priority,
            };
            match &app.logs {
                Some(m) => match m.get(&p) {
                    Some(entries) => {
                        if k < entries.len() {
                            Some(CurrentLine::Log(entries[k].clone()))
                        } else {
                            None
                        }
                    },
                    None => None,
                },
                None => None,
            }
        } else {
            match &app.services {
                Some((u, f)) => match self.view {
                    ServiceView::Units => {
                        if k < u.len() {
                            Some(CurrentLine::ServiceUnit(u[k].clone()))
                        } else {
                            None
                        }
                    },
                    ServiceView::UnitFiles => {
                        if k < f.len() {
                            Some(CurrentLine::ServiceUnitFile(f[k].clone()))
                        } else {
                            None
                        }
                    },
                },
                None => None,
            }
        }
    }

    /// The message of the log entry under the cursor, in the log view.
    pub fn get_log_message(&self, app: &App) -> (r: Option<String>)
        ensures
            match line_under_cursor(*self, *app) {
                Some(CurrentLine::Log(e)) => r == Some(e.log_message),
                _ => r is None,
            },
    {
        match self.get_current_line(app) {
            Some(CurrentLine::Log(l)) => Some(l.log_message),
            _ => None,
        }
    }
}

} // verus!
