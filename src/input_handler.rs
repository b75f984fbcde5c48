//! Key handling: the navigation state machine of the dashboard.
use vstd::prelude::*;
use crate::app::{default_priority, reordered_collections, same_meta, App, Events};
use crate::text::{drop_last_char, is_blank};
use crate::ui::{ServiceView, UI};

verus! {

/// A key press, as the state machine sees it.
#[derive(Debug, Clone, Copy, PartialEq, Eq, Structural)]
pub enum Key {
    Char(char),
    Up,
    Down,
    Left,
    Right,
    Enter,
    Esc,
    Backspace,
    Other,
}

/// The help or the entry overlay is open, which holds navigation back.
pub open spec fn overlay_open(ui: UI) -> bool {
    ui.is_showing_help || ui.is_showing_line_in_modal
}

/// No overlay at all is open.
pub open spec fn no_overlay(ui: UI) -> bool {
    !overlay_open(ui) && !ui.is_showing_docs
}

/// The keys that act the same in both views, whatever overlay is open.
pub open spec fn common_event(key: Key) -> Option<Events> {
    match key {
        Key::Esc => Some(Events::Quit),
        Key::Char(c) => if c == 'q' {
            Some(Events::Quit)
        } else if c == '?' {
            Some(Events::GetHelp)
        } else if c == 'K' {
            Some(Events::GetLineInModal)
        } else if c == 'E' {
            Some(Events::Docs)
        } else if c == '/' {
            Some(Events::Search)
        } else {
            None
        },
        _ => None,
    }
}

pub open spec fn with_ui(a: App, ui: UI) -> App {
    App { ui, ..a }
}

pub open spec fn moved_down(a: App) -> App {
    let cur = a.ui.current_line;
    with_ui(
        a,
        UI {
            current_line: if cur + 1 < a.visible_len() {
                (cur + 1) as usize
            } else {
                cur
            },
            ..a.ui
        },
    )
}

pub open spec fn moved_up(a: App) -> App {
    let cur = a.ui.current_line;
    with_ui(
        a,
        UI {
            current_line: if cur > 0 {
                (cur - 1) as usize
            } else {
                0
            },
            ..a.ui
        },
    )
}

pub open spec fn with_priority(a: App, p: u8) -> App {
    with_ui(a, UI { selected_priority: Some(p), current_line: 0, ..a.ui })
}

/// One severity more urgent, if there is one.
pub open spec fn priority_down(a: App) -> App {
    match a.ui.selected_priority {
        Some(p) => if p > 1 {
            with_priority(a, (p - 1) as u8)
        } else {
            a
        },
        None => a,
    }
}

/// One severity more verbose, if there is one.
pub open spec fn priority_up(a: App) -> App {
    match a.ui.selected_priority {
        Some(p) => if p < 7 {
            with_priority(a, (p + 1) as u8)
        } else {
            a
        },
        None => a,
    }
}

/// Leaving the log view: the store and the selection go, the severity
/// returns to its default and the cursor to the first item.
pub open spec fn closed_logs(a: App) -> App {
    App {
        logs: None,
        selected_service: None,
        fetch_error: None,
        ui: UI {
            is_in_logs: false,
            selected_priority: Some(default_priority(a.config)),
            current_line: 0,
            ..a.ui
        },
        ..a
    }
}

/// The digit keys 1 to 7 select a severity directly.
pub open spec fn is_digit_key(c: char) -> bool {
    '1' as u32 <= c as u32 <= '7' as u32
}

/// The state and event after `key` in the log view. In search mode
/// nothing happens: the search handler takes the keys there.
pub open spec fn logs_step(a: App, key: Key) -> (App, Option<Events>) {
    let free = !overlay_open(a.ui);
    if a.ui.is_in_search_mode {
        (a, None)
    } else if common_event(key) is Some {
        (a, common_event(key))
    } else if key == Key::Char('y') {
        (a, if no_overlay(a.ui) { Some(Events::Yank) } else { None })
    } else if !free {
        (a, None)
    } else if key == Key::Down || key == Key::Char('j') {
        (moved_down(a), None)
    } else if key == Key::Up || key == Key::Char('k') {
        (moved_up(a), None)
    } else if key == Key::Left || key == Key::Char('h') {
        (priority_down(a), None)
    } else if key == Key::Right || key == Key::Char('l') {
        (priority_up(a), None)
    } else if key == Key::Char('c') {
        (closed_logs(a), None)
    } else {
        match key {
            Key::Char(c) => if is_digit_key(c) {
                (with_priority(a, ((c as u32) - ('0' as u32)) as u8), None)
            } else {
                (a, None)
            },
            _ => (a, None),
        }
    }
}

/// Switching the listing: the cursor goes back to 0 and any store goes.
pub open spec fn switched(a: App, v: ServiceView) -> App {
    App { logs: None, ui: UI { view: v, current_line: 0, ..a.ui }, ..a }
}

/// Entering the log view of the service under the cursor.
pub open spec fn entered(a: App, name: String) -> App {
    App {
        selected_service: Some(name),
        logs: None,
        fetch_error: None,
        ui: UI { is_in_logs: true, current_line: 0, ..a.ui },
        ..a
    }
}

/// The state and event after Enter in a service listing.
pub open spec fn enter_step(a: App) -> (App, Option<Events>) {
    let k = a.ui.current_line as int;
    match a.services {
        Some((u, f)) => match a.ui.view {
            ServiceView::Units => if k < u@.len() {
                (entered(a, u@[k].name), Some(Events::GetLogs))
            } else {
                (a, None)
            },
            ServiceView::UnitFiles => if k < f@.len() {
                (entered(a, f@[k].name), Some(Events::GetLogs))
            } else {
                (a, None)
            },
        },
        None => (a, None),
    }
}

/// The state and event after `key` in a service listing. In search mode
/// nothing happens: the search handler takes the keys there.
pub open spec fn services_step(a: App, key: Key) -> (App, Option<Events>) {
    if a.ui.is_in_search_mode {
        (a, None)
    } else if common_event(key) is Some {
        (a, common_event(key))
    } else if overlay_open(a.ui) {
        (a, None)
    } else if key == Key::Down || key == Key::Char('j') {
        (moved_down(a), None)
    } else if key == Key::Up || key == Key::Char('k') {
        (moved_up(a), None)
    } else if key == Key::Right || key == Key::Char('l') {
        (if a.ui.view == ServiceView::Units {
            switched(a, ServiceView::UnitFiles)
        } else {
            a
        }, None)
    } else if key == Key::Left || key == Key::Char('h') {
        (if a.ui.view == ServiceView::UnitFiles {
            switched(a, ServiceView::Units)
        } else {
            a
        }, None)
    } else if key == Key::Enter {
        enter_step(a)
    } else {
        (a, None)
    }
}

/// `b` is `a` with another search text and the same everything else.
pub open spec fn only_query_changed(a: App, b: App) -> bool {
    b == with_ui(a, UI { search_query: b.ui.search_query, ..a.ui })
}

/// The state after `key` in search mode: text keys edit the query, Esc
/// leaves search mode with the query cleared, Enter reorders the shown
/// collection by the query and leaves search mode with the cursor at 0.
pub open spec fn search_step(a: App, key: Key, b: App) -> bool {
    let q = a.ui.search_query@;
    match key {
        Key::Esc => {
            &&& b == with_ui(
                a,
                UI { is_in_search_mode: false, search_query: b.ui.search_query, ..a.ui },
            )
            &&& b.ui.search_query@ == Seq::<char>::empty()
        },
        Key::Enter => {
            &&& b.ui == (UI { is_in_search_mode: false, current_line: 0, ..a.ui })
            &&& same_meta(a, b)
            &&& is_blank(q) ==> b.logs == a.logs && b.services == a.services
            &&& !is_blank(q) ==> reordered_collections(a, b)
        },
        Key::Backspace => only_query_changed(a, b) && b.ui.search_query@ == (if q.len() > 0 {
            q.drop_last()
        } else {
            q
        }),
        Key::Char(c) => only_query_changed(a, b) && b.ui.search_query@ == q.push(c),
        _ => b == a,
    }
}

/// The number of items in the collection that is shown.
pub fn shown_len(app: &App) -> (r: usize)
    ensures
        r == app.visible_len(),
{
    broadcast use vstd::std_specs::hash::group_hash_axioms;

    if app.ui.is_in_logs {
        let p = match app.ui.selected_priority {
            Some(p) => p,
            None => app.config.options.initial_priority,
        };
        match &app.logs {
            Some(m) => match m.get(&p) {
                Some(entries) => entries.len(),
                None => 0,
            },
            None => 0,
        }
    } else {
        match &app.services {
            Some((u, f)) => match app.ui.view {
                ServiceView::Units => u.len(),
                ServiceView::UnitFiles => f.len(),
            },
            None => 0,
        }
    }
}

fn common_key_event(key: Key) -> (r: Option<Events>)
    ensures
        r == common_event(key),
{
    match key {
        Key::Esc => Some(Events::Quit),
        Key::Char(c) => {
            if c == 'q' {
                Some(Events::Quit)
            } else if c == '?' {
                Some(Events::GetHelp)
            } else if c == 'K' {
                Some(Events::GetLineInModal)
            } else if c == 'E' {
                Some(Events::Docs)
            } else if c == '/' {
                Some(Events::Search)
            } else {
                None
            }
        },
        _ => None,
    }
}

fn move_down(app: &mut App)
    ensures
        *final(app) == moved_down(*old(app)),
{
    let len = shown_len(app);
    app.ui.move_cursor_down(len);
}

/// Handles a key in the log view; in search mode it does nothing.
pub fn handle_logs_key_events(app: &mut App, key: Key) -> (r: Option<Events>)
    ensures
        (*final(app), r) == logs_step(*old(app), key),
{
    if app.ui.is_in_search_mode {
        return None;
    }
    let common = common_key_event(key);
    if common.is_some() {
        return common;
    }
    let free = !app.ui.is_showing_help && !app.ui.is_showing_line_in_modal;
    if key == Key::Char('y') {
        return if free && !app.ui.is_showing_docs {
            Some(Events::Yank)
        } else {
            None
        };
    }
    if !free {
        return None;
    }
    if key == Key::Down || key == Key::Char('j') {
        move_down(app);
    } else if key == Key::Up || key == Key::Char('k') {
        app.ui.move_cursor_up();
    } else if key == Key::Left || key == Key::Char('h') {
        if let Some(p) = app.ui.selected_priority {
            if p > 1 {
                app.ui.set_priority(p - 1);
            }
        }
    } else if key == Key::Right || key == Key::Char('l') {
        if let Some(p) = app.ui.selected_priority {
            if p < 7 {
                app.ui.set_priority(p + 1);
            }
        }
    } else if key == Key::Char('c') {
        app.clear_logs();
        app.selected_service = None;
        app.fetch_error = None;
        app.ui.is_in_logs = false;
        let p = app.config.options.initial_priority;
        app.ui.selected_priority = Some(if 1 <= p && p <= 7 { p } else { 5 });
        app.ui.current_line = 0;
    } else if let Key::Char(c) = key {
        if '1' <= c && c <= '7' {
            app.ui.set_priority(((c as u32) - ('0' as u32)) as u8);
        }
    }
    None
}

/// Handles a key in a service listing; in search mode it does nothing.
pub fn handle_services_key_events(app: &mut App, key: Key) -> (r: Option<Events>)
    ensures
        (*final(app), r) == services_step(*old(app), key),
{
    if app.ui.is_in_search_mode {
        return None;
    }
    let common = common_key_event(key);
    if common.is_some() {
        return common;
    }
    if app.ui.is_showing_help || app.ui.is_showing_line_in_modal {
        return None;
    }
    if key == Key::Down || key == Key::Char('j') {
        move_down(app);
        None
    } else if key == Key::Up || key == Key::Char('k') {
        app.ui.move_cursor_up();
        None
    } else if key == Key::Right || key == Key::Char('l') {
        if app.ui.view == ServiceView::Units {
            app.ui.set_current_line(0);
            app.ui.set_view(ServiceView::UnitFiles);
            app.logs = None;
        }
        None
    } else if key == Key::Left || key == Key::Char('h') {
        if app.ui.view == ServiceView::UnitFiles {
            app.ui.set_current_line(0);
            app.ui.set_view(ServiceView::Units);
            app.logs = None;
        }
        None
    } else if key == Key::Enter {
        let k = app.ui.current_line;
        let name = match &app.services {
            Some((u, f)) => match app.ui.view {
                ServiceView::Units => {
                    if k < u.len() {
                        Some(u[k].name.clone())
                    } else {
                        None
                    }
                },
                ServiceView::UnitFiles => {
                    if k < f.len() {
                        Some(f[k].name.clone())
                    } else {
                        None
                    }
                },
            },
            None => None,
        };
        match name {
            Some(name) => {
                app.selected_service = Some(name);
                app.logs = None;
                app.fetch_error = None;
                app.ui.is_in_logs = true;
                app.ui.current_line = 0;
                Some(Events::GetLogs)
            },
            None => None,
        }
    } else {
        None
    }
}

/// Handles a key in search mode.
pub fn handle_search_key_events(app: &mut App, key: Key) -> (r: Option<Events>)
    ensures
        r is None,
        search_step(*old(app), key, *final(app)),
{
    match key {
        Key::Esc => {
            app.ui.search_query = String::new();
            app.ui.is_in_search_mode = false;
        },
        Key::Enter => {
            app.reorder_lines();
            app.ui.is_in_search_mode = false;
            app.ui.current_line = 0;
        },
        Key::Backspace => {
            let shorter = drop_last_char(app.ui.search_query.as_str());
            app.ui.search_query = shorter;
        },
        Key::Char(c) => {
            app.ui.search_query.push(c);
        },
        _ => {},
    }
    None
}

/// Handles one key press: in search mode it edits or commits the query;
/// otherwise it acts on the log view or on the service listing. Whatever
/// the key, a valid cursor stays valid.
pub fn handle_key_events(app: &mut App, key: Key) -> (r: Option<Events>)
    ensures
        old(app).ui.is_in_search_mode ==> r is None && search_step(*old(app), key, *final(app)),
        !old(app).ui.is_in_search_mode && old(app).ui.is_in_logs ==> (*final(app), r) == logs_step(
            *old(app),
            key,
        ),
        !old(app).ui.is_in_search_mode && !old(app).ui.is_in_logs ==> (*final(app), r)
            == services_step(*old(app), key),
        old(app).cursor_valid() ==> final(app).cursor_valid(),
{
    if app.ui.is_in_search_mode {
        handle_search_key_events(app, key)
    } else if app.ui.is_in_logs {
        handle_logs_key_events(app, key)
    } else {
        handle_services_key_events(app, key)
    }
}

} // verus!
