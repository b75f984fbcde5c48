use std::collections::HashMap;

use rounal::app::{App, Events, Request};
use rounal::config::{Config, Options, Palette, Priority};
use rounal::input_handler::{
    handle_key_events, handle_logs_key_events, handle_services_key_events, Key,
};
use rounal::journal::{gather_logs, parse_log, FetchResult, JournalLog};
use rounal::system::{parse_service_unit_files, parse_service_units, ServiceUnitFiles, ServiceUnits};
use rounal::ui::{scroll_offset, CurrentLine, ServiceView};

fn config(initial: u8) -> Config {
    Config {
        palette: Palette {
            red: [1, 0, 0],
            black: [0, 0, 0],
            blue: [0, 0, 1],
            white: [9, 9, 9],
            gray: [5, 5, 5],
            green: [0, 1, 0],
        },
        priority: Priority {
            emerg: [1, 1, 1],
            alert: [2, 2, 2],
            err: [3, 3, 3],
            warn: [4, 4, 4],
            notice: [5, 5, 5],
            info: [6, 6, 6],
            debug: [7, 7, 7],
            unknown: [8, 8, 8],
        },
        options: Options {
            description: true,
            yank: "clipboard".to_string(),
            initial_priority: initial,
            debug_level: "info".to_string(),
            command_format: "short".to_string(),
        },
    }
}

fn units(lines: &[&str]) -> Vec<ServiceUnits> {
    lines.iter().map(|l| parse_service_units(l).unwrap()).collect()
}

fn files(lines: &[&str]) -> Vec<ServiceUnitFiles> {
    lines.iter().map(|l| parse_service_unit_files(l).unwrap()).collect()
}

fn sample_app() -> App {
    let mut app = App::new(config(4));
    app.set_services((
        units(&[
            "a.service loaded active running Alpha",
            "nginx.service loaded active running Web server",
            "b.service loaded inactive dead Beta",
        ]),
        files(&["x.service enabled enabled", "y.service disabled -"]),
    ))
    .unwrap();
    app
}

fn store(n: usize) -> HashMap<u8, Vec<JournalLog>> {
    let rs: Vec<FetchResult> = (1..=7u8)
        .map(|p| {
            let v: Vec<JournalLog> = (0..n)
                .map(|i| parse_log(&format!("d t{} z host svc{}: message {}", i, i, i), &p).unwrap())
                .collect();
            (p, Ok(v))
        })
        .collect();
    gather_logs(rs).unwrap()
}

fn visible_len(app: &App) -> usize {
    if app.ui.is_in_logs {
        let p = app.ui.selected_priority.unwrap_or(app.config.options.initial_priority);
        app.logs.as_ref().and_then(|m| m.get(&p)).map(|v| v.len()).unwrap_or(0)
    } else {
        match &app.services {
            Some((u, f)) => match app.ui.view {
                ServiceView::Units => u.len(),
                ServiceView::UnitFiles => f.len(),
            },
            None => 0,
        }
    }
}

fn cursor_ok(app: &App) -> bool {
    app.ui.current_line == 0 || app.ui.current_line < visible_len(app)
}

#[test]
fn new_app_starts_at_configured_severity() {
    let app = App::new(config(3));
    assert_eq!(app.ui.selected_priority, Some(3));
    assert!(app.is_running);
    assert_eq!(app.ui.view, ServiceView::Units);
    let fallback = App::new(config(0));
    assert_eq!(fallback.ui.selected_priority, Some(5));
}

#[test]
fn cursor_clamps_at_both_ends() {
    let mut app = sample_app();
    assert_eq!(handle_key_events(&mut app, Key::Up), None);
    assert_eq!(app.ui.current_line, 0);
    handle_key_events(&mut app, Key::Down);
    handle_key_events(&mut app, Key::Char('j'));
    assert_eq!(app.ui.current_line, 2);
    handle_key_events(&mut app, Key::Down);
    assert_eq!(app.ui.current_line, 2);
    handle_key_events(&mut app, Key::Char('k'));
    assert_eq!(app.ui.current_line, 1);
}

#[test]
fn switching_view_resets_cursor() {
    let mut app = sample_app();
    handle_key_events(&mut app, Key::Down);
    handle_key_events(&mut app, Key::Right);
    assert_eq!(app.ui.view, ServiceView::UnitFiles);
    assert_eq!(app.ui.current_line, 0);
    handle_key_events(&mut app, Key::Right);
    assert_eq!(app.ui.view, ServiceView::UnitFiles);
    handle_key_events(&mut app, Key::Char('h'));
    assert_eq!(app.ui.view, ServiceView::Units);
}

#[test]
fn enter_selects_service_and_requests_logs() {
    let mut app = sample_app();
    handle_key_events(&mut app, Key::Down);
    let ev = handle_key_events(&mut app, Key::Enter);
    assert_eq!(ev, Some(Events::GetLogs));
    assert!(app.ui.is_in_logs);
    assert_eq!(app.ui.current_line, 0);
    assert_eq!(app.selected_service.as_deref(), Some("nginx.service"));
    assert!(app.logs.is_none());
    let req = app.apply_event(Events::GetLogs);
    assert_eq!(req, Some(Request::FetchLogs("nginx.service".to_string())));
}

#[test]
fn enter_on_empty_listing_does_nothing() {
    let mut app = App::new(config(4));
    assert_eq!(handle_key_events(&mut app, Key::Enter), None);
    app.set_services((vec![], vec![])).unwrap();
    assert_eq!(handle_key_events(&mut app, Key::Enter), None);
    assert!(!app.ui.is_in_logs);
}

#[test]
fn severity_keys_in_log_view() {
    let mut app = sample_app();
    handle_key_events(&mut app, Key::Enter);
    app.set_logs(store(3));
    handle_key_events(&mut app, Key::Down);
    assert_eq!(app.ui.current_line, 1);
    handle_key_events(&mut app, Key::Char('6'));
    assert_eq!(app.ui.selected_priority, Some(6));
    assert_eq!(app.ui.current_line, 0);
    handle_key_events(&mut app, Key::Right);
    assert_eq!(app.ui.selected_priority, Some(7));
    handle_key_events(&mut app, Key::Right);
    assert_eq!(app.ui.selected_priority, Some(7));
    handle_key_events(&mut app, Key::Char('1'));
    handle_key_events(&mut app, Key::Left);
    assert_eq!(app.ui.selected_priority, Some(1));
    handle_key_events(&mut app, Key::Char('8'));
    assert_eq!(app.ui.selected_priority, Some(1));
}

#[test]
fn close_logs_returns_to_browsing() {
    let mut app = sample_app();
    handle_key_events(&mut app, Key::Right);
    handle_key_events(&mut app, Key::Down);
    handle_key_events(&mut app, Key::Enter);
    assert_eq!(app.selected_service.as_deref(), Some("y.service"));
    app.set_logs(store(2));
    handle_key_events(&mut app, Key::Char('2'));
    handle_key_events(&mut app, Key::Char('c'));
    assert!(!app.ui.is_in_logs);
    assert!(app.logs.is_none());
    assert!(app.selected_service.is_none());
    assert_eq!(app.ui.selected_priority, Some(4));
    assert_eq!(app.ui.view, ServiceView::UnitFiles);
    assert_eq!(app.ui.current_line, 0);
}

#[test]
fn overlays_toggle_and_hold_navigation() {
    let mut app = sample_app();
    let ev = handle_key_events(&mut app, Key::Char('?')).unwrap();
    assert_eq!(ev, Events::GetHelp);
    app.apply_event(ev);
    assert!(app.ui.is_showing_help);
    handle_key_events(&mut app, Key::Down);
    assert_eq!(app.ui.current_line, 0);
    let ev = handle_key_events(&mut app, Key::Char('?')).unwrap();
    app.apply_event(ev);
    assert!(!app.ui.is_showing_help);
    let ev = handle_key_events(&mut app, Key::Char('E')).unwrap();
    assert_eq!(ev, Events::Docs);
    app.apply_event(ev);
    assert!(app.ui.is_showing_docs);
    let ev = handle_key_events(&mut app, Key::Char('K')).unwrap();
    assert_eq!(ev, Events::GetLineInModal);
    app.apply_event(ev);
    assert!(app.ui.is_showing_line_in_modal);
}

#[test]
fn quit_from_any_overlay() {
    let mut app = sample_app();
    app.ui.set_is_showing_help(true);
    let ev = handle_key_events(&mut app, Key::Char('q')).unwrap();
    assert_eq!(ev, Events::Quit);
    assert_eq!(app.apply_event(ev), None);
    assert!(!app.is_running);
    let mut other = sample_app();
    assert_eq!(handle_key_events(&mut other, Key::Esc), Some(Events::Quit));
}

#[test]
fn yank_hands_back_the_message() {
    let mut app = sample_app();
    handle_key_events(&mut app, Key::Enter);
    app.set_logs(store(3));
    handle_key_events(&mut app, Key::Down);
    let ev = handle_key_events(&mut app, Key::Char('y')).unwrap();
    assert_eq!(ev, Events::Yank);
    assert_eq!(
        app.apply_event(ev),
        Some(Request::CopyToClipboard("message 1".to_string()))
    );
    app.ui.set_is_showing_help(true);
    assert_eq!(handle_key_events(&mut app, Key::Char('y')), None);
}

#[test]
fn current_line_follows_the_shown_collection() {
    let mut app = sample_app();
    handle_key_events(&mut app, Key::Down);
    match app.ui.get_current_line(&app) {
        Some(CurrentLine::ServiceUnit(u)) => assert_eq!(u.name, "nginx.service"),
        other => panic!("unexpected {:?}", other),
    }
    assert!(app.ui.get_log_message(&app).is_none());
    handle_key_events(&mut app, Key::Enter);
    assert!(app.ui.get_current_line(&app).is_none());
    app.set_logs(store(1));
    match app.ui.get_current_line(&app) {
        Some(CurrentLine::Log(l)) => assert_eq!(l.priority, 4),
        other => panic!("unexpected {:?}", other),
    }
}

#[test]
fn docs_overlay_does_not_hold_navigation() {
    let mut app = sample_app();
    app.ui.set_is_showing_docs(true);
    handle_key_events(&mut app, Key::Down);
    assert_eq!(app.ui.current_line, 1);
    assert_eq!(handle_key_events(&mut app, Key::Enter), Some(Events::GetLogs));
    assert_eq!(app.selected_service.as_deref(), Some("nginx.service"));
    app.set_logs(store(2));
    assert_eq!(handle_key_events(&mut app, Key::Char('y')), None);
    app.ui.set_is_showing_docs(false);
    assert_eq!(handle_key_events(&mut app, Key::Char('y')), Some(Events::Yank));
}

#[test]
fn view_handlers_do_nothing_in_search_mode() {
    let mut app = sample_app();
    app.ui.set_is_in_search_mode(true);
    assert_eq!(handle_services_key_events(&mut app, Key::Down), None);
    assert_eq!(handle_services_key_events(&mut app, Key::Right), None);
    assert_eq!(handle_services_key_events(&mut app, Key::Enter), None);
    assert_eq!(app.ui.current_line, 0);
    assert_eq!(app.ui.view, ServiceView::Units);
    assert!(!app.ui.is_in_logs);
    app.ui.is_in_logs = true;
    app.set_logs(store(3));
    assert_eq!(handle_logs_key_events(&mut app, Key::Down), None);
    assert_eq!(handle_logs_key_events(&mut app, Key::Char('6')), None);
    assert_eq!(app.ui.current_line, 0);
    assert_eq!(app.ui.selected_priority, Some(4));
}

#[test]
fn failed_rerun_keeps_attached_store() {
    let mut app = sample_app();
    handle_key_events(&mut app, Key::Enter);
    app.set_logs(store(2));
    app.fail_logs(rounal::error::RounalError::JournalCtlError(5, "x".to_string()));
    assert_eq!(app.logs.as_ref().map(|m| m.len()), Some(7));
    assert!(app.is_running);
    assert!(app.fetch_error.is_some());
}

#[test]
fn failed_aggregation_attaches_no_store() {
    let mut app = sample_app();
    handle_key_events(&mut app, Key::Enter);
    let rs: Vec<FetchResult> = vec![
        (1, Ok(vec![])),
        (5, Err(rounal::error::RounalError::JournalCtlError(5, "x".to_string()))),
    ];
    match gather_logs(rs) {
        Ok(m) => app.set_logs(m),
        Err(e) => app.fail_logs(e),
    }
    assert!(app.logs.is_none());
    assert_eq!(
        app.fetch_error,
        Some(rounal::error::RounalError::JournalCtlError(5, "x".to_string()))
    );
}

#[test]
fn cursor_stays_valid_under_random_keys() {
    let keys = [
        Key::Up,
        Key::Down,
        Key::Left,
        Key::Right,
        Key::Enter,
        Key::Char('c'),
        Key::Char('j'),
        Key::Char('k'),
        Key::Char('3'),
        Key::Char('7'),
        Key::Char('/'),
        Key::Char('a'),
        Key::Char('?'),
        Key::Esc,
        Key::Backspace,
        Key::Other,
    ];
    let mut seed: u64 = 0x2545_f491_4f6c_dd1d;
    for _run in 0..50 {
        let mut app = sample_app();
        for _step in 0..200 {
            seed = seed.wrapping_mul(6364136223846793005).wrapping_add(1442695040888963407);
            let key = keys[((seed >> 33) % keys.len() as u64) as usize];
            if let Some(ev) = handle_key_events(&mut app, key) {
                if ev == Events::Quit {
                    continue;
                }
                if let Some(Request::FetchLogs(_)) = app.apply_event(ev) {
                    app.set_logs(store(((seed >> 20) % 5) as usize));
                }
            }
            assert!(cursor_ok(&app));
        }
    }
}

#[test]
fn scroll_keeps_cursor_in_view() {
    assert_eq!(scroll_offset(0, 10), 0);
    assert_eq!(scroll_offset(7, 10), 0);
    assert_eq!(scroll_offset(8, 10), 1);
    assert_eq!(scroll_offset(20, 10), 13);
    assert_eq!(scroll_offset(4, 2), 4);
    assert_eq!(scroll_offset(0, 0), 0);
    for cur in 0..50usize {
        for rows in 1..20usize {
            let off = scroll_offset(cur, rows);
            assert!(off <= cur && cur < off + rows);
        }
    }
}
