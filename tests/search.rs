use rounal::app::App;
use rounal::config::{Config, Options, Palette, Priority};
use rounal::input_handler::{handle_key_events, Key};
use rounal::search::partition_by_marks;
use rounal::system::{parse_service_unit_files, parse_service_units, ServiceUnits};
use rounal::text::contains_text;
use rounal::ui::ServiceView;

fn config() -> Config {
    Config {
        palette: Palette {
            red: [0; 3],
            black: [0; 3],
            blue: [0; 3],
            white: [0; 3],
            gray: [0; 3],
            green: [0; 3],
        },
        priority: Priority {
            emerg: [0; 3],
            alert: [0; 3],
            err: [0; 3],
            warn: [0; 3],
            notice: [0; 3],
            info: [0; 3],
            debug: [0; 3],
            unknown: [0; 3],
        },
        options: Options {
            description: false,
            yank: String::new(),
            initial_priority: 5,
            debug_level: String::new(),
            command_format: String::new(),
        },
    }
}

fn app_with(lines: &[&str]) -> App {
    let mut app = App::new(config());
    let units: Vec<ServiceUnits> = lines.iter().map(|l| parse_service_units(l).unwrap()).collect();
    let files = vec![
        parse_service_unit_files("alpha.service enabled enabled").unwrap(),
        parse_service_unit_files("NGINX-extra.service enabled enabled").unwrap(),
    ];
    app.set_services((units, files)).unwrap();
    app
}

fn names(app: &App) -> Vec<String> {
    app.services.as_ref().unwrap().0.iter().map(|u| u.name.clone()).collect()
}

const LINES: [&str; 5] = [
    "a.service loaded active running Alpha",
    "web.service loaded active running Runs NGINX proxy",
    "b.service loaded active running Beta",
    "nginx.service loaded active running Web server",
    "c.service loaded active running Gamma",
];

#[test]
fn search_moves_matches_first_keeping_order() {
    let mut app = app_with(&LINES);
    app.ui.search_query = "nginx".to_string();
    app.ui.current_line = 3;
    app.reorder_lines();
    assert_eq!(
        names(&app),
        vec!["web.service", "nginx.service", "a.service", "b.service", "c.service"]
    );
    assert_eq!(app.ui.current_line, 0);
}

#[test]
fn reorder_twice_equals_once() {
    let mut app = app_with(&LINES);
    app.ui.search_query = "A".to_string();
    app.reorder_lines();
    let once = names(&app);
    app.reorder_lines();
    assert_eq!(names(&app), once);
    assert_eq!(once, vec!["a.service", "b.service", "c.service", "web.service", "nginx.service"]);
}

#[test]
fn blank_query_changes_nothing() {
    let mut app = app_with(&LINES);
    app.ui.search_query = " \t ".to_string();
    app.ui.current_line = 2;
    app.reorder_lines();
    assert_eq!(names(&app)[0], "a.service");
    assert_eq!(app.ui.current_line, 2);
    app.ui.search_query = String::new();
    app.reorder_lines();
    assert_eq!(names(&app)[1], "web.service");
}

#[test]
fn query_spaces_are_part_of_the_match() {
    let mut app = app_with(&LINES);
    app.ui.search_query = "e w".to_string();
    app.reorder_lines();
    assert_eq!(names(&app)[0], "nginx.service");
}

#[test]
fn unit_file_search_uses_name_only() {
    let mut app = app_with(&LINES);
    app.ui.view = ServiceView::UnitFiles;
    app.ui.search_query = "nginx".to_string();
    app.reorder_lines();
    let files = &app.services.as_ref().unwrap().1;
    assert_eq!(files[0].name, "NGINX-extra.service");
    assert_eq!(names(&app)[0], "a.service");
}

#[test]
fn search_mode_edits_and_commits() {
    let mut app = app_with(&LINES);
    let ev = handle_key_events(&mut app, Key::Char('/')).unwrap();
    app.apply_event(ev);
    assert!(app.ui.is_in_search_mode);
    for c in "ngixx".chars() {
        assert_eq!(handle_key_events(&mut app, Key::Char(c)), None);
    }
    handle_key_events(&mut app, Key::Backspace);
    handle_key_events(&mut app, Key::Backspace);
    handle_key_events(&mut app, Key::Char('n'));
    assert_eq!(app.ui.search_query, "ngin");
    handle_key_events(&mut app, Key::Down);
    assert_eq!(app.ui.current_line, 0);
    handle_key_events(&mut app, Key::Char('q'));
    assert!(app.is_running);
    assert_eq!(app.ui.search_query, "nginq");
    handle_key_events(&mut app, Key::Backspace);
    handle_key_events(&mut app, Key::Enter);
    assert!(!app.ui.is_in_search_mode);
    assert_eq!(names(&app)[0], "web.service");
}

#[test]
fn search_escape_keeps_order() {
    let mut app = app_with(&LINES);
    let ev = handle_key_events(&mut app, Key::Char('/')).unwrap();
    app.apply_event(ev);
    handle_key_events(&mut app, Key::Char('c'));
    handle_key_events(&mut app, Key::Esc);
    assert!(!app.ui.is_in_search_mode);
    assert_eq!(app.ui.search_query, "");
    assert_eq!(names(&app)[0], "a.service");
}

#[test]
fn log_search_uses_timestamp_and_service() {
    let mut app = app_with(&LINES);
    handle_key_events(&mut app, Key::Enter);
    let entries: Vec<_> = [
        "Jan 01 10:00 h cron: msg sshd",
        "Jan 01 11:00 h sshd[1]: hello",
        "Feb 02 12:00 h kernel: boot",
    ]
    .iter()
    .map(|l| rounal::journal::parse_log(l, &5).unwrap())
    .collect();
    let rs: Vec<rounal::journal::FetchResult> = (1..=7u8)
        .map(|p| (p, Ok(if p == 5 { entries.clone() } else { vec![] })))
        .collect();
    app.set_logs(rounal::journal::gather_logs(rs).unwrap());
    app.ui.search_query = "SSHD".to_string();
    app.reorder_lines();
    let v = &app.logs.as_ref().unwrap()[&5];
    assert_eq!(v[0].service, "sshd[1]");
    assert_eq!(v[1].service, "cron");
    app.ui.search_query = "feb".to_string();
    app.reorder_lines();
    let v = &app.logs.as_ref().unwrap()[&5];
    assert_eq!(v[0].service, "kernel");
}

#[test]
fn partition_by_marks_is_stable() {
    let mut v = vec![1, 2, 3, 4, 5, 6];
    partition_by_marks(&mut v, &vec![false, true, false, true, true, false]);
    assert_eq!(v, vec![2, 4, 5, 1, 3, 6]);
    let mut e: Vec<u8> = vec![];
    partition_by_marks(&mut e, &vec![]);
    assert!(e.is_empty());
}

#[test]
fn contains_text_on_lowered_keys() {
    let hay: Vec<char> = "nginx.service web".chars().collect();
    assert!(contains_text(&hay, &"x.s".chars().collect()));
    assert!(contains_text(&hay, &vec![]));
    assert!(!contains_text(&hay, &"NGINX".chars().collect()));
    assert!(!contains_text(&vec![], &vec!['a']));
}
