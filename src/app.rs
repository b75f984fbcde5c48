//! The application state and the transitions that events make on it.
use vstd::prelude::*;
use crate::config::Config;
use crate::error::RounalError;
use crate::journal::{is_severity, JournalLogMap};
use crate::search::{
    lemma_reorder_idempotent, log_marks, log_matches, partition_by, stable_partition, unit_file_marks, unit_file_matches,
    unit_marks, unit_matches,
};
use crate::system::{ServiceUnitFiles, ServiceUnits};
use crate::text::{chars_of, is_blank, is_blank_text, lower_of, lowercase};
use crate::ui::{line_under_cursor, shown_priority, CurrentLine, ServiceView, UI};
use crate::journal::JournalLog;

verus! {

/// What a key asks of the application beyond the change it makes itself.
#[derive(Debug, Clone, Copy, PartialEq, Eq, Structural)]
pub enum Events {
    Quit,
    GetLogs,
    GetHelp,
    GetLineInModal,
    Search,
    Docs,
    Yank,
}

/// Outside work that the application asks for.
#[derive(Debug, PartialEq, Eq)]
pub enum Request {
    /// Run a log aggregation for this service.
    FetchLogs(String),
    /// Put this text on the clipboard.
    CopyToClipboard(String),
}

#[derive(Debug)]
pub struct App {
    pub ui: UI,
    pub config: Config,
    pub is_running: bool,
    pub logs: Option<JournalLogMap>,
    pub services: Option<(Vec<ServiceUnits>, Vec<ServiceUnitFiles>)>,
    pub selected_service: Option<String>,
    pub fetch_error: Option<RounalError>,
}

/// The severity that the log view starts at: the configured one when it is
/// a severity, else 5.
pub open spec fn default_priority(config: Config) -> u8 {
    if is_severity(config.options.initial_priority as int) {
        config.options.initial_priority
    } else {
        5
    }
}

/// The parts of the state that navigation and search leave alone.
pub open spec fn same_meta(a: App, b: App) -> bool {
    &&& b.config == a.config
    &&& b.is_running == a.is_running
    &&& b.selected_service == a.selected_service
    &&& b.fetch_error == a.fetch_error
}

/// `b` holds the collections of `a` with the shown one reordered by the
/// lower-cased search query of `a`: matches first, order kept in each group.
pub open spec fn reordered_collections(a: App, b: App) -> bool {
    reordered_by(a, b, lower_of(a.ui.search_query@))
}

/// `l2` is `l1` with the entries of severity `p` reordered by `q`.
pub open spec fn logs_reordered(l1: Option<JournalLogMap>, l2: Option<JournalLogMap>, p: u8, q: Seq<char>) -> bool {
    match l1 {
        None => l2 is None,
        Some(m) => match l2 {
            None => false,
            Some(n) => {
                &&& n@.dom() == m@.dom()
                &&& forall|k: u8| #[trigger] m@.contains_key(k) && k != p ==> n@[k] == m@[k]
                &&& m@.contains_key(p) ==> n@[p]@ == stable_partition(
                    m@[p]@,
                    |e: JournalLog| log_matches(e@, q),
                )
            },
        },
    }
}

/// `s2` is `s1` with the listing `view` reordered by `q`.
pub open spec fn services_reordered(
    s1: Option<(Vec<ServiceUnits>, Vec<ServiceUnitFiles>)>,
    s2: Option<(Vec<ServiceUnits>, Vec<ServiceUnitFiles>)>,
    view: ServiceView,
    q: Seq<char>,
) -> bool {
    match s1 {
        None => s2 is None,
        Some((u, f)) => match s2 {
            None => false,
            Some((u2, f2)) => match view {
                ServiceView::Units => u2@ == stable_partition(
                    u@,
                    |x: ServiceUnits| unit_matches(x@, q),
                ) && f2 == f,
                ServiceView::UnitFiles => u2 == u && f2@ == stable_partition(
                    f@,
                    |x: ServiceUnitFiles| unit_file_matches(x@, q),
                ),
            },
        },
    }
}

/// `b` holds the collections of `a` with the shown one reordered by `q`.
pub open spec fn reordered_by(a: App, b: App, q: Seq<char>) -> bool {
    if a.ui.is_in_logs {
        b.services == a.services && logs_reordered(a.logs, b.logs, a.shown_priority(), q)
    } else {
        b.logs == a.logs && services_reordered(a.services, b.services, a.ui.view, q)
    }
}

impl App {
    /// The severity whose entries the log view shows.
    pub open spec fn shown_priority(&self) -> u8 {
        shown_priority(self.ui, self.config.options.initial_priority)
    }

    /// The number of items in the collection that is shown.
    pub open spec fn visible_len(&self) -> int {
        if self.ui.is_in_logs {
            match self.logs {
                Some(m) => if m@.contains_key(self.shown_priority()) {
                    m@[self.shown_priority()]@.len() as int
                } else {
                    0
                },
                None => 0,
            }
        } else {
            match self.services {
                Some((u, f)) => match self.ui.view {
                    ServiceView::Units => u@.len() as int,
                    ServiceView::UnitFiles => f@.len() as int,
                },
                None => 0,
            }
        }
    }

    /// The cursor designates an item of the shown collection, or is 0.
    pub open spec fn cursor_valid(&self) -> bool {
        self.ui.current_line == 0 || self.ui.current_line < self.visible_len()
    }

    /// A fresh state: browsing the units, nothing loaded, at the
    /// configured severity.
    pub fn new(config: Config) -> (r: Self)
        ensures
            r.config == config,
            r.is_running,
            r.logs is None,
            r.services is None,
            r.selected_service is None,
            r.fetch_error is None,
            r.ui.view == ServiceView::Units,
            !r.ui.is_in_logs && !r.ui.is_in_search_mode,
            !r.ui.is_showing_help && !r.ui.is_showing_docs && !r.ui.is_showing_line_in_modal,
            r.ui.search_query@ == Seq::<char>::empty(),
            r.ui.selected_priority == Some(default_priority(config)),
            r.ui.current_line == 0,
            r.cursor_valid(),
    {
        let mut ui = UI::new();
        let p = config.options.initial_priority;
        if 1 <= p && p <= 7 {
            ui.selected_priority = Some(p);
        }
        App {
            ui,
            config,
            is_running: true,
            logs: None,
            services: None,
            selected_service: None,
            fetch_error: None,
        }
    }

    pub fn set_is_running(&mut self, state: bool)
        ensures
            *final(self) == (App { is_running: state, ..*old(self) }),
    {
        self.is_running = state;
    }

    /// Replaces the catalog. While browsing, the cursor goes back to the
    /// first item.
    pub fn set_services(&mut self, services: (Vec<ServiceUnits>, Vec<ServiceUnitFiles>)) -> (r:
        Result<(), RounalError>)
        ensures
            r is Ok,
            *final(self) == (App {
                services: Some(services),
                ui: if old(self).ui.is_in_logs {
                    old(self).ui
                } else {
                    UI { current_line: 0, ..old(self).ui }
                },
                ..*old(self)
            }),
            old(self).cursor_valid() ==> final(self).cursor_valid(),
    {
        self.services = Some(services);
        if !self.ui.is_in_logs {
            self.ui.current_line = 0;
        }
        Ok(())
    }

    /// Attaches the store of a finished aggregation run; the cursor goes
    /// back to the first entry.
    pub fn set_logs(&mut self, logs: JournalLogMap)
        ensures
            *final(self) == (App {
                logs: Some(logs),
                fetch_error: None,
                ui: UI { current_line: 0, ..old(self).ui },
                ..*old(self)
            }),
            final(self).cursor_valid(),
    {
        self.logs = Some(logs);
        self.fetch_error = None;
        self.ui.current_line = 0;
    }

    /// Records the failure of an aggregation run; nothing is attached and
    /// the rest of the state stays as it was.
    pub fn fail_logs(&mut self, error: RounalError)
        ensures
            *final(self) == (App { fetch_error: Some(error), ..*old(self) }),
            final(self).logs == old(self).logs,
            old(self).cursor_valid() ==> final(self).cursor_valid(),
    {
        self.fetch_error = Some(error);
    }

    /// Detaches the log store. In the log view the cursor goes back to 0.
    pub fn clear_logs(&mut self)
        ensures
            *final(self) == (App {
                logs: None,
                ui: if old(self).ui.is_in_logs {
                    UI { current_line: 0, ..old(self).ui }
                } else {
                    old(self).ui
                },
                ..*old(self)
            }),
            old(self).cursor_valid() ==> final(self).cursor_valid(),
    {
        self.logs = None;
        if self.ui.is_in_logs {
            self.ui.current_line = 0;
        }
    }

    /// Reorders the shown collection by the search query: the items whose
    /// key holds the lower-cased query move first, each group keeping its
    /// order, and the cursor goes back to 0. A query of whitespace only
    /// changes nothing.
    pub fn reorder_lines(&mut self)
        ensures
            is_blank(old(self).ui.search_query@) ==> *final(self) == *old(self),
            !is_blank(old(self).ui.search_query@) ==> {
                &&& final(self).ui == (UI { current_line: 0, ..old(self).ui })
                &&& same_meta(*old(self), *final(self))
                &&& reordered_collections(*old(self), *final(self))
            },
            old(self).cursor_valid() ==> final(self).cursor_valid(),
    {
        if is_blank_text(self.ui.search_query.as_str()) {
            return;
        }
        let lowered = lowercase(self.ui.search_query.as_str());
        let q = chars_of(lowered.as_str());
        self.reorder_shown(&q);
        self.ui.current_line = 0;
    }

    fn reorder_shown(&mut self, q: &Vec<char>)
        ensures
            final(self).ui == old(self).ui,
            same_meta(*old(self), *final(self)),
            reordered_by(*old(self), *final(self), q@),
    {
        broadcast use vstd::std_specs::hash::group_hash_axioms;

        let ghost qv = q@;
        if self.ui.is_in_logs {
            let p = match self.ui.selected_priority {
                Some(p) => p,
                None => self.config.options.initial_priority,
            };
            let mut taken: Option<JournalLogMap> = None;
            std::mem::swap(&mut self.logs, &mut taken);
            match taken {
                Some(mut m) => {
                    let ghost m0 = m@;
                    match m.remove(&p) {
                        Some(mut entries) => {
                            let marks = log_marks(&entries, q);
                            partition_by(
                                &mut entries,
                                &marks,
                                Ghost(|e: JournalLog| log_matches(e@, qv)),
                            );
                            m.insert(p, entries);
                            assert(m@.dom() =~= m0.dom());
                        },
                        None => {
                            assert(m@ =~= m0);
                        },
                    }
                    self.logs = Some(m);
                },
                None => {},
            }
        } else {
            let mut taken: Option<(Vec<ServiceUnits>, Vec<ServiceUnitFiles>)> = None;
            std::mem::swap(&mut self.services, &mut taken);
            match taken {
                Some((mut u, mut f)) => {
                    match self.ui.view {
                        ServiceView::Units => {
                            let marks = unit_marks(&u, q);
                            partition_by(&mut u, &marks, Ghost(|x: ServiceUnits| unit_matches(x@, qv)));
                        },
                        ServiceView::UnitFiles => {
                            let marks = unit_file_marks(&f, q);
                            partition_by(
                                &mut f,
                                &marks,
                                Ghost(|x: ServiceUnitFiles| unit_file_matches(x@, qv)),
                            );
                        },
                    }
                    self.services = Some((u, f));
                },
                None => {},
            }
        }
    }

    /// Carries out an event: quitting, toggling an overlay or entering
    /// search mode change the state; a log request or a copy of the entry
    /// under the cursor is handed back as outside work to do.
    pub fn apply_event(&mut self, event: Events) -> (r: Option<Request>)
        ensures
            match event {
                Events::Quit => *final(self) == (App { is_running: false, ..*old(self) })
                    && r is None,
                Events::GetHelp => *final(self) == (App {
                    ui: UI { is_showing_help: !old(self).ui.is_showing_help, ..old(self).ui },
                    ..*old(self)
                }) && r is None,
                Events::GetLineInModal => *final(self) == (App {
                    ui: UI {
                        is_showing_line_in_modal: !old(self).ui.is_showing_line_in_modal,
                        ..old(self).ui
                    },
                    ..*old(self)
                }) && r is None,
                Events::Docs => *final(self) == (App {
                    ui: UI { is_showing_docs: !old(self).ui.is_showing_docs, ..old(self).ui },
                    ..*old(self)
                }) && r is None,
                Events::Search => *final(self) == (App {
                    ui: UI {
                        is_in_search_mode: true,
                        search_query: final(self).ui.search_query,
                        ..old(self).ui
                    },
                    ..*old(self)
                }) && final(self).ui.search_query@ == Seq::<char>::empty() && r is None,
                Events::GetLogs => *final(self) == *old(self) && r == match old(
                    self,
                ).selected_service {
                    Some(s) => Some(Request::FetchLogs(s)),
                    None => None,
                },
                Events::Yank => *final(self) == *old(self) && r == match line_under_cursor(
                    old(self).ui,
                    *old(self),
                ) {
                    Some(CurrentLine::Log(e)) => Some(Request::CopyToClipboard(e.log_message)),
                    _ => None,
                },
            },
            old(self).cursor_valid() ==> final(self).cursor_valid(),
    {
        match event {
            Events::Quit => {
                self.set_is_running(false);
                None
            },
            Events::GetHelp => {
                self.ui.is_showing_help = !self.ui.is_showing_help;
                None
            },
            Events::GetLineInModal => {
                self.ui.is_showing_line_in_modal = !self.ui.is_showing_line_in_modal;
                None
            },
            Events::Docs => {
                self.ui.is_showing_docs = !self.ui.is_showing_docs;
                None
            },
            Events::Search => {
                self.ui.search_query = String::new();
                self.ui.is_in_search_mode = true;
                None
            },
            Events::GetLogs => match &self.selected_service {
                Some(s) => Some(Request::FetchLogs(s.clone())),
                None => None,
            },
            Events::Yank => match self.ui.get_log_message(self) {
                Some(m) => Some(Request::CopyToClipboard(m)),
                None => None,
            },
        }
    }
}

/// The shown collections of two states hold the same items in the same order.
pub open spec fn same_collections(b: App, c: App) -> bool {
    &&& match (b.services, c.services) {
        (Some((u2, f2)), Some((u3, f3))) => u3@ == u2@ && f3@ == f2@,
        (None, None) => true,
        _ => false,
    }
    &&& match (b.logs, c.logs) {
        (Some(n2), Some(n3)) => n3@.dom() == n2@.dom() && forall|k: u8|
            #[trigger] n2@.contains_key(k) ==> n3@[k]@ == n2@[k]@,
        (None, None) => true,
        _ => false,
    }
}

proof fn lemma_logs_reorder_twice(m: JournalLogMap, n2: JournalLogMap, n3: JournalLogMap, p: u8, q: Seq<char>)
    requires
        n2@.dom() == m@.dom(),
        forall|k: u8| #[trigger] m@.contains_key(k) && k != p ==> n2@[k] == m@[k],
        m@.contains_key(p) ==> n2@[p]@ == stable_partition(m@[p]@, |e: JournalLog| log_matches(e@, q)),
        n3@.dom() == n2@.dom(),
        forall|k: u8| #[trigger] n2@.contains_key(k) && k != p ==> n3@[k] == n2@[k],
        n2@.contains_key(p) ==> n3@[p]@ == stable_partition(n2@[p]@, |e: JournalLog| log_matches(e@, q)),
    ensures
        n3@.dom() == n2@.dom(),
        forall|k: u8| #[trigger] n2@.contains_key(k) ==> n3@[k]@ == n2@[k]@,
{
    if m@.contains_key(p) {
        lemma_reorder_idempotent(m@[p]@, |e: JournalLog| log_matches(e@, q));
    }
}

proof fn lemma_services_reorder_twice(
    u: Seq<ServiceUnits>,
    u2: Seq<ServiceUnits>,
    u3: Seq<ServiceUnits>,
    f: Seq<ServiceUnitFiles>,
    f2: Seq<ServiceUnitFiles>,
    f3: Seq<ServiceUnitFiles>,
    view: ServiceView,
    q: Seq<char>,
)
    requires
        view == ServiceView::Units ==> u2 == stable_partition(u, |x: ServiceUnits| unit_matches(x@, q))
            && f2 == f && u3 == stable_partition(u2, |x: ServiceUnits| unit_matches(x@, q)) && f3
            == f2,
        view == ServiceView::UnitFiles ==> f2 == stable_partition(
            f,
            |x: ServiceUnitFiles| unit_file_matches(x@, q),
        ) && u2 == u && f3 == stable_partition(f2, |x: ServiceUnitFiles| unit_file_matches(x@, q))
            && u3 == u2,
    ensures
        u3 == u2,
        f3 == f2,
{
    let fu = |x: ServiceUnits| unit_matches(x@, q);
    let ff = |x: ServiceUnitFiles| unit_file_matches(x@, q);
    if view == ServiceView::Units {
        lemma_reorder_idempotent(u, fu);
        assert(u3 == stable_partition(stable_partition(u, fu), fu));
    } else {
        lemma_reorder_idempotent(f, ff);
        assert(f3 == stable_partition(stable_partition(f, ff), ff));
    }
}

proof fn lemma_logs_twice(
    l1: Option<JournalLogMap>,
    l2: Option<JournalLogMap>,
    l3: Option<JournalLogMap>,
    p: u8,
    q: Seq<char>,
)
    requires
        logs_reordered(l1, l2, p, q),
        logs_reordered(l2, l3, p, q),
    ensures
        match (l2, l3) {
            (Some(n2), Some(n3)) => n3@.dom() == n2@.dom() && forall|k: u8|
                #[trigger] n2@.contains_key(k) ==> n3@[k]@ == n2@[k]@,
            (None, None) => true,
            _ => false,
        },
{
    if l1 is Some {
        lemma_logs_reorder_twice(l1->Some_0, l2->Some_0, l3->Some_0, p, q);
    }
}

proof fn lemma_services_twice(
    s1: Option<(Vec<ServiceUnits>, Vec<ServiceUnitFiles>)>,
    s2: Option<(Vec<ServiceUnits>, Vec<ServiceUnitFiles>)>,
    s3: Option<(Vec<ServiceUnits>, Vec<ServiceUnitFiles>)>,
    view: ServiceView,
    q: Seq<char>,
)
    requires
        services_reordered(s1, s2, view, q),
        services_reordered(s2, s3, view, q),
    ensures
        match (s2, s3) {
            (Some((u2, f2)), Some((u3, f3))) => u3@ == u2@ && f3@ == f2@,
            (None, None) => true,
            _ => false,
        },
{
    if s1 is Some {
        let (u, f) = s1->Some_0;
        let (u2, f2) = s2->Some_0;
        let (u3, f3) = s3->Some_0;
        lemma_services_reorder_twice(u@, u2@, u3@, f@, f2@, f3@, view, q);
    }
}

/// Reordering twice with the same query gives the order that reordering
/// once gives.
pub proof fn lemma_reorder_lines_idempotent(a: App, b: App, c: App)
    requires
        !is_blank(a.ui.search_query@),
        b.ui == (UI { current_line: 0, ..a.ui }),
        same_meta(a, b),
        reordered_collections(a, b),
        c.ui == (UI { current_line: 0, ..b.ui }),
        same_meta(b, c),
        reordered_collections(b, c),
    ensures
        same_collections(b, c),
{
    let q = lower_of(a.ui.search_query@);
    assert(lower_of(b.ui.search_query@) == q);
    assert(b.shown_priority() == a.shown_priority());
    assert(b.ui.is_in_logs == a.ui.is_in_logs);
    assert(b.ui.view == a.ui.view);
    if a.ui.is_in_logs {
        lemma_logs_twice(a.logs, b.logs, c.logs, a.shown_priority(), q);
    } else {
        lemma_services_twice(a.services, b.services, c.services, a.ui.view, q);
    }
}

} // verus!
