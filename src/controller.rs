//! The dashboard's controller: the table and log modes, the confirmation
//! overlay, and the decisions taken on each key. The controller never calls
//! the cluster or the terminal itself: each decision that needs outside work
//! comes back as an `Effect` for the runner to carry out.

use vstd::prelude::*;
use crate::duration::Timestamp;
use crate::progress::string_views;
use crate::snapshot::{Data, DataView, all_wf, data_views, opt_wf};

verus! {

/// A key press, as the controller tells keys apart.
#[derive(Clone, Copy, Debug, PartialEq, Eq, Structural)]
pub enum Key {
    Char(char),
    Esc,
    Enter,
    Up,
    Down,
    Other,
}

/// What the main pane shows.
pub enum Mode {
    Table,
    /// The log of `pod`, followed since `start`.
    Logs { pod: String, start: Timestamp },
}

/// A destructive action that waits for the operator's confirmation.
pub enum ConfirmAction {
    /// Delete every job of the family `controller`.
    CancelJob { controller: String },
    /// Mark the local node as taking farm work, or not.
    CheckoutNode { schedulable: bool },
}

/// Outside work that a decision asks of the runner.
pub enum Effect {
    Nothing,
    /// Leave the dashboard.
    Quit,
    /// Stop the log stream that runs, if any, and follow the log of `pod`;
    /// its lines come back tagged with `session`.
    OpenLogStream { session: u64, pod: String },
    /// Stop the log stream that runs.
    CloseLogStream,
    /// Delete every job of the family `controller`.
    CancelJobs { controller: String },
    /// Write the farm label of the local node.
    SetSchedulable { schedulable: bool },
}

pub enum ModeView {
    Table,
    Logs { pod: Seq<char>, start: Timestamp },
}

pub enum ActionView {
    CancelJob { controller: Seq<char> },
    CheckoutNode { schedulable: bool },
}

pub enum EffectView {
    Nothing,
    Quit,
    OpenLogStream { session: u64, pod: Seq<char> },
    CloseLogStream,
    CancelJobs { controller: Seq<char> },
    SetSchedulable { schedulable: bool },
}

impl View for Mode {
    type V = ModeView;

    open spec fn view(&self) -> ModeView {
        match self {
            Mode::Table => ModeView::Table,
            Mode::Logs { pod, start } => ModeView::Logs { pod: pod@, start: *start },
        }
    }
}

impl View for ConfirmAction {
    type V = ActionView;

    open spec fn view(&self) -> ActionView {
        match self {
            ConfirmAction::CancelJob { controller } => ActionView::CancelJob {
                controller: controller@,
            },
            ConfirmAction::CheckoutNode { schedulable } => ActionView::CheckoutNode {
                schedulable: *schedulable,
            },
        }
    }
}

impl View for Effect {
    type V = EffectView;

    open spec fn view(&self) -> EffectView {
        match self {
            Effect::Nothing => EffectView::Nothing,
            Effect::Quit => EffectView::Quit,
            Effect::OpenLogStream { session, pod } => EffectView::OpenLogStream {
                session: *session,
                pod: pod@,
            },
            Effect::CloseLogStream => EffectView::CloseLogStream,
            Effect::CancelJobs { controller } => EffectView::CancelJobs {
                controller: controller@,
            },
            Effect::SetSchedulable { schedulable } => EffectView::SetSchedulable {
                schedulable: *schedulable,
            },
        }
    }
}

/// The controller's whole state.
pub struct App {
    /// The workloads listed, newest first.
    pub items: Vec<Data>,
    /// The highlighted row.
    pub selected: Option<usize>,
    pub mode: Mode,
    /// How many lines the log view stands above its end.
    pub scroll_offset: u16,
    /// The largest scroll offset that the last layout of the log allowed.
    pub max_log_lines: u16,
    /// The lines received from the current log session.
    pub logs: Vec<String>,
    /// The action that the confirmation overlay asks about.
    pub pending_confirmation: Option<ConfirmAction>,
    /// The log session whose lines are accepted.
    pub log_session: Option<u64>,
    /// The number the next log session gets.
    pub next_session: u64,
}

/// The controller's state with its texts as character sequences.
pub struct AppView {
    pub items: Seq<DataView>,
    pub selected: Option<usize>,
    pub mode: ModeView,
    pub scroll_offset: u16,
    pub max_log_lines: u16,
    pub logs: Seq<Seq<char>>,
    pub pending: Option<ActionView>,
    pub log_session: Option<u64>,
    pub next_session: u64,
}

impl View for App {
    type V = AppView;

    open spec fn view(&self) -> AppView {
        AppView {
            items: data_views(self.items@),
            selected: self.selected,
            mode: self.mode@,
            scroll_offset: self.scroll_offset,
            max_log_lines: self.max_log_lines,
            logs: string_views(self.logs@),
            pending: match self.pending_confirmation {
                Some(a) => Some(a@),
                None => None,
            },
            log_session: self.log_session,
            next_session: self.next_session,
        }
    }
}

pub open spec fn view_wf(d: DataView) -> bool {
    opt_wf(d.started_at) && opt_wf(d.finished_at) && opt_wf(d.created_at)
}

impl AppView {
    /// The state is consistent: every instant in range; a highlighted row
    /// inside the list whenever the list has rows; a log session exactly in
    /// log mode, numbered apart from the next one; the scroll within bounds.
    pub open spec fn inv(self) -> bool {
        &&& forall|i: int| 0 <= i < self.items.len() ==> view_wf(#[trigger] self.items[i])
        &&& (self.selected matches Some(i) ==> self.items.len() == 0 || i < self.items.len())
        &&& (self.mode is Table <==> self.log_session is None)
        &&& (self.mode matches ModeView::Logs { start, .. } ==> start.wf())
        &&& (self.log_session matches Some(id) ==> id != self.next_session)
        &&& self.scroll_offset <= self.max_log_lines
    }
}

/// The number after `n`, wrapping to zero.
pub open spec fn successor(n: u64) -> u64 {
    if n == u64::MAX {
        0
    } else {
        (n + 1) as u64
    }
}

/// Moving the highlight one row down: it stops at the last row; with no
/// highlight the first row takes it.
pub open spec fn select_next(s: AppView) -> AppView {
    match s.selected {
        Some(i) => if i + 1 < s.items.len() {
            AppView { selected: Some((i + 1) as usize), ..s }
        } else {
            s
        },
        None => if s.items.len() > 0 {
            AppView { selected: Some(0), ..s }
        } else {
            s
        },
    }
}

/// Moving the highlight one row up: it stops at the first row; with no
/// highlight the first row takes it.
pub open spec fn select_previous(s: AppView) -> AppView {
    match s.selected {
        Some(i) => if i > 0 {
            AppView { selected: Some((i - 1) as usize), ..s }
        } else {
            s
        },
        None => if s.items.len() > 0 {
            AppView { selected: Some(0), ..s }
        } else {
            s
        },
    }
}

/// The row under the highlight, if the highlight is on a row.
pub open spec fn selected_row(s: AppView) -> Option<DataView> {
    match s.selected {
        Some(i) => if i < s.items.len() {
            Some(s.items[i as int])
        } else {
            None
        },
        None => None,
    }
}

/// Entering the log view of the highlighted workload: a new session takes
/// the next number, the log starts empty, and the run is timed from the
/// workload's start (from `now` where it has none). With no row highlighted
/// nothing changes.
pub open spec fn open_logs(s: AppView, now: Timestamp) -> (AppView, EffectView) {
    match selected_row(s) {
        Some(row) => (
            AppView {
                mode: ModeView::Logs {
                    pod: row.name,
                    start: match row.started_at {
                        Some(t) => t,
                        None => now,
                    },
                },
                logs: Seq::empty(),
                log_session: Some(s.next_session),
                next_session: successor(s.next_session),
                ..s
            },
            EffectView::OpenLogStream { session: s.next_session, pod: row.name },
        ),
        None => (s, EffectView::Nothing),
    }
}

/// Leaving the log view: the session ends, and the log and its scroll are
/// cleared.
pub open spec fn close_logs(s: AppView) -> (AppView, EffectView) {
    (
        AppView {
            mode: ModeView::Table,
            logs: Seq::empty(),
            scroll_offset: 0,
            log_session: None,
            ..s
        },
        EffectView::CloseLogStream,
    )
}

/// Lines that arrive from log session `session`: appended in order when
/// that session is the current one, dropped otherwise.
pub open spec fn receive_lines(s: AppView, session: u64, lines: Seq<Seq<char>>) -> AppView {
    if s.log_session == Some(session) {
        AppView { logs: s.logs + lines, ..s }
    } else {
        s
    }
}

/// Scrolling the log view: down moves toward the end (offset less one,
/// not below zero), up away from it (offset plus one, not past the largest
/// offset).
pub open spec fn scroll(s: AppView, down: bool) -> AppView {
    if down {
        AppView {
            scroll_offset: if s.scroll_offset == 0 {
                0u16
            } else {
                (s.scroll_offset - 1) as u16
            },
            ..s
        }
    } else {
        AppView {
            scroll_offset: if s.scroll_offset < s.max_log_lines {
                (s.scroll_offset + 1) as u16
            } else {
                s.max_log_lines
            },
            ..s
        }
    }
}

/// The cancel-job key: where the highlighted row belongs to a job family,
/// the overlay asks whether to cancel that family; otherwise nothing
/// changes.
pub open spec fn ask_cancel(s: AppView) -> AppView {
    match selected_row(s) {
        Some(row) => match row.controller {
            Some(c) => AppView { pending: Some(ActionView::CancelJob { controller: c }), ..s },
            None => s,
        },
        None => s,
    }
}

/// A checkout key: the overlay asks whether to set the local node's farm
/// label to `schedulable`.
pub open spec fn ask_checkout(s: AppView, schedulable: bool) -> AppView {
    AppView { pending: Some(ActionView::CheckoutNode { schedulable }), ..s }
}

/// Confirming: the overlay closes, and the action it asked about is handed
/// to the runner.
pub open spec fn confirm(s: AppView) -> (AppView, EffectView) {
    (
        AppView { pending: None, ..s },
        match s.pending {
            Some(ActionView::CancelJob { controller }) => EffectView::CancelJobs { controller },
            Some(ActionView::CheckoutNode { schedulable }) => EffectView::SetSchedulable {
                schedulable,
            },
            None => EffectView::Nothing,
        },
    )
}

/// Denying: the overlay closes and the action is dropped.
pub open spec fn deny(s: AppView) -> AppView {
    AppView { pending: None, ..s }
}

/// What a key press does. While the overlay is open only `y` and `n` count.
/// In the table: `q` or Esc quits; `j`/Down and `k`/Up move the highlight;
/// Enter opens the log view; `D` asks to cancel a job family; `p` asks to
/// return the node to the farm and `o` to check it out. In the log view:
/// `q` or Esc goes back to the table; `k`/Up and `j`/Down scroll.
pub open spec fn step(s: AppView, key: Key, now: Timestamp) -> (AppView, EffectView) {
    if s.pending is Some {
        if key == Key::Char('y') {
            confirm(s)
        } else if key == Key::Char('n') {
            (deny(s), EffectView::Nothing)
        } else {
            (s, EffectView::Nothing)
        }
    } else if s.mode is Table {
        if key == Key::Char('q') || key == Key::Esc {
            (s, EffectView::Quit)
        } else if key == Key::Char('j') || key == Key::Down {
            (select_next(s), EffectView::Nothing)
        } else if key == Key::Char('k') || key == Key::Up {
            (select_previous(s), EffectView::Nothing)
        } else if key == Key::Char('D') {
            (ask_cancel(s), EffectView::Nothing)
        } else if key == Key::Char('p') {
            (ask_checkout(s, true), EffectView::Nothing)
        } else if key == Key::Char('o') {
            (ask_checkout(s, false), EffectView::Nothing)
        } else if key == Key::Enter {
            open_logs(s, now)
        } else {
            (s, EffectView::Nothing)
        }
    } else {
        if key == Key::Char('q') || key == Key::Esc {
            close_logs(s)
        } else if key == Key::Char('k') || key == Key::Up {
            (scroll(s, false), EffectView::Nothing)
        } else if key == Key::Char('j') || key == Key::Down {
            (scroll(s, true), EffectView::Nothing)
        } else {
            (s, EffectView::Nothing)
        }
    }
}

/// A refresh: a fetched list replaces the rows wholesale, with the
/// highlight moved onto the last row where the list got shorter than it; a
/// failed fetch keeps the rows as they were.
pub open spec fn replace_items(s: AppView, fetched: Option<Seq<DataView>>) -> AppView {
    match fetched {
        Some(items) => AppView {
            items,
            selected: match s.selected {
                Some(i) => if items.len() > 0 && i >= items.len() {
                    Some((items.len() - 1) as usize)
                } else {
                    Some(i)
                },
                None => None,
            },
            ..s
        },
        None => s,
    }
}

/// The largest scroll offset of a log that takes `total` rows in a pane of
/// `height` rows.
pub open spec fn max_offset(total: u16, height: u16) -> u16 {
    if total > height {
        (total - height) as u16
    } else {
        0
    }
}

/// Laying out the log pane: the largest offset is recomputed, the offset
/// is brought within it, and the first row shown lies that many rows above
/// the last screenful.
pub open spec fn lay_out_logs(s: AppView, total: u16, height: u16) -> (AppView, u16) {
    let m = max_offset(total, height);
    let off = if s.scroll_offset <= m {
        s.scroll_offset
    } else {
        m
    };
    (AppView { max_log_lines: m, scroll_offset: off, ..s }, (m - off) as u16)
}

/// The state after pressing `key` `n` times.
pub open spec fn after_presses(s: AppView, key: Key, now: Timestamp, n: nat) -> AppView
    decreases n,
{
    if n == 0 {
        s
    } else {
        step(after_presses(s, key, now, (n - 1) as nat), key, now).0
    }
}

/// In the table with no rows, Enter changes nothing and asks for no log
/// stream.
pub proof fn lemma_enter_without_rows(s: AppView, now: Timestamp)
    requires
        s.mode is Table,
        s.items.len() == 0,
    ensures
        step(s, Key::Enter, now) == (s, EffectView::Nothing),
{
}

/// In the table with no rows and no overlay, pressing Down any number of
/// times leaves the state as it was, and each press asks for nothing.
pub proof fn lemma_down_without_rows(s: AppView, now: Timestamp, n: nat)
    requires
        s.mode is Table,
        s.pending is None,
        s.items.len() == 0,
    ensures
        step(s, Key::Down, now) == (s, EffectView::Nothing),
        after_presses(s, Key::Down, now, n) == s,
    decreases n,
{
    if n > 0 {
        lemma_down_without_rows(s, now, (n - 1) as nat);
    }
}

/// Opening a log view while a session runs: the runner is told to replace
/// the stream, the log starts empty under a new session number, and from
/// then on lines of the old session are dropped while lines of the new one
/// are kept, in order.
pub proof fn lemma_new_session_drops_old_lines(
    s: AppView,
    now: Timestamp,
    u: AppView,
    stale: Seq<Seq<char>>,
    fresh: Seq<Seq<char>>,
)
    requires
        s.inv(),
        s.log_session is Some,
        selected_row(s) is Some,
        u.log_session == open_logs(s, now).0.log_session,
    ensures
        ({
            let (t, e) = open_logs(s, now);
            &&& t.logs.len() == 0
            &&& t.log_session is Some
            &&& t.log_session != s.log_session
            &&& e == EffectView::OpenLogStream {
                session: t.log_session->0,
                pod: selected_row(s)->0.name,
            }
            &&& receive_lines(u, s.log_session->0, stale) == u
            &&& receive_lines(t, t.log_session->0, fresh).logs == fresh
        }),
{
    let t = open_logs(s, now).0;
    assert(t.logs + fresh =~= fresh);
}

/// The confirmation flow of a job cancel: the cancel key on a row of a job
/// family opens the overlay and asks for nothing; denying closes it and
/// asks for nothing; confirming closes it and asks, once, to cancel that
/// family, after which a second confirmation asks for nothing.
pub proof fn lemma_cancel_confirmation(s: AppView, now: Timestamp)
    requires
        s.mode is Table,
        s.pending is None,
        selected_row(s) is Some,
        selected_row(s)->0.controller is Some,
    ensures
        ({
            let c = selected_row(s)->0.controller->0;
            let (asked, e) = step(s, Key::Char('D'), now);
            let (done, cancel) = step(asked, Key::Char('y'), now);
            &&& asked.pending == Some(ActionView::CancelJob { controller: c })
            &&& e == EffectView::Nothing
            &&& step(asked, Key::Char('n'), now) == (s, EffectView::Nothing)
            &&& cancel == EffectView::CancelJobs { controller: c }
            &&& done == s
            &&& step(done, Key::Char('y'), now) == (s, EffectView::Nothing)
        }),
{
}

proof fn lemma_views_wf(items: Seq<Data>)
    requires
        all_wf(items),
    ensures
        forall|i: int|
            0 <= i < data_views(items).len() ==> view_wf(#[trigger] data_views(items)[i]),
{
    assert forall|i: int| 0 <= i < data_views(items).len() implies view_wf(
        #[trigger] data_views(items)[i],
    ) by {
        assert(items[i].wf());
    }
}

impl App {
    /// The state is consistent (see `AppView::inv`).
    pub open spec fn wf(&self) -> bool {
        self@.inv()
    }

    /// The controller at start-up: the table of `items` with the first row
    /// highlighted, no overlay and no log session.
    pub fn new(items: Vec<Data>) -> (r: App)
        requires
            all_wf(items@),
        ensures
            r@ == (AppView {
                items: data_views(items@),
                selected: Some(0),
                mode: ModeView::Table,
                scroll_offset: 0,
                max_log_lines: 0,
                logs: Seq::empty(),
                pending: None,
                log_session: None,
                next_session: 0,
            }),
            r.wf(),
    {
        proof {
            lemma_views_wf(items@);
        }
        let r = App {
            items,
            selected: Some(0),
            mode: Mode::Table,
            scroll_offset: 0,
            max_log_lines: 0,
            logs: Vec::new(),
            pending_confirmation: None,
            log_session: None,
            next_session: 0,
        };
        assert(string_views(r.logs@) == Seq::<Seq<char>>::empty());
        r
    }

    /// Moves the highlight one row down.
    pub fn next(&mut self)
        requires
            old(self).wf(),
        ensures
            final(self)@ == select_next(old(self)@),
            final(self).wf(),
    {
        match self.selected {
            Some(i) => {
                if self.items.len() > 0 && i < self.items.len() - 1 {
                    self.selected = Some(i + 1);
                }
            },
            None => {
                if self.items.len() > 0 {
                    self.selected = Some(0);
                }
            },
        }
    }

    /// Moves the highlight one row up.
    pub fn previous(&mut self)
        requires
            old(self).wf(),
        ensures
            final(self)@ == select_previous(old(self)@),
            final(self).wf(),
    {
        match self.selected {
            Some(i) => {
                if i > 0 {
                    self.selected = Some(i - 1);
                }
            },
            None => {
                if self.items.len() > 0 {
                    self.selected = Some(0);
                }
            },
        }
    }

    /// Opens the log view of the highlighted workload.
    pub fn start_log_mode(&mut self, now: Timestamp) -> (r: Effect)
        requires
            old(self).wf(),
            now.wf(),
        ensures
            (final(self)@, r@) == open_logs(old(self)@, now),
            final(self).wf(),
    {
        match self.selected {
            Some(i) => {
                if i < self.items.len() {
                    let session = self.next_session;
                    let pod = self.items[i].name.clone();
                    let start = match self.items[i].started_at {
                        Some(t) => t,
                        None => now,
                    };
                    assert(data_views(self.items@)[i as int] == self.items@[i as int]@);
                    assert(view_wf(data_views(self.items@)[i as int]));
                    let ghost before = self@;
                    self.next_session = if session == u64::MAX {
                        0
                    } else {
                        session + 1
                    };
                    self.log_session = Some(session);
                    self.logs = Vec::new();
                    let label = pod.clone();
                    self.mode = Mode::Logs { pod, start };
                    assert(string_views(self.logs@) == Seq::<Seq<char>>::empty());
                    assert(self@ == open_logs(before, now).0);
                    return Effect::OpenLogStream { session, pod: label };
                }
                Effect::Nothing
            },
            None => Effect::Nothing,
        }
    }

    /// Lines that the runner received from log session `session`.
    pub fn drain_logs(&mut self, session: u64, lines: Vec<String>)
        requires
            old(self).wf(),
        ensures
            final(self)@ == receive_lines(old(self)@, session, string_views(lines@)),
            final(self).wf(),
    {
        if self.log_session == Some(session) {
            let ghost before = self.logs@;
            let ghost incoming = lines@;
            let mut lines = lines;
            self.logs.append(&mut lines);
            assert(string_views(self.logs@) =~= string_views(before) + string_views(incoming));
        }
    }

    /// Leaves the log view for the table.
    pub fn exit_log_mode(&mut self) -> (r: Effect)
        requires
            old(self).wf(),
        ensures
            (final(self)@, r@) == close_logs(old(self)@),
            final(self).wf(),
    {
        self.logs = Vec::new();
        self.scroll_offset = 0;
        self.log_session = None;
        self.mode = Mode::Table;
        assert(string_views(self.logs@) == Seq::<Seq<char>>::empty());
        Effect::CloseLogStream
    }

    /// Scrolls the log view one line toward its end (`down`) or away from it.
    pub fn scroll_logs(&mut self, down: bool)
        requires
            old(self).wf(),
        ensures
            final(self)@ == scroll(old(self)@, down),
            final(self).wf(),
    {
        if down {
            if self.scroll_offset > 0 {
                self.scroll_offset = self.scroll_offset - 1;
            }
        } else {
            if self.scroll_offset < self.max_log_lines {
                self.scroll_offset = self.scroll_offset + 1;
            } else {
                self.scroll_offset = self.max_log_lines;
            }
        }
    }

    /// Asks, where the highlighted row belongs to a job family, whether to
    /// cancel every job of that family.
    pub fn delete_key(&mut self)
        requires
            old(self).wf(),
        ensures
            final(self)@ == ask_cancel(old(self)@),
            final(self).wf(),
    {
        if let Some(i) = self.selected {
            if i < self.items.len() {
                assert(data_views(self.items@)[i as int] == self.items@[i as int]@);
                if let Some(c) = &self.items[i].controller {
                    let controller = c.clone();
                    self.pending_confirmation = Some(ConfirmAction::CancelJob { controller });
                }
            }
        }
    }

    /// Asks whether to set the local node's farm label to `checkout`.
    pub fn checkout_key(&mut self, checkout: bool)
        requires
            old(self).wf(),
        ensures
            final(self)@ == ask_checkout(old(self)@, checkout),
            final(self).wf(),
    {
        self.pending_confirmation = Some(ConfirmAction::CheckoutNode { schedulable: checkout });
    }

    /// Confirms the pending action: the overlay closes and the action comes
    /// back for the runner to carry out.
    pub fn yes_key(&mut self) -> (r: Effect)
        requires
            old(self).wf(),
        ensures
            (final(self)@, r@) == confirm(old(self)@),
            final(self).wf(),
    {
        let pending = self.pending_confirmation.take();
        match pending {
            Some(ConfirmAction::CancelJob { controller }) => Effect::CancelJobs { controller },
            Some(ConfirmAction::CheckoutNode { schedulable }) => Effect::SetSchedulable {
                schedulable,
            },
            None => Effect::Nothing,
        }
    }

    /// Denies the pending action: the overlay closes and nothing is done.
    pub fn no_key(&mut self)
        requires
            old(self).wf(),
        ensures
            final(self)@ == deny(old(self)@),
            final(self).wf(),
    {
        self.pending_confirmation = None;
    }

    /// Whether an idle tick should fetch the rows anew: only the table
    /// shows them.
    pub fn refresh_due(&self) -> (r: bool)
        ensures
            r == (self@.mode is Table),
    {
        match self.mode {
            Mode::Table => true,
            Mode::Logs { .. } => false,
        }
    }

    /// Takes the outcome of a fetch: its rows on success, `None` on failure.
    pub fn refresh(&mut self, fetched: Option<Vec<Data>>)
        requires
            old(self).wf(),
            fetched matches Some(v) ==> all_wf(v@),
        ensures
            final(self)@ == replace_items(
                old(self)@,
                match fetched {
                    Some(v) => Some(data_views(v@)),
                    None => None,
                },
            ),
            final(self).wf(),
    {
        if let Some(items) = fetched {
            proof {
                lemma_views_wf(items@);
            }
            let n = items.len();
            self.items = items;
            if let Some(i) = self.selected {
                if n > 0 && i >= n {
                    self.selected = Some(n - 1);
                }
            }
        }
    }

    /// Lays the log pane out for a log that takes `total_lines` rows in a
    /// pane of `height` rows, and returns how many rows to scroll past.
    pub fn log_scroll(&mut self, total_lines: u16, height: u16) -> (r: u16)
        requires
            old(self).wf(),
        ensures
            (final(self)@, r) == lay_out_logs(old(self)@, total_lines, height),
            final(self).wf(),
    {
        let m = if total_lines > height {
            total_lines - height
        } else {
            0
        };
        if self.scroll_offset > m {
            self.scroll_offset = m;
        }
        self.max_log_lines = m;
        m - self.scroll_offset
    }

    /// Takes a key press and returns the outside work it asks for.
    pub fn handle_key(&mut self, key: Key, now: Timestamp) -> (r: Effect)
        requires
            old(self).wf(),
            now.wf(),
        ensures
            (final(self)@, r@) == step(old(self)@, key, now),
            final(self).wf(),
    {
        if self.pending_confirmation.is_some() {
            return match key {
                Key::Char('y') => self.yes_key(),
                Key::Char('n') => {
                    self.no_key();
                    Effect::Nothing
                },
                _ => Effect::Nothing,
            };
        }
        match self.mode {
            Mode::Table => match key {
                Key::Char('q') | Key::Esc => Effect::Quit,
                Key::Char('j') | Key::Down => {
                    self.next();
                    Effect::Nothing
                },
                Key::Char('k') | Key::Up => {
                    self.previous();
                    Effect::Nothing
                },
                Key::Char('D') => {
                    self.delete_key();
                    Effect::Nothing
                },
                Key::Char('p') => {
                    self.checkout_key(true);
                    Effect::Nothing
                },
                Key::Char('o') => {
                    self.checkout_key(false);
                    Effect::Nothing
                },
                Key::Enter => self.start_log_mode(now),
                _ => Effect::Nothing,
            },
            Mode::Logs { .. } => match key {
                Key::Char('q') | Key::Esc => self.exit_log_mode(),
                Key::Char('k') | Key::Up => {
                    self.scroll_logs(false);
                    Effect::Nothing
                },
                Key::Char('j') | Key::Down => {
                    self.scroll_logs(true);
                    Effect::Nothing
                },
                _ => Effect::Nothing,
            },
        }
    }
}

} // verus!
