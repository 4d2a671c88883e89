//! What the dashboard shows, as plain values: the cells of a table row, the
//! footer line, the log pane's text and its progress gauge, and the
//! confirmation prompt. Drawing them is the terminal's business.

use vstd::prelude::*;
use crate::controller::ConfirmAction;
use crate::duration::{
    Timestamp,
    format_age,
    format_run_time,
    format_span,
    elapsed_seconds,
    elapsed_text,
    span_text,
    whole_seconds_between,
};
use crate::progress::{eta_seconds, eta_spec, latest_alf_progress, latest_progress, string_views};
use crate::snapshot::{Data, DataView, opt_wf};

verus! {

/// The colour class of a status.
#[derive(Clone, Copy, Debug, PartialEq, Eq, Structural)]
pub enum StatusColor {
    Green,
    Blue,
    DarkGray,
    Red,
    /// The terminal's own colour, for any status not named below.
    Plain,
}

/// Running is green, Pending blue, Succeeded dark grey, Failed and
/// CrashLoopBackoff red; anything else keeps the plain colour.
pub open spec fn status_color_of(status: Seq<char>) -> StatusColor {
    if status == "Running"@ {
        StatusColor::Green
    } else if status == "Pending"@ {
        StatusColor::Blue
    } else if status == "Succeeded"@ {
        StatusColor::DarkGray
    } else if status == "Failed"@ || status == "CrashLoopBackoff"@ {
        StatusColor::Red
    } else {
        StatusColor::Plain
    }
}

/// The colour class of a workload status.
pub fn status_colors(status: &str) -> (r: StatusColor)
    ensures
        r == status_color_of(status@),
{
    let s = String::from_str(status);
    if s == String::from_str("Running") {
        StatusColor::Green
    } else if s == String::from_str("Pending") {
        StatusColor::Blue
    } else if s == String::from_str("Succeeded") {
        StatusColor::DarkGray
    } else if s == String::from_str("Failed") || s == String::from_str("CrashLoopBackoff") {
        StatusColor::Red
    } else {
        StatusColor::Plain
    }
}

/// The age cell: "n/a" without a creation instant, else the span from it to
/// `now`.
pub open spec fn age_text(created: Option<Timestamp>, now: Timestamp) -> Seq<char> {
    match created {
        Some(c) => elapsed_text(c, now),
        None => "n/a"@,
    }
}

/// The run-time cell: "n/a" before the workload started, else the span from
/// its start to its end, or to `now` while it runs.
pub open spec fn run_time_text(
    started: Option<Timestamp>,
    finished: Option<Timestamp>,
    now: Timestamp,
) -> Seq<char> {
    match started {
        Some(s) => elapsed_text(
            s,
            match finished {
                Some(f) => f,
                None => now,
            },
        ),
        None => "n/a"@,
    }
}

/// The cells of a table row: name, status, artist, node, run time, age.
pub open spec fn row_cells(d: DataView, now: Timestamp) -> Seq<Seq<char>> {
    seq![
        d.name,
        d.status,
        d.artist,
        d.node,
        run_time_text(d.started_at, d.finished_at, now),
        age_text(d.created_at, now),
    ]
}

/// The age cell of a workload created at `created`.
pub fn age_cell(created: Option<Timestamp>, now: Timestamp) -> (r: String)
    requires
        opt_wf(created),
        now.wf(),
    ensures
        r@ == age_text(created, now),
{
    match created {
        Some(c) => format_age(&c, &now),
        None => String::from_str("n/a"),
    }
}

/// The run-time cell of a workload.
pub fn run_time_cell(started: Option<Timestamp>, finished: Option<Timestamp>, now: Timestamp) -> (r:
    String)
    requires
        opt_wf(started),
        opt_wf(finished),
        now.wf(),
    ensures
        r@ == run_time_text(started, finished, now),
{
    match started {
        Some(s) => {
            let end = match finished {
                Some(f) => f,
                None => now,
            };
            format_run_time(&s, &end)
        },
        None => String::from_str("n/a"),
    }
}

/// The cells of the table row of `item`.
pub fn table_row(item: &Data, now: Timestamp) -> (r: Vec<String>)
    requires
        item.wf(),
        now.wf(),
    ensures
        string_views(r@) == row_cells(item@, now),
{
    let mut cells: Vec<String> = Vec::new();
    cells.push(item.name.clone());
    cells.push(item.status.clone());
    cells.push(item.artist.clone());
    cells.push(item.node.clone());
    cells.push(run_time_cell(item.started_at, item.finished_at, now));
    cells.push(age_cell(item.created_at, now));
    assert(string_views(cells@) =~= row_cells(item@, now));
    cells
}

/// A span that runs backwards renders "Unknown" both as an age and as a
/// run time, a missing instant renders "n/a", and each text is a function
/// of the instants alone.
pub proof fn lemma_span_cells(
    created: Option<Timestamp>,
    started: Option<Timestamp>,
    finished: Option<Timestamp>,
    now: Timestamp,
)
    ensures
        created is None ==> age_text(created, now) == "n/a"@,
        started is None ==> run_time_text(started, finished, now) == "n/a"@,
        created matches Some(c) && now.total_nanos() < c.total_nanos() ==> age_text(created, now)
            == "Unknown"@,
        started matches Some(s) && finished matches Some(f) && f.total_nanos() < s.total_nanos()
            ==> run_time_text(started, finished, now) == "Unknown"@,
        forall|later: Timestamp|
            finished is Some ==> run_time_text(started, finished, now) == run_time_text(
                started,
                finished,
                later,
            ),
{
}

/// The footer text for what the local node's farm label says: `None` when
/// the node could not be read.
pub open spec fn checkout_text(host: Option<bool>) -> Seq<char> {
    "Your node is "@ + match host {
        Some(false) => "not on the farm. Press (p) to return it to the farm."@,
        Some(true) => "on the farm. Press (o) to check out your node."@,
        None => "not part of the cluster."@,
    }
}

/// The footer line about the local node.
pub fn checkout_status_line(host: Option<bool>) -> (r: String)
    ensures
        r@ == checkout_text(host),
{
    let head = String::from_str("Your node is ");
    match host {
        Some(false) => head.concat("not on the farm. Press (p) to return it to the farm."),
        Some(true) => head.concat("on the farm. Press (o) to check out your node."),
        None => head.concat("not part of the cluster."),
    }
}

/// Lines joined by line breaks.
pub open spec fn joined(lines: Seq<Seq<char>>) -> Seq<char>
    decreases lines.len(),
{
    if lines.len() == 0 {
        Seq::empty()
    } else if lines.len() == 1 {
        lines[0]
    } else {
        joined(lines.drop_last()) + "\n"@ + lines.last()
    }
}

/// The log pane's text: a placeholder while no line has come, else a
/// heading and the lines.
pub open spec fn log_text_of(pod: Seq<char>, logs: Seq<Seq<char>>) -> Seq<char> {
    if logs.len() == 0 {
        "(no data yet)"@
    } else {
        "Start Logs for "@ + pod + "\n"@ + joined(logs)
    }
}

/// The text of the log pane of `pod`.
pub fn log_text(pod: &str, logs: &[String]) -> (r: String)
    ensures
        r@ == log_text_of(pod@, string_views(logs@)),
{
    if logs.len() == 0 {
        return String::from_str("(no data yet)");
    }
    let mut text = String::from_str("Start Logs for ").concat(pod).concat("\n");
    let ghost head = text@;
    text.append(logs[0].as_str());
    let mut i: usize = 1;
    assert(string_views(logs@.subrange(0, 1)) =~= seq![logs@[0]@]);
    while i < logs.len()
        invariant
            1 <= i <= logs@.len(),
            text@ == head + joined(string_views(logs@.subrange(0, i as int))),
        decreases logs@.len() - i,
    {
        let ghost pre = string_views(logs@.subrange(0, i + 1));
        assert(pre.drop_last() =~= string_views(logs@.subrange(0, i as int)));
        assert(pre.last() == logs@[i as int]@);
        text.append("\n");
        text.append(logs[i].as_str());
        assert(text@ =~= head + joined(pre));
        i = i + 1;
    }
    assert(logs@.subrange(0, logs@.len() as int) =~= logs@);
    assert(text@ =~= "Start Logs for "@ + pod@ + "\n"@ + joined(string_views(logs@)));
    text
}

/// The line that stands in the log where its stream failed.
pub fn log_error_line(message: &str) -> (r: String)
    ensures
        r@ == "Log error: "@ + message@,
{
    String::from_str("Log error: ").concat(message)
}

/// The title of the log pane of `pod`.
pub fn log_title(pod: &str) -> (r: String)
    ensures
        r@ == "Logs for "@ + pod@,
{
    String::from_str("Logs for ").concat(pod)
}

/// The progress gauge under the log: the percentage of the last progress
/// line and the estimated time left.
pub struct Gauge {
    pub percent: u16,
    pub eta: String,
}

/// The gauge for a log followed since `start`, at `now`: none while no
/// line reports progress.
pub open spec fn gauge_of(logs: Seq<Seq<char>>, start: Timestamp, now: Timestamp) -> Option<
    (u16, Seq<char>),
> {
    match latest_progress(logs) {
        Some(p) => Some(
            (p, span_text(eta_spec(p as int, whole_seconds_between(start, now)))),
        ),
        None => None,
    }
}

/// The progress gauge of the log pane.
pub fn progress_gauge(logs: &[String], start: &Timestamp, now: &Timestamp) -> (r: Option<Gauge>)
    requires
        start.wf(),
        now.wf(),
    ensures
        match r {
            Some(g) => gauge_of(string_views(logs@), *start, *now) == Some((g.percent, g.eta@)),
            None => gauge_of(string_views(logs@), *start, *now) is None,
        },
{
    match latest_alf_progress(logs) {
        Some(pct) => {
            let elapsed = elapsed_seconds(start, now);
            let eta = eta_seconds(pct, elapsed);
            Some(Gauge { percent: pct, eta: format_span(eta as i64) })
        },
        None => None,
    }
}

/// The question the confirmation overlay asks about `action`.
pub open spec fn prompt_of(action: crate::controller::ActionView) -> Seq<char> {
    match action {
        crate::controller::ActionView::CancelJob { controller } => "Cancel every job of "@
            + controller + "? (y/n)"@,
        crate::controller::ActionView::CheckoutNode { schedulable } => if schedulable {
            "Return your node to the farm? (y/n)"@
        } else {
            "Check out your node from the farm? (y/n)"@
        },
    }
}

/// The question the confirmation overlay asks.
pub fn confirmation_prompt(action: &ConfirmAction) -> (r: String)
    ensures
        r@ == prompt_of(action@),
{
    match action {
        ConfirmAction::CancelJob { controller } => String::from_str("Cancel every job of ").concat(
            controller.as_str(),
        ).concat("? (y/n)"),
        ConfirmAction::CheckoutNode { schedulable } => if *schedulable {
            String::from_str("Return your node to the farm? (y/n)")
        } else {
            String::from_str("Check out your node from the farm? (y/n)")
        },
    }
}

} // verus!
