use farm_monitor::controller::ConfirmAction;
use farm_monitor::duration::Timestamp;
use farm_monitor::presentation::{
    age_cell, checkout_status_line, log_error_line, confirmation_prompt, log_text, log_title, progress_gauge,
    run_time_cell, status_colors, table_row, StatusColor,
};
use farm_monitor::snapshot::Data;

fn at(secs: i64) -> Timestamp {
    Timestamp { secs, nanos: 0 }
}

#[test]
fn status_color_classes() {
    assert_eq!(status_colors("Running"), StatusColor::Green);
    assert_eq!(status_colors("Pending"), StatusColor::Blue);
    assert_eq!(status_colors("Succeeded"), StatusColor::DarkGray);
    assert_eq!(status_colors("Failed"), StatusColor::Red);
    assert_eq!(status_colors("CrashLoopBackoff"), StatusColor::Red);
    assert_eq!(status_colors("Unknown"), StatusColor::Plain);
    assert_eq!(status_colors("running"), StatusColor::Plain);
}

#[test]
fn cells_for_missing_instants_read_na() {
    assert_eq!(age_cell(None, at(10)), "n/a");
    assert_eq!(run_time_cell(None, Some(at(5)), at(10)), "n/a");
}

#[test]
fn run_time_uses_now_while_running() {
    assert_eq!(run_time_cell(Some(at(0)), None, at(90)), "1m 30s");
    assert_eq!(run_time_cell(Some(at(0)), Some(at(30)), at(90)), "30s");
    assert_eq!(run_time_cell(Some(at(60)), Some(at(30)), at(90)), "Unknown");
    assert_eq!(age_cell(Some(at(100)), at(90)), "Unknown");
}

#[test]
fn table_row_cells_in_order() {
    let d = Data {
        name: "pod-a".to_string(),
        status: "Succeeded".to_string(),
        artist: "ana".to_string(),
        node: "node-a".to_string(),
        controller: None,
        started_at: Some(at(100)),
        finished_at: Some(at(160)),
        created_at: Some(at(40)),
    };
    let cells = table_row(&d, at(3_640));
    assert_eq!(cells, vec!["pod-a", "Succeeded", "ana", "node-a", "1m", "1h"]);
}

#[test]
fn checkout_footer_texts() {
    assert_eq!(
        checkout_status_line(Some(true)),
        "Your node is on the farm. Press (o) to check out your node."
    );
    assert_eq!(
        checkout_status_line(Some(false)),
        "Your node is not on the farm. Press (p) to return it to the farm."
    );
    assert_eq!(checkout_status_line(None), "Your node is not part of the cluster.");
}

#[test]
fn log_pane_text() {
    assert_eq!(log_text("pod-a", &[]), "(no data yet)");
    let lines: Vec<String> = vec!["one".to_string(), "two".to_string()];
    assert_eq!(log_text("pod-a", &lines), "Start Logs for pod-a\none\ntwo");
    assert_eq!(log_text("p", &lines[..1]), "Start Logs for p\none");
    assert_eq!(log_title("pod-a"), "Logs for pod-a");
}

#[test]
fn gauge_from_latest_progress() {
    let lines: Vec<String> = vec!["ALF_PROGRESS 20%".to_string(), "ALF_PROGRESS 50%".to_string()];
    let g = progress_gauge(&lines, &at(1_000), &at(1_100)).expect("a gauge");
    assert_eq!(g.percent, 50);
    assert_eq!(g.eta, "1m 40s");
    let done: Vec<String> = vec!["ALF_PROGRESS 100%".to_string()];
    let g = progress_gauge(&done, &at(1_000), &at(1_100)).expect("a gauge");
    assert_eq!(g.percent, 100);
    assert_eq!(g.eta, "0s");
    let plain: Vec<String> = vec!["working".to_string()];
    assert!(progress_gauge(&plain, &at(0), &at(10)).is_none());
}

#[test]
fn gauge_with_start_in_future() {
    let lines: Vec<String> = vec!["ALF_PROGRESS 50%".to_string()];
    let g = progress_gauge(&lines, &at(200), &at(100)).expect("a gauge");
    assert_eq!(g.eta, "Unknown");
}

#[test]
fn confirmation_prompts() {
    let c = ConfirmAction::CancelJob { controller: "17".to_string() };
    assert_eq!(confirmation_prompt(&c), "Cancel every job of 17? (y/n)");
    let p = ConfirmAction::CheckoutNode { schedulable: true };
    assert_eq!(confirmation_prompt(&p), "Return your node to the farm? (y/n)");
    let o = ConfirmAction::CheckoutNode { schedulable: false };
    assert_eq!(confirmation_prompt(&o), "Check out your node from the farm? (y/n)");
}

#[test]
fn log_error_text() {
    assert_eq!(log_error_line("stream closed"), "Log error: stream closed");
}
