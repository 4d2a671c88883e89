use farm_monitor::cluster::{
    is_managed, jobs_to_cancel, managed_pods, schedulable_from_label, schedulable_label_value,
};
use farm_monitor::duration::Timestamp;
use farm_monitor::snapshot::{controlling_owner, OwnerRef, controller_suffix, pod_finished_at, pod_to_data, pods_to_data, PodRecord};

fn at(secs: i64) -> Timestamp {
    Timestamp { secs, nanos: 0 }
}

fn pod(name: &str, created: Option<Timestamp>) -> PodRecord {
    PodRecord {
        name: name.to_string(),
        phase: Some("Running".to_string()),
        node_name: Some("node-a".to_string()),
        artist: Some("ana".to_string()),
        managed_by: Some("oom-scheduler".to_string()),
        owner: Some("render-shot-17".to_string()),
        start_time: created,
        creation_timestamp: created,
        container_finished_at: Vec::new(),
    }
}

#[test]
fn three_records_sorted_newest_first() {
    let t = 1_700_000_000;
    let pods = vec![pod("absent", None), pod("older", Some(at(t - 10))), pod("newest", Some(at(t)))];
    let names: Vec<String> = pods_to_data(pods).into_iter().map(|d| d.name).collect();
    assert_eq!(names, vec!["newest", "older", "absent"]);
}

#[test]
fn records_without_creation_come_last_in_input_order() {
    let pods = vec![
        pod("a", None),
        pod("b", Some(at(5))),
        pod("c", None),
        pod("d", Some(at(9))),
        pod("e", Some(at(5))),
    ];
    let names: Vec<String> = pods_to_data(pods).into_iter().map(|d| d.name).collect();
    assert_eq!(names, vec!["d", "b", "e", "a", "c"]);
}

#[test]
fn sorting_no_records() {
    assert!(pods_to_data(Vec::new()).is_empty());
}

#[test]
fn missing_fields_get_defaults() {
    let p = PodRecord {
        name: "lonely".to_string(),
        phase: None,
        node_name: None,
        artist: None,
        managed_by: None,
        owner: None,
        start_time: None,
        creation_timestamp: None,
        container_finished_at: vec![None],
    };
    let d = pod_to_data(p);
    assert_eq!(d.name, "lonely");
    assert_eq!(d.status, "Unknown");
    assert_eq!(d.node, "N/A");
    assert_eq!(d.artist, "Unknown");
    assert_eq!(d.controller, None);
    assert_eq!(d.finished_at, None);
}

#[test]
fn controller_key_is_last_part_of_owner() {
    let d = pod_to_data(pod("render-shot-17-abcde", Some(at(1))));
    assert_eq!(d.controller.as_deref(), Some("17"));
    assert_eq!(d.status, "Running");
    assert_eq!(d.artist, "ana");
    assert_eq!(d.node, "node-a");
    assert_eq!(controller_suffix("plain"), "plain");
    assert_eq!(controller_suffix("ends-"), "");
    assert_eq!(controller_suffix(""), "");
}

#[test]
fn finished_at_is_latest_container_end() {
    let mut p = pod("x", None);
    p.container_finished_at = vec![Some(at(30)), None, Some(at(70)), Some(at(50))];
    assert_eq!(pod_finished_at(&p), Some(at(70)));
    p.container_finished_at = vec![None, None];
    assert_eq!(pod_finished_at(&p), None);
}

#[test]
fn only_managed_pods_are_kept() {
    let mut other = pod("other", None);
    other.managed_by = Some("someone-else".to_string());
    let mut unlabelled = pod("unlabelled", None);
    unlabelled.managed_by = None;
    assert!(is_managed(&pod("mine", None)));
    assert!(!is_managed(&other));
    let kept = managed_pods(vec![pod("one", None), other, unlabelled, pod("two", None)]);
    let names: Vec<String> = kept.into_iter().map(|p| p.name).collect();
    assert_eq!(names, vec!["one", "two"]);
}

#[test]
fn farm_label_reads_true_only() {
    assert!(schedulable_from_label(&Some("true".to_string())));
    assert!(!schedulable_from_label(&Some("True".to_string())));
    assert!(!schedulable_from_label(&Some("false".to_string())));
    assert!(!schedulable_from_label(&None));
    assert_eq!(schedulable_label_value(true), "true");
    assert_eq!(schedulable_label_value(false), "false");
}

#[test]
fn cancel_selects_the_whole_family() {
    let jobs: Vec<String> = vec![
        "shot-a-17".to_string(),
        "shot-b-17".to_string(),
        "shot-c-18".to_string(),
        "17".to_string(),
        "x-170".to_string(),
    ];
    assert_eq!(jobs_to_cancel("17", &jobs), vec!["shot-a-17", "shot-b-17", "17"]);
    assert_eq!(jobs_to_cancel("render-18", &jobs), vec!["shot-c-18"]);
    assert!(jobs_to_cancel("99", &jobs).is_empty());
}

fn owner(name: &str, controller: bool) -> OwnerRef {
    OwnerRef { name: name.to_string(), controller }
}

#[test]
fn owner_marked_controller_is_chosen() {
    let owners = vec![owner("replica-1", false), owner("job-shot-9", true), owner("job-x-3", true)];
    assert_eq!(controlling_owner(&owners).as_deref(), Some("job-shot-9"));
    let owners = vec![owner("first-2", false), owner("second-4", false)];
    assert_eq!(controlling_owner(&owners).as_deref(), Some("first-2"));
    assert_eq!(controlling_owner(&Vec::new()), None);
}
