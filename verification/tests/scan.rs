use std::collections::HashMap;
use vault_sync::event::ChangeEvent;
use vault_sync::scan::{Probe, Reply, Scan};

fn walk(prefix: &str, folders: &HashMap<&str, Vec<&str>>, secrets: &HashMap<&str, &str>) -> (Vec<ChangeEvent>, Vec<Probe>) {
    let mut scan = Scan::begin(prefix);
    let mut events = Vec::new();
    let mut probes = Vec::new();
    loop {
        let probe = scan.probe();
        probes.push(probe.clone());
        let reply = match &probe {
            Probe::Done => break,
            Probe::List { path } => match folders.get(path.as_str()) {
                Some(names) => Reply::Children(names.iter().map(|n| n.to_string()).collect()),
                None => Reply::Failed,
            },
            Probe::Read { path } => match secrets.get(path.as_str()) {
                Some(value) => Reply::Value(value.to_string()),
                None => Reply::Failed,
            },
        };
        if let Some(event) = scan.advance(reply) {
            events.push(event);
        }
    }
    assert!(scan.finished());
    (events, probes)
}

fn put(path: &str, value: &str) -> ChangeEvent {
    ChangeEvent::Put { path: path.to_string(), value: value.to_string() }
}

#[test]
fn scan_emits_one_put_per_leaf() {
    let mut folders = HashMap::new();
    folders.insert("secret/app", vec!["a", "b/"]);
    folders.insert("secret/app/b/", vec!["c"]);
    let mut secrets = HashMap::new();
    secrets.insert("secret/app/a", "value of a");
    secrets.insert("secret/app/b/c", "value of c");
    let (events, _) = walk("secret/app", &folders, &secrets);
    assert_eq!(events, vec![put("secret/app/a", "value of a"), put("secret/app/b/c", "value of c")]);
}

#[test]
fn scan_asks_in_depth_first_order() {
    let mut folders = HashMap::new();
    folders.insert("secret/app", vec!["b/", "a"]);
    folders.insert("secret/app/b/", vec!["c", "d/"]);
    folders.insert("secret/app/b/d/", vec!["e"]);
    let mut secrets = HashMap::new();
    secrets.insert("secret/app/a", "1");
    secrets.insert("secret/app/b/c", "2");
    secrets.insert("secret/app/b/d/e", "3");
    let (events, probes) = walk("secret/app", &folders, &secrets);
    assert_eq!(events, vec![put("secret/app/b/c", "2"), put("secret/app/b/d/e", "3"), put("secret/app/a", "1")]);
    assert_eq!(
        probes,
        vec![
            Probe::List { path: "secret/app".to_string() },
            Probe::List { path: "secret/app/b/".to_string() },
            Probe::Read { path: "secret/app/b/c".to_string() },
            Probe::List { path: "secret/app/b/d/".to_string() },
            Probe::Read { path: "secret/app/b/d/e".to_string() },
            Probe::Read { path: "secret/app/a".to_string() },
            Probe::Done,
        ]
    );
}

#[test]
fn scan_of_an_empty_tree_emits_nothing() {
    let mut folders = HashMap::new();
    folders.insert("secret/app", vec![]);
    let (events, probes) = walk("secret/app", &folders, &HashMap::new());
    assert!(events.is_empty());
    assert_eq!(probes, vec![Probe::List { path: "secret/app".to_string() }, Probe::Done]);
}

#[test]
fn scan_begins_with_the_prefix() {
    let scan = Scan::begin("secret/app");
    assert!(!scan.finished());
    assert_eq!(scan.probe(), Probe::List { path: "secret/app".to_string() });
    assert_eq!(scan.probe(), Probe::List { path: "secret/app".to_string() });
}

#[test]
fn failed_listing_ends_the_scan() {
    let (events, probes) = walk("secret/app", &HashMap::new(), &HashMap::new());
    assert!(events.is_empty());
    assert_eq!(probes, vec![Probe::List { path: "secret/app".to_string() }, Probe::Done]);
}

#[test]
fn failed_read_ends_the_scan_and_keeps_what_was_emitted() {
    let mut folders = HashMap::new();
    folders.insert("secret/app", vec!["a", "b", "c"]);
    let mut secrets = HashMap::new();
    secrets.insert("secret/app/a", "1");
    secrets.insert("secret/app/c", "3");
    let (events, probes) = walk("secret/app", &folders, &secrets);
    assert_eq!(events, vec![put("secret/app/a", "1")]);
    assert_eq!(probes.last(), Some(&Probe::Done));
    assert_eq!(probes.len(), 4);
}

#[test]
fn an_answer_of_the_wrong_kind_ends_the_scan() {
    let mut scan = Scan::begin("secret/app");
    assert_eq!(scan.advance(Reply::Value("v".to_string())), None);
    assert!(scan.finished());
    let mut scan = Scan::begin("secret/app");
    assert_eq!(scan.advance(Reply::Children(vec!["a".to_string()])), None);
    assert_eq!(scan.probe(), Probe::Read { path: "secret/app/a".to_string() });
    assert_eq!(scan.advance(Reply::Children(vec!["x".to_string()])), None);
    assert!(scan.finished());
}

#[test]
fn a_finished_scan_ignores_answers() {
    let mut scan = Scan::begin("secret/app");
    assert_eq!(scan.advance(Reply::Children(Vec::new())), None);
    assert!(scan.finished());
    assert_eq!(scan.advance(Reply::Value("v".to_string())), None);
    assert_eq!(scan.advance(Reply::Children(vec!["a".to_string()])), None);
    assert_eq!(scan.advance(Reply::Failed), None);
    assert!(scan.finished());
    assert_eq!(scan.probe(), Probe::Done);
}

#[test]
fn scan_never_emits_a_delete() {
    let mut folders = HashMap::new();
    folders.insert("p", vec!["a", "b/", "c"]);
    folders.insert("p/b/", vec![]);
    let mut secrets = HashMap::new();
    secrets.insert("p/a", "1");
    secrets.insert("p/c", "");
    let (events, _) = walk("p", &folders, &secrets);
    assert_eq!(events.len(), 2);
    for event in events {
        assert!(matches!(event, ChangeEvent::Put { .. }));
        assert!(event.path().starts_with("p/"));
    }
}

#[test]
fn two_scans_of_the_same_tree_emit_the_same() {
    let mut folders = HashMap::new();
    folders.insert("secret/app", vec!["a", "b/"]);
    folders.insert("secret/app/b/", vec!["c"]);
    let mut secrets = HashMap::new();
    secrets.insert("secret/app/a", "1");
    secrets.insert("secret/app/b/c", "2");
    let (first, _) = walk("secret/app", &folders, &secrets);
    let (second, _) = walk("secret/app", &folders, &secrets);
    assert_eq!(first.len(), 2);
    assert_eq!(first, second);
}

#[test]
fn empty_names_in_a_listing_are_passed_over() {
    let mut folders = HashMap::new();
    folders.insert("secret/app", vec!["", "a", ""]);
    let mut secrets = HashMap::new();
    secrets.insert("secret/app/a", "1");
    let (events, probes) = walk("secret/app", &folders, &secrets);
    assert_eq!(events, vec![put("secret/app/a", "1")]);
    assert_eq!(
        probes,
        vec![
            Probe::List { path: "secret/app".to_string() },
            Probe::Read { path: "secret/app/a".to_string() },
            Probe::Done,
        ]
    );
}

#[test]
fn every_event_of_a_scan_is_accepted_by_the_queue() {
    let mut folders = HashMap::new();
    folders.insert("secret/app", vec!["a", "b/"]);
    folders.insert("secret/app/b/", vec!["c"]);
    let mut secrets = HashMap::new();
    secrets.insert("secret/app/a", "1");
    secrets.insert("secret/app/b/c", "2");
    let (events, _) = walk("secret/app", &folders, &secrets);
    let mut pipeline = vault_sync::apply::Pipeline::new("secret/app", "dst", false);
    for event in events {
        assert!(pipeline.enqueue(event));
    }
    assert_eq!(pipeline.pending(), 2);
}

