use vault_sync::audit::{
    decode_line, ingest, read_members, translate, translate_record, AuditRecord, Members, Outcome, Verb,
};
use vault_sync::event::ChangeEvent;

fn record(verb: Verb, path: &str, outcome: Outcome, value: &str) -> AuditRecord {
    AuditRecord { verb, path: path.to_string(), outcome, value: value.to_string() }
}

fn members(verb: Option<&str>, path: Option<&str>, outcome: Option<&str>, value: Option<&str>) -> Members {
    Members {
        verb: verb.map(str::to_string),
        path: path.map(str::to_string),
        outcome: outcome.map(str::to_string),
        value: value.map(str::to_string),
    }
}

#[test]
fn successful_write_under_prefix_becomes_put() {
    let r = record(Verb::Write, "secret/app/db", Outcome::Success, "hunter2");
    assert_eq!(
        translate_record(r, "secret/app"),
        Some(ChangeEvent::Put { path: "secret/app/db".to_string(), value: "hunter2".to_string() })
    );
}

#[test]
fn successful_delete_under_prefix_becomes_delete() {
    let r = record(Verb::Delete, "secret/app/db", Outcome::Success, "");
    assert_eq!(
        translate_record(r, "secret/app"),
        Some(ChangeEvent::Delete { path: "secret/app/db".to_string() })
    );
}

#[test]
fn delete_record_drops_its_payload() {
    let r = record(Verb::Delete, "secret/app/db", Outcome::Success, "ignored");
    assert_eq!(
        translate_record(r, "secret/app"),
        Some(ChangeEvent::Delete { path: "secret/app/db".to_string() })
    );
}

#[test]
fn read_and_other_verbs_give_nothing() {
    assert_eq!(translate_record(record(Verb::Read, "secret/app/db", Outcome::Success, ""), "secret/app"), None);
    assert_eq!(translate_record(record(Verb::Other, "secret/app/db", Outcome::Success, ""), "secret/app"), None);
}

#[test]
fn failed_requests_give_nothing() {
    assert_eq!(translate_record(record(Verb::Write, "secret/app/db", Outcome::Error, "v"), "secret/app"), None);
    assert_eq!(translate_record(record(Verb::Delete, "secret/app/db", Outcome::Error, ""), "secret/app"), None);
}

#[test]
fn paths_outside_the_prefix_give_nothing() {
    assert_eq!(translate_record(record(Verb::Write, "secret/other/db", Outcome::Success, "v"), "secret/app"), None);
    assert_eq!(translate_record(record(Verb::Delete, "secret/ap", Outcome::Success, ""), "secret/app"), None);
    assert_eq!(translate_record(record(Verb::Write, "", Outcome::Success, "v"), "secret/app"), None);
}

#[test]
fn siblings_that_begin_like_the_prefix_give_nothing() {
    assert_eq!(translate_record(record(Verb::Write, "secret/app-copy/foo", Outcome::Success, "v"), "secret/app"), None);
    assert_eq!(translate_record(record(Verb::Delete, "secret/application", Outcome::Success, ""), "secret/app"), None);
    assert_eq!(translate_record(record(Verb::Write, "secret/apple/x", Outcome::Success, "v"), "secret/app"), None);
}

#[test]
fn the_prefix_itself_is_not_under_the_prefix() {
    assert_eq!(translate_record(record(Verb::Write, "secret/app", Outcome::Success, "v"), "secret/app"), None);
    assert_eq!(translate_record(record(Verb::Delete, "secret/app/", Outcome::Success, ""), "secret/app"), None);
    assert_eq!(translate_record(record(Verb::Delete, "secret/app/", Outcome::Success, ""), "secret/app/"), None);
}

#[test]
fn a_prefix_may_end_in_a_slash() {
    assert_eq!(
        translate_record(record(Verb::Delete, "secret/app/x", Outcome::Success, ""), "secret/app/"),
        Some(ChangeEvent::Delete { path: "secret/app/x".to_string() })
    );
    assert_eq!(translate_record(record(Verb::Delete, "secret/app-copy/x", Outcome::Success, ""), "secret/app/"), None);
}

#[test]
fn every_path_but_the_empty_one_is_under_the_empty_prefix() {
    assert_eq!(
        translate_record(record(Verb::Delete, "x", Outcome::Success, ""), ""),
        Some(ChangeEvent::Delete { path: "x".to_string() })
    );
    assert_eq!(translate_record(record(Verb::Delete, "", Outcome::Success, ""), ""), None);
}

#[test]
fn every_record_translates_to_at_most_the_matching_event() {
    let verbs = [Verb::Read, Verb::Write, Verb::Delete, Verb::Other];
    let outcomes = [Outcome::Success, Outcome::Error];
    let paths = [
        ("secret/app/a", true),
        ("secret/app/a/b", true),
        ("secret/app//", true),
        ("secret/app", false),
        ("secret/app/", false),
        ("secret/app-copy/a", false),
        ("secret/application", false),
        ("secret/ap", false),
        ("other/secret/app/a", false),
        ("", false),
    ];
    for verb in verbs {
        for outcome in outcomes {
            for (path, inside) in paths {
                let got = translate_record(record(verb, path, outcome, "v"), "secret/app");
                let expected = match (verb, outcome, inside) {
                    (Verb::Write, Outcome::Success, true) => {
                        Some(ChangeEvent::Put { path: path.to_string(), value: "v".to_string() })
                    }
                    (Verb::Delete, Outcome::Success, true) => Some(ChangeEvent::Delete { path: path.to_string() }),
                    _ => None,
                };
                assert_eq!(got, expected);
            }
        }
    }
}

#[test]
fn verbs_are_named() {
    assert_eq!(Verb::named("read"), Verb::Read);
    assert_eq!(Verb::named("write"), Verb::Write);
    assert_eq!(Verb::named("delete"), Verb::Delete);
    assert_eq!(Verb::named("list"), Verb::Other);
    assert_eq!(Verb::named(""), Verb::Other);
    assert_eq!(Verb::named("Write"), Verb::Other);
    assert_eq!(Verb::named("writes"), Verb::Other);
}

#[test]
fn outcomes_are_named() {
    assert_eq!(Outcome::named("success"), Some(Outcome::Success));
    assert_eq!(Outcome::named("error"), Some(Outcome::Error));
    assert_eq!(Outcome::named("ok"), None);
    assert_eq!(Outcome::named(""), None);
}

#[test]
fn members_make_a_record() {
    assert_eq!(
        AuditRecord::from_members(members(Some("write"), Some("secret/app/k"), Some("success"), Some("v"))),
        Some(record(Verb::Write, "secret/app/k", Outcome::Success, "v"))
    );
    assert_eq!(
        AuditRecord::from_members(members(Some("delete"), Some("p"), Some("error"), None)),
        Some(record(Verb::Delete, "p", Outcome::Error, ""))
    );
    assert_eq!(
        AuditRecord::from_members(members(Some("patch"), Some("p"), Some("success"), Some(""))),
        Some(record(Verb::Other, "p", Outcome::Success, ""))
    );
}

#[test]
fn members_with_an_unknown_outcome_make_no_record() {
    assert_eq!(AuditRecord::from_members(members(Some("write"), Some("p"), Some("pending"), Some("v"))), None);
    assert_eq!(AuditRecord::from_members(members(Some("write"), Some("p"), Some(""), Some("v"))), None);
    assert_eq!(AuditRecord::from_members(members(Some("write"), Some("p"), Some("Success"), Some("v"))), None);
}

#[test]
fn members_without_a_required_one_make_no_record() {
    assert_eq!(AuditRecord::from_members(members(None, Some("p"), Some("success"), Some("v"))), None);
    assert_eq!(AuditRecord::from_members(members(Some("write"), None, Some("success"), Some("v"))), None);
    assert_eq!(AuditRecord::from_members(members(Some("write"), Some("p"), None, Some("v"))), None);
    assert_eq!(AuditRecord::from_members(members(None, None, None, None)), None);
}

#[test]
fn read_members_finds_string_members_only() {
    assert_eq!(
        read_members(r#"{"verb": "text", "path": 7, "outcome": {"verb": "inner"}, "value": null}"#),
        Some(members(Some("text"), None, None, None))
    );
    assert_eq!(read_members(r#"{"other": "x"}"#), Some(members(None, None, None, None)));
    assert_eq!(read_members(r#"["verb"]"#), Some(members(None, None, None, None)));
    assert_eq!(read_members(r#""verb""#), Some(members(None, None, None, None)));
    assert_eq!(read_members("42"), Some(members(None, None, None, None)));
    assert_eq!(
        read_members(r#"{"value": "v", "outcome": "o", "path": "p", "verb": "w"}"#),
        Some(members(Some("w"), Some("p"), Some("o"), Some("v")))
    );
}

#[test]
fn read_members_gives_nothing_for_what_is_not_json() {
    assert_eq!(read_members("bad json"), None);
    assert_eq!(read_members(""), None);
    assert_eq!(read_members(r#"{"verb": "write""#), None);
}

#[test]
fn read_members_unescapes() {
    assert_eq!(
        read_members(r#"{"path": "secret\/app/key \"q\""}"#),
        Some(members(None, Some("secret/app/key \"q\""), None, None))
    );
}

#[test]
fn decode_reads_a_full_record() {
    let line = r#"{"verb": "write", "path": "secret/app/k", "outcome": "success", "value": "v1"}"#;
    assert_eq!(decode_line(line), Some(record(Verb::Write, "secret/app/k", Outcome::Success, "v1")));
}

#[test]
fn decode_defaults_the_payload_to_empty() {
    let line = r#"{"verb": "delete", "path": "secret/app/k", "outcome": "error"}"#;
    assert_eq!(decode_line(line), Some(record(Verb::Delete, "secret/app/k", Outcome::Error, "")));
}

#[test]
fn decode_tolerates_unknown_members() {
    let line =
        r#"{"time": "2020-01-01T00:00:00Z", "verb": "read", "path": "p", "outcome": "success", "auth": {"x": [1, 2]}}"#;
    assert_eq!(decode_line(line), Some(record(Verb::Read, "p", Outcome::Success, "")));
}

#[test]
fn decode_keeps_unknown_verbs_as_other() {
    let line = r#"{"verb": "list", "path": "p", "outcome": "success"}"#;
    assert_eq!(decode_line(line), Some(record(Verb::Other, "p", Outcome::Success, "")));
}

#[test]
fn decode_rejects_missing_or_mistyped_required_members() {
    assert_eq!(decode_line(r#"{"path": "p", "outcome": "success"}"#), None);
    assert_eq!(decode_line(r#"{"verb": "write", "outcome": "success"}"#), None);
    assert_eq!(decode_line(r#"{"verb": "write", "path": "p"}"#), None);
    assert_eq!(decode_line(r#"{"verb": 1, "path": "p", "outcome": "success"}"#), None);
    assert_eq!(decode_line(r#"{"verb": "write", "path": ["p"], "outcome": "success"}"#), None);
    assert_eq!(decode_line(r#"{"verb": "write", "path": "p", "outcome": true}"#), None);
    assert_eq!(decode_line(r#"{"verb": "write", "path": "p", "outcome": "maybe"}"#), None);
    assert_eq!(decode_line(r#"["verb", "path", "outcome"]"#), None);
    assert_eq!(decode_line("null"), None);
    assert_eq!(decode_line("42"), None);
    assert_eq!(decode_line("not json"), None);
}

#[test]
fn decode_takes_a_mistyped_payload_as_missing() {
    assert_eq!(
        decode_line(r#"{"verb": "write", "path": "p", "outcome": "success", "value": {"k": "v"}}"#),
        Some(record(Verb::Write, "p", Outcome::Success, ""))
    );
    assert_eq!(
        decode_line(r#"{"verb": "delete", "path": "p", "outcome": "success", "value": 7}"#),
        Some(record(Verb::Delete, "p", Outcome::Success, ""))
    );
}

#[test]
fn delete_with_a_mistyped_payload_still_gives_its_delete() {
    let line = r#"{"verb": "delete", "path": "secret/app/k", "outcome": "success", "value": [1, 2]}"#;
    assert_eq!(translate(line, "secret/app"), Some(ChangeEvent::Delete { path: "secret/app/k".to_string() }));
}

#[test]
fn write_with_a_mistyped_payload_puts_the_empty_payload() {
    let line = r#"{"verb": "write", "path": "secret/app/k", "outcome": "success", "value": null}"#;
    assert_eq!(
        translate(line, "secret/app"),
        Some(ChangeEvent::Put { path: "secret/app/k".to_string(), value: String::new() })
    );
}

#[test]
fn translate_reads_a_line() {
    let line = r#"{"verb": "write", "path": "secret/app/k", "outcome": "success", "value": "v1"}"#;
    assert_eq!(
        translate(line, "secret/app"),
        Some(ChangeEvent::Put { path: "secret/app/k".to_string(), value: "v1".to_string() })
    );
}

#[test]
fn translate_accepts_a_trailing_newline() {
    let line = "{\"verb\": \"delete\", \"path\": \"secret/app/k\", \"outcome\": \"success\"}\n";
    assert_eq!(translate(line, "secret/app"), Some(ChangeEvent::Delete { path: "secret/app/k".to_string() }));
}

#[test]
fn translate_discards_what_is_not_json() {
    assert_eq!(translate("bad json", "secret/app"), None);
    assert_eq!(translate("", "secret/app"), None);
    assert_eq!(translate("{\"verb\": \"write\"", "secret/app"), None);
    assert_eq!(translate("{} trailing", "secret/app"), None);
}

#[test]
fn translate_discards_other_records() {
    assert_eq!(translate(r#"{"verb": "read", "path": "secret/app/k", "outcome": "success"}"#, "secret/app"), None);
    assert_eq!(translate(r#"{"verb": "write", "path": "secret/app/k", "outcome": "error"}"#, "secret/app"), None);
    assert_eq!(translate(r#"{"verb": "write", "path": "elsewhere/k", "outcome": "success"}"#, "secret/app"), None);
    assert_eq!(translate(r#"{"verb": "write", "path": "secret/app/k"}"#, "secret/app"), None);
    assert_eq!(translate(r#"{"verb": "write", "path": "secret/app-copy/foo", "outcome": "success"}"#, "secret/app"), None);
    assert_eq!(translate(r#"{"verb": "delete", "path": "secret/application", "outcome": "success"}"#, "secret/app"), None);
}

#[test]
fn lines_for_siblings_of_the_prefix_push_nothing() {
    let lines = vec![
        r#"{"verb": "write", "path": "secret/app-copy/foo", "outcome": "success"}"#.to_string(),
        r#"{"verb": "delete", "path": "secret/application", "outcome": "success"}"#.to_string(),
    ];
    assert_eq!(ingest(&lines, "secret/app"), Vec::<ChangeEvent>::new());
}

#[test]
fn malformed_line_does_not_end_the_stream() {
    let lines = vec![
        "bad json".to_string(),
        r#"{"verb": "delete", "path": "secret/app/gone", "outcome": "success"}"#.to_string(),
    ];
    let events = ingest(&lines, "secret/app");
    assert_eq!(events, vec![ChangeEvent::Delete { path: "secret/app/gone".to_string() }]);
}

#[test]
fn ingest_keeps_the_order_of_the_lines() {
    let lines = vec![
        r#"{"verb": "write", "path": "secret/app/a", "outcome": "success", "value": "1"}"#.to_string(),
        r#"{"verb": "read", "path": "secret/app/a", "outcome": "success"}"#.to_string(),
        "}{".to_string(),
        r#"{"verb": "delete", "path": "secret/app/a", "outcome": "success"}"#.to_string(),
        r#"{"verb": "write", "path": "secret/app/a", "outcome": "success", "value": "2"}"#.to_string(),
    ];
    let events = ingest(&lines, "secret/app");
    assert_eq!(
        events,
        vec![
            ChangeEvent::Put { path: "secret/app/a".to_string(), value: "1".to_string() },
            ChangeEvent::Delete { path: "secret/app/a".to_string() },
            ChangeEvent::Put { path: "secret/app/a".to_string(), value: "2".to_string() },
        ]
    );
}

#[test]
fn ingest_of_two_runs_is_the_two_results_in_a_row() {
    let first = vec![
        r#"{"verb": "write", "path": "secret/app/a", "outcome": "success", "value": "1"}"#.to_string(),
        "nope".to_string(),
    ];
    let second = vec![r#"{"verb": "delete", "path": "secret/app/b", "outcome": "success"}"#.to_string()];
    let mut both = first.clone();
    both.extend(second.clone());
    let mut expected = ingest(&first, "secret/app");
    expected.extend(ingest(&second, "secret/app"));
    assert_eq!(ingest(&both, "secret/app"), expected);
    assert_eq!(expected.len(), 2);
}

#[test]
fn ingest_of_nothing_is_nothing() {
    assert_eq!(ingest(&Vec::new(), "secret/app"), Vec::<ChangeEvent>::new());
}

#[test]
fn event_path_is_the_source_path() {
    let put = ChangeEvent::Put { path: "secret/app/a".to_string(), value: "1".to_string() };
    let delete = ChangeEvent::Delete { path: "secret/app/b".to_string() };
    assert_eq!(put.path(), "secret/app/a");
    assert_eq!(delete.path(), "secret/app/b");
}
