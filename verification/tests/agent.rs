use scylla::agent::{loaded_or_empty, record_of, records_of, AgentRecord, AgentRow};

fn some(s: &str) -> Option<String> {
    Some(s.to_string())
}

fn full_row(id: &str) -> AgentRow {
    AgentRow {
        id: some(id),
        hostname: some("host"),
        ip: some("10.0.0.1"),
        os: some("linux"),
        status: some("online"),
        last_seen: some("now"),
        location: some("lab"),
        note: some("n"),
    }
}

#[test]
fn complete_row_becomes_a_record() {
    let rec = record_of(&full_row("a1"));
    assert_eq!(
        rec,
        Some(AgentRecord {
            id: "a1".to_string(),
            hostname: "host".to_string(),
            ip: "10.0.0.1".to_string(),
            os: some("linux"),
            status: "online".to_string(),
            last_seen: some("now"),
            location: some("lab"),
            note: some("n"),
        })
    );
}

#[test]
fn missing_optional_columns_stay_missing() {
    let row = AgentRow { os: None, last_seen: None, location: None, note: None, ..full_row("a2") };
    let rec = record_of(&row).unwrap();
    assert_eq!(rec.id, "a2");
    assert_eq!(rec.os, None);
    assert_eq!(rec.last_seen, None);
    assert_eq!(rec.location, None);
    assert_eq!(rec.note, None);
}

#[test]
fn row_without_a_required_column_gives_no_record() {
    assert_eq!(record_of(&AgentRow { id: None, ..full_row("x") }), None);
    assert_eq!(record_of(&AgentRow { hostname: None, ..full_row("x") }), None);
    assert_eq!(record_of(&AgentRow { ip: None, ..full_row("x") }), None);
    assert_eq!(record_of(&AgentRow { status: None, ..full_row("x") }), None);
}

#[test]
fn incomplete_rows_are_dropped_and_order_is_kept() {
    let rows = vec![
        full_row("a"),
        AgentRow { ip: None, ..full_row("b") },
        full_row("c"),
        AgentRow { id: None, ..full_row("d") },
        AgentRow { note: None, ..full_row("e") },
    ];
    let ids: Vec<String> = records_of(&rows).into_iter().map(|r| r.id).collect();
    assert_eq!(ids, vec!["a".to_string(), "c".to_string(), "e".to_string()]);
}

#[test]
fn no_rows_give_no_records() {
    assert_eq!(records_of(&Vec::new()), Vec::new());
}

#[test]
fn failed_store_gives_an_empty_list() {
    assert_eq!(loaded_or_empty(None), Vec::new());
    let agents = records_of(&vec![full_row("a")]);
    assert_eq!(loaded_or_empty(Some(agents.clone())), agents);
}
