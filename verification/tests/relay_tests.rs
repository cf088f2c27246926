use onionoo::relay::{entry_nodes, exit_nodes, Relay};

fn relay_with_flags(nickname: &str, flags: Vec<&str>) -> Relay {
    Relay {
        measured: true,
        recommended_version: true,
        as_name: None,
        AS: None,
        city_name: None,
        country: None,
        country_name: None,
        region_name: None,
        running: true,
        platform: "Tor 0.4.8.12 on Linux".to_string(),
        version: "0.4.8.12".to_string(),
        fingerprint: format!("FP{}", nickname),
        exit_policy: vec!["reject *:*".to_string()],
        exit_policy_summary: vec![("reject".to_string(), vec!["1-65535".to_string()])],
        nickname: nickname.to_string(),
        flags: flags.into_iter().map(|s| s.to_string()).collect(),
        or_addresses: vec!["10.0.0.1:9001".to_string()],
    }
}

#[test]
fn is_entry_true_iff_guard_present() {
    assert!(relay_with_flags("a", vec!["Guard"]).is_entry());
    assert!(relay_with_flags("b", vec!["Running", "Guard", "Fast"]).is_entry());
    assert!(!relay_with_flags("c", vec!["Running", "Fast"]).is_entry());
    assert!(!relay_with_flags("d", vec![]).is_entry());
}

#[test]
fn is_exit_true_iff_exit_present() {
    assert!(relay_with_flags("a", vec!["Exit"]).is_exit());
    assert!(relay_with_flags("b", vec!["Running", "Exit"]).is_exit());
    assert!(!relay_with_flags("c", vec!["Running", "Guard"]).is_exit());
    assert!(!relay_with_flags("d", vec![]).is_exit());
}

#[test]
fn flag_match_is_case_sensitive_and_exact() {
    assert!(!relay_with_flags("a", vec!["guard"]).is_entry());
    assert!(!relay_with_flags("b", vec!["GUARD"]).is_entry());
    assert!(!relay_with_flags("c", vec!["Guardian"]).is_entry());
    assert!(!relay_with_flags("d", vec!["exit"]).is_exit());
    assert!(!relay_with_flags("e", vec!["Exits"]).is_exit());
}

#[test]
fn guard_and_exit_can_hold_together() {
    let r = relay_with_flags("both", vec!["Guard", "Exit", "Running"]);
    assert!(r.is_entry());
    assert!(r.is_exit());
}

#[test]
fn or_address_is_first_element() {
    let mut r = relay_with_flags("a", vec!["Running"]);
    r.or_addresses = vec!["10.0.0.1:9001".to_string(), "10.0.0.1:9002".to_string()];
    assert_eq!(r.or_address(), Some("10.0.0.1:9001".to_string()));
}

#[test]
fn or_address_absent_on_empty_list() {
    let mut r = relay_with_flags("a", vec!["Running"]);
    r.or_addresses = vec![];
    assert_eq!(r.or_address(), None);
}

#[test]
fn entry_nodes_keeps_exactly_the_guards_in_order() {
    let nodes = vec![
        relay_with_flags("a", vec!["Guard"]),
        relay_with_flags("b", vec!["Exit"]),
        relay_with_flags("c", vec!["Guard", "Exit"]),
        relay_with_flags("d", vec!["Running"]),
        relay_with_flags("e", vec!["Guard", "Running"]),
    ];
    let entries = entry_nodes(nodes);
    let names: Vec<&str> = entries.iter().map(|r| r.nickname.as_str()).collect();
    assert_eq!(names, vec!["a", "c", "e"]);
    assert!(entries.iter().all(|r| r.is_entry()));
}

#[test]
fn exit_nodes_keeps_exactly_the_exits_in_order() {
    let nodes = vec![
        relay_with_flags("a", vec!["Guard"]),
        relay_with_flags("b", vec!["Exit"]),
        relay_with_flags("c", vec!["Guard", "Exit"]),
        relay_with_flags("d", vec!["Running"]),
    ];
    let exits = exit_nodes(nodes);
    let names: Vec<&str> = exits.iter().map(|r| r.nickname.as_str()).collect();
    assert_eq!(names, vec!["b", "c"]);
    assert!(exits.iter().all(|r| r.is_exit()));
}

#[test]
fn empty_filter_result_is_a_valid_success() {
    let nodes = vec![
        relay_with_flags("a", vec!["Running"]),
        relay_with_flags("b", vec!["Fast"]),
    ];
    assert_eq!(entry_nodes(nodes).len(), 0);
    assert_eq!(exit_nodes(vec![]).len(), 0);
}
