use docker_ps::container::{
    all_well_formed, build_row, present, present_containers, DisplayRow, RawContainer,
    COMMAND_LIMIT, ID_LIMIT, IMAGE_LIMIT, NAME_LIMIT,
};
use docker_ps::ports::PortMapping;

fn sample() -> RawContainer {
    RawContainer {
        id: "0123456789abcdef0123456789abcdef0123456789abcdef0123456789abcdef".to_string(),
        image: "registry.example.com/team/service@sha256:0123456789abcdef".to_string(),
        names: vec!["/a-rather-long-container-name".to_string(), "/alias".to_string()],
        command: "/usr/local/bin/service --config /etc/service.toml".to_string(),
        created_at: 1_700_000_000,
        status: "Up 3 hours (healthy) and counting, with a long status".to_string(),
        ports: vec![
            PortMapping {
                ip: Some("0.0.0.0".to_string()),
                private_port: Some(80),
                public_port: Some(8080),
                port_type: Some("tcp".to_string()),
            },
            PortMapping {
                ip: None,
                private_port: Some(443),
                public_port: None,
                port_type: Some("tcp".to_string()),
            },
        ],
    }
}

#[test]
fn limits_are_fixed() {
    assert_eq!(ID_LIMIT, 12);
    assert_eq!(IMAGE_LIMIT, 37);
    assert_eq!(NAME_LIMIT, 20);
    assert_eq!(COMMAND_LIMIT, 30);
}

#[test]
fn truncated_row() {
    let row = build_row(&sample(), true, "3 hours ago".to_string());
    let expected = DisplayRow {
        id: "0123456789ab".to_string(),
        image: "registry.example.com/team/service".to_string(),
        name: "/a-rather-long-conta".to_string(),
        command: "/usr/local/bin/service --confi".to_string(),
        created: "3 hours ago".to_string(),
        status: "Up 3 hours (healthy) and counting, with a long status".to_string(),
        ports: "80->8080/tcp, 443/tcp".to_string(),
    };
    assert_eq!(row, expected);
}

#[test]
fn full_row() {
    let raw = sample();
    let row = build_row(&raw, false, "3 hours ago".to_string());
    let expected = DisplayRow {
        id: raw.id.clone(),
        image: raw.image.clone(),
        name: "/a-rather-long-container-name".to_string(),
        command: raw.command.clone(),
        created: "3 hours ago".to_string(),
        status: raw.status.clone(),
        ports: "0.0.0.0:80->8080/tcp, :443->0/tcp".to_string(),
    };
    assert_eq!(row, expected);
}

#[test]
fn created_text_is_never_cut() {
    let long = "a creation time that is much longer than any limit of a column";
    assert_eq!(build_row(&sample(), true, long.to_string()).created, long);
}

#[test]
fn one_container_end_to_end() {
    let raw = RawContainer {
        id: "abc".to_string(),
        image: "img".to_string(),
        names: vec!["/app1".to_string()],
        command: "run".to_string(),
        created_at: 1_700_000_000,
        status: "Up".to_string(),
        ports: vec![],
    };
    let rows = present_containers(&vec![raw], true);
    assert_eq!(rows.len(), 1);
    // The daemon's leading slash is shown as it is.
    assert_eq!(rows[0].name, "/app1");
    assert_eq!(rows[0].ports, "");
    assert!(!rows[0].created.is_empty());
    assert!(rows[0].created.ends_with(" ago"), "{}", rows[0].created);
    assert_eq!(rows[0].id, "abc");
    assert_eq!(rows[0].image, "img");
    assert_eq!(rows[0].command, "run");
    assert_eq!(rows[0].status, "Up");
}

#[test]
fn present_agrees_with_build_row() {
    let raw = sample();
    for truncate in [true, false] {
        let row = present(&raw, truncate);
        assert_eq!(row, build_row(&raw, truncate, row.created.clone()));
    }
}

#[test]
fn unrepresentable_creation_time_is_shown_raw() {
    let mut raw = sample();
    raw.created_at = i64::MAX;
    assert_eq!(present(&raw, true).created, "9223372036854775807");
    assert_eq!(present(&raw, false).created, "9223372036854775807");
}

#[test]
fn empty_list_gives_no_rows() {
    assert!(present_containers(&vec![], true).is_empty());
    assert!(present_containers(&vec![], false).is_empty());
}

#[test]
fn rows_keep_the_daemons_order() {
    let mut first = sample();
    first.id = "first".to_string();
    let mut second = sample();
    second.id = "second".to_string();
    let mut third = sample();
    third.id = "third".to_string();
    let rows = present_containers(&vec![first, second, third], true);
    let ids: Vec<&str> = rows.iter().map(|row| row.id.as_str()).collect();
    assert_eq!(ids, vec!["first", "second", "third"]);
}

#[test]
fn well_formedness_needs_a_name() {
    let mut raw = sample();
    assert!(raw.is_well_formed());
    assert!(all_well_formed(&vec![raw.clone()]));
    assert!(all_well_formed(&vec![]));
    raw.names.clear();
    assert!(!raw.is_well_formed());
    assert!(!all_well_formed(&vec![sample(), raw]));
}
