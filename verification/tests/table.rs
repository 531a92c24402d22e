use ssh_alias::registry::Registry;
use ssh_alias::source::{ConfigFile, HostSource};
use ssh_alias::table::{host_table, GAP, MIN_ALIAS_WIDTH, MIN_HOST_WIDTH};

fn registry_of(hosts: Vec<(&str, &str)>) -> Registry {
    let hosts = hosts
        .into_iter()
        .map(|(alias, host)| {
            (
                alias.to_string(),
                HostSource { user_name: Some("user".to_string()), host: Some(host.to_string()), port: None },
            )
        })
        .collect();
    Registry::load(&ConfigFile { hosts: Some(hosts) }).unwrap()
}

#[test]
fn table_widths_have_their_floors() {
    assert_eq!(MIN_ALIAS_WIDTH, 6);
    assert_eq!(MIN_HOST_WIDTH, 9);
    assert_eq!(GAP, 3);
}

#[test]
fn table_of_an_empty_registry_has_headings_and_rule_only() {
    let lines = host_table(&registry_of(vec![]));
    assert_eq!(lines, vec!["Local    Real Host".to_string(), "-".repeat(18)]);
}

#[test]
fn table_of_one_entry() {
    let lines = host_table(&registry_of(vec![("dev", "dev.example.com")]));
    assert_eq!(
        lines,
        vec![
            "Local    Real Host".to_string(),
            "-".repeat(24),
            "dev      dev.example.com".to_string(),
        ]
    );
}

#[test]
fn table_has_one_row_for_each_entry() {
    let hosts = vec![("dev", "dev.example.com"), ("prod", "10.1.2.3"), ("staging-eu", "stage.example.org")];
    let lines = host_table(&registry_of(hosts.clone()));
    assert_eq!(lines.len(), hosts.len() + 2);
    for (i, (alias, host)) in hosts.iter().enumerate() {
        let row = &lines[i + 2];
        assert!(row.starts_with(alias));
        assert!(row.ends_with(host));
        assert_eq!(row, &format!("{:<10}   {}", alias, host));
    }
}

#[test]
fn table_columns_grow_with_the_longest_cell() {
    let lines = host_table(&registry_of(vec![
        ("a", "h"),
        ("a-rather-long-alias", "a-rather-long-host.example.com"),
    ]));
    assert_eq!(lines[0], format!("{:<19}   Real Host", "Local"));
    assert_eq!(lines[1], "-".repeat(19 + 3 + 30));
    assert_eq!(lines[2], format!("{:<19}   h", "a"));
    assert_eq!(lines[3], "a-rather-long-alias   a-rather-long-host.example.com");
}

#[test]
fn table_alias_of_exactly_the_floor_is_not_padded() {
    let lines = host_table(&registry_of(vec![("sixsix", "ninenine9")]));
    assert_eq!(lines[0], "Local    Real Host");
    assert_eq!(lines[1], "-".repeat(18));
    assert_eq!(lines[2], "sixsix   ninenine9");
}

#[test]
fn table_measures_cells_in_bytes_and_fills_in_characters() {
    let lines = host_table(&registry_of(vec![("\u{e9}\u{e9}\u{e9}\u{e9}", "h\u{f4}te"), ("dev", "d")]));
    assert_eq!(lines[0], "Local      Real Host");
    assert_eq!(lines[1], "-".repeat(8 + 3 + 9));
    assert_eq!(lines[2], "\u{e9}\u{e9}\u{e9}\u{e9}       h\u{f4}te");
    assert_eq!(lines[3], "dev        d");
}

#[test]
fn table_is_the_same_on_every_call() {
    let registry = registry_of(vec![("dev", "dev.example.com"), ("prod", "prod.example.com")]);
    assert_eq!(host_table(&registry), host_table(&registry));
}

#[test]
fn table_of_many_entries_leaves_none_out() {
    let names: Vec<String> = (0..200).map(|i| format!("host{}", i)).collect();
    let hosts: Vec<(&str, &str)> = names.iter().map(|n| (n.as_str(), n.as_str())).collect();
    let lines = host_table(&registry_of(hosts));
    assert_eq!(lines.len(), 202);
    for (i, name) in names.iter().enumerate() {
        assert_eq!(lines[i + 2], format!("{:<7}   {}", name, name));
    }
}
