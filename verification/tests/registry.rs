use ssh_alias::failure::Failure;
use ssh_alias::host::ConfigHost;
use ssh_alias::registry::Registry;
use ssh_alias::source::{ConfigFile, HostSource};
use ssh_alias::table::host_table;

fn source(user: Option<&str>, host: Option<&str>, port: Option<u16>) -> HostSource {
    HostSource { user_name: user.map(str::to_string), host: host.map(str::to_string), port }
}

fn document(hosts: Vec<(&str, HostSource)>) -> ConfigFile {
    ConfigFile { hosts: Some(hosts.into_iter().map(|(alias, host)| (alias.to_string(), host)).collect()) }
}

fn malformed(context: &str) -> Failure {
    Failure::ConfigMalformed { context: context.to_string() }
}

#[test]
fn load_then_get_returns_the_source_fields() {
    let file = document(vec![
        ("dev", source(Some("alice"), Some("dev.example.com"), None)),
        ("prod", source(Some("deploy"), Some("10.1.2.3"), Some(2222))),
        ("Dev", source(Some("carol"), Some("other.example.com"), Some(22))),
    ]);
    let registry = Registry::load(&file).unwrap();
    assert_eq!(registry.len(), 3);
    assert_eq!(
        registry.get(&"dev".to_string()),
        Some(&ConfigHost { user_name: "alice".to_string(), host: "dev.example.com".to_string(), port: 22 })
    );
    assert_eq!(
        registry.get(&"prod".to_string()),
        Some(&ConfigHost { user_name: "deploy".to_string(), host: "10.1.2.3".to_string(), port: 2222 })
    );
    assert_eq!(
        registry.get(&"Dev".to_string()),
        Some(&ConfigHost { user_name: "carol".to_string(), host: "other.example.com".to_string(), port: 22 })
    );
}

#[test]
fn load_defaults_a_missing_port_to_22() {
    let file = document(vec![("dev", source(Some("alice"), Some("dev.example.com"), None))]);
    let registry = Registry::load(&file).unwrap();
    assert_eq!(registry.get(&"dev".to_string()).unwrap().port, 22);
}

#[test]
fn load_keeps_a_given_port() {
    let file = document(vec![
        ("low", source(Some("a"), Some("h"), Some(0))),
        ("high", source(Some("a"), Some("h"), Some(65535))),
    ]);
    let registry = Registry::load(&file).unwrap();
    assert_eq!(registry.get(&"low".to_string()).unwrap().port, 0);
    assert_eq!(registry.get(&"high".to_string()).unwrap().port, 65535);
}

#[test]
fn load_keeps_the_document_order() {
    let file = document(vec![
        ("zeta", source(Some("a"), Some("h1"), None)),
        ("alpha", source(Some("b"), Some("h2"), None)),
    ]);
    let registry = Registry::load(&file).unwrap();
    let lines = host_table(&registry);
    assert_eq!(lines[2], "zeta     h1");
    assert_eq!(lines[3], "alpha    h2");
}

#[test]
fn load_of_an_empty_mapping_gives_an_empty_registry() {
    let registry = Registry::load(&document(vec![])).unwrap();
    assert_eq!(registry.len(), 0);
    assert_eq!(registry.get(&"dev".to_string()), None);
}

#[test]
fn load_fails_without_hosts() {
    let file = ConfigFile { hosts: None };
    assert_eq!(Registry::load(&file).unwrap_err(), malformed("hosts"));
}

#[test]
fn load_fails_on_a_missing_user_name() {
    let file = document(vec![
        ("dev", source(Some("alice"), Some("dev.example.com"), None)),
        ("prod", source(None, Some("prod.example.com"), None)),
    ]);
    assert_eq!(Registry::load(&file).unwrap_err(), malformed("prod"));
}

#[test]
fn load_fails_on_a_missing_host() {
    let file = document(vec![("dev", source(Some("alice"), None, Some(22)))]);
    assert_eq!(Registry::load(&file).unwrap_err(), malformed("dev"));
}

#[test]
fn load_fails_on_an_empty_user_name_or_host() {
    let no_user = document(vec![("dev", source(Some(""), Some("dev.example.com"), None))]);
    assert_eq!(Registry::load(&no_user).unwrap_err(), malformed("dev"));
    let no_host = document(vec![("dev", source(Some("alice"), Some(""), None))]);
    assert_eq!(Registry::load(&no_host).unwrap_err(), malformed("dev"));
}

#[test]
fn load_fails_on_an_empty_alias() {
    let file = document(vec![("", source(Some("alice"), Some("dev.example.com"), None))]);
    assert_eq!(Registry::load(&file).unwrap_err(), malformed(""));
}

#[test]
fn load_fails_on_a_repeated_alias() {
    let file = document(vec![
        ("dev", source(Some("alice"), Some("one.example.com"), None)),
        ("prod", source(Some("bob"), Some("two.example.com"), None)),
        ("dev", source(Some("carol"), Some("three.example.com"), None)),
    ]);
    assert_eq!(Registry::load(&file).unwrap_err(), malformed("dev"));
}

#[test]
fn load_names_the_first_host_that_is_wrong() {
    let file = document(vec![
        ("one", source(Some("a"), Some("h"), None)),
        ("two", source(None, None, None)),
        ("three", source(None, Some("h"), None)),
    ]);
    assert_eq!(Registry::load(&file).unwrap_err(), malformed("two"));
}

#[test]
fn get_of_an_unknown_alias_is_none() {
    let file = document(vec![("dev", source(Some("alice"), Some("dev.example.com"), None))]);
    let registry = Registry::load(&file).unwrap();
    assert_eq!(registry.get(&"prod".to_string()), None);
    assert_eq!(registry.get(&"".to_string()), None);
    assert_eq!(registry.get(&"de".to_string()), None);
    assert_eq!(registry.get(&"dev ".to_string()), None);
}

#[test]
fn get_is_case_sensitive() {
    let file = document(vec![("dev", source(Some("alice"), Some("dev.example.com"), None))]);
    let registry = Registry::load(&file).unwrap();
    assert_eq!(registry.get(&"DEV".to_string()), None);
    assert_eq!(registry.get(&"Dev".to_string()), None);
    assert!(registry.get(&"dev".to_string()).is_some());
}
