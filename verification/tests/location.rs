use ssh_alias::failure::Failure;
use ssh_alias::location::{config_location, default_location};

#[test]
fn default_location_is_in_the_home_directory() {
    assert_eq!(default_location("/home/alice"), "/home/alice/.ssh_known_hosts.yml");
}

#[test]
fn default_location_does_not_double_the_separator() {
    assert_eq!(default_location("/home/alice/"), "/home/alice/.ssh_known_hosts.yml");
    assert_eq!(default_location("/"), "/.ssh_known_hosts.yml");
}

#[test]
fn default_location_of_an_empty_home_is_relative() {
    assert_eq!(default_location(""), ".ssh_known_hosts.yml");
}

#[test]
fn default_location_agrees_with_path_joining() {
    for home in ["", "/", "/home/alice", "/home/alice/", "relative/dir", "/h\u{f4}me/jos\u{e9}"] {
        let mut path = std::path::PathBuf::from(home);
        path.push(".ssh_known_hosts.yml");
        assert_eq!(std::path::PathBuf::from(default_location(home)), path);
        assert_eq!(default_location(home), path.to_str().unwrap());
    }
}

#[test]
fn config_location_prefers_the_explicit_path() {
    let with_home = config_location(Some("/etc/hosts.yml".to_string()), Some("/home/alice".to_string()));
    assert_eq!(with_home, Ok("/etc/hosts.yml".to_string()));
    let without_home = config_location(Some("hosts.yml".to_string()), None);
    assert_eq!(without_home, Ok("hosts.yml".to_string()));
}

#[test]
fn config_location_falls_back_to_the_home_directory() {
    let location = config_location(None, Some("/home/alice".to_string()));
    assert_eq!(location, Ok("/home/alice/.ssh_known_hosts.yml".to_string()));
}

#[test]
fn config_location_fails_without_path_and_home() {
    assert_eq!(config_location(None, None), Err(Failure::HomeDirectoryUnresolvable));
}
