use rsvenv::errors::VirtualEnvError;
use rsvenv::virtualenv::utils::{
    activate_script, get_venvs_by_glob, is_virtualenv, is_within, join_path, strip_dir, GlobHit,
};
use std::collections::HashSet;

#[test]
fn test_is_virtualenv_ok() {
    let result = is_virtualenv("/tmp/env", true);
    assert!(result.is_ok());
}

#[test]
fn test_is_virtualenv_error() {
    let result = is_virtualenv("/tmp/env", false);
    assert!(result.is_err());
}

#[test]
fn not_an_environment_names_the_directory() {
    assert_eq!(
        is_virtualenv("/tmp/env", false),
        Err(VirtualEnvError::NotVirtualEnv(String::from("/tmp/env")))
    );
}

#[test]
fn activation_script_lies_in_bin() {
    assert_eq!(activate_script("/base/venvs/envA"), "/base/venvs/envA/bin/activate");
    assert_eq!(activate_script("/base/"), "/base/bin/activate");
}

fn hit(path: &str, is_env: bool) -> GlobHit {
    GlobHit { path: String::from(path), is_env }
}

#[test]
fn test_get_venvs_by_glob() {
    let dir = "/tmp/root";
    let hits = vec![
        hit("/tmp/root/version/v1", true),
        hit("/tmp/root/version/v2", false),
        hit("/tmp/root/version/v3", true),
    ];
    let result: HashSet<String> = get_venvs_by_glob(dir, &hits).into_iter().collect();
    let expected = HashSet::from([String::from("version/v1"), String::from("version/v3")]);
    assert_eq!(result, expected)
}

#[test]
fn globbed_names_appear_once() {
    let hits = vec![hit("/r/a", true), hit("/r/a", true), hit("/other/b", true)];
    assert_eq!(get_venvs_by_glob("/r", &hits), vec![String::from("a")]);
}

#[test]
fn join_follows_path_rules() {
    assert_eq!(join_path("/base", "venvs"), "/base/venvs");
    assert_eq!(join_path("/base/", "venvs"), "/base/venvs");
    assert_eq!(join_path("/base", "/abs"), "/abs");
    assert_eq!(join_path("", "rel"), "rel");
    assert_eq!(join_path("/base", "3.9.0/foo"), "/base/3.9.0/foo");
}

#[test]
fn within_respects_component_boundaries() {
    assert!(is_within("/proj", "/proj"));
    assert!(is_within("/proj/sub", "/proj"));
    assert!(is_within("/proj/sub", "/"));
    assert!(!is_within("/project", "/proj"));
    assert!(!is_within("/other", "/proj"));
    assert!(!is_within("/", "/proj"));
    assert!(is_within("/proj", "/proj/"));
    assert!(is_within("/proj/sub", "/proj/"));
    assert!(!is_within("/pro", "/proj/"));
}

#[test]
fn strip_gives_the_part_below() {
    assert_eq!(strip_dir("/r/a/b", "/r"), Some(String::from("a/b")));
    assert_eq!(strip_dir("/r/a", "/r/"), Some(String::from("a")));
    assert_eq!(strip_dir("/ra", "/r"), None);
    assert_eq!(strip_dir("/r", "/r"), None);
}
