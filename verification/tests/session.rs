use moxapi::config::Config;
use moxapi::dashboard::{get_hosts, HostsStep};
use moxapi::registry::{Host, HostEntry, HostRegistry};
use moxapi::session::{SessionGate, HOME_PATH, LOGIN_PATH, SESSION_KEY};

fn config(password: &str) -> Config {
    let mut hosts = HostRegistry::new();
    hosts.insert("alpha".to_string(), Host { ip: "http://a".to_string(), api_key: "k".to_string() });
    Config { password: password.to_string(), hosts }
}

#[test]
fn the_routes_of_the_session() {
    assert_eq!(LOGIN_PATH, "/login");
    assert_eq!(HOME_PATH, "/");
    assert_eq!(SESSION_KEY, "logged_in");
}

#[test]
fn the_session_flag_counts_only_if_set() {
    assert!(SessionGate::restore(Some(true)).is_logged_in());
    assert!(!SessionGate::restore(Some(false)).is_logged_in());
    assert!(!SessionGate::restore(None).is_logged_in());
}

#[test]
fn only_the_password_sets_the_flag() {
    let config = config("hunter2");
    let mut gate = SessionGate::restore(None);
    assert!(!gate.login(&config, None));
    assert!(!gate.is_logged_in());
    assert!(!gate.login(&config, Some("hunter3")));
    assert!(!gate.is_logged_in());
    assert!(!gate.login(&config, Some("")));
    assert!(!gate.is_logged_in());
    assert!(gate.login(&config, Some("hunter2")));
    assert!(gate.is_logged_in());
}

#[test]
fn a_failed_login_leaves_the_flag_as_it_is() {
    let config = config("hunter2");
    let mut gate = SessionGate::restore(Some(true));
    assert!(!gate.login(&config, Some("nope")));
    assert!(gate.is_logged_in());
    assert!(gate.login(&config, Some("hunter2")));
    assert!(gate.is_logged_in());
}

#[test]
fn the_listing_is_for_sessions_that_are_logged_in() {
    let config = config("hunter2");
    assert_eq!(get_hosts(&SessionGate::restore(None), &config), HostsStep::Redirect("/login"));
    let listed = vec![HostEntry {
        hostname: "alpha".to_string(),
        host: Host { ip: "http://a".to_string(), api_key: "k".to_string() },
    }];
    assert_eq!(get_hosts(&SessionGate::restore(Some(true)), &config), HostsStep::List(&listed));
}
