use moxapi::action::Action;
use moxapi::idle::IdleError;
use moxapi::node::{accept, authorized, idle_reply, shared_secret, NodeRoute};
use moxapi::request::{Method, TextReply, UNAUTHORIZED};

#[test]
fn a_node_takes_these_requests() {
    assert_eq!(NodeRoute::find(Method::Get, "/status"), Some(NodeRoute::Status));
    assert_eq!(NodeRoute::find(Method::Post, "/idle/lock"), Some(NodeRoute::Lock));
    assert_eq!(NodeRoute::find(Method::Post, "/idle/unlock"), Some(NodeRoute::Unlock));
    assert_eq!(
        NodeRoute::find(Method::Post, "/idle/simulate_user_activity"),
        Some(NodeRoute::SimulateUserActivity)
    );
    assert_eq!(NodeRoute::find(Method::Post, "/idle/inhibit"), Some(NodeRoute::Inhibit));
    assert_eq!(NodeRoute::find(Method::Post, "/idle/uninhibit"), Some(NodeRoute::Uninhibit));
    assert_eq!(NodeRoute::find(Method::Get, "/notify/capabilities"), Some(NodeRoute::Capabilities));
    assert_eq!(NodeRoute::find(Method::Post, "/notify"), Some(NodeRoute::Notify));
}

#[test]
fn a_node_takes_no_other_requests() {
    assert_eq!(NodeRoute::find(Method::Post, "/status"), None);
    assert_eq!(NodeRoute::find(Method::Get, "/idle/lock"), None);
    assert_eq!(NodeRoute::find(Method::Get, "/notify"), None);
    assert_eq!(NodeRoute::find(Method::Post, "/notify/capabilities"), None);
    assert_eq!(NodeRoute::find(Method::Post, "/idle/reboot"), None);
    assert_eq!(NodeRoute::find(Method::Get, "/"), None);
    assert_eq!(NodeRoute::find(Method::Get, ""), None);
    assert_eq!(NodeRoute::find(Method::Get, "/status/"), None);
}

#[test]
fn the_dashboard_calls_what_a_node_takes() {
    let routes = [
        (Action::Lock, NodeRoute::Lock),
        (Action::Unlock, NodeRoute::Unlock),
        (Action::SimulateActivity, NodeRoute::SimulateUserActivity),
        (Action::Inhibit, NodeRoute::Inhibit),
        (Action::Uninhibit, NodeRoute::Uninhibit),
    ];
    for (action, route) in routes {
        assert_eq!(NodeRoute::find(Method::Post, action.endpoint()), Some(route));
    }
}

#[test]
fn only_the_secret_itself_is_admitted() {
    assert_eq!(UNAUTHORIZED, 401);
    assert!(authorized("s3cret", Some("s3cret")));
    assert!(!authorized("s3cret", None));
    assert!(!authorized("s3cret", Some("")));
    assert!(!authorized("s3cret", Some("Bearer s3cret")));
    assert!(!authorized("s3cret", Some("s3cret ")));
    assert!(!authorized("s3cret", Some("S3CRET")));
    assert!(!authorized("s3cret", Some("s3cre")));
    assert!(authorized("", Some("")));
    assert!(!authorized("", None));
}

#[test]
fn the_secret_file_comes_before_the_environment() {
    assert_eq!(shared_secret(Some("from-file\n"), Some("from-env")), Some("from-file".to_string()));
    assert_eq!(shared_secret(Some("  from-file  "), None), Some("from-file".to_string()));
    assert_eq!(shared_secret(None, Some(" from-env ")), Some(" from-env ".to_string()));
    assert_eq!(shared_secret(None, None), None);
    assert_eq!(shared_secret(Some(""), Some("from-env")), Some(String::new()));
}

#[test]
fn the_answers_of_a_node() {
    assert_eq!(idle_reply(&Ok(())), TextReply { status: 200, body: String::new() });
    assert_eq!(
        idle_reply(&Err(IdleError::Service("bus closed".to_string()))),
        TextReply { status: 500, body: "bus closed".to_string() }
    );
    assert_eq!(
        idle_reply(&Err(IdleError::AlreadyInhibited)),
        TextReply { status: 409, body: "Already inhibited".to_string() }
    );
    assert_eq!(
        idle_reply(&Err(IdleError::NotInhibited)),
        TextReply { status: 409, body: "Not inhibited".to_string() }
    );
}

#[test]
fn a_request_without_the_secret_is_unauthorized() {
    assert_eq!(accept("s3cret", None, "GET", "/status"), Err(401));
    assert_eq!(accept("s3cret", Some("wrong"), "POST", "/idle/lock"), Err(401));
    assert_eq!(accept("s3cret", Some("Bearer s3cret"), "GET", "/status"), Err(401));
    assert_eq!(accept("s3cret", None, "GET", "/nowhere"), Err(401));
    assert_eq!(accept("s3cret", Some("wrong"), "DELETE", "/status"), Err(401));
}

#[test]
fn an_admitted_request_is_routed() {
    assert_eq!(accept("s3cret", Some("s3cret"), "GET", "/status"), Ok(NodeRoute::Status));
    assert_eq!(accept("s3cret", Some("s3cret"), "POST", "/idle/inhibit"), Ok(NodeRoute::Inhibit));
    assert_eq!(accept("s3cret", Some("s3cret"), "POST", "/notify"), Ok(NodeRoute::Notify));
    assert_eq!(accept("s3cret", Some("s3cret"), "POST", "/status"), Err(404));
    assert_eq!(accept("s3cret", Some("s3cret"), "get", "/status"), Err(404));
    assert_eq!(accept("s3cret", Some("s3cret"), "PUT", "/idle/lock"), Err(404));
    assert_eq!(accept("s3cret", Some("s3cret"), "GET", "/idle/reboot"), Err(404));
}

#[test]
fn the_methods_of_a_node() {
    assert_eq!(Method::parse("GET"), Some(Method::Get));
    assert_eq!(Method::parse("POST"), Some(Method::Post));
    assert_eq!(Method::parse("post"), None);
    assert_eq!(Method::parse("HEAD"), None);
    assert_eq!(Method::parse(""), None);
}
