use moxapi::action::Action;
use moxapi::config::{Config, ConfigError, Document, HostDocument, Secret, SecretFile};
use moxapi::dashboard::{
    dashboard, dashboard_page, get_status, get_status_reply, host_action, host_action_reply, index,
    index_page, login_form, login_post, reload_config, reload_config_reply, ActionStep,
    DashboardTemplate, HostStep, IndexStep, LoginStep, LoginTemplate, ReloadStep,
};
use moxapi::registry::{Host, HostRegistry};
use moxapi::request::{CallOutcome, Method, NodeRequest, TextReply};
use moxapi::session::SessionGate;
use moxapi::status::{HostWithStatus, NodeStatus, PollOutcome, StatusRequest};

fn config() -> Config {
    let mut hosts = HostRegistry::new();
    hosts.insert(
        "alpha".to_string(),
        Host { ip: "http://10.0.0.1:8080".to_string(), api_key: "a-key".to_string() },
    );
    hosts.insert(
        "beta".to_string(),
        Host { ip: "http://10.0.0.2:8080".to_string(), api_key: "b-key".to_string() },
    );
    Config { password: "hunter2".to_string(), hosts }
}

fn logged_in() -> SessionGate {
    SessionGate::restore(Some(true))
}

fn logged_out() -> SessionGate {
    SessionGate::restore(None)
}

fn question(hostname: &str, ip: &str, key: &str) -> StatusRequest {
    StatusRequest {
        hostname: hostname.to_string(),
        ip: ip.to_string(),
        request: NodeRequest {
            method: Method::Get,
            url: format!("{ip}/status"),
            authorization: key.to_string(),
            timeout_secs: 1,
        },
    }
}

fn seen(active: bool, active_time: u32) -> PollOutcome {
    PollOutcome::Status(NodeStatus { active, active_time, inhibited: false })
}

fn text(status: u16, body: &str) -> TextReply {
    TextReply { status, body: body.to_string() }
}

#[test]
fn index_sends_a_stranger_to_the_login() {
    assert_eq!(index(&logged_out(), &config()), IndexStep::Redirect("/login"));
    assert_eq!(index(&SessionGate::restore(Some(false)), &config()), IndexStep::Redirect("/login"));
}

#[test]
fn index_asks_every_host() {
    assert_eq!(
        index(&logged_in(), &config()),
        IndexStep::Poll(vec![
            question("alpha", "http://10.0.0.1:8080", "a-key"),
            question("beta", "http://10.0.0.2:8080", "b-key"),
        ])
    );
    assert_eq!(index(&logged_in(), &Config::default()), IndexStep::Poll(vec![]));
}

#[test]
fn index_page_has_a_line_for_each_host() {
    let requests = match index(&logged_in(), &config()) {
        IndexStep::Poll(requests) => requests,
        other => panic!("no poll: {other:?}"),
    };
    let page = index_page(&requests, &vec![PollOutcome::Unreachable, seen(true, 600)]);
    assert_eq!(
        page.hosts,
        vec![
            HostWithStatus {
                hostname: "alpha".to_string(),
                ip: "http://10.0.0.1:8080".to_string(),
                status: "offline".to_string(),
            },
            HostWithStatus {
                hostname: "beta".to_string(),
                ip: "http://10.0.0.2:8080".to_string(),
                status: "idle".to_string(),
            },
        ]
    );
}

#[test]
fn dashboard_of_a_host() {
    assert_eq!(dashboard(&logged_out(), &config(), "alpha"), HostStep::Redirect("/login"));
    assert_eq!(dashboard(&logged_out(), &config(), "ghost"), HostStep::Redirect("/login"));
    assert_eq!(
        dashboard(&logged_in(), &config(), "ghost"),
        HostStep::Refused(text(404, "Host not found"))
    );
    assert_eq!(
        dashboard(&logged_in(), &config(), "beta"),
        HostStep::Poll(question("beta", "http://10.0.0.2:8080", "b-key"))
    );
}

#[test]
fn dashboard_page_of_a_host_that_gave_no_status() {
    let request = question("alpha", "http://10.0.0.1:8080", "a-key");
    let offline = DashboardTemplate {
        hostname: "alpha".to_string(),
        ip: "http://10.0.0.1:8080".to_string(),
        status: "offline",
        last_seen: "now".to_string(),
    };
    assert_eq!(dashboard_page(&request, &PollOutcome::Unreachable), offline);
    assert_eq!(dashboard_page(&request, &PollOutcome::Undecodable), offline);
    assert_eq!(DashboardTemplate::offline("alpha", "http://10.0.0.1:8080"), offline);
}

#[test]
fn dashboard_page_tells_how_long_ago() {
    let request = question("alpha", "http://10.0.0.1:8080", "a-key");
    let cases = [
        (0, "now ago"),
        (10, "now ago"),
        (11, "11 seconds ago"),
        (45, "45 seconds ago"),
        (46, "a minute ago"),
        (90, "a minute ago"),
        (91, "2 minutes ago"),
        (600, "10 minutes ago"),
        (2700, "45 minutes ago"),
        (2701, "an hour ago"),
        (7200, "2 hours ago"),
        (86400, "a day ago"),
        (u32::MAX, "136 years ago"),
    ];
    for (active_time, last_seen) in cases {
        let page = dashboard_page(&request, &seen(false, active_time));
        assert_eq!(page.last_seen, last_seen, "after {active_time} s");
        assert_eq!(page.status, "online");
        assert_eq!(page.hostname, "alpha");
        assert_eq!(page.ip, "http://10.0.0.1:8080");
    }
    assert_eq!(dashboard_page(&request, &seen(true, 600)).status, "idle");
    assert_eq!(dashboard_page(&request, &seen(true, 600)).last_seen, "10 minutes ago");
}

#[test]
fn dashboard_page_of_a_host_that_was_reached() {
    let status = NodeStatus { active: true, active_time: 5, inhibited: true };
    assert_eq!(
        DashboardTemplate::reached("beta", "http://b", status, "a while ago".to_string()),
        DashboardTemplate {
            hostname: "beta".to_string(),
            ip: "http://b".to_string(),
            status: "idle",
            last_seen: "a while ago".to_string(),
        }
    );
}

#[test]
fn get_status_of_a_host() {
    assert_eq!(get_status(&logged_out(), &config(), "alpha"), HostStep::Redirect("/login"));
    assert_eq!(
        get_status(&logged_in(), &config(), "ghost"),
        HostStep::Refused(text(404, "Host not found"))
    );
    assert_eq!(
        get_status(&logged_in(), &config(), "alpha"),
        HostStep::Poll(question("alpha", "http://10.0.0.1:8080", "a-key"))
    );
}

#[test]
fn get_status_reply_hands_the_status_on() {
    let status = NodeStatus { active: true, active_time: 77, inhibited: true };
    assert_eq!(get_status_reply(&PollOutcome::Status(status)), Ok(status));
    assert_eq!(
        get_status_reply(&PollOutcome::Undecodable),
        Ok(NodeStatus { active: false, active_time: 0, inhibited: false })
    );
    assert_eq!(
        get_status_reply(&PollOutcome::Unreachable),
        Err(text(500, "Failed to get status"))
    );
}

#[test]
fn an_unknown_action_is_refused_without_a_call() {
    assert_eq!(
        host_action(&logged_in(), &config(), "alpha", "reboot"),
        ActionStep::Refused(text(400, "Unknown action"))
    );
    assert_eq!(
        host_action(&logged_in(), &config(), "beta", ""),
        ActionStep::Refused(text(400, "Unknown action"))
    );
}

#[test]
fn an_unknown_host_is_refused_without_a_call() {
    for action in ["lock", "unlock", "simulate-activity", "inhibit", "uninhibit"] {
        assert_eq!(
            host_action(&logged_in(), &config(), "ghost", action),
            ActionStep::Refused(text(404, "Host not found"))
        );
    }
    assert_eq!(
        host_action(&logged_in(), &config(), "ghost", "reboot"),
        ActionStep::Refused(text(404, "Host not found"))
    );
}

#[test]
fn an_action_of_a_stranger_is_sent_to_the_login() {
    assert_eq!(host_action(&logged_out(), &config(), "alpha", "lock"), ActionStep::Redirect("/login"));
    assert_eq!(host_action(&logged_out(), &config(), "ghost", "reboot"), ActionStep::Redirect("/login"));
}

#[test]
fn every_action_has_its_call() {
    let calls = [
        ("lock", Action::Lock, "/idle/lock"),
        ("unlock", Action::Unlock, "/idle/unlock"),
        ("simulate-activity", Action::SimulateActivity, "/idle/simulate_user_activity"),
        ("inhibit", Action::Inhibit, "/idle/inhibit"),
        ("uninhibit", Action::Uninhibit, "/idle/uninhibit"),
    ];
    for (name, action, path) in calls {
        assert_eq!(
            host_action(&logged_in(), &config(), "beta", name),
            ActionStep::Call {
                action,
                request: NodeRequest {
                    method: Method::Post,
                    url: format!("http://10.0.0.2:8080{path}"),
                    authorization: "b-key".to_string(),
                    timeout_secs: 1,
                },
            }
        );
    }
}

#[test]
fn a_status_of_success_is_acknowledged() {
    for code in [200, 204, 299] {
        assert_eq!(
            host_action_reply(Action::Lock, &CallOutcome::Responded(code)),
            text(200, "lock command sent successfully!")
        );
    }
    assert_eq!(
        host_action_reply(Action::SimulateActivity, &CallOutcome::Responded(200)),
        text(200, "simulate-activity command sent successfully!")
    );
}

#[test]
fn another_status_is_reported_with_its_line() {
    assert_eq!(
        host_action_reply(Action::Lock, &CallOutcome::Responded(404)),
        text(500, "Failed to send lock command. Status: 404 Not Found")
    );
    assert_eq!(
        host_action_reply(Action::Inhibit, &CallOutcome::Responded(409)),
        text(500, "Failed to send inhibit command. Status: 409 Conflict")
    );
    assert_eq!(
        host_action_reply(Action::Unlock, &CallOutcome::Responded(401)),
        text(500, "Failed to send unlock command. Status: 401 Unauthorized")
    );
    assert_eq!(
        host_action_reply(Action::Uninhibit, &CallOutcome::Responded(500)),
        text(500, "Failed to send uninhibit command. Status: 500 Internal Server Error")
    );
    assert_eq!(
        host_action_reply(Action::Lock, &CallOutcome::Responded(300)),
        text(500, "Failed to send lock command. Status: 300 Multiple Choices")
    );
    assert_eq!(
        host_action_reply(Action::Lock, &CallOutcome::Responded(199)),
        text(500, "Failed to send lock command. Status: 199 <unknown status code>")
    );
}

#[test]
fn a_code_that_is_no_status_is_left_out() {
    for code in [0, 99, 1000, u16::MAX] {
        assert_eq!(
            host_action_reply(Action::Lock, &CallOutcome::Responded(code)),
            text(500, "Failed to send lock command.")
        );
    }
    assert_eq!(
        TextReply::action_refused(Action::Lock, None),
        text(500, "Failed to send lock command.")
    );
    assert_eq!(
        TextReply::action_refused(Action::Lock, Some("418 I'm a teapot".to_string())),
        text(500, "Failed to send lock command. Status: 418 I'm a teapot")
    );
}

#[test]
fn a_call_that_failed_is_reported_with_its_reason() {
    assert_eq!(
        host_action_reply(Action::Unlock, &CallOutcome::Failed("Timeout while waiting for response".to_string())),
        text(500, "Failed to send unlock command: Timeout while waiting for response")
    );
    assert_eq!(
        host_action_reply(Action::Lock, &CallOutcome::Failed(String::new())),
        text(500, "Failed to send lock command: ")
    );
}

#[test]
fn the_login_form_is_shown_plain() {
    assert_eq!(login_form(), LoginTemplate { incorrect: false });
}

#[test]
fn the_right_password_opens_the_view() {
    let config = config();
    let mut gate = logged_out();
    assert_eq!(login_post(&mut gate, &config, Some("hunter2")), LoginStep::Redirect("/"));
    assert!(gate.is_logged_in());
    assert!(matches!(index(&gate, &config), IndexStep::Poll(_)));
}

#[test]
fn a_wrong_password_shows_the_form_again() {
    let config = config();
    let mut gate = logged_out();
    for submitted in [Some("hunter"), Some("hunter2 "), Some(""), Some("HUNTER2"), None] {
        assert_eq!(
            login_post(&mut gate, &config, submitted),
            LoginStep::Form(LoginTemplate { incorrect: true })
        );
        assert!(!gate.is_logged_in());
        assert_eq!(index(&gate, &config), IndexStep::Redirect("/login"));
    }
}

#[test]
fn a_wrong_password_does_not_close_an_open_session() {
    let config = config();
    let mut gate = logged_in();
    assert_eq!(
        login_post(&mut gate, &config, Some("wrong")),
        LoginStep::Form(LoginTemplate { incorrect: true })
    );
    assert!(gate.is_logged_in());
}

#[test]
fn an_unset_password_is_the_empty_password() {
    let config = Config::default();
    let mut gate = logged_out();
    assert_eq!(
        login_post(&mut gate, &config, None),
        LoginStep::Form(LoginTemplate { incorrect: true })
    );
    assert_eq!(login_post(&mut gate, &config, Some("")), LoginStep::Redirect("/"));
    assert!(gate.is_logged_in());
}

#[test]
fn reload_of_a_stranger_reads_nothing() {
    assert_eq!(reload_config(&logged_out()), ReloadStep::Redirect("/login"));
    assert_eq!(reload_config(&logged_in()), ReloadStep::Load);
}

#[test]
fn reload_from_a_document_that_is_none_changes_nothing() {
    let mut current = config();
    let reply = reload_config_reply(
        &mut current,
        Err(ConfigError::Malformed("did not find expected key at line 2".to_string())),
    );
    assert_eq!(
        reply,
        text(500, "Config reload failed: did not find expected key at line 2")
    );
    assert_eq!(
        reload_config_reply(&mut current, Err(ConfigError::NoSource)),
        text(500, "Config reload failed: no configuration file was found")
    );
    assert_eq!(
        reload_config_reply(&mut current, Err(ConfigError::Unreadable("permission denied".to_string()))),
        text(500, "Config reload failed: permission denied")
    );
    assert_eq!(current, config());
    let requests = match index(&logged_in(), &current) {
        IndexStep::Poll(requests) => requests,
        other => panic!("no poll: {other:?}"),
    };
    assert_eq!(requests.len(), 2);
}

#[test]
fn reload_from_a_document_replaces_everything() {
    let mut current = config();
    let document = Document {
        password: Secret { value: "/run/pw".to_string(), file: SecretFile::Content("new\n".to_string()) },
        hosts: vec![HostDocument {
            hostname: "gamma".to_string(),
            ip: "http://10.0.0.3:8080".to_string(),
            api_key: Secret { value: "c-key".to_string(), file: SecretFile::Absent },
        }],
    };
    assert_eq!(reload_config_reply(&mut current, Ok(document)), text(200, "Config reloaded."));
    assert_eq!(current.password, "new");
    assert_eq!(
        index(&logged_in(), &current),
        IndexStep::Poll(vec![question("gamma", "http://10.0.0.3:8080", "c-key")])
    );
    let mut gate = logged_out();
    assert_eq!(
        login_post(&mut gate, &current, Some("hunter2")),
        LoginStep::Form(LoginTemplate { incorrect: true })
    );
    assert_eq!(login_post(&mut gate, &current, Some("new")), LoginStep::Redirect("/"));
}
