//! The routes of the dashboard. Each route is decided here and carried out
//! by the caller: a route hands back either the answer or the calls to make
//! to the nodes, and a second function makes the answer of what came back.

use vstd::prelude::*;
use crate::action::Action;
use crate::config::{loaded_view, Config, ConfigError, Document};
use crate::registry::HostEntry;
use crate::request::{
    call_to, is_success, CallOutcome, Method, NodeRequest, TextReply, TextReplyView, BAD_REQUEST,
    INTERNAL_SERVER_ERROR, NOT_FOUND, OK,
};
use crate::session::{opens, SessionGate, HOME_PATH, LOGIN_PATH};
use crate::text::text_of;
use crate::status::{
    aggregate, aggregates, covers, status_question, status_requests, HostStatus, HostWithStatus,
    NodeStatus, PollOutcome, StatusRequest, STATUS_PATH,
};
use crate::wording::{humanize_past, rough_past, status_line, status_phrase};

verus! {

/// The login page.
#[derive(Clone, Copy, Debug, PartialEq, Eq, Structural)]
pub struct LoginTemplate {
    /// Whether the page says that the password was not the right one.
    pub incorrect: bool,
}

/// The page of the aggregated view.
#[derive(Debug, PartialEq, Eq)]
pub struct MainDashboardTemplate {
    pub hosts: Vec<HostWithStatus>,
}

/// The page of one host.
#[derive(Debug, PartialEq, Eq)]
pub struct DashboardTemplate {
    pub hostname: String,
    pub ip: String,
    pub status: &'static str,
    pub last_seen: String,
}

/// What a [`DashboardTemplate`] holds, as plain text.
pub struct DashboardTemplateView {
    pub hostname: Seq<char>,
    pub ip: Seq<char>,
    pub status: Seq<char>,
    pub last_seen: Seq<char>,
}

impl View for DashboardTemplate {
    type V = DashboardTemplateView;

    open spec fn view(&self) -> DashboardTemplateView {
        DashboardTemplateView {
            hostname: self.hostname@,
            ip: self.ip@,
            status: self.status@,
            last_seen: self.last_seen@,
        }
    }
}

/// What the route of the aggregated view decides.
#[derive(Debug, PartialEq, Eq)]
pub enum IndexStep {
    /// The session is not logged in: the client is sent to this route.
    Redirect(&'static str),
    /// Ask every host for its status, all at once, and hand the outcomes to
    /// [`index_page`].
    Poll(Vec<StatusRequest>),
}

/// What a route that speaks of one host decides.
#[derive(Debug, PartialEq, Eq)]
pub enum HostStep {
    /// The session is not logged in: the client is sent to this route.
    Redirect(&'static str),
    /// No call is made: this is the answer.
    Refused(TextReply),
    /// Ask the host for its status.
    Poll(StatusRequest),
}

/// What the route of an action decides.
#[derive(Debug, PartialEq, Eq)]
pub enum ActionStep {
    /// The session is not logged in: the client is sent to this route.
    Redirect(&'static str),
    /// No call is made: this is the answer.
    Refused(TextReply),
    /// Make this call, once, and hand its outcome to [`host_action_reply`]
    /// with the action.
    Call { action: Action, request: NodeRequest },
}

/// What the route of the registry's listing decides.
#[derive(Clone, Copy, Debug, PartialEq, Eq)]
pub enum HostsStep<'a> {
    /// The session is not logged in: the client is sent to this route.
    Redirect(&'static str),
    /// The entries of the registry are the answer.
    List(&'a Vec<HostEntry>),
}

/// What the route of a login attempt decides.
#[derive(Clone, Copy, Debug, PartialEq, Eq)]
pub enum LoginStep {
    /// The session is logged in: the client is sent to this route.
    Redirect(&'static str),
    /// The login page is shown again.
    Form(LoginTemplate),
}

/// What the route of a reload decides.
#[derive(Clone, Copy, Debug, PartialEq, Eq)]
pub enum ReloadStep {
    /// The session is not logged in: the client is sent to this route.
    Redirect(&'static str),
    /// Read the configuration anew and hand it to [`reload_config_reply`].
    Load,
}

/// The answer to a host name that the registry does not hold.
pub open spec fn host_not_found() -> TextReplyView {
    TextReplyView { status: NOT_FOUND, body: "Host not found"@ }
}

/// The answer to an action that does not exist.
pub open spec fn unknown_action() -> TextReplyView {
    TextReplyView { status: BAD_REQUEST, body: "Unknown action"@ }
}

/// The answer after the node carried `action` out.
pub open spec fn action_sent(action: Action) -> TextReplyView {
    TextReplyView { status: OK, body: action.name_text() + " command sent successfully!"@ }
}

/// The answer after the node answered `action` with a status of failure,
/// written as `line`; a status that cannot be written is left out.
pub open spec fn action_refused(action: Action, line: Option<Seq<char>>) -> TextReplyView {
    TextReplyView {
        status: INTERNAL_SERVER_ERROR,
        body: match line {
            Some(line) => "Failed to send "@ + action.name_text() + " command. Status: "@ + line,
            None => "Failed to send "@ + action.name_text() + " command."@,
        },
    }
}

/// The answer after the call for `action` failed on the way. `how` says how.
pub open spec fn action_failed(action: Action, how: Seq<char>) -> TextReplyView {
    TextReplyView {
        status: INTERNAL_SERVER_ERROR,
        body: "Failed to send "@ + action.name_text() + " command: "@ + how,
    }
}

/// The answer to a call for `action` that ended in `outcome`, where `line`
/// is the status written out: success for a status from 200 to 299, a
/// failure that names the action and the status for any other status, and a
/// failure that names the action and says what went wrong if no answer came.
pub open spec fn action_reply(
    action: Action,
    outcome: CallOutcome,
    line: Option<Seq<char>>,
) -> TextReplyView {
    match outcome {
        CallOutcome::Failed(how) => action_failed(action, how@),
        CallOutcome::Responded(code) => if is_success(code) {
            action_sent(action)
        } else {
            action_refused(action, line)
        },
    }
}

/// The page of a host that was not reached, or whose answer is no status.
pub open spec fn page_offline(hostname: Seq<char>, ip: Seq<char>) -> DashboardTemplateView {
    DashboardTemplateView {
        hostname,
        ip,
        status: HostStatus::Offline.label_text(),
        last_seen: "now"@,
    }
}

/// The page of a host that reported `status`, where `last_seen` tells how
/// long ago it was last active.
pub open spec fn page_reached(
    hostname: Seq<char>,
    ip: Seq<char>,
    status: NodeStatus,
    last_seen: Seq<char>,
) -> DashboardTemplateView {
    DashboardTemplateView {
        hostname,
        ip,
        status: PollOutcome::Status(status).classified().label_text(),
        last_seen,
    }
}

/// The answer to a reload that has read `loaded`: success, or a failure that
/// says why no configuration was loaded.
pub open spec fn reload_reply(loaded: Result<Document, ConfigError>) -> TextReplyView {
    match loaded_view(loaded) {
        Ok(_) => TextReplyView { status: OK, body: "Config reloaded."@ },
        Err(error) => TextReplyView {
            status: INTERNAL_SERVER_ERROR,
            body: "Config reload failed: "@ + error.message(),
        },
    }
}

impl TextReply {
    /// The answer to a host name that the registry does not hold.
    pub fn host_not_found() -> (reply: TextReply)
        ensures
            reply@ == host_not_found(),
    {
        TextReply { status: NOT_FOUND, body: "Host not found".to_owned() }
    }

    /// The answer to an action that does not exist.
    pub fn unknown_action() -> (reply: TextReply)
        ensures
            reply@ == unknown_action(),
    {
        TextReply { status: BAD_REQUEST, body: "Unknown action".to_owned() }
    }

    /// The answer after the node carried `action` out.
    pub fn action_sent(action: Action) -> (reply: TextReply)
        ensures
            reply@ == action_sent(action),
    {
        let mut body = action.name().to_owned();
        body.append(" command sent successfully!");
        TextReply { status: OK, body }
    }

    /// The answer after the node answered `action` with a status of failure
    /// that is written as `line`.
    pub fn action_refused(action: Action, line: Option<String>) -> (reply: TextReply)
        ensures
            reply@ == action_refused(action, text_of(line)),
    {
        let mut body = "Failed to send ".to_owned();
        body.append(action.name());
        match line {
            Some(line) => {
                body.append(" command. Status: ");
                body.append(line.as_str());
            },
            None => {
                body.append(" command.");
            },
        }
        TextReply { status: INTERNAL_SERVER_ERROR, body }
    }

    /// The answer after the call for `action` failed on the way.
    pub fn action_failed(action: Action, how: &str) -> (reply: TextReply)
        ensures
            reply@ == action_failed(action, how@),
    {
        let mut body = "Failed to send ".to_owned();
        body.append(action.name());
        body.append(" command: ");
        body.append(how);
        TextReply { status: INTERNAL_SERVER_ERROR, body }
    }
}

impl DashboardTemplate {
    /// The page of a host that was not reached, or whose answer is no status.
    pub fn offline(hostname: &str, ip: &str) -> (page: DashboardTemplate)
        ensures
            page@ == page_offline(hostname@, ip@),
    {
        DashboardTemplate {
            hostname: hostname.to_owned(),
            ip: ip.to_owned(),
            status: HostStatus::Offline.label(),
            last_seen: "now".to_owned(),
        }
    }

    /// The page of a host that reported `status`, where `last_seen` tells
    /// how long ago it was last active.
    pub fn reached(hostname: &str, ip: &str, status: NodeStatus, last_seen: String) -> (page:
        DashboardTemplate)
        ensures
            page@ == page_reached(hostname@, ip@, status, last_seen@),
    {
        DashboardTemplate {
            hostname: hostname.to_owned(),
            ip: ip.to_owned(),
            status: PollOutcome::Status(status).classify().label(),
            last_seen,
        }
    }
}

/// What the route of the aggregated view decides: a session that is not
/// logged in is sent to the login route, and no host is asked; else every
/// host of the registry is asked for its status.
pub open spec fn index_step_decided(step: IndexStep, logged_in: bool, config: &Config) -> bool {
    if !logged_in {
        step matches IndexStep::Redirect(to) && to@ == LOGIN_PATH@
    } else {
        step matches IndexStep::Poll(requests) && covers(&config.hosts, requests@)
    }
}

/// The route of the aggregated view.
pub fn index(gate: &SessionGate, config: &Config) -> (step: IndexStep)
    ensures
        index_step_decided(step, gate@, config),
{
    if !gate.is_logged_in() {
        return IndexStep::Redirect(LOGIN_PATH);
    }
    IndexStep::Poll(status_requests(&config.hosts))
}

/// The page of the aggregated view, once every question of `requests` has
/// its outcome: one line for each question, whatever the outcomes are.
pub fn index_page(requests: &Vec<StatusRequest>, outcomes: &Vec<PollOutcome>) -> (page:
    MainDashboardTemplate)
    ensures
        aggregates(page.hosts@, requests@, outcomes@),
{
    MainDashboardTemplate { hosts: aggregate(requests, outcomes) }
}

/// What a route that speaks of the host `hostname` decides: a session that
/// is not logged in is sent to the login route; a hostname that the registry
/// does not hold is answered as not found; else the host is asked for its
/// status.
pub open spec fn host_step_decided(
    step: HostStep,
    logged_in: bool,
    config: &Config,
    hostname: Seq<char>,
) -> bool {
    if !logged_in {
        step matches HostStep::Redirect(to) && to@ == LOGIN_PATH@
    } else if !config.hosts@.contains_key(hostname) {
        step matches HostStep::Refused(reply) && reply@ == host_not_found()
    } else {
        step matches HostStep::Poll(request) && request@ == status_question(
            hostname,
            config.hosts@[hostname],
        )
    }
}

fn host_step(gate: &SessionGate, config: &Config, hostname: &str) -> (step: HostStep)
    ensures
        host_step_decided(step, gate@, config, hostname@),
{
    if !gate.is_logged_in() {
        return HostStep::Redirect(LOGIN_PATH);
    }
    match config.hosts.get(hostname) {
        None => HostStep::Refused(TextReply::host_not_found()),
        Some(host) => HostStep::Poll(
            StatusRequest {
                hostname: hostname.to_owned(),
                ip: host.ip.clone(),
                request: NodeRequest::to(host, Method::Get, STATUS_PATH),
            },
        ),
    }
}

/// The route of the page of one host.
pub fn dashboard(gate: &SessionGate, config: &Config, hostname: &str) -> (step: HostStep)
    ensures
        host_step_decided(step, gate@, config, hostname@),
{
    host_step(gate, config, hostname)
}

/// The page of the host of `request` after an attempt that ended in
/// `outcome`. A host that was not reached, or whose answer is no status, is
/// shown as offline and as seen now. Else the page shows the state of the
/// host and, in rough words, how long ago it was last active.
pub fn dashboard_page(request: &StatusRequest, outcome: &PollOutcome) -> (page: DashboardTemplate)
    ensures
        page@ == match *outcome {
            PollOutcome::Status(status) => page_reached(
                request.hostname@,
                request.ip@,
                status,
                rough_past(-(status.active_time as int)),
            ),
            _ => page_offline(request.hostname@, request.ip@),
        },
{
    match outcome {
        PollOutcome::Status(status) => {
            let elapsed: i64 = status.active_time as i64;
            let last_seen = humanize_past(-elapsed);
            DashboardTemplate::reached(
                request.hostname.as_str(),
                request.ip.as_str(),
                *status,
                last_seen,
            )
        },
        _ => DashboardTemplate::offline(request.hostname.as_str(), request.ip.as_str()),
    }
}

/// The route of the status of one host.
pub fn get_status(gate: &SessionGate, config: &Config, hostname: &str) -> (step: HostStep)
    ensures
        host_step_decided(step, gate@, config, hostname@),
{
    host_step(gate, config, hostname)
}

/// The answer to the question for one host's status: what the host
/// reported, where an answer that is no status counts as inactive; a host
/// that was not reached is an error of the server.
pub fn get_status_reply(outcome: &PollOutcome) -> (reply: Result<NodeStatus, TextReply>)
    ensures
        match outcome.reported() {
            Some(status) => reply == Ok::<NodeStatus, TextReply>(status),
            None => reply is Err && reply->Err_0@ == (TextReplyView {
                status: INTERNAL_SERVER_ERROR,
                body: "Failed to get status"@,
            }),
        },
{
    match outcome.status_or_default() {
        Some(status) => Ok(status),
        None => Err(
            TextReply { status: INTERNAL_SERVER_ERROR, body: "Failed to get status".to_owned() },
        ),
    }
}

/// What the route of an action decides: a session that is not logged in is
/// sent to the login route; a hostname that the registry does not hold is
/// answered as not found; a name that names no action is answered as
/// unknown; and only then is a call made, the one call that performs the
/// action on the host.
pub open spec fn action_step_decided(
    step: ActionStep,
    logged_in: bool,
    config: &Config,
    hostname: Seq<char>,
    action: Seq<char>,
) -> bool {
    if !logged_in {
        step matches ActionStep::Redirect(to) && to@ == LOGIN_PATH@
    } else if !config.hosts@.contains_key(hostname) {
        step matches ActionStep::Refused(reply) && reply@ == host_not_found()
    } else {
        match Action::named(action) {
            None => step matches ActionStep::Refused(reply) && reply@ == unknown_action(),
            Some(known) => step matches ActionStep::Call { action: chosen, request } && chosen
                == known && request@ == call_to(
                config.hosts@[hostname],
                Method::Post,
                known.endpoint_text(),
            ),
        }
    }
}

/// The route of an action on a host.
pub fn host_action(gate: &SessionGate, config: &Config, hostname: &str, action: &str) -> (step:
    ActionStep)
    ensures
        action_step_decided(step, gate@, config, hostname@, action@),
{
    if !gate.is_logged_in() {
        return ActionStep::Redirect(LOGIN_PATH);
    }
    let host = match config.hosts.get(hostname) {
        Some(host) => host,
        None => {
            return ActionStep::Refused(TextReply::host_not_found());
        },
    };
    match Action::parse(action) {
        None => ActionStep::Refused(TextReply::unknown_action()),
        Some(action) => ActionStep::Call {
            action,
            request: NodeRequest::to(host, Method::Post, action.endpoint()),
        },
    }
}

/// The answer to the call for `action` that ended in `outcome`. The call is
/// not made again, whatever the outcome. A status of failure is written out
/// in the answer if it is a code from 100 to 999.
pub fn host_action_reply(action: Action, outcome: &CallOutcome) -> (reply: TextReply)
    ensures
        reply@ == action_reply(
            action,
            *outcome,
            match *outcome {
                CallOutcome::Responded(code) => status_phrase(code),
                CallOutcome::Failed(_) => None,
            },
        ),
        *outcome matches CallOutcome::Responded(code) ==> is_success(code) || (status_phrase(code)
            is Some <==> 100 <= code < 1000),
{
    match outcome {
        CallOutcome::Failed(how) => TextReply::action_failed(action, how.as_str()),
        CallOutcome::Responded(code) => {
            if 200 <= *code && *code < 300 {
                TextReply::action_sent(action)
            } else {
                TextReply::action_refused(action, status_line(*code))
            }
        },
    }
}

/// The route of the registry's listing: a session that is not logged in is
/// sent to the login route; else every host of the registry is listed, once.
pub fn get_hosts<'a>(gate: &SessionGate, config: &'a Config) -> (step: HostsStep<'a>)
    ensures
        !gate@ ==> (step matches HostsStep::Redirect(to) && to@ == LOGIN_PATH@),
        gate@ ==> (step matches HostsStep::List(entries) && config.hosts.listed_by(entries@)),
{
    if !gate.is_logged_in() {
        return HostsStep::Redirect(LOGIN_PATH);
    }
    HostsStep::List(config.hosts.entries())
}

/// The route of the login form.
pub fn login_form() -> (page: LoginTemplate)
    ensures
        page == (LoginTemplate { incorrect: false }),
{
    LoginTemplate { incorrect: false }
}

/// What a login attempt is answered with: the right password sends the
/// client to the aggregated view; another, or none, shows the login page
/// again, which says so.
pub open spec fn login_step_decided(step: LoginStep, accepted: bool) -> bool {
    if accepted {
        step matches LoginStep::Redirect(to) && to@ == HOME_PATH@
    } else {
        step == LoginStep::Form(LoginTemplate { incorrect: true })
    }
}

/// The route of a login attempt. With the right password the session is
/// logged in from now on. With another, or with none, its flag stays as it
/// is.
pub fn login_post(gate: &mut SessionGate, config: &Config, submitted: Option<&str>) -> (step:
    LoginStep)
    ensures
        final(gate)@ == (old(gate)@ || opens(config.password@, submitted)),
        login_step_decided(step, opens(config.password@, submitted)),
{
    if gate.login(config, submitted) {
        LoginStep::Redirect(HOME_PATH)
    } else {
        LoginStep::Form(LoginTemplate { incorrect: true })
    }
}

/// The route of a reload. A session that is not logged in is sent to the
/// login route, and nothing is read.
pub fn reload_config(gate: &SessionGate) -> (step: ReloadStep)
    ensures
        !gate@ ==> (step matches ReloadStep::Redirect(to) && to@ == LOGIN_PATH@),
        gate@ ==> step == ReloadStep::Load,
{
    if gate.is_logged_in() {
        ReloadStep::Load
    } else {
        ReloadStep::Redirect(LOGIN_PATH)
    }
}

/// Takes what the reload has read. A configuration that was loaded takes the
/// place of the one in use, the password and every host at once. Where none
/// was loaded, the one in use stays as it is, and the answer reports the
/// failure.
pub fn reload_config_reply(config: &mut Config, loaded: Result<Document, ConfigError>) -> (reply:
    TextReply)
    ensures
        reply@ == reload_reply(loaded),
        match loaded_view(loaded) {
            Ok(view) => final(config)@ == view,
            Err(_) => *final(config) == *old(config),
        },
{
    match config.reload(loaded) {
        Ok(_) => TextReply { status: OK, body: "Config reloaded.".to_owned() },
        Err(error) => {
            let mut body = "Config reload failed: ".to_owned();
            body.append(error.message().as_str());
            TextReply { status: INTERNAL_SERVER_ERROR, body }
        },
    }
}

/// A name that names no action is refused as a bad request, on every host
/// of the registry, and no call is made.
pub proof fn law_unknown_action_makes_no_call(
    step: ActionStep,
    config: &Config,
    hostname: Seq<char>,
    action: Seq<char>,
)
    requires
        config.hosts@.contains_key(hostname),
        Action::named(action) is None,
        action_step_decided(step, true, config, hostname, action),
    ensures
        step matches ActionStep::Refused(reply) && reply@.status == BAD_REQUEST,
        !(step is Call),
{
}

/// An action on a hostname that the registry does not hold is refused as
/// not found, whatever the action, and no call is made.
pub proof fn law_unknown_host_makes_no_call(
    step: ActionStep,
    config: &Config,
    hostname: Seq<char>,
    action: Seq<char>,
)
    requires
        !config.hosts@.contains_key(hostname),
        action_step_decided(step, true, config, hostname, action),
    ensures
        step matches ActionStep::Refused(reply) && reply@.status == NOT_FOUND,
        !(step is Call),
{
}

/// A login with the right password sets the flag of the session, sends the
/// client to the aggregated view, and the next request for that view asks
/// the hosts. A login with another password, or with none, on a session
/// that is not logged in leaves the flag unset and shows the login page
/// again, which says that the password was not the right one; the next
/// request for the aggregated view is sent to the login route.
pub proof fn law_login_opens_the_view(
    before: bool,
    after: bool,
    config: &Config,
    submitted: Option<&str>,
    login: LoginStep,
    next: IndexStep,
)
    requires
        after == (before || opens(config.password@, submitted)),
        login_step_decided(login, opens(config.password@, submitted)),
        index_step_decided(next, after, config),
    ensures
        opens(config.password@, submitted) ==> after && login is Redirect && login->Redirect_0@
            == HOME_PATH@ && next is Poll,
        !opens(config.password@, submitted) && !before ==> !after && login == LoginStep::Form(
            LoginTemplate { incorrect: true },
        ) && next is Redirect && next->Redirect_0@ == LOGIN_PATH@,
{
}

} // verus!
