//! The HTTP surface of a node: which requests it takes, whom it admits, and
//! how it answers what the idle controller reports.

use vstd::prelude::*;
use crate::action::Action;
use crate::idle::IdleError;
use crate::request::{
    Method, TextReply, TextReplyView, CONFLICT, INTERNAL_SERVER_ERROR, NOT_FOUND, OK, UNAUTHORIZED,
};
use crate::status::STATUS_PATH;
use crate::text::{text_of, trim, trimmed};

verus! {

/// What a request to a node asks for.
#[derive(Clone, Copy, Debug, PartialEq, Eq, Structural)]
pub enum NodeRoute {
    /// `GET /status`
    Status,
    /// `POST /idle/lock`
    Lock,
    /// `POST /idle/unlock`
    Unlock,
    /// `POST /idle/simulate_user_activity`
    SimulateUserActivity,
    /// `POST /idle/inhibit`
    Inhibit,
    /// `POST /idle/uninhibit`
    Uninhibit,
    /// `GET /notify/capabilities`
    Capabilities,
    /// `POST /notify`
    Notify,
}

impl NodeRoute {
    /// What a request of `method` to `path` asks for, if a node takes it.
    pub open spec fn routed(method: Method, path: Seq<char>) -> Option<NodeRoute> {
        match method {
            Method::Get => if path == "/status"@ {
                Some(NodeRoute::Status)
            } else if path == "/notify/capabilities"@ {
                Some(NodeRoute::Capabilities)
            } else {
                None
            },
            Method::Post => if path == "/idle/lock"@ {
                Some(NodeRoute::Lock)
            } else if path == "/idle/unlock"@ {
                Some(NodeRoute::Unlock)
            } else if path == "/idle/simulate_user_activity"@ {
                Some(NodeRoute::SimulateUserActivity)
            } else if path == "/idle/inhibit"@ {
                Some(NodeRoute::Inhibit)
            } else if path == "/idle/uninhibit"@ {
                Some(NodeRoute::Uninhibit)
            } else if path == "/notify"@ {
                Some(NodeRoute::Notify)
            } else {
                None
            },
        }
    }

    /// What a request of `method` to `path` asks for, if a node takes it.
    pub fn find(method: Method, path: &str) -> (route: Option<NodeRoute>)
        ensures
            route == NodeRoute::routed(method, path@),
    {
        match method {
            Method::Get => if path.eq("/status") {
                Some(NodeRoute::Status)
            } else if path.eq("/notify/capabilities") {
                Some(NodeRoute::Capabilities)
            } else {
                None
            },
            Method::Post => if path.eq("/idle/lock") {
                Some(NodeRoute::Lock)
            } else if path.eq("/idle/unlock") {
                Some(NodeRoute::Unlock)
            } else if path.eq("/idle/simulate_user_activity") {
                Some(NodeRoute::SimulateUserActivity)
            } else if path.eq("/idle/inhibit") {
                Some(NodeRoute::Inhibit)
            } else if path.eq("/idle/uninhibit") {
                Some(NodeRoute::Uninhibit)
            } else if path.eq("/notify") {
                Some(NodeRoute::Notify)
            } else {
                None
            },
        }
    }
}

impl Action {
    /// What the action asks of a node.
    pub open spec fn route(self) -> NodeRoute {
        match self {
            Action::Lock => NodeRoute::Lock,
            Action::Unlock => NodeRoute::Unlock,
            Action::SimulateActivity => NodeRoute::SimulateUserActivity,
            Action::Inhibit => NodeRoute::Inhibit,
            Action::Uninhibit => NodeRoute::Uninhibit,
        }
    }
}

/// The paths that the dashboard calls are the paths that a node takes: the
/// call for an action asks the node for that action, and the question for the
/// status asks for the status.
pub proof fn law_calls_reach_their_routes(action: Action)
    ensures
        NodeRoute::routed(Method::Post, action.endpoint_text()) == Some(action.route()),
        NodeRoute::routed(Method::Get, STATUS_PATH@) == Some(NodeRoute::Status),
{
    reveal_strlit("/status");
    reveal_strlit("/notify/capabilities");
    reveal_strlit("/idle/lock");
    reveal_strlit("/idle/unlock");
    reveal_strlit("/idle/simulate_user_activity");
    reveal_strlit("/idle/inhibit");
    reveal_strlit("/idle/uninhibit");
    reveal_strlit("/notify");
    assert("/status"@.len() == 7);
    assert("/notify/capabilities"@.len() == 20);
    assert("/idle/lock"@.len() == 10);
    assert("/idle/unlock"@.len() == 12);
    assert("/idle/simulate_user_activity"@.len() == 28);
    assert("/idle/inhibit"@.len() == 13);
    assert("/idle/uninhibit"@.len() == 15);
    assert("/notify"@.len() == 7);
}

/// Whether a request that carries `header` as its `Authorization` header is
/// admitted by a node whose secret is `secret`: the header is there, and its
/// value is the secret, with nothing before or after it.
pub open spec fn admitted(secret: Seq<char>, header: Option<&str>) -> bool {
    header matches Some(value) && value@ == secret
}

/// Whether a request that carries `header` as its `Authorization` header is
/// admitted.
pub fn authorized(secret: &str, header: Option<&str>) -> (allowed: bool)
    ensures
        allowed == admitted(secret@, header),
{
    match header {
        Some(value) => value.eq(secret),
        None => false,
    }
}

/// What a node makes of a request: one that is not admitted is answered as
/// unauthorized, whatever it asks for; one that asks for what a node does not
/// take is answered as not found; the others are carried out.
pub open spec fn accepted(
    secret: Seq<char>,
    header: Option<&str>,
    method: Seq<char>,
    path: Seq<char>,
) -> Result<NodeRoute, u16> {
    if !admitted(secret, header) {
        Err(UNAUTHORIZED)
    } else {
        match Method::named(method) {
            None => Err(NOT_FOUND),
            Some(method) => match NodeRoute::routed(method, path) {
                None => Err(NOT_FOUND),
                Some(route) => Ok(route),
            },
        }
    }
}

/// What a node makes of the request of `method` to `path` that carries
/// `header` as its `Authorization` header: what to carry out, or the HTTP
/// status to answer with.
pub fn accept(secret: &str, header: Option<&str>, method: &str, path: &str) -> (route: Result<
    NodeRoute,
    u16,
>)
    ensures
        route == accepted(secret@, header, method@, path@),
{
    if !authorized(secret, header) {
        return Err(UNAUTHORIZED);
    }
    match Method::parse(method) {
        None => Err(NOT_FOUND),
        Some(method) => match NodeRoute::find(method, path) {
            None => Err(NOT_FOUND),
            Some(route) => Ok(route),
        },
    }
}

/// The secret of a node. It is the content of its secret file, without the
/// white space around it, where the node is given such a file; else the
/// value of its environment variable, as it stands; else there is none.
pub open spec fn secret_of(file: Option<&str>, environment: Option<&str>) -> Option<Seq<char>> {
    match file {
        Some(content) => Some(trimmed(content@)),
        None => match environment {
            Some(value) => Some(value@),
            None => None,
        },
    }
}

/// The secret of a node that is given `file` as the content of its secret
/// file and `environment` as the value of its environment variable.
pub fn shared_secret(file: Option<&str>, environment: Option<&str>) -> (secret: Option<String>)
    ensures
        text_of(secret) == secret_of(file, environment),
{
    match file {
        Some(content) => Some(trim(content)),
        None => match environment {
            Some(value) => Some(value.to_owned()),
            None => None,
        },
    }
}

/// The answer to a request after the idle controller reported `done`: an
/// empty success; the service's failure as an error of the server; an
/// operation that the state does not allow as a conflict that names it.
pub open spec fn idle_answer(done: Result<(), IdleError>) -> TextReplyView {
    match done {
        Ok(_) => TextReplyView { status: OK, body: Seq::empty() },
        Err(IdleError::Service(how)) => TextReplyView { status: INTERNAL_SERVER_ERROR, body: how@ },
        Err(error) => TextReplyView { status: CONFLICT, body: error.message_text() },
    }
}

/// The answer to a request after the idle controller reported `done`.
pub fn idle_reply(done: &Result<(), IdleError>) -> (reply: TextReply)
    ensures
        reply@ == idle_answer(*done),
{
    match done {
        Ok(_) => TextReply { status: OK, body: String::new() },
        Err(IdleError::Service(how)) => TextReply {
            status: INTERNAL_SERVER_ERROR,
            body: how.clone(),
        },
        Err(error) => TextReply { status: CONFLICT, body: error.message() },
    }
}

} // verus!
