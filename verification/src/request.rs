//! The calls that cross from the dashboard to a node, and what comes back.

use vstd::prelude::*;
use crate::registry::{Host, HostView};

verus! {

/// Every call to a node is given up after this many seconds.
pub const NODE_TIMEOUT_SECS: u64 = 1;

/// The HTTP method of a call to a node.
#[derive(Clone, Copy, Debug, PartialEq, Eq, Structural)]
pub enum Method {
    Get,
    Post,
}

impl Method {
    /// The method that `name` names, among those that a node takes.
    pub open spec fn named(name: Seq<char>) -> Option<Method> {
        if name == "GET"@ {
            Some(Method::Get)
        } else if name == "POST"@ {
            Some(Method::Post)
        } else {
            None
        }
    }

    /// The method that `name` names, among those that a node takes.
    pub fn parse(name: &str) -> (method: Option<Method>)
        ensures
            method == Method::named(name@),
    {
        if name.eq("GET") {
            Some(Method::Get)
        } else if name.eq("POST") {
            Some(Method::Post)
        } else {
            None
        }
    }
}

/// One call to a node: where it goes, the `Authorization` header it carries
/// and the time it is given.
#[derive(Debug, PartialEq, Eq)]
pub struct NodeRequest {
    pub method: Method,
    pub url: String,
    pub authorization: String,
    pub timeout_secs: u64,
}

/// What a [`NodeRequest`] holds, as plain values.
pub struct NodeRequestView {
    pub method: Method,
    pub url: Seq<char>,
    pub authorization: Seq<char>,
    pub timeout_secs: u64,
}

impl View for NodeRequest {
    type V = NodeRequestView;

    open spec fn view(&self) -> NodeRequestView {
        NodeRequestView {
            method: self.method,
            url: self.url@,
            authorization: self.authorization@,
            timeout_secs: self.timeout_secs,
        }
    }
}

impl Clone for NodeRequest {
    fn clone(&self) -> (copy: Self)
        ensures
            copy == *self,
    {
        NodeRequest {
            method: self.method,
            url: self.url.clone(),
            authorization: self.authorization.clone(),
            timeout_secs: self.timeout_secs,
        }
    }
}

/// The call of `method` to `path` on `host`: the path follows the host's
/// address, the host's credential is the `Authorization` header as it stands,
/// and the call is given [`NODE_TIMEOUT_SECS`].
pub open spec fn call_to(host: HostView, method: Method, path: Seq<char>) -> NodeRequestView {
    NodeRequestView {
        method,
        url: host.ip + path,
        authorization: host.api_key,
        timeout_secs: NODE_TIMEOUT_SECS,
    }
}

impl NodeRequest {
    /// The call of `method` to `path` on `host`.
    pub fn to(host: &Host, method: Method, path: &str) -> (request: NodeRequest)
        ensures
            request@ == call_to(host@, method, path@),
    {
        let mut url = host.ip.clone();
        url.append(path);
        NodeRequest {
            method,
            url,
            authorization: host.api_key.clone(),
            timeout_secs: NODE_TIMEOUT_SECS,
        }
    }
}

/// How a call to a node ended, where the answer's body does not matter.
#[derive(Debug, PartialEq, Eq)]
pub enum CallOutcome {
    /// No answer came: the transport failed or the time ran out. The text
    /// says how.
    Failed(String),
    /// The node answered with this HTTP status code.
    Responded(u16),
}

/// Whether `code` is an HTTP status of success: 200 to 299.
pub open spec fn is_success(code: u16) -> bool {
    200 <= code < 300
}

/// HTTP status: the request was carried out.
pub const OK: u16 = 200;

/// HTTP status: the client is sent to another route.
pub const FOUND: u16 = 302;

/// HTTP status: the client asked for what does not exist.
pub const BAD_REQUEST: u16 = 400;

/// HTTP status: the client named what is not there.
pub const NOT_FOUND: u16 = 404;

/// HTTP status: the request does not carry the credential.
pub const UNAUTHORIZED: u16 = 401;

/// HTTP status: the state does not allow the request.
pub const CONFLICT: u16 = 409;

/// HTTP status: a node or a service failed.
pub const INTERNAL_SERVER_ERROR: u16 = 500;

/// An answer in plain text.
#[derive(Debug, PartialEq, Eq)]
pub struct TextReply {
    pub status: u16,
    pub body: String,
}

/// What a [`TextReply`] holds, as plain values.
pub struct TextReplyView {
    pub status: u16,
    pub body: Seq<char>,
}

impl View for TextReply {
    type V = TextReplyView;

    open spec fn view(&self) -> TextReplyView {
        TextReplyView { status: self.status, body: self.body@ }
    }
}

} // verus!
