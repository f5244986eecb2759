//! The status of the nodes: what one node reports, how an attempt to ask it
//! is classified, and the aggregation over all hosts.

use vstd::prelude::*;
use crate::registry::{HostRegistry, HostView};
use crate::request::{call_to, Method, NodeRequest, NodeRequestView};

verus! {

/// What a node reports of itself.
#[derive(Clone, Copy, Debug, PartialEq, Eq, Structural)]
pub struct NodeStatus {
    pub active: bool,
    pub active_time: u32,
    pub inhibited: bool,
}

impl NodeStatus {
    /// The status that stands in for an answer that cannot be decoded: not
    /// active, for no time, not inhibited.
    pub open spec fn inactive() -> NodeStatus {
        NodeStatus { active: false, active_time: 0, inhibited: false }
    }
}

impl Default for NodeStatus {
    fn default() -> (status: NodeStatus)
        ensures
            status == NodeStatus::inactive(),
    {
        NodeStatus { active: false, active_time: 0, inhibited: false }
    }
}

/// How one attempt to ask a node for its status ended.
#[derive(Clone, Copy, Debug, PartialEq, Eq, Structural)]
pub enum PollOutcome {
    /// No answer came: the transport failed or the time ran out.
    Unreachable,
    /// An answer came, and its body is no status.
    Undecodable,
    /// The node answered with its status.
    Status(NodeStatus),
}

/// The three states in which the dashboard shows a host.
#[derive(Clone, Copy, Debug, PartialEq, Eq, Structural)]
pub enum HostStatus {
    Online,
    Idle,
    Offline,
}

impl PollOutcome {
    /// The status that the node is taken to have reported, if it was reached:
    /// an answer that cannot be decoded counts as [`NodeStatus::inactive`].
    pub open spec fn reported(self) -> Option<NodeStatus> {
        match self {
            PollOutcome::Unreachable => None,
            PollOutcome::Undecodable => Some(NodeStatus::inactive()),
            PollOutcome::Status(status) => Some(status),
        }
    }

    /// The state of the host: offline if it was not reached, idle if it
    /// reports `active`, online if it does not.
    pub open spec fn classified(self) -> HostStatus {
        match self.reported() {
            None => HostStatus::Offline,
            Some(status) => if status.active {
                HostStatus::Idle
            } else {
                HostStatus::Online
            },
        }
    }

    /// The status that the node is taken to have reported, if it was reached.
    pub fn status_or_default(&self) -> (status: Option<NodeStatus>)
        ensures
            status == self.reported(),
    {
        match self {
            PollOutcome::Unreachable => None,
            PollOutcome::Undecodable => Some(NodeStatus::default()),
            PollOutcome::Status(status) => Some(*status),
        }
    }

    /// The state of the host after this attempt.
    pub fn classify(&self) -> (state: HostStatus)
        ensures
            state == self.classified(),
    {
        match self.status_or_default() {
            None => HostStatus::Offline,
            Some(status) => if status.active {
                HostStatus::Idle
            } else {
                HostStatus::Online
            },
        }
    }
}

impl HostStatus {
    /// The word under which the dashboard shows the state.
    pub open spec fn label_text(self) -> Seq<char> {
        match self {
            HostStatus::Online => "online"@,
            HostStatus::Idle => "idle"@,
            HostStatus::Offline => "offline"@,
        }
    }

    /// The word under which the dashboard shows the state.
    pub fn label(self) -> (word: &'static str)
        ensures
            word@ == self.label_text(),
    {
        match self {
            HostStatus::Online => "online",
            HostStatus::Idle => "idle",
            HostStatus::Offline => "offline",
        }
    }
}

/// The path on a node that answers with its status.
pub const STATUS_PATH: &'static str = "/status";

/// The question for one host's status, with the hostname and the address
/// that its answer will be shown under.
#[derive(Debug, PartialEq, Eq)]
pub struct StatusRequest {
    pub hostname: String,
    pub ip: String,
    pub request: NodeRequest,
}

/// What a [`StatusRequest`] holds, as plain values.
pub struct StatusRequestView {
    pub hostname: Seq<char>,
    pub ip: Seq<char>,
    pub request: NodeRequestView,
}

impl View for StatusRequest {
    type V = StatusRequestView;

    open spec fn view(&self) -> StatusRequestView {
        StatusRequestView { hostname: self.hostname@, ip: self.ip@, request: self.request@ }
    }
}

/// One line of the aggregated view: a host and the state it is in.
#[derive(Debug, PartialEq, Eq)]
pub struct HostWithStatus {
    pub hostname: String,
    pub ip: String,
    pub status: String,
}

/// What a [`HostWithStatus`] holds, as plain text.
pub struct HostWithStatusView {
    pub hostname: Seq<char>,
    pub ip: Seq<char>,
    pub status: Seq<char>,
}

impl View for HostWithStatus {
    type V = HostWithStatusView;

    open spec fn view(&self) -> HostWithStatusView {
        HostWithStatusView { hostname: self.hostname@, ip: self.ip@, status: self.status@ }
    }
}

impl Clone for HostWithStatus {
    fn clone(&self) -> (copy: Self)
        ensures
            copy == *self,
    {
        HostWithStatus {
            hostname: self.hostname.clone(),
            ip: self.ip.clone(),
            status: self.status.clone(),
        }
    }
}

/// The question for the status of the host `hostname`.
pub open spec fn status_question(hostname: Seq<char>, host: HostView) -> StatusRequestView {
    StatusRequestView {
        hostname,
        ip: host.ip,
        request: call_to(host, Method::Get, STATUS_PATH@),
    }
}

/// The line for the host of `request` after an attempt that ended in
/// `outcome`.
pub open spec fn host_line(request: StatusRequestView, outcome: PollOutcome) -> HostWithStatusView {
    HostWithStatusView {
        hostname: request.hostname,
        ip: request.ip,
        status: outcome.classified().label_text(),
    }
}

/// The outcome that belongs to the question at index `i`: the one at that
/// index, and where none was handed in, that the host was not reached.
pub open spec fn outcome_at(outcomes: Seq<PollOutcome>, i: int) -> PollOutcome {
    if 0 <= i < outcomes.len() {
        outcomes[i]
    } else {
        PollOutcome::Unreachable
    }
}

/// Whether `requests` are the questions for the status of every host of
/// `registry`: as many as there are hosts, and one for each hostname, in the
/// order of `registry.names()`.
pub open spec fn covers(registry: &HostRegistry, requests: Seq<StatusRequest>) -> bool {
    &&& requests.len() == registry@.len()
    &&& requests.len() == registry.names().len()
    &&& forall|i: int|
        0 <= i < requests.len() ==> registry@.contains_key(registry.names()[i])
            && (#[trigger] requests[i])@ == status_question(
            registry.names()[i],
            registry@[registry.names()[i]],
        )
}

/// Whether `hosts` is the aggregated view for `requests` and `outcomes`: one
/// line for each question, in the order of the questions. The outcome at an
/// index belongs to the question at that index; a question without an
/// outcome counts as not reached, and an outcome without a question is left
/// out.
pub open spec fn aggregates(
    hosts: Seq<HostWithStatus>,
    requests: Seq<StatusRequest>,
    outcomes: Seq<PollOutcome>,
) -> bool {
    &&& hosts.len() == requests.len()
    &&& forall|i: int|
        0 <= i < hosts.len() ==> (#[trigger] hosts[i])@ == host_line(
            requests[i]@,
            outcome_at(outcomes, i),
        )
}

/// The questions for the status of every host of `registry`.
pub fn status_requests(registry: &HostRegistry) -> (requests: Vec<StatusRequest>)
    ensures
        covers(registry, requests@),
{
    let entries = registry.entries();
    let mut requests: Vec<StatusRequest> = Vec::new();
    let mut i: usize = 0;
    while i < entries.len()
        invariant
            i <= entries@.len(),
            requests@.len() == i,
            registry.listed_by(entries@),
            forall|j: int|
                0 <= j < i ==> (#[trigger] requests@[j])@ == status_question(
                    registry.names()[j],
                    registry@[registry.names()[j]],
                ),
        decreases entries@.len() - i,
    {
        let entry = &entries[i];
        requests.push(
            StatusRequest {
                hostname: entry.hostname.clone(),
                ip: entry.host.ip.clone(),
                request: NodeRequest::to(&entry.host, Method::Get, STATUS_PATH),
            },
        );
        i = i + 1;
    }
    requests
}

/// The aggregated view for `requests` and `outcomes`, whatever the outcomes
/// are.
pub fn aggregate(requests: &Vec<StatusRequest>, outcomes: &Vec<PollOutcome>) -> (hosts: Vec<
    HostWithStatus,
>)
    ensures
        aggregates(hosts@, requests@, outcomes@),
{
    let mut hosts: Vec<HostWithStatus> = Vec::new();
    let mut i: usize = 0;
    while i < requests.len()
        invariant
            i <= requests@.len(),
            hosts@.len() == i,
            forall|j: int|
                0 <= j < i ==> (#[trigger] hosts@[j])@ == host_line(
                    requests@[j]@,
                    outcome_at(outcomes@, j),
                ),
        decreases requests@.len() - i,
    {
        let outcome = if i < outcomes.len() {
            outcomes[i]
        } else {
            PollOutcome::Unreachable
        };
        let request = &requests[i];
        hosts.push(
            HostWithStatus {
                hostname: request.hostname.clone(),
                ip: request.ip.clone(),
                status: outcome.classify().label().to_owned(),
            },
        );
        i = i + 1;
    }
    hosts
}

/// Whatever the outcomes are, and whichever hosts were not reached, the
/// aggregated view of a registry has as many lines as the registry has
/// hosts: one for each host, under its name and its address, and no two
/// under one name. The line of a host says offline exactly when the host was
/// not reached.
pub proof fn law_one_line_for_each_host(
    registry: &HostRegistry,
    requests: Seq<StatusRequest>,
    outcomes: Seq<PollOutcome>,
    hosts: Seq<HostWithStatus>,
)
    requires
        registry.wf(),
        covers(registry, requests),
        aggregates(hosts, requests, outcomes),
    ensures
        hosts.len() == registry@.len(),
        forall|name: Seq<char>|
            registry@.contains_key(name) ==> exists|i: int|
                0 <= i < hosts.len() && (#[trigger] hosts[i]).hostname@ == name,
        forall|i: int, j: int|
            0 <= i < j < hosts.len() ==> (#[trigger] hosts[i]).hostname@ != (
            #[trigger] hosts[j]).hostname@,
        forall|i: int|
            0 <= i < hosts.len() ==> registry@.contains_key((#[trigger] hosts[i]).hostname@)
                && hosts[i].ip@ == registry@[hosts[i].hostname@].ip,
        forall|i: int|
            0 <= i < hosts.len() ==> ((#[trigger] hosts[i]).status@ == HostStatus::Offline.label_text()
                <==> outcome_at(outcomes, i) is Unreachable),
{
    registry.lemma_listing();
    let names = registry.names();
    assert forall|i: int| 0 <= i < hosts.len() implies (#[trigger] hosts[i]).hostname@ == names[i]
        && hosts[i].ip@ == registry@[names[i]].ip && registry@.contains_key(names[i]) by {
        assert(hosts[i]@ == host_line(requests[i]@, outcome_at(outcomes, i)));
        assert(requests[i]@ == status_question(names[i], registry@[names[i]]));
    }
    assert forall|name: Seq<char>| registry@.contains_key(name) implies exists|i: int|
        0 <= i < hosts.len() && (#[trigger] hosts[i]).hostname@ == name by {
        assert(names.contains(name));
        let i = names.index_of(name);
        assert(hosts[i].hostname@ == name);
    }
    assert forall|i: int| 0 <= i < hosts.len() implies ((#[trigger] hosts[i]).status@
        == HostStatus::Offline.label_text() <==> outcome_at(outcomes, i) is Unreachable) by {
        assert(hosts[i]@ == host_line(requests[i]@, outcome_at(outcomes, i)));
        reveal_strlit("online");
        reveal_strlit("idle");
        reveal_strlit("offline");
        assert("online"@.len() == 6);
        assert("idle"@.len() == 4);
        assert("offline"@.len() == 7);
    }
}

} // verus!
