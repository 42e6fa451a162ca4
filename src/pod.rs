//! The Pod evaluator: the fixed sequence of rules that a Pod's namespace
//! flags and host ports must pass under given settings.
use vstd::prelude::*;
use vstd::string::StringExecFns;
use crate::settings::{PortRange, Settings};

verus! {

/// One port of a container; `host_port` is the node port it binds, if any.
#[derive(Clone, Copy, Debug, PartialEq, Eq, Structural)]
pub struct ContainerPortView {
    pub host_port: Option<i32>,
}

/// One container; an absent port list is the same as an empty one.
#[derive(Clone, Debug)]
pub struct ContainerView {
    pub ports: Option<Vec<ContainerPortView>>,
}

/// The part of a Pod specification that the policy reads.
#[derive(Clone, Debug)]
pub struct PodView {
    pub host_ipc: Option<bool>,
    pub host_network: Option<bool>,
    pub host_pid: Option<bool>,
    pub init_containers: Option<Vec<ContainerView>>,
    pub containers: Vec<ContainerView>,
}

/// The rules of the policy, in the order in which they are checked.
#[derive(Clone, Copy, Debug, PartialEq, Eq, Structural)]
pub enum Violation {
    HostIpc,
    HostNetwork,
    HostPid,
    InitContainerPorts,
    ContainerPorts,
}

/// An optional flag, absent meaning false.
pub open spec fn flag_set(f: Option<bool>) -> bool {
    f == Some(true)
}

/// The ports of a container, absent meaning none.
pub open spec fn ports_of(c: ContainerView) -> Seq<ContainerPortView> {
    match c.ports {
        Some(v) => v@,
        None => Seq::empty(),
    }
}

/// The init containers of a Pod, absent meaning none.
pub open spec fn init_containers_of(pod: PodView) -> Seq<ContainerView> {
    match pod.init_containers {
        Some(v) => v@,
        None => Seq::empty(),
    }
}

/// Some range of the list contains `port`.
pub open spec fn covered(port: int, ranges: Seq<PortRange>) -> bool {
    exists|i: int| 0 <= i < ranges.len() && #[trigger] ranges[i].contains(port)
}

/// A port that requests no host port is always allowed; one that does must be
/// covered by the allow-list.
pub open spec fn host_port_ok(host_port: Option<i32>, ranges: Seq<PortRange>) -> bool {
    match host_port {
        Some(p) => covered(p as int, ranges),
        None => true,
    }
}

/// Every port of the container is allowed.
pub open spec fn container_ok(c: ContainerView, ranges: Seq<PortRange>) -> bool {
    forall|k: int| 0 <= k < ports_of(c).len() ==> host_port_ok(#[trigger] ports_of(c)[k].host_port, ranges)
}

/// Every container of the sequence is allowed.
pub open spec fn containers_ok(cs: Seq<ContainerView>, ranges: Seq<PortRange>) -> bool {
    forall|j: int| 0 <= j < cs.len() ==> container_ok(#[trigger] cs[j], ranges)
}

/// The rule `v` is broken by `pod` under `s`.
pub open spec fn violates(pod: PodView, s: Settings, v: Violation) -> bool {
    match v {
        Violation::HostIpc => flag_set(pod.host_ipc) && !s.allow_host_ipc,
        Violation::HostNetwork => flag_set(pod.host_network) && !s.allow_host_network,
        Violation::HostPid => flag_set(pod.host_pid) && !s.allow_host_pid,
        Violation::InitContainerPorts => !containers_ok(init_containers_of(pod), s.allow_host_ports@),
        Violation::ContainerPorts => !containers_ok(pod.containers@, s.allow_host_ports@),
    }
}

/// The position of a rule in the order of evaluation.
pub open spec fn rank(v: Violation) -> int {
    match v {
        Violation::HostIpc => 0,
        Violation::HostNetwork => 1,
        Violation::HostPid => 2,
        Violation::InitContainerPorts => 3,
        Violation::ContainerPorts => 4,
    }
}

/// The first rule, in order, that the Pod breaks; none for an absent Pod
/// specification.
pub open spec fn first_violation(pod: Option<PodView>, s: Settings) -> Option<Violation> {
    match pod {
        None => None,
        Some(p) => if violates(p, s, Violation::HostIpc) {
            Some(Violation::HostIpc)
        } else if violates(p, s, Violation::HostNetwork) {
            Some(Violation::HostNetwork)
        } else if violates(p, s, Violation::HostPid) {
            Some(Violation::HostPid)
        } else if violates(p, s, Violation::InitContainerPorts) {
            Some(Violation::InitContainerPorts)
        } else if violates(p, s, Violation::ContainerPorts) {
            Some(Violation::ContainerPorts)
        } else {
            None
        },
    }
}

/// The reason given for a broken rule.
pub open spec fn violation_message(v: Violation) -> Seq<char> {
    match v {
        Violation::HostIpc => "Pod has IPC enabled, but this is not allowed"@,
        Violation::HostNetwork => "Pod has host network enabled, but this is not allowed"@,
        Violation::HostPid => "Pod has host PID enabled, but this is not allowed"@,
        Violation::InitContainerPorts => "Pod is using unallowed host ports in init containers"@,
        Violation::ContainerPorts => "Pod is using unallowed host ports in containers"@,
    }
}

/// The decision owed for a Pod under given settings: allowed, or rejected with
/// the reason of the first broken rule.
pub open spec fn decision(pod: Option<PodView>, s: Settings) -> Result<(), Seq<char>> {
    match first_violation(pod, s) {
        None => Ok(()),
        Some(v) => Err(violation_message(v)),
    }
}

/// A decision as returned, with its reason viewed as characters.
pub open spec fn decision_view(r: Result<(), String>) -> Result<(), Seq<char>> {
    match r {
        Ok(()) => Ok(()),
        Err(m) => Err(m@),
    }
}

impl Violation {
    /// The reason given to the user for this broken rule.
    pub fn message(&self) -> (r: String)
        ensures
            r@ == violation_message(*self),
    {
        match self {
            Violation::HostIpc => String::from_str("Pod has IPC enabled, but this is not allowed"),
            Violation::HostNetwork => String::from_str(
                "Pod has host network enabled, but this is not allowed",
            ),
            Violation::HostPid => String::from_str(
                "Pod has host PID enabled, but this is not allowed",
            ),
            Violation::InitContainerPorts => String::from_str(
                "Pod is using unallowed host ports in init containers",
            ),
            Violation::ContainerPorts => String::from_str(
                "Pod is using unallowed host ports in containers",
            ),
        }
    }
}

/// Whether a container port's host port, if it requests one, lies in some
/// range of the allow-list.
pub fn host_port_allowed(host_port: Option<i32>, allowed_host_ports: &[PortRange]) -> (r: bool)
    ensures
        r == host_port_ok(host_port, allowed_host_ports@),
{
    match host_port {
        None => true,
        Some(p) => {
            let mut i: usize = 0;
            while i < allowed_host_ports.len()
                invariant
                    host_port == Some(p),
                    i <= allowed_host_ports@.len(),
                    forall|j: int| 0 <= j < i ==> !(#[trigger] allowed_host_ports@[j]).contains(p as int),
                decreases allowed_host_ports@.len() - i,
            {
                if allowed_host_ports[i].in_range(p) {
                    assert(allowed_host_ports@[i as int].contains(p as int));
                    return true;
                }
                i = i + 1;
            }
            false
        },
    }
}

/// Whether every port of the container is allowed.
pub fn container_allowed(container: &ContainerView, allowed_host_ports: &[PortRange]) -> (r: bool)
    ensures
        r == container_ok(*container, allowed_host_ports@),
{
    match &container.ports {
        None => true,
        Some(ports) => {
            let mut k: usize = 0;
            while k < ports.len()
                invariant
                    ports_of(*container) == ports@,
                    k <= ports@.len(),
                    forall|j: int| 0 <= j < k ==> host_port_ok(#[trigger] ports@[j].host_port, allowed_host_ports@),
                decreases ports@.len() - k,
            {
                if !host_port_allowed(ports[k].host_port, allowed_host_ports) {
                    return false;
                }
                k = k + 1;
            }
            true
        },
    }
}

/// Whether every port of every container of the list is allowed.
pub fn all_containers_allowed(containers: &[ContainerView], allowed_host_ports: &[PortRange]) -> (r: bool)
    ensures
        r == containers_ok(containers@, allowed_host_ports@),
{
    let mut j: usize = 0;
    while j < containers.len()
        invariant
            j <= containers@.len(),
            forall|i: int| 0 <= i < j ==> container_ok(#[trigger] containers@[i], allowed_host_ports@),
        decreases containers@.len() - j,
    {
        if !container_allowed(&containers[j], allowed_host_ports) {
            return false;
        }
        j = j + 1;
    }
    true
}

/// Evaluates the policy on a Pod specification: `Ok` when it is allowed (an
/// absent specification always is), otherwise the reason of the first broken
/// rule.
pub fn validate_pod_spec(pod_spec_opt: Option<PodView>, settings: &Settings) -> (r: Result<(), String>)
    ensures
        decision_view(r) == decision(pod_spec_opt, *settings),
{
    let pod_spec = match pod_spec_opt {
        None => return Ok(()),
        Some(p) => p,
    };
    let found = if pod_spec.host_ipc == Some(true) && !settings.allow_host_ipc {
        Some(Violation::HostIpc)
    } else if pod_spec.host_network == Some(true) && !settings.allow_host_network {
        Some(Violation::HostNetwork)
    } else if pod_spec.host_pid == Some(true) && !settings.allow_host_pid {
        Some(Violation::HostPid)
    } else {
        let init_ok = match &pod_spec.init_containers {
            Some(cs) => all_containers_allowed(cs.as_slice(), settings.allow_host_ports.as_slice()),
            None => true,
        };
        if !init_ok {
            Some(Violation::InitContainerPorts)
        } else if !all_containers_allowed(
            pod_spec.containers.as_slice(),
            settings.allow_host_ports.as_slice(),
        ) {
            Some(Violation::ContainerPorts)
        } else {
            None
        }
    };
    match found {
        None => Ok(()),
        Some(v) => Err(v.message()),
    }
}

/// No container of the sequence requests a host port.
pub open spec fn no_host_ports(cs: Seq<ContainerView>) -> bool {
    forall|j: int, k: int|
        0 <= j < cs.len() && 0 <= k < ports_of(cs[j]).len() ==> (#[trigger] ports_of(
            cs[j],
        )[k]).host_port is None
}

/// The IPC rule: a Pod that asks for the host IPC namespace where it is not
/// allowed is rejected for it; where it is allowed the Pod's flag changes
/// nothing, and where the Pod does not ask, the setting changes nothing.
pub proof fn lemma_host_ipc_gating(pod: PodView, s: Settings, flag: Option<bool>, allow: bool)
    ensures
        flag_set(pod.host_ipc) && !s.allow_host_ipc ==> decision(Some(pod), s) == Err::<(), Seq<char>>(
            violation_message(Violation::HostIpc),
        ),
        s.allow_host_ipc ==> decision(Some(PodView { host_ipc: flag, ..pod }), s) == decision(Some(pod), s),
        !flag_set(pod.host_ipc) ==> decision(Some(pod), Settings { allow_host_ipc: allow, ..s }) == decision(
            Some(pod),
            s,
        ),
{
}

/// The host network rule: once the IPC rule has passed, a Pod that asks for
/// the host network where it is not allowed is rejected for it; where it is
/// allowed the Pod's flag changes nothing, and where the Pod does not ask,
/// the setting changes nothing.
pub proof fn lemma_host_network_gating(pod: PodView, s: Settings, flag: Option<bool>, allow: bool)
    ensures
        !violates(pod, s, Violation::HostIpc) && flag_set(pod.host_network) && !s.allow_host_network
            ==> decision(Some(pod), s) == Err::<(), Seq<char>>(violation_message(Violation::HostNetwork)),
        s.allow_host_network ==> decision(Some(PodView { host_network: flag, ..pod }), s) == decision(
            Some(pod),
            s,
        ),
        !flag_set(pod.host_network) ==> decision(Some(pod), Settings { allow_host_network: allow, ..s })
            == decision(Some(pod), s),
{
}

/// The host PID rule: once the IPC and network rules have passed, a Pod that
/// asks for the host PID namespace where it is not allowed is rejected for
/// it; where it is allowed the Pod's flag changes nothing, and where the Pod
/// does not ask, the setting changes nothing.
pub proof fn lemma_host_pid_gating(pod: PodView, s: Settings, flag: Option<bool>, allow: bool)
    ensures
        !violates(pod, s, Violation::HostIpc) && !violates(pod, s, Violation::HostNetwork) && flag_set(
            pod.host_pid,
        ) && !s.allow_host_pid ==> decision(Some(pod), s) == Err::<(), Seq<char>>(
            violation_message(Violation::HostPid),
        ),
        s.allow_host_pid ==> decision(Some(PodView { host_pid: flag, ..pod }), s) == decision(Some(pod), s),
        !flag_set(pod.host_pid) ==> decision(Some(pod), Settings { allow_host_pid: allow, ..s }) == decision(
            Some(pod),
            s,
        ),
{
}

/// A Pod that breaks a rule is rejected, for that rule or one before it, and
/// for the earliest rule that it breaks.
pub proof fn lemma_rule_precedence(pod: PodView, s: Settings, v: Violation)
    requires
        violates(pod, s, v),
    ensures
        first_violation(Some(pod), s) matches Some(w) && rank(w) <= rank(v) && violates(pod, s, w)
            && forall|u: Violation| rank(u) < rank(w) ==> !#[trigger] violates(pod, s, u),
        decision(Some(pod), s) is Err,
{
}

/// A Pod none of whose containers requests a host port passes both port rules,
/// and its decision is the same whatever the allow-list.
pub proof fn lemma_absent_host_ports(pod: PodView, s: Settings, ranges: Vec<PortRange>)
    requires
        no_host_ports(init_containers_of(pod)),
        no_host_ports(pod.containers@),
    ensures
        !violates(pod, s, Violation::InitContainerPorts),
        !violates(pod, s, Violation::ContainerPorts),
        decision(Some(pod), Settings { allow_host_ports: ranges, ..s }) == decision(Some(pod), s),
{
    assert(containers_ok(init_containers_of(pod), ranges@));
    assert(containers_ok(pod.containers@, ranges@));
}

/// A request with no Pod specification is allowed under any settings.
pub proof fn lemma_no_spec_allowed(s: Settings)
    ensures
        decision(None, s) == Ok::<(), Seq<char>>(()),
{
}

/// Two evaluations of the same Pod under the same settings give the same
/// decision, with the same reason.
pub proof fn lemma_evaluation_deterministic(
    pod: Option<PodView>,
    s: Settings,
    r1: Result<(), String>,
    r2: Result<(), String>,
)
    requires
        decision_view(r1) == decision(pod, s),
        decision_view(r2) == decision(pod, s),
    ensures
        r1 is Ok <==> r2 is Ok,
        decision_view(r1) == decision_view(r2),
{
}

} // verus!
