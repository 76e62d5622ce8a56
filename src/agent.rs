//! The node agent as a state machine. The caller owns the transport: it
//! performs each action (connect, send, accept, sleep, call the container
//! runtime) and reports the outcome as the next event. The agent never
//! stops on its own: every failure leads back to a connection attempt.
use vstd::prelude::*;

use crate::message::{MessageView, Node, ObjectMeta, PodTask, RksMessage};

verus! {

/// Seconds between connection attempts.
pub const CONNECT_RETRY_SECS: u64 = 2;

/// Seconds before a new connection lifecycle after one failed.
pub const LIFECYCLE_RETRY_SECS: u64 = 3;

/// Seconds before a new connection lifecycle after the peer closed.
pub const RECONNECT_SECS: u64 = 1;

/// Seconds to wait for the reply to registration.
pub const REGISTRATION_TIMEOUT_SECS: u64 = 3;

/// Seconds between heartbeats.
pub const HEARTBEAT_INTERVAL_SECS: u64 = 5;

#[derive(Debug, Clone, Copy, PartialEq, Eq)]
pub enum AgentPhase {
    /// waiting before a connection attempt
    Backoff,
    Connecting,
    /// the registration is being sent
    Registering,
    /// waiting, for a bounded time, for the reply to registration
    AwaitingAck,
    StartingHeartbeat,
    /// waiting for the next inbound stream
    Operational,
    /// the runtime builds the task of the pending pod
    Building,
    /// the runtime runs the task of the pending pod
    Running,
    /// the runtime deletes the pending pod
    Deleting,
    /// the one reply to the last command is being sent
    Replying,
    /// the heartbeat of a closed session is being stopped
    StoppingHeartbeat,
}

/// The outcome of the last action.
#[derive(Debug)]
pub enum AgentEvent {
    Slept,
    Connected,
    ConnectFailed,
    /// the local endpoint or its TLS setup could not be made
    SetupFailed,
    /// a message was sent, or failed to be
    Sent(bool),
    /// the registration wait ended: a reply came, or none did in time
    RegistrationReply,
    HeartbeatStarted,
    HeartbeatStopped,
    /// an inbound stream was read; `None` when its bytes did not decode
    Received(Option<RksMessage>),
    /// an inbound stream was accepted but could not be read
    ReadFailed,
    /// no inbound stream can be accepted any more
    AcceptFailed,
    TaskBuilt(Result<(), String>),
    TaskRan(Result<(), String>),
    PodDeleted(Result<(), String>),
}

/// What the caller is to do next.
#[derive(Debug)]
pub enum AgentAction {
    Connect,
    Sleep(u64),
    /// open a new stream, write this message, finish the stream
    Send(RksMessage),
    AwaitRegistrationReply(u64),
    /// send a heartbeat with this node name at this interval, on streams of
    /// its own, until stopped
    StartHeartbeat(String, u64),
    StopHeartbeat,
    Accept,
    BuildTask(PodTask),
    RunTask,
    DeletePod(String),
}

/// An action seen as a value.
pub enum AgentStep {
    Connect,
    Sleep(u64),
    Send(MessageView),
    AwaitRegistrationReply(u64),
    StartHeartbeat(Seq<char>, u64),
    StopHeartbeat,
    Accept,
    BuildTask(Seq<char>),
    RunTask,
    DeletePod(Seq<char>),
}

impl View for AgentAction {
    type V = AgentStep;

    open spec fn view(&self) -> AgentStep {
        match self {
            AgentAction::Connect => AgentStep::Connect,
            AgentAction::Sleep(s) => AgentStep::Sleep(*s),
            AgentAction::Send(m) => AgentStep::Send(m@),
            AgentAction::AwaitRegistrationReply(s) => AgentStep::AwaitRegistrationReply(*s),
            AgentAction::StartHeartbeat(n, s) => AgentStep::StartHeartbeat(n@, *s),
            AgentAction::StopHeartbeat => AgentStep::StopHeartbeat,
            AgentAction::Accept => AgentStep::Accept,
            AgentAction::BuildTask(p) => AgentStep::BuildTask(p.metadata.name@),
            AgentAction::RunTask => AgentStep::RunTask,
            AgentAction::DeletePod(n) => AgentStep::DeletePod(n@),
        }
    }
}

/// An agent seen as a value: its node's name, its phase, and the name of
/// the pod whose command is in progress.
pub struct AgentModel {
    pub node_name: Seq<char>,
    pub phase: AgentPhase,
    pub pending: Seq<char>,
}

/// The agent of one node.
#[derive(Debug)]
pub struct NodeAgent {
    pub node: Node,
    pub phase: AgentPhase,
    /// the pod whose command is in progress
    pub pending: String,
}

impl View for NodeAgent {
    type V = AgentModel;

    open spec fn view(&self) -> AgentModel {
        AgentModel { node_name: self.node.metadata.name@, phase: self.phase, pending: self.pending@ }
    }
}

pub open spec fn mismatch_text(pod: Seq<char>, target: Seq<char>, own: Seq<char>) -> Seq<char> {
    "pod "@ + pod + " target node mismatch: target="@ + target + ", self="@ + own
}

pub open spec fn create_failed_text(pod: Seq<char>, err: Seq<char>) -> Seq<char> {
    "create "@ + pod + " failed: "@ + err
}

pub open spec fn delete_failed_text(pod: Seq<char>, err: Seq<char>) -> Seq<char> {
    "delete "@ + pod + " failed: "@ + err
}

/// The pod is addressed to another node than `own`.
pub open spec fn misdirected(pod: PodTask, own: Seq<char>) -> bool {
    match pod.spec.nodename {
        Some(t) => t@ != own,
        None => false,
    }
}

/// The events that the pending action of phase `phase` can report.
pub open spec fn agent_accepts(phase: AgentPhase, e: AgentEvent) -> bool {
    match phase {
        AgentPhase::Backoff => e is Slept,
        AgentPhase::Connecting => e is Connected || e is ConnectFailed || e is SetupFailed,
        AgentPhase::Registering => e is Sent,
        AgentPhase::AwaitingAck => e is RegistrationReply,
        AgentPhase::StartingHeartbeat => e is HeartbeatStarted,
        AgentPhase::Operational => e is Received || e is ReadFailed || e is AcceptFailed,
        AgentPhase::Building => e is TaskBuilt,
        AgentPhase::Running => e is TaskRan,
        AgentPhase::Deleting => e is PodDeleted,
        AgentPhase::Replying => e is Sent,
        AgentPhase::StoppingHeartbeat => e is HeartbeatStopped,
    }
}

pub open spec fn in_phase(m: AgentModel, phase: AgentPhase) -> AgentModel {
    AgentModel { node_name: m.node_name, phase, pending: m.pending }
}

/// The next state and action of the agent after event `e`.
pub open spec fn agent_next(m: AgentModel, e: AgentEvent) -> (AgentModel, AgentStep) {
    match (m.phase, e) {
        (AgentPhase::Backoff, AgentEvent::Slept) => (in_phase(m, AgentPhase::Connecting), AgentStep::Connect),
        (AgentPhase::Connecting, AgentEvent::Connected) => (
            in_phase(m, AgentPhase::Registering),
            AgentStep::Send(MessageView::RegisterNode(m.node_name)),
        ),
        (AgentPhase::Connecting, AgentEvent::ConnectFailed) => (
            in_phase(m, AgentPhase::Backoff),
            AgentStep::Sleep(CONNECT_RETRY_SECS),
        ),
        (AgentPhase::Connecting, AgentEvent::SetupFailed) => (
            in_phase(m, AgentPhase::Backoff),
            AgentStep::Sleep(LIFECYCLE_RETRY_SECS),
        ),
        (AgentPhase::Registering, AgentEvent::Sent(ok)) => if ok {
            (
                in_phase(m, AgentPhase::AwaitingAck),
                AgentStep::AwaitRegistrationReply(REGISTRATION_TIMEOUT_SECS),
            )
        } else {
            (in_phase(m, AgentPhase::Backoff), AgentStep::Sleep(LIFECYCLE_RETRY_SECS))
        },
        (AgentPhase::AwaitingAck, AgentEvent::RegistrationReply) => (
            in_phase(m, AgentPhase::StartingHeartbeat),
            AgentStep::StartHeartbeat(m.node_name, HEARTBEAT_INTERVAL_SECS),
        ),
        (AgentPhase::StartingHeartbeat, AgentEvent::HeartbeatStarted) => (
            in_phase(m, AgentPhase::Operational),
            AgentStep::Accept,
        ),
        (AgentPhase::Operational, AgentEvent::Received(Some(RksMessage::CreatePod(pod)))) => {
            if misdirected(pod, m.node_name) {
                (
                    in_phase(m, AgentPhase::Replying),
                    AgentStep::Send(
                        MessageView::Error(
                            mismatch_text(pod.metadata.name@, pod.spec.nodename.unwrap()@, m.node_name),
                        ),
                    ),
                )
            } else {
                (
                    AgentModel {
                        node_name: m.node_name,
                        phase: AgentPhase::Building,
                        pending: pod.metadata.name@,
                    },
                    AgentStep::BuildTask(pod.metadata.name@),
                )
            }
        },
        (AgentPhase::Operational, AgentEvent::Received(Some(RksMessage::DeletePod(name)))) => (
            AgentModel { node_name: m.node_name, phase: AgentPhase::Deleting, pending: name@ },
            AgentStep::DeletePod(name@),
        ),
        (AgentPhase::Operational, AgentEvent::Received(_)) => (m, AgentStep::Accept),
        (AgentPhase::Operational, AgentEvent::ReadFailed) => (m, AgentStep::Accept),
        (AgentPhase::Operational, AgentEvent::AcceptFailed) => (
            in_phase(m, AgentPhase::StoppingHeartbeat),
            AgentStep::StopHeartbeat,
        ),
        (AgentPhase::StoppingHeartbeat, AgentEvent::HeartbeatStopped) => (
            in_phase(m, AgentPhase::Backoff),
            AgentStep::Sleep(RECONNECT_SECS),
        ),
        (AgentPhase::Building, AgentEvent::TaskBuilt(res)) => match res {
            Ok(()) => (in_phase(m, AgentPhase::Running), AgentStep::RunTask),
            Err(t) => (
                in_phase(m, AgentPhase::Replying),
                AgentStep::Send(MessageView::Error(create_failed_text(m.pending, t@))),
            ),
        },
        (AgentPhase::Running, AgentEvent::TaskRan(res)) => match res {
            Ok(()) => (in_phase(m, AgentPhase::Replying), AgentStep::Send(MessageView::Ack)),
            Err(t) => (
                in_phase(m, AgentPhase::Replying),
                AgentStep::Send(MessageView::Error(create_failed_text(m.pending, t@))),
            ),
        },
        (AgentPhase::Deleting, AgentEvent::PodDeleted(res)) => match res {
            Ok(()) => (in_phase(m, AgentPhase::Replying), AgentStep::Send(MessageView::Ack)),
            Err(t) => (
                in_phase(m, AgentPhase::Replying),
                AgentStep::Send(MessageView::Error(delete_failed_text(m.pending, t@))),
            ),
        },
        (AgentPhase::Replying, AgentEvent::Sent(_)) => (in_phase(m, AgentPhase::Operational), AgentStep::Accept),
        _ => (m, AgentStep::Accept),
    }
}

fn copy_node(n: &Node) -> (r: Node)
    ensures
        r.metadata.name@ == n.metadata.name@,
        r.address@ == n.address@,
{
    Node { metadata: ObjectMeta { name: n.metadata.name.clone() }, address: n.address.clone() }
}

fn joined3(a: &str, b: &str, c: &str, d: &str, e: &str, f: &str) -> (r: String)
    ensures
        r@ == a@ + b@ + c@ + d@ + e@ + f@,
{
    let mut s = a.to_owned();
    s.append(b);
    s.append(c);
    s.append(d);
    s.append(e);
    s.append(f);
    s
}

fn joined2(a: &str, b: &str, c: &str, d: &str) -> (r: String)
    ensures
        r@ == a@ + b@ + c@ + d@,
{
    let mut s = a.to_owned();
    s.append(b);
    s.append(c);
    s.append(d);
    s
}

impl NodeAgent {
    /// A disconnected agent for `node`, and its first action.
    pub fn new(node: Node) -> (r: (NodeAgent, AgentAction))
        ensures
            r.0@ == (AgentModel { node_name: node.metadata.name@, phase: AgentPhase::Connecting, pending: Seq::empty() }),
            r.0.node.address@ == node.address@,
            r.1@ == AgentStep::Connect,
    {
        let agent = NodeAgent { node, phase: AgentPhase::Connecting, pending: String::new() };
        (agent, AgentAction::Connect)
    }

    /// `e` is an outcome that the pending action can have.
    pub fn accepts(&self, e: &AgentEvent) -> (r: bool)
        ensures
            r == agent_accepts(self.phase, *e),
    {
        match self.phase {
            AgentPhase::Backoff => matches!(e, AgentEvent::Slept),
            AgentPhase::Connecting => matches!(e, AgentEvent::Connected) || matches!(e, AgentEvent::ConnectFailed)
                || matches!(e, AgentEvent::SetupFailed),
            AgentPhase::Registering => matches!(e, AgentEvent::Sent(_)),
            AgentPhase::AwaitingAck => matches!(e, AgentEvent::RegistrationReply),
            AgentPhase::StartingHeartbeat => matches!(e, AgentEvent::HeartbeatStarted),
            AgentPhase::Operational => matches!(e, AgentEvent::Received(_)) || matches!(e, AgentEvent::ReadFailed)
                || matches!(e, AgentEvent::AcceptFailed),
            AgentPhase::Building => matches!(e, AgentEvent::TaskBuilt(_)),
            AgentPhase::Running => matches!(e, AgentEvent::TaskRan(_)),
            AgentPhase::Deleting => matches!(e, AgentEvent::PodDeleted(_)),
            AgentPhase::Replying => matches!(e, AgentEvent::Sent(_)),
            AgentPhase::StoppingHeartbeat => matches!(e, AgentEvent::HeartbeatStopped),
        }
    }

    /// The heartbeat message of this agent's node.
    pub fn heartbeat(&self) -> (r: RksMessage)
        ensures
            r@ == MessageView::Heartbeat(self.node.metadata.name@),
    {
        RksMessage::Heartbeat(self.node.metadata.name.clone())
    }

    /// Takes in the outcome of the last action and gives the next one.
    pub fn step(&mut self, e: AgentEvent) -> (r: AgentAction)
        requires
            agent_accepts(old(self).phase, e),
        ensures
            (final(self)@, r@) == agent_next(old(self)@, e),
            final(self).node.address@ == old(self).node.address@,
            r matches AgentAction::BuildTask(p) ==> e matches AgentEvent::Received(Some(RksMessage::CreatePod(q)))
                && p == q,
            r matches AgentAction::Send(RksMessage::RegisterNode(n)) ==> n.address@ == old(self).node.address@,
    {
        match e {
            AgentEvent::Slept => {
                self.phase = AgentPhase::Connecting;
                AgentAction::Connect
            },
            AgentEvent::Connected => {
                self.phase = AgentPhase::Registering;
                AgentAction::Send(RksMessage::RegisterNode(copy_node(&self.node)))
            },
            AgentEvent::ConnectFailed => {
                self.phase = AgentPhase::Backoff;
                AgentAction::Sleep(CONNECT_RETRY_SECS)
            },
            AgentEvent::SetupFailed => {
                self.phase = AgentPhase::Backoff;
                AgentAction::Sleep(LIFECYCLE_RETRY_SECS)
            },
            AgentEvent::Sent(ok) => {
                if matches!(self.phase, AgentPhase::Registering) {
                    if ok {
                        self.phase = AgentPhase::AwaitingAck;
                        AgentAction::AwaitRegistrationReply(REGISTRATION_TIMEOUT_SECS)
                    } else {
                        self.phase = AgentPhase::Backoff;
                        AgentAction::Sleep(LIFECYCLE_RETRY_SECS)
                    }
                } else {
                    self.phase = AgentPhase::Operational;
                    AgentAction::Accept
                }
            },
            AgentEvent::RegistrationReply => {
                self.phase = AgentPhase::StartingHeartbeat;
                AgentAction::StartHeartbeat(self.node.metadata.name.clone(), HEARTBEAT_INTERVAL_SECS)
            },
            AgentEvent::HeartbeatStarted => {
                self.phase = AgentPhase::Operational;
                AgentAction::Accept
            },
            AgentEvent::HeartbeatStopped => {
                self.phase = AgentPhase::Backoff;
                AgentAction::Sleep(RECONNECT_SECS)
            },
            AgentEvent::Received(msg) => {
                match msg {
                    Some(RksMessage::CreatePod(pod)) => {
                        let mismatch = match &pod.spec.nodename {
                            Some(t) => !(*t == self.node.metadata.name),
                            None => false,
                        };
                        if mismatch {
                            let target = match &pod.spec.nodename {
                                Some(t) => t.as_str(),
                                None => "",
                            };
                            let text = joined3(
                                "pod ",
                                pod.metadata.name.as_str(),
                                " target node mismatch: target=",
                                target,
                                ", self=",
                                self.node.metadata.name.as_str(),
                            );
                            self.phase = AgentPhase::Replying;
                            AgentAction::Send(RksMessage::Error(text))
                        } else {
                            self.pending = pod.metadata.name.clone();
                            self.phase = AgentPhase::Building;
                            AgentAction::BuildTask(pod)
                        }
                    },
                    Some(RksMessage::DeletePod(name)) => {
                        self.pending = name.clone();
                        self.phase = AgentPhase::Deleting;
                        AgentAction::DeletePod(name)
                    },
                    _ => AgentAction::Accept,
                }
            },
            AgentEvent::ReadFailed => AgentAction::Accept,
            AgentEvent::AcceptFailed => {
                self.phase = AgentPhase::StoppingHeartbeat;
                AgentAction::StopHeartbeat
            },
            AgentEvent::TaskBuilt(res) => {
                match res {
                    Ok(()) => {
                        self.phase = AgentPhase::Running;
                        AgentAction::RunTask
                    },
                    Err(t) => {
                        self.phase = AgentPhase::Replying;
                        let text = joined2("create ", self.pending.as_str(), " failed: ", t.as_str());
                        AgentAction::Send(RksMessage::Error(text))
                    },
                }
            },
            AgentEvent::TaskRan(res) => {
                self.phase = AgentPhase::Replying;
                match res {
                    Ok(()) => AgentAction::Send(RksMessage::Ack),
                    Err(t) => {
                        let text = joined2("create ", self.pending.as_str(), " failed: ", t.as_str());
                        AgentAction::Send(RksMessage::Error(text))
                    },
                }
            },
            AgentEvent::PodDeleted(res) => {
                self.phase = AgentPhase::Replying;
                match res {
                    Ok(()) => AgentAction::Send(RksMessage::Ack),
                    Err(t) => {
                        let text = joined2("delete ", self.pending.as_str(), " failed: ", t.as_str());
                        AgentAction::Send(RksMessage::Error(text))
                    },
                }
            },
        }
    }
}

/// A CreatePod addressed to another node is answered with an Error naming
/// both nodes, and the agent goes back to accepting streams once the reply
/// is sent: the pod's task is neither built nor run.
pub proof fn lemma_misdirected_pod_is_refused(m: AgentModel, pod: PodTask, sent: bool)
    requires
        m.phase == AgentPhase::Operational,
        misdirected(pod, m.node_name),
    ensures
        ({
            let (m1, a1) = agent_next(m, AgentEvent::Received(Some(RksMessage::CreatePod(pod))));
            let (m2, a2) = agent_next(m1, AgentEvent::Sent(sent));
            &&& a1 == AgentStep::Send(
                MessageView::Error(mismatch_text(pod.metadata.name@, pod.spec.nodename.unwrap()@, m.node_name)),
            )
            &&& m1.phase == AgentPhase::Replying
            &&& a2 == AgentStep::Accept
            &&& m2.phase == AgentPhase::Operational
        }),
{
}

/// The runtime is asked to run a task only right after it built one, and a
/// task is built only for a pod addressed to this node or to none.
pub proof fn lemma_run_requires_matching_target(m: AgentModel, e: AgentEvent)
    requires
        agent_accepts(m.phase, e),
    ensures
        agent_next(m, e).1 is RunTask ==> (m.phase == AgentPhase::Building && e matches AgentEvent::TaskBuilt(Ok(()))),
        agent_next(m, e).1 is BuildTask ==> (e matches AgentEvent::Received(
            Some(RksMessage::CreatePod(p)),
        ) && !misdirected(p, m.node_name)),
        agent_next(m, e).0.phase == AgentPhase::Building ==> (e matches AgentEvent::Received(
            Some(RksMessage::CreatePod(p)),
        ) && !misdirected(p, m.node_name)),
{
}

/// While a pod command is in progress, every outcome leads to exactly one
/// reply, an Ack or an Error, after which the agent accepts streams again;
/// the only other step is from a built task to running it.
pub proof fn lemma_command_gets_one_reply(m: AgentModel, e: AgentEvent)
    requires
        m.phase == AgentPhase::Building || m.phase == AgentPhase::Running || m.phase == AgentPhase::Deleting,
        agent_accepts(m.phase, e),
    ensures
        ({
            let (m1, a) = agent_next(m, e);
            ||| (m1.phase == AgentPhase::Replying && (a matches AgentStep::Send(r) && (r is Ack || r is Error)))
            ||| (m.phase == AgentPhase::Building && m1.phase == AgentPhase::Running && a is RunTask)
        }),
        ({
            let (m1, a) = agent_next(m, e);
            forall|sent: bool| m1.phase == AgentPhase::Replying ==> #[trigger] agent_next(m1, AgentEvent::Sent(sent))
                == (in_phase(m1, AgentPhase::Operational), AgentStep::Accept)
        }),
{
}

/// A lost session stops its heartbeat before the agent reconnects, and no
/// failure stops the agent: each one leads, after a pause, to a new
/// connection attempt.
pub proof fn lemma_failures_lead_to_reconnect(m: AgentModel)
    ensures
        m.phase == AgentPhase::Operational ==> agent_next(m, AgentEvent::AcceptFailed).1 is StopHeartbeat,
        m.phase == AgentPhase::StoppingHeartbeat ==> agent_next(m, AgentEvent::HeartbeatStopped)
            == (in_phase(m, AgentPhase::Backoff), AgentStep::Sleep(RECONNECT_SECS)),
        m.phase == AgentPhase::Connecting ==> agent_next(m, AgentEvent::ConnectFailed) == (
            in_phase(m, AgentPhase::Backoff),
            AgentStep::Sleep(CONNECT_RETRY_SECS),
        ),
        m.phase == AgentPhase::Connecting ==> agent_next(m, AgentEvent::SetupFailed) == (
            in_phase(m, AgentPhase::Backoff),
            AgentStep::Sleep(LIFECYCLE_RETRY_SECS),
        ),
        m.phase == AgentPhase::Registering ==> agent_next(m, AgentEvent::Sent(false)) == (
            in_phase(m, AgentPhase::Backoff),
            AgentStep::Sleep(LIFECYCLE_RETRY_SECS),
        ),
        m.phase == AgentPhase::Backoff ==> agent_next(m, AgentEvent::Slept) == (
            in_phase(m, AgentPhase::Connecting),
            AgentStep::Connect,
        ),
{
}

} // verus!
