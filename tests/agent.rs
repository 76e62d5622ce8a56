use rkl::agent::{AgentAction, AgentEvent, AgentPhase, NodeAgent};
use rkl::message::{received_frame, Node, ObjectMeta, PodSpec, PodTask, RksMessage, RECEIVE_BUFFER_LEN};

fn node(name: &str) -> Node {
    Node { metadata: ObjectMeta { name: name.to_string() }, address: "10.0.0.2:9000".to_string() }
}

fn pod(name: &str, target: Option<&str>) -> PodTask {
    PodTask {
        metadata: ObjectMeta { name: name.to_string() },
        spec: PodSpec { nodename: target.map(|t| t.to_string()), containers: vec![] },
    }
}

fn operational(name: &str) -> NodeAgent {
    let (mut agent, first) = NodeAgent::new(node(name));
    assert!(matches!(first, AgentAction::Connect));
    match agent.step(AgentEvent::Connected) {
        AgentAction::Send(RksMessage::RegisterNode(n)) => {
            assert_eq!(n.metadata.name, name);
            assert_eq!(n.address, "10.0.0.2:9000");
        }
        other => panic!("unexpected {:?}", other),
    }
    assert!(matches!(agent.step(AgentEvent::Sent(true)), AgentAction::AwaitRegistrationReply(3)));
    match agent.step(AgentEvent::RegistrationReply) {
        AgentAction::StartHeartbeat(n, 5) => assert_eq!(n, name),
        other => panic!("unexpected {:?}", other),
    }
    assert!(matches!(agent.step(AgentEvent::HeartbeatStarted), AgentAction::Accept));
    assert_eq!(agent.phase, AgentPhase::Operational);
    agent
}

#[test]
fn misdirected_pod_gets_error_and_is_not_run() {
    let mut agent = operational("node-a");
    let action = agent.step(AgentEvent::Received(Some(RksMessage::CreatePod(pod("web", Some("node-b"))))));
    match action {
        AgentAction::Send(RksMessage::Error(text)) => {
            assert_eq!(text, "pod web target node mismatch: target=node-b, self=node-a")
        }
        other => panic!("unexpected {:?}", other),
    }
    assert_eq!(agent.phase, AgentPhase::Replying);
    assert!(matches!(agent.step(AgentEvent::Sent(true)), AgentAction::Accept));
    assert_eq!(agent.phase, AgentPhase::Operational);
}

#[test]
fn pod_for_this_node_is_built_run_and_acked() {
    let mut agent = operational("node-a");
    match agent.step(AgentEvent::Received(Some(RksMessage::CreatePod(pod("web", Some("node-a")))))) {
        AgentAction::BuildTask(p) => assert_eq!(p.metadata.name, "web"),
        other => panic!("unexpected {:?}", other),
    }
    assert!(matches!(agent.step(AgentEvent::TaskBuilt(Ok(()))), AgentAction::RunTask));
    assert!(matches!(agent.step(AgentEvent::TaskRan(Ok(()))), AgentAction::Send(RksMessage::Ack)));
    assert!(matches!(agent.step(AgentEvent::Sent(false)), AgentAction::Accept));
}

#[test]
fn untargeted_pod_failures_are_reported() {
    let mut agent = operational("node-a");
    assert!(matches!(
        agent.step(AgentEvent::Received(Some(RksMessage::CreatePod(pod("db", None))))),
        AgentAction::BuildTask(_)
    ));
    match agent.step(AgentEvent::TaskBuilt(Err("bad image".to_string()))) {
        AgentAction::Send(RksMessage::Error(text)) => assert_eq!(text, "create db failed: bad image"),
        other => panic!("unexpected {:?}", other),
    }
    agent.step(AgentEvent::Sent(true));
    agent.step(AgentEvent::Received(Some(RksMessage::CreatePod(pod("db", None)))));
    agent.step(AgentEvent::TaskBuilt(Ok(())));
    match agent.step(AgentEvent::TaskRan(Err("oom".to_string()))) {
        AgentAction::Send(RksMessage::Error(text)) => assert_eq!(text, "create db failed: oom"),
        other => panic!("unexpected {:?}", other),
    }
}

#[test]
fn delete_pod_is_answered() {
    let mut agent = operational("n");
    match agent.step(AgentEvent::Received(Some(RksMessage::DeletePod("web".to_string())))) {
        AgentAction::DeletePod(name) => assert_eq!(name, "web"),
        other => panic!("unexpected {:?}", other),
    }
    match agent.step(AgentEvent::PodDeleted(Err("gone".to_string()))) {
        AgentAction::Send(RksMessage::Error(text)) => assert_eq!(text, "delete web failed: gone"),
        other => panic!("unexpected {:?}", other),
    }
    agent.step(AgentEvent::Sent(true));
    agent.step(AgentEvent::Received(Some(RksMessage::DeletePod("web".to_string()))));
    assert!(matches!(agent.step(AgentEvent::PodDeleted(Ok(()))), AgentAction::Send(RksMessage::Ack)));
}

#[test]
fn other_messages_and_garbage_get_no_reply() {
    let mut agent = operational("n");
    assert!(matches!(agent.step(AgentEvent::Received(None)), AgentAction::Accept));
    assert!(matches!(agent.step(AgentEvent::Received(Some(RksMessage::Ack))), AgentAction::Accept));
    assert!(matches!(agent.step(AgentEvent::ReadFailed), AgentAction::Accept));
    assert_eq!(agent.phase, AgentPhase::Operational);
}

#[test]
fn failures_lead_back_to_connecting() {
    let mut agent = operational("n");
    assert!(matches!(agent.step(AgentEvent::AcceptFailed), AgentAction::StopHeartbeat));
    assert!(matches!(agent.step(AgentEvent::HeartbeatStopped), AgentAction::Sleep(1)));
    assert!(matches!(agent.step(AgentEvent::Slept), AgentAction::Connect));
    assert!(matches!(agent.step(AgentEvent::ConnectFailed), AgentAction::Sleep(2)));
    agent.step(AgentEvent::Slept);
    assert!(matches!(agent.step(AgentEvent::SetupFailed), AgentAction::Sleep(3)));
    agent.step(AgentEvent::Slept);
    agent.step(AgentEvent::Connected);
    assert!(matches!(agent.step(AgentEvent::Sent(false)), AgentAction::Sleep(3)));
    assert_eq!(agent.phase, AgentPhase::Backoff);
}

#[test]
fn heartbeat_names_the_node() {
    let agent = operational("worker-7");
    match agent.heartbeat() {
        RksMessage::Heartbeat(n) => assert_eq!(n, "worker-7"),
        other => panic!("unexpected {:?}", other),
    }
}

#[test]
fn received_frames_are_capped() {
    let big = vec![7u8; RECEIVE_BUFFER_LEN + 10];
    assert_eq!(received_frame(&big).len(), 4096);
    let small = vec![1u8, 2, 3];
    assert_eq!(received_frame(&small), small);
}
