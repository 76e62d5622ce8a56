//! The command/response vocabulary between the controller and node agents.
//! Each message travels alone on a one-shot unidirectional stream; its bytes
//! end where the stream ends.
use vstd::prelude::*;

use crate::up::ContainerSpec;

verus! {

/// Bytes read from one inbound stream: at most this many are kept.
pub const RECEIVE_BUFFER_LEN: usize = 4096;

#[derive(Debug)]
pub struct ObjectMeta {
    pub name: String,
}

/// A worker's identity document.
#[derive(Debug)]
pub struct Node {
    pub metadata: ObjectMeta,
    pub address: String,
}

#[derive(Debug)]
pub struct PodSpec {
    /// the node the pod is addressed to, if any
    pub nodename: Option<String>,
    pub containers: Vec<ContainerSpec>,
}

/// A unit of workload addressed to a node.
#[derive(Debug)]
pub struct PodTask {
    pub metadata: ObjectMeta,
    pub spec: PodSpec,
}

#[derive(Debug)]
pub enum RksMessage {
    RegisterNode(Node),
    Heartbeat(String),
    CreatePod(PodTask),
    DeletePod(String),
    Ack,
    Error(String),
}

/// A message seen as a value: names and texts, without workloads.
pub enum MessageView {
    RegisterNode(Seq<char>),
    Heartbeat(Seq<char>),
    CreatePod(Seq<char>, Option<Seq<char>>),
    DeletePod(Seq<char>),
    Ack,
    Error(Seq<char>),
}

impl View for RksMessage {
    type V = MessageView;

    open spec fn view(&self) -> MessageView {
        match self {
            RksMessage::RegisterNode(n) => MessageView::RegisterNode(n.metadata.name@),
            RksMessage::Heartbeat(n) => MessageView::Heartbeat(n@),
            RksMessage::CreatePod(p) => MessageView::CreatePod(
                p.metadata.name@,
                match p.spec.nodename {
                    Some(t) => Some(t@),
                    None => None,
                },
            ),
            RksMessage::DeletePod(n) => MessageView::DeletePod(n@),
            RksMessage::Ack => MessageView::Ack,
            RksMessage::Error(t) => MessageView::Error(t@),
        }
    }
}

/// What is kept of the bytes read from one stream: the first
/// `RECEIVE_BUFFER_LEN` of them.
pub fn received_frame(data: &Vec<u8>) -> (r: Vec<u8>)
    ensures
        r@ == if data.len() <= RECEIVE_BUFFER_LEN {
            data@
        } else {
            data@.subrange(0, RECEIVE_BUFFER_LEN as int)
        },
{
    let n = if data.len() <= RECEIVE_BUFFER_LEN { data.len() } else { RECEIVE_BUFFER_LEN };
    let mut out: Vec<u8> = Vec::new();
    let mut i: usize = 0;
    while i < n
        invariant
            i <= n <= data.len(),
            out@ == data@.subrange(0, i as int),
        decreases n - i,
    {
        out.push(data[i]);
        i = i + 1;
        assert(out@ =~= data@.subrange(0, i as int));
    }
    assert(data@.subrange(0, data.len() as int) =~= data@);
    out
}

} // verus!
