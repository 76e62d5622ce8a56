//! Compose-style port strings and the port-mapping descriptors built from
//! them.
use vstd::prelude::*;

use crate::error::ComposeError;
use crate::text::{i32_text, parse_i32, split_fields, split_on};

verus! {

/// A published port of a container.
#[derive(Debug, Clone, PartialEq, Eq)]
pub struct Port {
    pub container_port: i32,
    pub protocol: String,
    pub host_port: i32,
    pub host_ip: String,
}

/// What a port string denotes, as (host ip, host port, container port):
/// `"hostPort:containerPort"` with an empty host ip, or
/// `"hostIP:hostPort:containerPort"`; both ports must read as `i32`.
pub open spec fn port_mapping(s: Seq<char>) -> Option<(Seq<char>, i32, i32)> {
    let f = split_on(s, ':');
    if f.len() == 2 {
        match (i32_text(f[0]), i32_text(f[1])) {
            (Some(h), Some(c)) => Some((Seq::<char>::empty(), h, c)),
            _ => None,
        }
    } else if f.len() == 3 {
        match (i32_text(f[1]), i32_text(f[2])) {
            (Some(h), Some(c)) => Some((f[0], h, c)),
            _ => None,
        }
    } else {
        None
    }
}

impl Port {
    /// This descriptor carries mapping `m`, with no protocol set.
    pub open spec fn describes(&self, m: (Seq<char>, i32, i32)) -> bool {
        &&& self.host_ip@ == m.0
        &&& self.host_port == m.1
        &&& self.container_port == m.2
        &&& self.protocol@ == Seq::<char>::empty()
    }
}

/// Every string of `ports` is a valid port mapping.
pub open spec fn all_port_mappings_valid(ports: Seq<String>) -> bool {
    forall|i: int| 0 <= i < ports.len() ==> (#[trigger] port_mapping(ports[i]@)).is_some()
}

fn map_one_port(s: &String) -> (r: Option<Port>)
    ensures
        match r {
            Some(p) => port_mapping(s@) == Some((p.host_ip@, p.host_port, p.container_port))
                && p.protocol@ == Seq::<char>::empty(),
            None => port_mapping(s@).is_none(),
        },
{
    let parts = split_fields(s.as_str(), ':');
    let ghost f = split_on(s@, ':');
    assert(parts@.map_values(|x: String| x@) == f);
    assert(parts.len() == f.len());
    if parts.len() == 2 {
        assert(parts@[0]@ == f[0]);
        assert(parts@[1]@ == f[1]);
        let host_port = parse_i32(parts[0].as_str());
        let container_port = parse_i32(parts[1].as_str());
        match (host_port, container_port) {
            (Some(h), Some(c)) => Some(
                Port { container_port: c, protocol: String::new(), host_port: h, host_ip: String::new() },
            ),
            _ => None,
        }
    } else if parts.len() == 3 {
        assert(parts@[0]@ == f[0]);
        assert(parts@[1]@ == f[1]);
        assert(parts@[2]@ == f[2]);
        let host_port = parse_i32(parts[1].as_str());
        let container_port = parse_i32(parts[2].as_str());
        match (host_port, container_port) {
            (Some(h), Some(c)) => Some(
                Port {
                    container_port: c,
                    protocol: String::new(),
                    host_port: h,
                    host_ip: parts[0].clone(),
                },
            ),
            _ => None,
        }
    } else {
        None
    }
}

/// Translates compose-style port strings into port descriptors, in order.
/// Fails when any one of them is malformed.
pub fn map_port_style(ports: Vec<String>) -> (r: Result<Vec<Port>, ComposeError>)
    ensures
        r.is_ok() == all_port_mappings_valid(ports@),
        match r {
            Ok(v) => v.len() == ports.len() && forall|i: int|
                0 <= i < v.len() ==> (#[trigger] v@[i]).describes(port_mapping(ports@[i]@).unwrap()),
            Err(e) => e == ComposeError::InvalidPortMapping,
        },
{
    let mut out: Vec<Port> = Vec::new();
    let mut i: usize = 0;
    while i < ports.len()
        invariant
            i <= ports.len(),
            out.len() == i,
            forall|k: int| 0 <= k < i ==> (#[trigger] port_mapping(ports@[k]@)).is_some(),
            forall|k: int|
                0 <= k < i ==> (#[trigger] out@[k]).describes(port_mapping(ports@[k]@).unwrap()),
        decreases ports.len() - i,
    {
        match map_one_port(&ports[i]) {
            Some(p) => {
                out.push(p);
            },
            None => {
                return Err(ComposeError::InvalidPortMapping);
            },
        }
        i = i + 1;
    }
    Ok(out)
}

/// Two fields give an empty host ip and the two ports as read; three fields
/// keep the first as host ip; any other count of fields, or a port field
/// that is not an `i32`, is no mapping.
pub proof fn lemma_port_fields(s: Seq<char>)
    ensures
        ({
            let f = split_on(s, ':');
            &&& (f.len() == 2 && i32_text(f[0]).is_some() && i32_text(f[1]).is_some()) ==> port_mapping(s)
                == Some((Seq::<char>::empty(), i32_text(f[0]).unwrap(), i32_text(f[1]).unwrap()))
            &&& (f.len() == 3 && i32_text(f[1]).is_some() && i32_text(f[2]).is_some()) ==> port_mapping(s)
                == Some((f[0], i32_text(f[1]).unwrap(), i32_text(f[2]).unwrap()))
            &&& (f.len() != 2 && f.len() != 3) ==> port_mapping(s).is_none()
            &&& (f.len() == 2 && (i32_text(f[0]).is_none() || i32_text(f[1]).is_none()))
                ==> port_mapping(s).is_none()
            &&& (f.len() == 3 && (i32_text(f[1]).is_none() || i32_text(f[2]).is_none()))
                ==> port_mapping(s).is_none()
        }),
{
}

} // verus!
