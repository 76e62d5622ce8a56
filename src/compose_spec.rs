//! The declarative multi-service deployment document.
use vstd::prelude::*;

verus! {

/// A deployment document: its services in declaration order, keyed by
/// service name, and the networks and volumes they use.
#[derive(Debug)]
pub struct ComposeSpec {
    pub name: Option<String>,
    pub services: Vec<(String, ServiceSpec)>,
    pub volumes: Option<VolumesSpec>,
    pub configs: Option<ConfigSpec>,
    pub networks: Option<NetworksSpec>,
    pub secrets: Option<SecretSpec>,
}

/// One service: the container to run for it and how it is wired.
#[derive(Debug)]
pub struct ServiceSpec {
    pub container_name: Option<String>,
    pub image: String,
    pub ports: Vec<String>,
    pub networks: Vec<String>,
    pub volumes: Vec<String>,
    pub command: Vec<String>,
    pub configs: Option<Vec<String>>,
    pub secrets: Option<Vec<String>>,
    pub depends_on: Vec<String>,
}

/// Named volumes, in declaration order.
#[derive(Debug)]
pub struct VolumesSpec(pub Vec<(String, VolumeSpec)>);

#[derive(Debug)]
pub struct VolumeSpec {}

#[derive(Debug)]
pub struct ConfigSpec {}

#[derive(Debug)]
pub struct SecretSpec {}

/// Named networks, in declaration order.
#[derive(Debug)]
pub struct NetworksSpec(pub Vec<(String, NetworkSpec)>);

#[derive(Debug, Clone)]
pub struct NetworkSpec {
    pub external: Option<bool>,
    pub driver: Option<NetworkDirver>,
}

/// Network driver; bridge when none is given. `NoNetwork` is the driver
/// that gives a container no network at all.
#[derive(Debug, Clone, Copy, PartialEq, Eq)]
pub enum NetworkDirver {
    Bridge,
    Overlay,
    Host,
    NoNetwork,
}

impl ServiceSpec {
    /// The network a service is started on: the first one it lists.
    pub open spec fn primary_network(&self) -> Option<Seq<char>> {
        if self.networks.len() > 0 {
            Some(self.networks@[0]@)
        } else {
            None
        }
    }
}

impl ComposeSpec {
    /// The names of the declared networks, in declaration order.
    pub open spec fn network_names(&self) -> Seq<Seq<char>> {
        match self.networks {
            Some(n) => n.0@.map_values(|e: (String, NetworkSpec)| e.0@),
            None => Seq::<Seq<char>>::empty(),
        }
    }

    /// The primary network of each service, in declaration order.
    pub open spec fn primaries(&self) -> Seq<Option<Seq<char>>> {
        self.services@.map_values(|e: (String, ServiceSpec)| e.1.primary_network())
    }
}

} // verus!
