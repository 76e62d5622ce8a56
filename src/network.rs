//! Checks the networks of a deployment and groups its services by the
//! network they start on.
use vstd::prelude::*;

use crate::compose_spec::{ComposeSpec, NetworkSpec, ServiceSpec};
use crate::error::ComposeError;

verus! {

/// The services started on one network, as indices into the spec's
/// service list, in declaration order.
#[derive(Debug)]
pub struct NetworkGroup {
    pub network: String,
    pub services: Vec<usize>,
}

/// Keeps the declared networks of one project.
#[derive(Debug)]
pub struct NetworkManager {
    pub project_name: String,
    pub networks: Vec<String>,
}

/// No two entries of `names` are equal.
pub open spec fn distinct(names: Seq<Seq<char>>) -> bool {
    forall|i: int, j: int| 0 <= i < j < names.len() ==> names[i] != names[j]
}

/// `n` occurs twice in `names`.
pub open spec fn duplicated(names: Seq<Seq<char>>, n: Seq<char>) -> bool {
    exists|i: int, j: int| 0 <= i < j < names.len() && names[i] == n && names[j] == n
}

/// The indices of the entries of `prims` equal to `net`, in order.
pub open spec fn members(prims: Seq<Option<Seq<char>>>, net: Option<Seq<char>>) -> Seq<usize>
    decreases prims.len(),
{
    if prims.len() == 0 {
        Seq::<usize>::empty()
    } else {
        let r = members(prims.drop_last(), net);
        if prims.last() == net {
            r.push((prims.len() - 1) as usize)
        } else {
            r
        }
    }
}

/// The network of the services that name none.
pub open spec fn default_network_name(project: Seq<char>) -> Seq<char> {
    project + seq!['_', 'd', 'e', 'f', 'a', 'u', 'l', 't']
}

impl ComposeSpec {
    pub open spec fn service_names(&self) -> Seq<Seq<char>> {
        self.services@.map_values(|e: (String, ServiceSpec)| e.0@)
    }

    /// Service `i` lists network `n`, which the spec does not declare.
    pub open spec fn undeclared_network(&self, i: int, n: Seq<char>) -> bool {
        &&& 0 <= i < self.services.len()
        &&& self.services@[i].1.networks@.map_values(|s: String| s@).contains(n)
        &&& !self.network_names().contains(n)
    }

    /// Some service lists network `n`, which the spec does not declare.
    pub open spec fn lists_undeclared(&self, n: Seq<char>) -> bool {
        exists|i: int| #[trigger] self.undeclared_network(i, n)
    }

    /// Networks and services have distinct names, and every network that a
    /// service lists is declared.
    pub open spec fn networks_valid(&self) -> bool {
        &&& distinct(self.network_names())
        &&& distinct(self.service_names())
        &&& forall|i: int, n: Seq<char>| !#[trigger] self.undeclared_network(i, n)
    }
}

fn first_duplicate(names: &Vec<String>) -> (r: Option<String>)
    ensures
        match r {
            Some(n) => duplicated(names@.map_values(|s: String| s@), n@),
            None => distinct(names@.map_values(|s: String| s@)),
        },
{
    let ghost v = names@.map_values(|s: String| s@);
    let mut j: usize = 0;
    while j < names.len()
        invariant
            j <= names.len(),
            v == names@.map_values(|s: String| s@),
            forall|a: int, b: int| 0 <= a < b < j ==> v[a] != v[b],
        decreases names.len() - j,
    {
        let mut i: usize = 0;
        while i < j
            invariant
                i <= j < names.len(),
                v == names@.map_values(|s: String| s@),
                forall|a: int, b: int| 0 <= a < b < j ==> v[a] != v[b],
                forall|a: int| 0 <= a < i ==> v[a] != v[j as int],
            decreases j - i,
        {
            if names[i] == names[j] {
                assert(v[i as int] == v[j as int]);
                return Some(names[j].clone());
            }
            i = i + 1;
        }
        j = j + 1;
    }
    None
}

fn declared_names(spec: &ComposeSpec) -> (r: Vec<String>)
    ensures
        r@.map_values(|s: String| s@) == spec.network_names(),
{
    let mut out: Vec<String> = Vec::new();
    match &spec.networks {
        Some(n) => {
            let mut i: usize = 0;
            while i < n.0.len()
                invariant
                    i <= n.0.len(),
                    out.len() == i,
                    out@.map_values(|s: String| s@) == n.0@.subrange(0, i as int).map_values(
                        |e: (String, NetworkSpec)| e.0@,
                    ),
                decreases n.0.len() - i,
            {
                let name = n.0[i].0.clone();
                let ghost before = out@;
                out.push(name);
                proof {
                    let a = out@.map_values(|s: String| s@);
                    let b = n.0@.subrange(0, i + 1).map_values(|e: (String, NetworkSpec)| e.0@);
                    let c = n.0@.subrange(0, i as int).map_values(|e: (String, NetworkSpec)| e.0@);
                    assert(a.len() == b.len());
                    assert forall|k: int| 0 <= k < a.len() implies a[k] == b[k] by {
                        if k < i {
                            assert(out@[k] == before[k]);
                            assert(a[k] == before.map_values(|s: String| s@)[k]);
                            assert(b[k] == c[k]);
                        }
                    }
                    assert(a =~= b);
                }
                i = i + 1;
            }
            assert(n.0@.subrange(0, i as int) =~= n.0@);
        },
        None => {
            assert(out@.map_values(|s: String| s@) =~= Seq::<Seq<char>>::empty());
        },
    }
    out
}

fn service_names(spec: &ComposeSpec) -> (r: Vec<String>)
    ensures
        r@.map_values(|s: String| s@) == spec.service_names(),
{
    let mut out: Vec<String> = Vec::new();
    let mut i: usize = 0;
    while i < spec.services.len()
        invariant
            i <= spec.services.len(),
            out.len() == i,
            out@.map_values(|s: String| s@) == spec.services@.subrange(0, i as int).map_values(
                |e: (String, ServiceSpec)| e.0@,
            ),
        decreases spec.services.len() - i,
    {
        let name = spec.services[i].0.clone();
        let ghost before = out@;
        out.push(name);
        proof {
            let a = out@.map_values(|s: String| s@);
            let b = spec.services@.subrange(0, i + 1).map_values(|e: (String, ServiceSpec)| e.0@);
            let c = spec.services@.subrange(0, i as int).map_values(|e: (String, ServiceSpec)| e.0@);
            assert(a.len() == b.len());
            assert forall|k: int| 0 <= k < a.len() implies a[k] == b[k] by {
                if k < i {
                    assert(out@[k] == before[k]);
                    assert(a[k] == before.map_values(|s: String| s@)[k]);
                    assert(b[k] == c[k]);
                }
            }
            assert(a =~= b);
        }
        i = i + 1;
    }
    assert(spec.services@.subrange(0, i as int) =~= spec.services@);
    out
}

fn contains_name(names: &Vec<String>, n: &String) -> (r: bool)
    ensures
        r == names@.map_values(|s: String| s@).contains(n@),
{
    let ghost v = names@.map_values(|s: String| s@);
    let mut i: usize = 0;
    while i < names.len()
        invariant
            i <= names.len(),
            v == names@.map_values(|s: String| s@),
            forall|a: int| 0 <= a < i ==> v[a] != n@,
        decreases names.len() - i,
    {
        if names[i] == *n {
            assert(v[i as int] == n@);
            return true;
        }
        i = i + 1;
    }
    false
}

/// Checks that networks and services have distinct names and that
/// services list declared networks only; gives the declared network names.
pub fn validate_networks(spec: &ComposeSpec) -> (r: Result<Vec<String>, ComposeError>)
    ensures
        r.is_ok() == spec.networks_valid(),
        r matches Ok(v) ==> v@.map_values(|s: String| s@) == spec.network_names(),
        r matches Err(ComposeError::DuplicateName(name)) ==> duplicated(spec.network_names(), name@)
            || duplicated(spec.service_names(), name@),
        r matches Err(ComposeError::UnknownNetwork(name)) ==> spec.lists_undeclared(name@),
        r matches Err(e) ==> e is DuplicateName || e is UnknownNetwork,
{
    let declared = declared_names(spec);
    if let Some(n) = first_duplicate(&declared) {
        return Err(ComposeError::DuplicateName(n));
    }
    let names = service_names(spec);
    if let Some(n) = first_duplicate(&names) {
        return Err(ComposeError::DuplicateName(n));
    }
    let mut i: usize = 0;
    while i < spec.services.len()
        invariant
            i <= spec.services.len(),
            declared@.map_values(|s: String| s@) == spec.network_names(),
            forall|a: int, n: Seq<char>| 0 <= a < i ==> !#[trigger] spec.undeclared_network(a, n),
        decreases spec.services.len() - i,
    {
        let nets = &spec.services[i].1.networks;
        let ghost nv = nets@.map_values(|s: String| s@);
        let mut k: usize = 0;
        while k < nets.len()
            invariant
                i < spec.services.len(),
                nets == &spec.services@[i as int].1.networks,
                nv == nets@.map_values(|s: String| s@),
                k <= nets.len(),
                declared@.map_values(|s: String| s@) == spec.network_names(),
                forall|a: int| 0 <= a < k ==> spec.network_names().contains(nv[a]),
            decreases nets.len() - k,
        {
            if !contains_name(&declared, &nets[k]) {
                let missing = nets[k].clone();
                assert(nv[k as int] == missing@);
                assert(spec.undeclared_network(i as int, missing@));
                return Err(ComposeError::UnknownNetwork(missing));
            }
            k = k + 1;
        }
        assert forall|a: int, n: Seq<char>| 0 <= a <= i implies !#[trigger] spec.undeclared_network(
            a,
            n,
        ) by {
            if a == i && nv.contains(n) {
                let w = choose|w: int| 0 <= w < nv.len() && nv[w] == n;
                assert(spec.network_names().contains(nv[w]));
            }
        }
        i = i + 1;
    }
    Ok(declared)
}

impl NetworkManager {
    pub fn new(project_name: String) -> (r: NetworkManager)
        ensures
            r.project_name == project_name,
            r.networks@.len() == 0,
    {
        NetworkManager { project_name, networks: Vec::new() }
    }

    /// Takes in the networks that `spec` declares, after checking that
    /// names are distinct and that services list declared networks only.
    pub fn handle(&mut self, spec: &ComposeSpec) -> (r: Result<(), ComposeError>)
        ensures
            r.is_ok() == spec.networks_valid(),
            final(self).project_name == old(self).project_name,
            r is Ok ==> final(self).networks@.map_values(|s: String| s@) == spec.network_names(),
            r matches Err(ComposeError::DuplicateName(name)) ==> duplicated(spec.network_names(), name@)
                || duplicated(spec.service_names(), name@),
            r matches Err(ComposeError::UnknownNetwork(name)) ==> spec.lists_undeclared(name@),
            r matches Err(e) ==> e is DuplicateName || e is UnknownNetwork,
    {
        match validate_networks(spec) {
            Ok(declared) => {
                self.networks = declared;
                Ok(())
            },
            Err(e) => Err(e),
        }
    }
}

fn members_of(spec: &ComposeSpec, net: Option<&String>) -> (r: Vec<usize>)
    ensures
        r@ == members(
            spec.primaries(),
            match net {
                Some(n) => Some(n@),
                None => None,
            },
        ),
{
    let ghost target = match net {
        Some(n) => Some(n@),
        None => None,
    };
    let ghost prims = spec.primaries();
    let mut out: Vec<usize> = Vec::new();
    let mut i: usize = 0;
    proof {
        assert(prims.subrange(0, 0) =~= Seq::<Option<Seq<char>>>::empty());
    }
    while i < spec.services.len()
        invariant
            i <= spec.services.len(),
            prims == spec.primaries(),
            prims.len() == spec.services.len(),
            target == match net {
                Some(n) => Some(n@),
                None => None,
            },
            out@ == members(prims.subrange(0, i as int), target),
        decreases spec.services.len() - i,
    {
        let svc = &spec.services[i].1;
        let on = if svc.networks.len() > 0 {
            match net {
                Some(n) => svc.networks[0] == *n,
                None => false,
            }
        } else {
            net.is_none()
        };
        proof {
            let upto = prims.subrange(0, i + 1);
            assert(upto.drop_last() =~= prims.subrange(0, i as int));
            assert(upto.last() == prims[i as int]);
            assert(prims[i as int] == svc.primary_network());
            assert(on == (prims[i as int] == target));
        }
        if on {
            out.push(i);
        }
        i = i + 1;
    }
    proof {
        assert(prims.subrange(0, i as int) =~= prims);
    }
    out
}

fn default_network(project: &String) -> (r: String)
    ensures
        r@ == default_network_name(project@),
{
    proof {
        reveal_strlit("_default");
    }
    project.clone().concat("_default")
}

impl NetworkManager {
    /// The services of `spec` grouped by the network they start on: one
    /// group per declared network, in declaration order, then, when some
    /// service names no network, the project's default network. Within a
    /// group services keep their declaration order.
    pub fn network_service_mapping(&self, spec: &ComposeSpec) -> (r: Vec<NetworkGroup>)
        ensures
            ({
                let nets = spec.network_names();
                let loose = members(spec.primaries(), None);
                &&& r.len() == nets.len() + if loose.len() > 0 { 1int } else { 0int }
                &&& forall|j: int|
                    0 <= j < nets.len() ==> (#[trigger] r@[j]).network@ == nets[j] && r@[j].services@
                        == members(spec.primaries(), Some(nets[j]))
                &&& loose.len() > 0 ==> r@[nets.len() as int].network@ == default_network_name(
                    self.project_name@,
                ) && r@[nets.len() as int].services@ == loose
            }),
    {
        let declared = declared_names(spec);
        let ghost nets = spec.network_names();
        let mut groups: Vec<NetworkGroup> = Vec::new();
        let mut j: usize = 0;
        while j < declared.len()
            invariant
                j <= declared.len(),
                declared@.map_values(|s: String| s@) == nets,
                nets == spec.network_names(),
                groups.len() == j,
                forall|a: int|
                    0 <= a < j ==> (#[trigger] groups@[a]).network@ == nets[a] && groups@[a].services@
                        == members(spec.primaries(), Some(nets[a])),
            decreases declared.len() - j,
        {
            let services = members_of(spec, Some(&declared[j]));
            let network = declared[j].clone();
            assert(network@ == nets[j as int]);
            groups.push(NetworkGroup { network, services });
            j = j + 1;
        }
        let loose = members_of(spec, None);
        if loose.len() > 0 {
            let network = default_network(&self.project_name);
            groups.push(NetworkGroup { network, services: loose });
        }
        groups
    }
}

} // verus!
