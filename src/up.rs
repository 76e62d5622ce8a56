//! `up` as a state machine. Planning turns a spec into an ordered list of
//! container launches; the session then asks for one launch at a time and,
//! when a launch fails, for the force-deletion of every container started so
//! far, in start order, and for the removal of the project root.
use vstd::prelude::*;

use crate::compose::{epoch_seconds_now, synthesized_name, ComposeManager};
use crate::compose_spec::{ComposeSpec, ServiceSpec};
use crate::error::ComposeError;
use crate::network::{members, NetworkGroup};
use crate::ports::{all_port_mappings_valid, map_port_style, port_mapping, Port};
use crate::text::clone_strings;
use crate::volume::{all_volume_mappings_valid, volume_mapping, VolumeManager, VolumePattern};

verus! {

/// What the container runtime is asked to create and run.
#[derive(Debug)]
pub struct ContainerSpec {
    pub name: String,
    pub image: String,
    pub ports: Vec<Port>,
    pub args: Vec<String>,
}

/// One planned container: the service it runs (an index into the spec's
/// services), the network it starts on, and its mounts.
#[derive(Debug)]
pub struct ContainerLaunch {
    pub network: String,
    pub service: usize,
    pub container: ContainerSpec,
    pub mounts: Vec<VolumePattern>,
}

/// What the runtime reported of a started container: its id, and its
/// inspection result as a JSON text.
#[derive(Debug)]
pub struct ContainerRecord {
    pub id: String,
    pub inspection: String,
}

/// The state document persisted after a successful `up`.
#[derive(Debug)]
pub struct ProjectState {
    pub project_name: String,
    pub containers: Vec<ContainerRecord>,
}

#[derive(Debug, Clone, Copy, PartialEq, Eq)]
pub enum UpPhase {
    Launching,
    RollingBack,
    RemovingRoot,
    Persisting,
    Done,
}

/// An `up` in progress.
#[derive(Debug)]
pub struct UpSession {
    pub project_name: String,
    pub root_path: String,
    pub plan: Vec<ContainerLaunch>,
    /// the containers started so far, in start order
    pub started: Vec<ContainerRecord>,
    pub phase: UpPhase,
    /// while rolling back, the position in `started` being deleted
    pub cursor: usize,
}

/// The outcome of the last action, reported by the caller.
#[derive(Debug)]
pub enum UpEvent {
    Launched(ContainerRecord),
    LaunchFailed,
    Deleted,
    RootRemoved,
    Persisted(bool),
}

/// What the caller is to do next.
#[derive(Debug)]
pub enum UpAction {
    /// create and run `plan[i]` with its mounts, then inspect it
    Launch(usize),
    /// delete this container, forcibly; a failure is only logged
    ForceDelete(String),
    /// delete this directory tree; a failure is only logged
    RemoveRoot(String),
    /// write this document as `state.json` under the project root
    Persist(ProjectState),
    /// `up` is over, with this result
    Finish(Result<(), ComposeError>),
}

/// A session seen as a value: project name, project root, number of planned
/// launches, the (id, inspection) of each started container, phase, cursor.
pub struct UpModel {
    pub project_name: Seq<char>,
    pub root: Seq<char>,
    pub plan_len: nat,
    pub started: Seq<(Seq<char>, Seq<char>)>,
    pub phase: UpPhase,
    pub cursor: nat,
}

/// An action seen as a value.
pub enum UpStep {
    Launch(nat),
    ForceDelete(Seq<char>),
    RemoveRoot(Seq<char>),
    Persist(Seq<char>, Seq<(Seq<char>, Seq<char>)>),
    Finish(Result<(), ComposeError>),
}

impl View for ContainerRecord {
    type V = (Seq<char>, Seq<char>);

    open spec fn view(&self) -> (Seq<char>, Seq<char>) {
        (self.id@, self.inspection@)
    }
}

impl View for ProjectState {
    type V = (Seq<char>, Seq<(Seq<char>, Seq<char>)>);

    open spec fn view(&self) -> (Seq<char>, Seq<(Seq<char>, Seq<char>)>) {
        (self.project_name@, self.containers@.map_values(|c: ContainerRecord| c@))
    }
}

impl View for UpSession {
    type V = UpModel;

    open spec fn view(&self) -> UpModel {
        UpModel {
            project_name: self.project_name@,
            root: self.root_path@,
            plan_len: self.plan.len() as nat,
            started: self.started@.map_values(|c: ContainerRecord| c@),
            phase: self.phase,
            cursor: self.cursor as nat,
        }
    }
}

impl View for UpAction {
    type V = UpStep;

    open spec fn view(&self) -> UpStep {
        match self {
            UpAction::Launch(i) => UpStep::Launch(*i as nat),
            UpAction::ForceDelete(id) => UpStep::ForceDelete(id@),
            UpAction::RemoveRoot(p) => UpStep::RemoveRoot(p@),
            UpAction::Persist(doc) => UpStep::Persist(doc@.0, doc@.1),
            UpAction::Finish(r) => UpStep::Finish(*r),
        }
    }
}

/// The phases are consistent with what has been started.
pub open spec fn model_wf(m: UpModel) -> bool {
    &&& m.phase == UpPhase::Launching ==> m.started.len() < m.plan_len
    &&& m.phase == UpPhase::RollingBack ==> m.cursor < m.started.len()
    &&& m.phase == UpPhase::Persisting ==> m.started.len() == m.plan_len
}

/// The events that the pending action of phase `phase` can report.
pub open spec fn accepts(phase: UpPhase, e: UpEvent) -> bool {
    match phase {
        UpPhase::Launching => e is Launched || e is LaunchFailed,
        UpPhase::RollingBack => e is Deleted,
        UpPhase::RemovingRoot => e is RootRemoved,
        UpPhase::Persisting => e is Persisted,
        UpPhase::Done => false,
    }
}

pub open spec fn with_phase(m: UpModel, phase: UpPhase, started: Seq<(Seq<char>, Seq<char>)>, cursor: nat) -> UpModel {
    UpModel { project_name: m.project_name, root: m.root, plan_len: m.plan_len, started, phase, cursor }
}

/// The first action of a freshly planned session.
pub open spec fn up_first(m: UpModel) -> UpStep {
    if m.plan_len > 0 {
        UpStep::Launch(0)
    } else {
        UpStep::Persist(m.project_name, Seq::empty())
    }
}

/// The next state and action of an `up` after event `e`.
pub open spec fn up_next(m: UpModel, e: UpEvent) -> (UpModel, UpStep) {
    match (m.phase, e) {
        (UpPhase::Launching, UpEvent::Launched(rec)) => {
            let started = m.started.push(rec@);
            if started.len() < m.plan_len {
                (with_phase(m, UpPhase::Launching, started, m.cursor), UpStep::Launch(started.len()))
            } else {
                (
                    with_phase(m, UpPhase::Persisting, started, m.cursor),
                    UpStep::Persist(m.project_name, started),
                )
            }
        },
        (UpPhase::Launching, UpEvent::LaunchFailed) => {
            if m.started.len() > 0 {
                (
                    with_phase(m, UpPhase::RollingBack, m.started, 0),
                    UpStep::ForceDelete(m.started[0].0),
                )
            } else {
                (with_phase(m, UpPhase::RemovingRoot, m.started, m.cursor), UpStep::RemoveRoot(m.root))
            }
        },
        (UpPhase::RollingBack, UpEvent::Deleted) => {
            let next = m.cursor + 1;
            if next < m.started.len() {
                (
                    with_phase(m, UpPhase::RollingBack, m.started, next),
                    UpStep::ForceDelete(m.started[next as int].0),
                )
            } else {
                (with_phase(m, UpPhase::RemovingRoot, m.started, next), UpStep::RemoveRoot(m.root))
            }
        },
        (UpPhase::RemovingRoot, UpEvent::RootRemoved) => (
            with_phase(m, UpPhase::Done, m.started, m.cursor),
            UpStep::Finish(Err(ComposeError::StartFailed)),
        ),
        (UpPhase::Persisting, UpEvent::Persisted(ok)) => (
            with_phase(m, UpPhase::Done, m.started, m.cursor),
            UpStep::Finish(
                if ok {
                    Ok(())
                } else {
                    Err(ComposeError::PersistFailed)
                },
            ),
        ),
        _ => (m, UpStep::Finish(Err(ComposeError::StartFailed))),
    }
}

fn copy_record(c: &ContainerRecord) -> (r: ContainerRecord)
    ensures
        r@ == c@,
{
    ContainerRecord { id: c.id.clone(), inspection: c.inspection.clone() }
}

fn copy_records(v: &Vec<ContainerRecord>) -> (r: Vec<ContainerRecord>)
    ensures
        r@.map_values(|c: ContainerRecord| c@) == v@.map_values(|c: ContainerRecord| c@),
{
    let mut out: Vec<ContainerRecord> = Vec::new();
    let mut i: usize = 0;
    while i < v.len()
        invariant
            i <= v.len(),
            out.len() == i,
            forall|k: int| 0 <= k < i ==> (#[trigger] out@[k])@ == v@[k]@,
        decreases v.len() - i,
    {
        out.push(copy_record(&v[i]));
        i = i + 1;
    }
    assert(out@.map_values(|c: ContainerRecord| c@) =~= v@.map_values(|c: ContainerRecord| c@));
    out
}

impl UpSession {
    pub open spec fn wf(&self) -> bool {
        model_wf(self@)
    }

    pub fn accepts(&self, e: &UpEvent) -> (r: bool)
        ensures
            r == accepts(self.phase, *e),
    {
        match self.phase {
            UpPhase::Launching => matches!(e, UpEvent::Launched(_)) || matches!(e, UpEvent::LaunchFailed),
            UpPhase::RollingBack => matches!(e, UpEvent::Deleted),
            UpPhase::RemovingRoot => matches!(e, UpEvent::RootRemoved),
            UpPhase::Persisting => matches!(e, UpEvent::Persisted(_)),
            UpPhase::Done => false,
        }
    }

    fn document(&self) -> (r: ProjectState)
        ensures
            r@ == (self@.project_name, self@.started),
    {
        ProjectState { project_name: self.project_name.clone(), containers: copy_records(&self.started) }
    }

    /// Takes in the outcome of the last action and gives the next one.
    pub fn step(&mut self, e: UpEvent) -> (r: UpAction)
        requires
            old(self).wf(),
            accepts(old(self).phase, e),
        ensures
            final(self).wf(),
            (final(self)@, r@) == up_next(old(self)@, e),
            final(self).plan@ == old(self).plan@,
    {
        let ghost m = self@;
        match e {
            UpEvent::Launched(rec) => {
                let ghost rv = rec@;
                self.started.push(rec);
                proof {
                    assert(self.started@.map_values(|c: ContainerRecord| c@) =~= m.started.push(rv));
                }
                if self.started.len() < self.plan.len() {
                    UpAction::Launch(self.started.len())
                } else {
                    self.phase = UpPhase::Persisting;
                    UpAction::Persist(self.document())
                }
            },
            UpEvent::LaunchFailed => {
                if self.started.len() > 0 {
                    self.phase = UpPhase::RollingBack;
                    self.cursor = 0;
                    UpAction::ForceDelete(self.started[0].id.clone())
                } else {
                    self.phase = UpPhase::RemovingRoot;
                    UpAction::RemoveRoot(self.root_path.clone())
                }
            },
            UpEvent::Deleted => {
                assert(m.phase == UpPhase::RollingBack);
                assert(self.cursor < self.started.len());
                self.cursor = self.cursor + 1;
                if self.cursor < self.started.len() {
                    UpAction::ForceDelete(self.started[self.cursor].id.clone())
                } else {
                    self.phase = UpPhase::RemovingRoot;
                    UpAction::RemoveRoot(self.root_path.clone())
                }
            },
            UpEvent::RootRemoved => {
                self.phase = UpPhase::Done;
                UpAction::Finish(Err(ComposeError::StartFailed))
            },
            UpEvent::Persisted(ok) => {
                self.phase = UpPhase::Done;
                if ok {
                    UpAction::Finish(Ok(()))
                } else {
                    UpAction::Finish(Err(ComposeError::PersistFailed))
                }
            },
        }
    }
}

/// The services of groups `nets`, in order, as `members` gives each group.
pub open spec fn grouped(prims: Seq<Option<Seq<char>>>, nets: Seq<Seq<char>>) -> Seq<usize>
    decreases nets.len(),
{
    if nets.len() == 0 {
        Seq::<usize>::empty()
    } else {
        grouped(prims, nets.drop_last()) + members(prims, Some(nets.last()))
    }
}

impl ComposeSpec {
    /// The order in which `up` starts services: network by network in
    /// declaration order, then the services that name no network; within a
    /// network, in declaration order.
    pub open spec fn launch_order(&self) -> Seq<usize> {
        grouped(self.primaries(), self.network_names()) + members(self.primaries(), None)
    }
}

/// Why the port and volume strings of `svc` cannot be translated, if they
/// cannot.
pub open spec fn service_error(svc: ServiceSpec) -> Option<ComposeError> {
    if !all_port_mappings_valid(svc.ports@) {
        Some(ComposeError::InvalidPortMapping)
    } else if !all_volume_mappings_valid(svc.volumes@) {
        Some(ComposeError::InvalidVolumeMapping)
    } else {
        None
    }
}

impl ContainerLaunch {
    /// This launch runs service `entry` as the spec describes it, under
    /// project root `root`, with names synthesized at epoch second `t`.
    pub open spec fn realizes(&self, entry: (String, ServiceSpec), root: Seq<char>, t: int) -> bool {
        let svc = entry.1;
        &&& self.container.image@ == svc.image@
        &&& self.container.args@ == svc.command@
        &&& self.container.ports.len() == svc.ports.len()
        &&& forall|i: int|
            0 <= i < svc.ports.len() ==> (#[trigger] self.container.ports@[i]).describes(
                port_mapping(svc.ports@[i]@).unwrap(),
            )
        &&& self.mounts.len() == svc.volumes.len()
        &&& forall|i: int|
            0 <= i < svc.volumes.len() ==> (#[trigger] self.mounts@[i]).describes(
                volume_mapping(svc.volumes@[i]@).unwrap(),
            )
        &&& self.container.name@ == match svc.container_name {
            Some(n) => n@,
            None => synthesized_name(root, entry.0@, t),
        }
    }
}

/// Every launch of `plan` runs a service of `spec` as described.
pub open spec fn plan_ok(plan: Seq<ContainerLaunch>, spec: ComposeSpec, root: Seq<char>, t: int) -> bool {
    forall|k: int|
        0 <= k < plan.len() ==> (#[trigger] plan[k]).service < spec.services.len() && plan[k].realizes(
            spec.services@[plan[k].service as int],
            root,
            t,
        ) && service_error(spec.services@[plan[k].service as int].1).is_none()
}

pub open spec fn plan_services(plan: Seq<ContainerLaunch>) -> Seq<usize> {
    plan.map_values(|l: ContainerLaunch| l.service)
}

proof fn lemma_members_bounded(prims: Seq<Option<Seq<char>>>, net: Option<Seq<char>>)
    ensures
        forall|k: int| 0 <= k < members(prims, net).len() ==> #[trigger] members(prims, net)[k] < prims.len(),
    decreases prims.len(),
{
    if prims.len() > 0 {
        lemma_members_bounded(prims.drop_last(), net);
        let r = members(prims.drop_last(), net);
        assert forall|k: int| 0 <= k < members(prims, net).len() implies #[trigger] members(prims, net)[k]
            < prims.len() by {
            if k < r.len() {
                assert(members(prims, net)[k] == r[k]);
            }
        }
    }
}

proof fn lemma_grouped_prefix(prims: Seq<Option<Seq<char>>>, nets: Seq<Seq<char>>, j: int)
    requires
        0 <= j <= nets.len(),
    ensures
        grouped(prims, nets.subrange(0, j)).len() <= grouped(prims, nets).len(),
        forall|k: int|
            0 <= k < grouped(prims, nets.subrange(0, j)).len() ==> #[trigger] grouped(prims, nets.subrange(0, j))[k]
                == grouped(prims, nets)[k],
    decreases nets.len(),
{
    if j == nets.len() {
        assert(nets.subrange(0, j) =~= nets);
    } else {
        assert(nets.drop_last().subrange(0, j) =~= nets.subrange(0, j));
        lemma_grouped_prefix(prims, nets.drop_last(), j);
    }
}

fn translate_service(
    manager: &ComposeManager,
    entry: &(String, ServiceSpec),
    idx: usize,
    network: &String,
    epoch_secs: i64,
) -> (r: Result<ContainerLaunch, ComposeError>)
    ensures
        r is Ok == service_error(entry.1).is_none(),
        r matches Ok(l) ==> l.service == idx && l.realizes(*entry, manager.root_path@, epoch_secs as int),
        r matches Err(e) ==> service_error(entry.1) == Some(e),
{
    let svc = &entry.1;
    let ports = match map_port_style(clone_strings(&svc.ports)) {
        Ok(p) => p,
        Err(e) => {
            return Err(e);
        },
    };
    let mounts = match VolumeManager::string_to_pattern(clone_strings(&svc.volumes)) {
        Ok(m) => m,
        Err(e) => {
            return Err(e);
        },
    };
    let name = match &svc.container_name {
        Some(n) => n.clone(),
        None => manager.container_name_at(&entry.0, epoch_secs),
    };
    let container = ContainerSpec { name, image: svc.image.clone(), ports, args: clone_strings(&svc.command) };
    Ok(ContainerLaunch { network: network.clone(), service: idx, container, mounts })
}

fn plan_group(
    manager: &ComposeManager,
    spec: &ComposeSpec,
    group: &NetworkGroup,
    plan: &mut Vec<ContainerLaunch>,
    epoch_secs: i64,
) -> (r: Result<(), ComposeError>)
    requires
        forall|k: int| 0 <= k < group.services.len() ==> #[trigger] group.services@[k] < spec.services.len(),
        plan_ok(old(plan)@, *spec, manager.root_path@, epoch_secs as int),
    ensures
        r is Ok ==> plan_services(final(plan)@) == plan_services(old(plan)@) + group.services@
            && plan_ok(final(plan)@, *spec, manager.root_path@, epoch_secs as int),
        r matches Err(e) ==> exists|m: int|
            0 <= m < group.services.len() && service_error(
                #[trigger] spec.services@[group.services@[m] as int].1,
            ) == Some(e),
{
    let ghost start = plan_services(plan@);
    let mut m: usize = 0;
    while m < group.services.len()
        invariant
            m <= group.services.len(),
            forall|k: int| 0 <= k < group.services.len() ==> #[trigger] group.services@[k] < spec.services.len(),
            plan_ok(plan@, *spec, manager.root_path@, epoch_secs as int),
            plan_services(plan@) == start + group.services@.subrange(0, m as int),
        decreases group.services.len() - m,
    {
        let idx = group.services[m];
        assert(group.services@[m as int] == idx);
        match translate_service(manager, &spec.services[idx], idx, &group.network, epoch_secs) {
            Ok(launch) => {
                let ghost before = plan@;
                plan.push(launch);
                proof {
                    assert(plan_services(plan@) =~= plan_services(before).push(idx));
                    assert(group.services@.subrange(0, m + 1) =~= group.services@.subrange(0, m as int).push(idx));
                    assert(forall|k: int| 0 <= k < before.len() ==> plan@[k] == before[k]);
                }
            },
            Err(e) => {
                return Err(e);
            },
        }
        m = m + 1;
    }
    assert(group.services@.subrange(0, m as int) =~= group.services@);
    Ok(())
}

/// Session `s` with first action `a` is the plan of `up` for `spec` in
/// project `name` under root `root`, with names stamped at epoch second `t`.
pub open spec fn up_planned(
    name: Seq<char>,
    root: Seq<char>,
    spec: ComposeSpec,
    s: UpSession,
    a: UpAction,
    t: int,
) -> bool {
    &&& s.wf()
    &&& s@ == UpModel {
        project_name: name,
        root,
        plan_len: spec.launch_order().len(),
        started: Seq::empty(),
        phase: if spec.launch_order().len() > 0 {
            UpPhase::Launching
        } else {
            UpPhase::Persisting
        },
        cursor: 0,
    }
    &&& a@ == up_first(s@)
    &&& plan_services(s.plan@) == spec.launch_order()
    &&& plan_ok(s.plan@, spec, root, t)
}

impl ComposeManager {
    /// Plans `up` for `spec` as `plan_up` does, stamping synthesized
    /// container names with the current time.
    pub fn plan_up_now(&mut self, spec: &ComposeSpec) -> (r: Result<(UpSession, UpAction), ComposeError>)
        requires
            old(self).wf(),
        ensures
            final(self).wf(),
            final(self).project_name == old(self).project_name,
            final(self).root_path == old(self).root_path,
            final(self).state_root == old(self).state_root,
            r is Ok == (spec.networks_valid() && forall|k: int|
                0 <= k < spec.launch_order().len() ==> service_error(
                    #[trigger] spec.services@[spec.launch_order()[k] as int].1,
                ).is_none()),
            r matches Ok((s, a)) ==> exists|t: i64|
                up_planned(old(self).project_name@, old(self).root_path@, *spec, s, a, t as int),
            r matches Err(e) ==> (!spec.networks_valid() && (e is DuplicateName || e is UnknownNetwork)) || (
            spec.networks_valid() && exists|k: int|
                0 <= k < spec.launch_order().len() && service_error(
                    #[trigger] spec.services@[spec.launch_order()[k] as int].1,
                ) == Some(e)),
    {
        let now = epoch_seconds_now();
        let r = self.plan_up(spec, now);
        proof {
            if r is Ok {
                let (s, a) = r->Ok_0;
                assert(up_planned(self.project_name@, self.root_path@, *spec, s, a, now as int));
            }
        }
        r
    }

    /// Plans `up` for `spec`: checks its networks, translates the ports and
    /// volumes of every service in launch order and names each container,
    /// synthesized names being stamped with `epoch_secs`. Nothing is
    /// started: on success the session and its first action are returned.
    pub fn plan_up(&mut self, spec: &ComposeSpec, epoch_secs: i64) -> (r: Result<(UpSession, UpAction), ComposeError>)
        requires
            old(self).wf(),
        ensures
            final(self).wf(),
            final(self).project_name == old(self).project_name,
            final(self).root_path == old(self).root_path,
            final(self).state_root == old(self).state_root,
            r is Ok == (spec.networks_valid() && forall|k: int|
                0 <= k < spec.launch_order().len() ==> service_error(
                    #[trigger] spec.services@[spec.launch_order()[k] as int].1,
                ).is_none()),
            r matches Ok((s, a)) ==> {
                &&& s.wf()
                &&& s@ == UpModel {
                    project_name: old(self).project_name@,
                    root: old(self).root_path@,
                    plan_len: spec.launch_order().len(),
                    started: Seq::empty(),
                    phase: if spec.launch_order().len() > 0 {
                        UpPhase::Launching
                    } else {
                        UpPhase::Persisting
                    },
                    cursor: 0,
                }
                &&& a@ == up_first(s@)
                &&& plan_services(s.plan@) == spec.launch_order()
                &&& plan_ok(s.plan@, *spec, old(self).root_path@, epoch_secs as int)
            },
            r matches Err(e) ==> (!spec.networks_valid() && (e is DuplicateName || e is UnknownNetwork)) || (
            spec.networks_valid() && exists|k: int|
                0 <= k < spec.launch_order().len() && service_error(
                    #[trigger] spec.services@[spec.launch_order()[k] as int].1,
                ) == Some(e)),
    {
        match self.network_manager.handle(spec) {
            Ok(()) => {},
            Err(e) => {
                return Err(e);
            },
        }
        let groups = self.network_manager.network_service_mapping(spec);
        let ghost prims = spec.primaries();
        let ghost nets = spec.network_names();
        let ghost loose = members(prims, None);
        let mut plan: Vec<ContainerLaunch> = Vec::new();
        let mut j: usize = 0;
        proof {
            assert(nets.subrange(0, 0) =~= Seq::<Seq<char>>::empty());
            assert(plan_services(plan@) =~= Seq::<usize>::empty());
            lemma_members_bounded(prims, None);
        }
        while j < groups.len()
            invariant
                j <= groups.len(),
                prims == spec.primaries(),
                prims.len() == spec.services.len(),
                nets == spec.network_names(),
                loose == members(prims, None),
                spec.networks_valid(),
                self.wf(),
                self.project_name == old(self).project_name,
                self.root_path == old(self).root_path,
                self.state_root == old(self).state_root,
                groups.len() == nets.len() + if loose.len() > 0 { 1int } else { 0int },
                forall|a: int|
                    0 <= a < nets.len() ==> (#[trigger] groups@[a]).services@ == members(prims, Some(nets[a])),
                loose.len() > 0 ==> groups@[nets.len() as int].services@ == loose,
                forall|k: int| 0 <= k < loose.len() ==> #[trigger] loose[k] < prims.len(),
                plan_ok(plan@, *spec, self.root_path@, epoch_secs as int),
                j <= nets.len() ==> plan_services(plan@) == grouped(prims, nets.subrange(0, j as int)),
                j > nets.len() ==> plan_services(plan@) == spec.launch_order(),
            decreases groups.len() - j,
        {
            let group = &groups[j];
            let ghost before = plan_services(plan@);
            proof {
                if j < nets.len() {
                    lemma_members_bounded(prims, Some(nets[j as int]));
                }
            }
            let res = plan_group(self, spec, group, &mut plan, epoch_secs);
            proof {
                if j < nets.len() {
                    let sub = nets.subrange(0, j + 1);
                    assert(sub.drop_last() =~= nets.subrange(0, j as int));
                    assert(sub.last() == nets[j as int]);
                    lemma_grouped_prefix(prims, nets, j + 1);
                } else {
                    assert(nets.subrange(0, nets.len() as int) =~= nets);
                }
            }
            match res {
                Ok(()) => {},
                Err(e) => {
                    proof {
                        let m = choose|m: int|
                            0 <= m < group.services.len() && service_error(
                                #[trigger] spec.services@[group.services@[m] as int].1,
                            ) == Some(e);
                        let p = before.len() + m;
                        if j < nets.len() {
                            let g1 = grouped(prims, nets.subrange(0, j + 1));
                            assert(g1 == before + group.services@);
                            assert(g1[p] == group.services@[m]);
                            assert(spec.launch_order()[p] == group.services@[m]);
                        } else {
                            assert(spec.launch_order()[p] == group.services@[m]);
                        }
                    }
                    return Err(e);
                },
            }
            j = j + 1;
        }
        proof {
            if loose.len() == 0 {
                assert(nets.subrange(0, nets.len() as int) =~= nets);
                assert(spec.launch_order() =~= grouped(prims, nets));
            }
            assert forall|k: int| 0 <= k < spec.launch_order().len() implies service_error(
                #[trigger] spec.services@[spec.launch_order()[k] as int].1,
            ).is_none() by {
                assert(plan_services(plan@)[k] == plan@[k].service);
            }
        }
        let project_name = self.project_name.clone();
        let root_path = self.root_path.clone();
        if plan.len() > 0 {
            let session = UpSession {
                project_name,
                root_path,
                plan,
                started: Vec::new(),
                phase: UpPhase::Launching,
                cursor: 0,
            };
            proof {
                assert(session@.started =~= Seq::<(Seq<char>, Seq<char>)>::empty());
            }
            Ok((session, UpAction::Launch(0)))
        } else {
            let session = UpSession {
                project_name,
                root_path,
                plan,
                started: Vec::new(),
                phase: UpPhase::Persisting,
                cursor: 0,
            };
            proof {
                assert(session@.started =~= Seq::<(Seq<char>, Seq<char>)>::empty());
            }
            let doc = session.document();
            proof {
                assert(doc@.1 =~= Seq::<(Seq<char>, Seq<char>)>::empty());
            }
            Ok((session, UpAction::Persist(doc)))
        }
    }
}

/// When the second of two launches fails, the first container is deleted,
/// then the project root is removed, and `up` reports failure.
pub proof fn lemma_second_launch_failure_rolls_back(m: UpModel, first: ContainerRecord)
    requires
        m.phase == UpPhase::Launching,
        m.plan_len == 2,
        m.started.len() == 0,
    ensures
        ({
            let (m1, a1) = up_next(m, UpEvent::Launched(first));
            let (m2, a2) = up_next(m1, UpEvent::LaunchFailed);
            let (m3, a3) = up_next(m2, UpEvent::Deleted);
            let (m4, a4) = up_next(m3, UpEvent::RootRemoved);
            &&& a1 == UpStep::Launch(1)
            &&& a2 == UpStep::ForceDelete(first.id@)
            &&& a3 == UpStep::RemoveRoot(m.root)
            &&& a4 == UpStep::Finish(Err(ComposeError::StartFailed))
            &&& m4.phase == UpPhase::Done
        }),
{
}

/// The state document that `up` persists names the project and lists
/// exactly the containers started, in start order: one per planned launch.
pub proof fn lemma_persisted_document(m: UpModel, e: UpEvent)
    requires
        model_wf(m),
        accepts(m.phase, e),
    ensures
        up_next(m, e).1 matches UpStep::Persist(name, records) ==> name == m.project_name && records
            == up_next(m, e).0.started && records.len() == m.plan_len && records.len() == m.started.len()
            + 1,
        up_first(m) matches UpStep::Persist(name, records) ==> name == m.project_name && records.len()
            == 0 && m.plan_len == 0,
{
}

/// Every accepted event keeps the session consistent.
pub proof fn lemma_step_keeps_wf(m: UpModel, e: UpEvent)
    requires
        model_wf(m),
        accepts(m.phase, e),
    ensures
        model_wf(up_next(m, e).0),
        up_next(m, e).0.project_name == m.project_name,
        up_next(m, e).0.root == m.root,
        up_next(m, e).0.plan_len == m.plan_len,
{
}

/// The states and actions of a session that takes in `events` in turn.
pub open spec fn run_events(m: UpModel, events: Seq<UpEvent>) -> (UpModel, Seq<UpStep>)
    decreases events.len(),
{
    if events.len() == 0 {
        (m, Seq::empty())
    } else {
        let (m1, a) = up_next(m, events[0]);
        let (m2, rest) = run_events(m1, events.drop_first());
        (m2, seq![a] + rest)
    }
}

/// `n` reports of a finished deletion, then one of the removed root.
pub open spec fn rollback_events(n: nat) -> Seq<UpEvent> {
    Seq::new(n, |i: int| UpEvent::Deleted).push(UpEvent::RootRemoved)
}

/// The force-deletions of `started[from..]`, in order.
pub open spec fn deletions(started: Seq<(Seq<char>, Seq<char>)>, from: int) -> Seq<UpStep> {
    Seq::new((started.len() - from) as nat, |i: int| UpStep::ForceDelete(started[from + i].0))
}

proof fn lemma_rollback_tail(m: UpModel)
    requires
        m.phase == UpPhase::RollingBack,
        m.cursor < m.started.len(),
    ensures
        ({
            let n = (m.started.len() - m.cursor - 1) as nat;
            let (last, actions) = run_events(m, rollback_events(n + 1));
            &&& actions == deletions(m.started, m.cursor + 1int) + seq![
                UpStep::RemoveRoot(m.root),
                UpStep::Finish(Err(ComposeError::StartFailed)),
            ]
            &&& last.phase == UpPhase::Done
        }),
    decreases m.started.len() - m.cursor,
{
    let n = (m.started.len() - m.cursor - 1) as nat;
    let evs = rollback_events(n + 1);
    let (m1, a) = up_next(m, evs[0]);
    assert(run_events(m, evs) == (run_events(m1, evs.drop_first()).0, seq![a] + run_events(
        m1,
        evs.drop_first(),
    ).1));
    assert(evs[0] == UpEvent::Deleted);
    if m.cursor + 1 < m.started.len() {
        lemma_rollback_tail(m1);
        assert(evs.drop_first() =~= rollback_events(n));
        assert(rollback_events(n) == rollback_events(((m1.started.len() - m1.cursor - 1) as nat) + 1));
        let (last, rest) = run_events(m1, evs.drop_first());
        assert(seq![a] + rest =~= deletions(m.started, m.cursor + 1int) + seq![
            UpStep::RemoveRoot(m.root),
            UpStep::Finish(Err(ComposeError::StartFailed)),
        ]);
    } else {
        assert(n == 0);
        let tail = evs.drop_first();
        assert(tail =~= seq![UpEvent::RootRemoved]);
        let (m2, b) = up_next(m1, tail[0]);
        assert(tail.drop_first() =~= Seq::<UpEvent>::empty());
        assert(run_events(m2, tail.drop_first()) == (m2, Seq::<UpStep>::empty()));
        assert(run_events(m1, tail).1 =~= seq![b]);
        assert(run_events(m1, tail).0 == m2);
        assert(deletions(m.started, m.cursor + 1int) =~= Seq::<UpStep>::empty());
        assert(seq![a] + seq![b] =~= deletions(m.started, m.cursor + 1int) + seq![
            UpStep::RemoveRoot(m.root),
            UpStep::Finish(Err(ComposeError::StartFailed)),
        ]);
    }
}

/// When a launch fails, every container started so far is force-deleted,
/// in start order, then the project root is removed, and `up` reports
/// failure; nothing else is asked for.
pub proof fn lemma_launch_failure_rolls_back(m: UpModel)
    requires
        m.phase == UpPhase::Launching,
    ensures
        ({
            let events = seq![UpEvent::LaunchFailed] + rollback_events(m.started.len());
            let (last, actions) = run_events(m, events);
            &&& actions == deletions(m.started, 0) + seq![
                UpStep::RemoveRoot(m.root),
                UpStep::Finish(Err(ComposeError::StartFailed)),
            ]
            &&& last.phase == UpPhase::Done
        }),
{
    let events = seq![UpEvent::LaunchFailed] + rollback_events(m.started.len());
    let (m1, a) = up_next(m, events[0]);
    assert(events[0] == UpEvent::LaunchFailed);
    assert(run_events(m, events) == (run_events(m1, events.drop_first()).0, seq![a] + run_events(
        m1,
        events.drop_first(),
    ).1));
    assert(events.drop_first() =~= rollback_events(m.started.len()));
    if m.started.len() > 0 {
        lemma_rollback_tail(m1);
        assert(rollback_events(m.started.len()) == rollback_events(
            ((m1.started.len() - m1.cursor - 1) as nat) + 1,
        ));
        let (last, rest) = run_events(m1, events.drop_first());
        assert(seq![a] + rest =~= deletions(m.started, 0) + seq![
            UpStep::RemoveRoot(m.root),
            UpStep::Finish(Err(ComposeError::StartFailed)),
        ]);
    } else {
        let tail = events.drop_first();
        assert(tail =~= seq![UpEvent::RootRemoved]);
        let (m2, b) = up_next(m1, tail[0]);
        assert(tail.drop_first() =~= Seq::<UpEvent>::empty());
        assert(run_events(m2, tail.drop_first()) == (m2, Seq::<UpStep>::empty()));
        assert(run_events(m1, tail).1 =~= seq![b]);
        assert(run_events(m1, tail).0 == m2);
        assert(deletions(m.started, 0) =~= Seq::<UpStep>::empty());
        assert(seq![a] + seq![b] =~= deletions(m.started, 0) + seq![
            UpStep::RemoveRoot(m.root),
            UpStep::Finish(Err(ComposeError::StartFailed)),
        ]);
    }
}

} // verus!
