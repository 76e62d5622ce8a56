//! The compose orchestrator: project bookkeeping, and `up` as a state
//! machine whose actions (start a container, delete one, remove the project
//! root, write the state document) are carried out by the caller, which
//! reports each outcome back as an event.
use vstd::prelude::*;

use crate::compose_spec::{ComposeSpec, ServiceSpec};
use crate::error::ComposeError;
use crate::network::NetworkManager;
use crate::text::{append_signed_decimal, base_name, path_base_name, signed_decimal};
use crate::volume::VolumeManager;

verus! {

/// The directory of project `name` under the state root.
pub open spec fn project_root(state_root: Seq<char>, name: Seq<char>) -> Seq<char> {
    state_root + seq!['/', 'c', 'o', 'm', 'p', 'o', 's', 'e', '/'] + name
}

/// The remainder of `t` by 1000, with the sign of `t`.
pub open spec fn stamp(t: int) -> int {
    if t >= 0 {
        t % 1000
    } else {
        -((-t) % 1000)
    }
}

/// The name given to the container of service `srv` when the service names
/// none: `<root basename>_<service>_<epoch seconds mod 1000>`.
pub open spec fn synthesized_name(root: Seq<char>, srv: Seq<char>, t: int) -> Seq<char> {
    base_name(root) + seq!['_'] + srv + seq!['_'] + signed_decimal(stamp(t))
}

/// Relies on chrono's `Utc::now` and `DateTime::timestamp`: the current time
/// in whole seconds since the Unix epoch. Nothing is promised of the value.
/// `Utc::now` panics when the system clock reads before 1970 or beyond
/// chrono's range: a state of the machine, which no argument can exclude.
#[verifier::external_body]
pub(crate) fn epoch_seconds_now() -> (r: i64) {
    chrono::Utc::now().timestamp()
}

fn path_under(state_root: &String, name: &String) -> (r: String)
    ensures
        r@ == project_root(state_root@, name@),
{
    proof {
        reveal_strlit("/compose/");
    }
    state_root.clone().concat("/compose/").concat(name.as_str())
}

/// One orchestrated deployment, kept in a directory of its own under the
/// state root.
#[derive(Debug)]
pub struct ComposeManager {
    pub state_root: String,
    /// where the state of this project is kept
    pub root_path: String,
    pub project_name: String,
    pub network_manager: NetworkManager,
    pub volume_manager: VolumeManager,
}

impl ComposeManager {
    pub open spec fn wf(&self) -> bool {
        &&& self.root_path@ == project_root(self.state_root@, self.project_name@)
        &&& self.network_manager.project_name@ == self.project_name@
    }

    /// The manager of project `project_name`, kept under `state_root`.
    pub fn new(project_name: String, state_root: String) -> (r: ComposeManager)
        ensures
            r.wf(),
            r.project_name == project_name,
            r.state_root == state_root,
            r.root_path@ == project_root(state_root@, project_name@),
    {
        let root_path = path_under(&state_root, &project_name);
        ComposeManager {
            state_root,
            root_path,
            network_manager: NetworkManager::new(project_name.clone()),
            volume_manager: VolumeManager::new(),
            project_name,
        }
    }

    /// The root directory of another project under the same state root.
    pub fn get_root_path_by_name(&self, project_name: String) -> (r: String)
        ensures
            r@ == project_root(self.state_root@, project_name@),
    {
        path_under(&self.state_root, &project_name)
    }

    /// `down`: fails when the project root does not exist; otherwise gives
    /// the directory tree to remove.
    pub fn down(&self, root_exists: bool) -> (r: Result<String, ComposeError>)
        ensures
            r is Ok == root_exists,
            r matches Ok(p) ==> p@ == self.root_path@,
            r matches Err(e) ==> e == ComposeError::ProjectMissing(self.project_name),
    {
        if !root_exists {
            return Err(ComposeError::ProjectMissing(self.project_name.clone()));
        }
        Ok(self.root_path.clone())
    }

    /// The first check of `up`: a project cannot be created while its root
    /// exists.
    pub fn check_absent(&self, root_exists: bool) -> (r: Result<(), ComposeError>)
        ensures
            r is Ok == !root_exists,
            r matches Err(e) ==> e == ComposeError::ProjectExists(self.project_name),
    {
        if root_exists {
            return Err(ComposeError::ProjectExists(self.project_name.clone()));
        }
        Ok(())
    }

    /// The directory whose containers `ps` lists: this project's root when
    /// it exists, else the root of the project that the spec names.
    pub fn ps_root(&self, root_exists: bool, spec_name: Option<String>) -> (r: Result<
        String,
        ComposeError,
    >)
        ensures
            root_exists ==> (r matches Ok(p) && p@ == self.root_path@),
            !root_exists ==> match spec_name {
                Some(n) => (r matches Ok(p) && p@ == project_root(self.state_root@, n@)),
                None => r == Err::<String, ComposeError>(ComposeError::MissingProjectName),
            },
    {
        if root_exists {
            Ok(self.root_path.clone())
        } else {
            match spec_name {
                Some(n) => Ok(self.get_root_path_by_name(n)),
                None => Err(ComposeError::MissingProjectName),
            }
        }
    }

    /// The name of the container of service `srv_name` at epoch second
    /// `epoch_secs`, when the service names none.
    pub fn container_name_at(&self, srv_name: &String, epoch_secs: i64) -> (r: String)
        ensures
            r@ == synthesized_name(self.root_path@, srv_name@, epoch_secs as int),
    {
        proof {
            reveal_strlit("_");
        }
        let stamp_value: i64 = if epoch_secs >= 0 {
            epoch_secs % 1000
        } else {
            let magnitude: u64 = if epoch_secs == i64::MIN {
                9223372036854775808u64
            } else {
                (0 - epoch_secs) as u64
            };
            0 - (magnitude % 1000) as i64
        };
        let mut name = path_base_name(self.root_path.as_str());
        name.append("_");
        name.append(srv_name.as_str());
        name.append("_");
        append_signed_decimal(&mut name, stamp_value);
        proof {
            assert(name@ =~= synthesized_name(self.root_path@, srv_name@, epoch_secs as int));
        }
        name
    }

    /// The name of the container of service `srv_name` when the service
    /// names none, stamped with the current time.
    pub fn generate_container_name(&self, srv_name: &String) -> (r: String)
        ensures
            exists|t: i64| r@ == synthesized_name(self.root_path@, srv_name@, t as int),
    {
        let now = epoch_seconds_now();
        self.container_name_at(srv_name, now)
    }
}

#[derive(Debug)]
pub struct UpArgs {
    pub compose_yaml: Option<String>,
    pub project_name: Option<String>,
}

#[derive(Debug)]
pub struct DownArgs {
    pub project_name: Option<String>,
}

#[derive(Debug)]
pub struct PsArgs {
    pub compose_yaml: Option<String>,
}

#[derive(Debug)]
pub enum ComposeCommand {
    Up(UpArgs),
    Down(DownArgs),
    Ps(PsArgs),
}

/// The project a command names, if it names one: `up` and `down` may, `ps`
/// does not.
pub open spec fn command_project(command: ComposeCommand) -> Option<String> {
    match command {
        ComposeCommand::Up(a) => a.project_name,
        ComposeCommand::Down(a) => a.project_name,
        ComposeCommand::Ps(_) => None,
    }
}

/// The manager of the project named `project_name`, or else of the project
/// named after the working directory `cwd_name`.
pub fn get_manager_from_name(project_name: Option<String>, cwd_name: Option<String>, state_root: String) -> (r:
    Result<ComposeManager, ComposeError>)
    ensures
        r is Ok == (project_name is Some || cwd_name is Some),
        r matches Ok(m) ==> m.wf() && m.state_root == state_root && m.project_name == match project_name {
            Some(n) => n,
            None => cwd_name.unwrap(),
        },
        r matches Err(e) ==> e == ComposeError::MissingProjectName,
{
    match project_name {
        Some(n) => Ok(ComposeManager::new(n, state_root)),
        None => match cwd_name {
            Some(c) => Ok(ComposeManager::new(c, state_root)),
            None => Err(ComposeError::MissingProjectName),
        },
    }
}

/// The manager that `command` is carried out with: the project it names,
/// or else the one named after the working directory.
pub fn compose_execute(command: &ComposeCommand, cwd_name: Option<String>, state_root: String) -> (r: Result<
    ComposeManager,
    ComposeError,
>)
    ensures
        r is Ok == (command_project(*command) is Some || cwd_name is Some),
        r matches Ok(m) ==> m.wf() && m.state_root == state_root && m.project_name@ == match command_project(
            *command,
        ) {
            Some(n) => n@,
            None => cwd_name.unwrap()@,
        },
        r matches Err(e) ==> e == ComposeError::MissingProjectName,
{
    let name = match command {
        ComposeCommand::Up(a) => match &a.project_name {
            Some(n) => Some(n.clone()),
            None => None,
        },
        ComposeCommand::Down(a) => match &a.project_name {
            Some(n) => Some(n.clone()),
            None => None,
        },
        ComposeCommand::Ps(_) => None,
    };
    get_manager_from_name(name, cwd_name, state_root)
}

pub open spec fn spec_file_in(dir: Seq<char>, file: Seq<char>) -> Seq<char> {
    dir + seq!['/'] + file
}

/// Where the spec is read from: the path given, else `compose.yml` in the
/// working directory `cwd` when it exists there, else `compose.yaml` when
/// that exists.
pub fn get_yml_path(compose_yaml: Option<String>, cwd: &String, yml_exists: bool, yaml_exists: bool) -> (r: Result<
    String,
    ComposeError,
>)
    ensures
        r is Ok == (compose_yaml is Some || yml_exists || yaml_exists),
        r matches Ok(p) ==> p@ == match compose_yaml {
            Some(given) => given@,
            None => if yml_exists {
                spec_file_in(cwd@, "compose.yml"@)
            } else {
                spec_file_in(cwd@, "compose.yaml"@)
            },
        },
        r matches Err(e) ==> e == ComposeError::SpecFileMissing(*cwd),
{
    proof {
        reveal_strlit("/");
    }
    match compose_yaml {
        Some(given) => Ok(given),
        None => {
            if yml_exists {
                Ok(cwd.clone().concat("/").concat("compose.yml"))
            } else if yaml_exists {
                Ok(cwd.clone().concat("/").concat("compose.yaml"))
            } else {
                Err(ComposeError::SpecFileMissing(cwd.clone()))
            }
        },
    }
}

} // verus!
