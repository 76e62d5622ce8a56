use rkl::compose::{compose_execute, get_manager_from_name, get_yml_path, ComposeCommand, ComposeManager, DownArgs, PsArgs, UpArgs};
use rkl::compose_spec::{ComposeSpec, NetworkDirver, NetworkSpec, NetworksSpec, ServiceSpec};
use rkl::error::ComposeError;
use rkl::ports::map_port_style;
use rkl::up::{ContainerRecord, UpAction, UpEvent, UpPhase};
use rkl::volume::VolumeManager;

fn service(image: &str, ports: &[&str], networks: &[&str]) -> ServiceSpec {
    ServiceSpec {
        container_name: None,
        image: image.to_string(),
        ports: ports.iter().map(|p| p.to_string()).collect(),
        networks: networks.iter().map(|n| n.to_string()).collect(),
        volumes: vec![],
        command: vec![],
        configs: None,
        secrets: None,
        depends_on: vec![],
    }
}

fn two_service_spec() -> ComposeSpec {
    ComposeSpec {
        name: Some("demo".to_string()),
        services: vec![
            ("a".to_string(), service("img/a", &["8080:80"], &["net1"])),
            ("b".to_string(), service("img/b", &["8081:81"], &["net1"])),
        ],
        volumes: None,
        configs: None,
        networks: Some(NetworksSpec(vec![(
            "net1".to_string(),
            NetworkSpec { external: None, driver: Some(NetworkDirver::Bridge) },
        )])),
        secrets: None,
    }
}

fn record(id: &str) -> ContainerRecord {
    ContainerRecord { id: id.to_string(), inspection: format!("{{\"id\":\"{}\"}}", id) }
}

#[test]
fn test_new_compose_manager() {
    let mgr = ComposeManager::new("demo_proj".to_string(), "/run/rkl".to_string());
    assert!(mgr.root_path.ends_with("compose/demo_proj"));
    assert_eq!(mgr.project_name, "demo_proj");
}

#[test]
fn test_get_root_path_by_name() {
    let mgr = ComposeManager::new("abc".to_string(), "/run/rkl".to_string());
    let path = mgr.get_root_path_by_name("xyz".to_string());
    assert!(path.ends_with("compose/xyz"));
}

#[test]
fn test_map_port_style() {
    let ports = vec!["127.0.0.1:8080:80".to_string(), "8081:81".to_string()];
    let mapped = map_port_style(ports).unwrap();
    assert_eq!(mapped.len(), 2);
    assert_eq!(mapped[0].host_ip, "127.0.0.1");
    assert_eq!(mapped[0].host_port, 8080);
    assert_eq!(mapped[0].container_port, 80);
    assert_eq!(mapped[1].host_ip, "");
    assert_eq!(mapped[1].host_port, 8081);
    assert_eq!(mapped[1].container_port, 81);
}

#[test]
fn test_map_volume_style() {
    let volumes = vec![
        "./tmp/mount/dir:/app/data:ro".to_string(),
        "/home/erasernoob/data:/app/data2".to_string(),
    ];
    let mapped = VolumeManager::string_to_pattern(volumes).unwrap();
    assert_eq!(mapped.len(), 2);
    assert_eq!(mapped[0].host_path, "./tmp/mount/dir");
    assert_eq!(mapped[0].container_path, "/app/data");
    assert_eq!(mapped[0].read_only, true);
    assert_eq!(mapped[1].host_path, "/home/erasernoob/data");
    assert_eq!(mapped[1].container_path, "/app/data2");
    assert_eq!(mapped[1].read_only, false);
}

#[test]
fn test_get_yml_path_with_none() {
    let path = get_yml_path(None, &"/tmp/work".to_string(), true, false).unwrap();
    assert!(path.ends_with("compose.yml"));
}

#[test]
fn test_get_manager_from_name_some() {
    let mgr = get_manager_from_name(Some("abc_proj".to_string()), None, "/run/rkl".to_string()).unwrap();
    assert_eq!(mgr.project_name, "abc_proj");
}

#[test]
fn port_mapping_rejects_bad_arity_and_non_numeric() {
    assert_eq!(map_port_style(vec!["80".to_string()]), Err(ComposeError::InvalidPortMapping));
    assert_eq!(map_port_style(vec!["1:2:3:4".to_string()]), Err(ComposeError::InvalidPortMapping));
    assert_eq!(map_port_style(vec!["http:80".to_string()]), Err(ComposeError::InvalidPortMapping));
    assert_eq!(map_port_style(vec!["8080:".to_string()]), Err(ComposeError::InvalidPortMapping));
    assert_eq!(map_port_style(vec!["ip:80:x".to_string()]), Err(ComposeError::InvalidPortMapping));
    assert_eq!(map_port_style(vec!["99999999999:80".to_string()]), Err(ComposeError::InvalidPortMapping));
}

#[test]
fn port_mapping_reads_signs_and_extremes() {
    let mapped = map_port_style(vec!["+7:-2147483648".to_string(), "2147483647:0".to_string()]).unwrap();
    assert_eq!(mapped[0].host_port, 7);
    assert_eq!(mapped[0].container_port, i32::MIN);
    assert_eq!(mapped[1].host_port, i32::MAX);
    assert_eq!(mapped[1].container_port, 0);
    assert_eq!(mapped[0].protocol, "");
    assert_eq!(map_port_style(vec!["2147483648:1".to_string()]), Err(ComposeError::InvalidPortMapping));
    assert_eq!(map_port_style(vec![]), Ok(vec![]));
}

#[test]
fn volume_mode_other_than_ro_is_read_write() {
    let mapped = VolumeManager::string_to_pattern(vec!["a:b:rw".to_string(), "a:b:RO".to_string()]).unwrap();
    assert!(!mapped[0].read_only);
    assert!(!mapped[1].read_only);
    assert_eq!(
        VolumeManager::string_to_pattern(vec!["only".to_string()]),
        Err(ComposeError::InvalidVolumeMapping)
    );
    assert_eq!(
        VolumeManager::string_to_pattern(vec!["a:b:ro:x".to_string()]),
        Err(ComposeError::InvalidVolumeMapping)
    );
}

#[test]
fn up_on_existing_project_fails() {
    let mgr = ComposeManager::new("p".to_string(), "/s".to_string());
    assert_eq!(mgr.check_absent(true), Err(ComposeError::ProjectExists("p".to_string())));
    assert_eq!(mgr.check_absent(false), Ok(()));
}

#[test]
fn down_on_missing_project_fails() {
    let mgr = ComposeManager::new("p".to_string(), "/s".to_string());
    assert_eq!(mgr.down(false), Err(ComposeError::ProjectMissing("p".to_string())));
    assert_eq!(mgr.down(true), Ok("/s/compose/p".to_string()));
}

#[test]
fn second_start_failure_rolls_back_everything() {
    let mut mgr = ComposeManager::new("demo".to_string(), "/s".to_string());
    let spec = two_service_spec();
    let (mut session, first) = mgr.plan_up(&spec, 1_700_000_123).unwrap();
    assert!(matches!(first, UpAction::Launch(0)));
    let next = session.step(UpEvent::Launched(record("c1")));
    assert!(matches!(next, UpAction::Launch(1)));
    let next = session.step(UpEvent::LaunchFailed);
    match next {
        UpAction::ForceDelete(id) => assert_eq!(id, "c1"),
        other => panic!("unexpected {:?}", other),
    }
    let next = session.step(UpEvent::Deleted);
    match next {
        UpAction::RemoveRoot(p) => assert_eq!(p, "/s/compose/demo"),
        other => panic!("unexpected {:?}", other),
    }
    let next = session.step(UpEvent::RootRemoved);
    assert!(matches!(next, UpAction::Finish(Err(ComposeError::StartFailed))));
    assert_eq!(session.phase, UpPhase::Done);
}

#[test]
fn first_start_failure_only_removes_root() {
    let mut mgr = ComposeManager::new("demo".to_string(), "/s".to_string());
    let (mut session, _) = mgr.plan_up(&two_service_spec(), 5).unwrap();
    let next = session.step(UpEvent::LaunchFailed);
    assert!(matches!(next, UpAction::RemoveRoot(_)));
}

#[test]
fn two_services_up_persist_and_down() {
    let mut mgr = ComposeManager::new("demo".to_string(), "/s".to_string());
    assert_eq!(mgr.check_absent(false), Ok(()));
    let spec = two_service_spec();
    let (mut session, _) = mgr.plan_up(&spec, 1_700_000_123).unwrap();
    assert_eq!(session.plan.len(), 2);
    assert_eq!(session.plan[0].service, 0);
    assert_eq!(session.plan[0].network, "net1");
    assert_eq!(session.plan[0].container.ports[0].host_port, 8080);
    assert_eq!(session.plan[1].container.ports[0].container_port, 81);
    assert_eq!(session.plan[0].container.name, "demo_a_123");
    assert_eq!(session.plan[1].container.image, "img/b");
    session.step(UpEvent::Launched(record("c1")));
    let persist = session.step(UpEvent::Launched(record("c2")));
    match persist {
        UpAction::Persist(doc) => {
            assert_eq!(doc.project_name, "demo");
            assert_eq!(doc.containers.len(), 2);
            assert_eq!(doc.containers[0].id, "c1");
            assert_eq!(doc.containers[1].id, "c2");
        }
        other => panic!("unexpected {:?}", other),
    }
    let done = session.step(UpEvent::Persisted(true));
    assert!(matches!(done, UpAction::Finish(Ok(()))));
    assert_eq!(mgr.down(true), Ok("/s/compose/demo".to_string()));
    assert_eq!(mgr.down(false), Err(ComposeError::ProjectMissing("demo".to_string())));
}

#[test]
fn persist_failure_is_reported() {
    let mut mgr = ComposeManager::new("demo".to_string(), "/s".to_string());
    let (mut session, _) = mgr.plan_up(&two_service_spec(), 0).unwrap();
    session.step(UpEvent::Launched(record("c1")));
    session.step(UpEvent::Launched(record("c2")));
    let done = session.step(UpEvent::Persisted(false));
    assert!(matches!(done, UpAction::Finish(Err(ComposeError::PersistFailed))));
}

#[test]
fn empty_spec_persists_empty_state() {
    let mut mgr = ComposeManager::new("empty".to_string(), "/s".to_string());
    let spec = ComposeSpec { name: None, services: vec![], volumes: None, configs: None, networks: None, secrets: None };
    let (session, first) = mgr.plan_up(&spec, 0).unwrap();
    assert_eq!(session.phase, UpPhase::Persisting);
    match first {
        UpAction::Persist(doc) => {
            assert_eq!(doc.project_name, "empty");
            assert!(doc.containers.is_empty());
        }
        other => panic!("unexpected {:?}", other),
    }
}

#[test]
fn services_without_network_start_last_on_default_network() {
    let mut mgr = ComposeManager::new("proj".to_string(), "/s".to_string());
    let mut spec = two_service_spec();
    spec.services.insert(0, ("loose".to_string(), service("img/l", &[], &[])));
    spec.services[0].1.container_name = Some("fixed".to_string());
    let (session, _) = mgr.plan_up(&spec, 42).unwrap();
    let order: Vec<usize> = session.plan.iter().map(|l| l.service).collect();
    assert_eq!(order, vec![1, 2, 0]);
    assert_eq!(session.plan[2].network, "proj_default");
    assert_eq!(session.plan[2].container.name, "fixed");
    assert_eq!(session.plan[0].container.name, "proj_a_42");
}

#[test]
fn plan_rejects_bad_networks_and_strings() {
    let mut mgr = ComposeManager::new("proj".to_string(), "/s".to_string());
    let mut spec = two_service_spec();
    spec.services[1].1.networks = vec!["other".to_string()];
    assert_eq!(mgr.plan_up(&spec, 0).err(), Some(ComposeError::UnknownNetwork("other".to_string())));

    let mut spec = two_service_spec();
    spec.services[1].0 = "a".to_string();
    assert_eq!(mgr.plan_up(&spec, 0).err(), Some(ComposeError::DuplicateName("a".to_string())));

    let mut spec = two_service_spec();
    spec.services[1].1.ports = vec!["x:1".to_string()];
    assert_eq!(mgr.plan_up(&spec, 0).err(), Some(ComposeError::InvalidPortMapping));

    let mut spec = two_service_spec();
    spec.services[0].1.volumes = vec!["nocolon".to_string()];
    assert_eq!(mgr.plan_up(&spec, 0).err(), Some(ComposeError::InvalidVolumeMapping));
}

#[test]
fn container_names_carry_the_time_stamp() {
    let mgr = ComposeManager::new("web".to_string(), "/s".to_string());
    let srv = "api".to_string();
    assert_eq!(mgr.container_name_at(&srv, 1_700_000_999), "web_api_999");
    assert_eq!(mgr.container_name_at(&srv, 1000), "web_api_0");
    assert_eq!(mgr.container_name_at(&srv, -1234), "web_api_-234");
    assert_eq!(mgr.container_name_at(&srv, i64::MIN), "web_api_-808");
    let generated = mgr.generate_container_name(&srv);
    assert!(generated.starts_with("web_api_"));
    let stamp: i64 = generated["web_api_".len()..].parse().unwrap();
    assert!(stamp > -1000 && stamp < 1000);
}

#[test]
fn commands_pick_the_project() {
    let up = ComposeCommand::Up(UpArgs { compose_yaml: None, project_name: Some("given".to_string()) });
    assert_eq!(compose_execute(&up, Some("cwd".to_string()), "/s".to_string()).unwrap().project_name, "given");
    let down = ComposeCommand::Down(DownArgs { project_name: None });
    assert_eq!(compose_execute(&down, Some("cwd".to_string()), "/s".to_string()).unwrap().project_name, "cwd");
    let ps = ComposeCommand::Ps(PsArgs { compose_yaml: None });
    assert_eq!(compose_execute(&ps, None, "/s".to_string()).err(), Some(ComposeError::MissingProjectName));
}

#[test]
fn ps_and_spec_path_choices() {
    let mgr = ComposeManager::new("p".to_string(), "/s".to_string());
    assert_eq!(mgr.ps_root(true, None), Ok("/s/compose/p".to_string()));
    assert_eq!(mgr.ps_root(false, Some("q".to_string())), Ok("/s/compose/q".to_string()));
    assert_eq!(mgr.ps_root(false, None), Err(ComposeError::MissingProjectName));
    let cwd = "/w".to_string();
    assert_eq!(get_yml_path(Some("x.yml".to_string()), &cwd, true, true), Ok("x.yml".to_string()));
    assert_eq!(get_yml_path(None, &cwd, false, true), Ok("/w/compose.yaml".to_string()));
    assert_eq!(get_yml_path(None, &cwd, false, false), Err(ComposeError::SpecFileMissing("/w".to_string())));
}

#[test]
fn container_name_base_skips_trailing_separators_and_dots() {
    let srv = "api".to_string();
    let trailing = ComposeManager::new("web/".to_string(), "/s".to_string());
    assert_eq!(trailing.container_name_at(&srv, 7), "web_api_7");
    let dot = ComposeManager::new(".".to_string(), "/s".to_string());
    assert_eq!(dot.container_name_at(&srv, 7), "compose_api_7");
    let empty = ComposeManager::new("".to_string(), "/s".to_string());
    assert_eq!(empty.container_name_at(&srv, 7), "compose_api_7");
    let parent = ComposeManager::new("..".to_string(), "/s".to_string());
    assert_eq!(parent.container_name_at(&srv, 7), "unknown_api_7");
}

#[test]
fn plan_up_now_stamps_with_the_clock() {
    let mut mgr = ComposeManager::new("demo".to_string(), "/s".to_string());
    let (session, first) = mgr.plan_up_now(&two_service_spec()).unwrap();
    assert!(matches!(first, UpAction::Launch(0)));
    let name = &session.plan[0].container.name;
    assert!(name.starts_with("demo_a_"));
    let stamp: i64 = name["demo_a_".len()..].parse().unwrap();
    assert!(stamp > -1000 && stamp < 1000);
}
