use pgbranch::engine::{
    begin_create, begin_reset, branch_infos, branch_names, choose_parent, create_start,
    require_branch, require_zfs_root, step, Action, CreateStart, EngineError, ErrorKind, Event,
    Flow, FlowKind, Stage,
};
use pgbranch::model::{Branch, BranchState, StorageBackend};
use pgbranch::ports::{allocation_start, next_port, pick_available_port, port_candidates, PortError};
use pgbranch::reconcile::{compute_state_changes, next_state, ContainerObservation, RuntimeObservation};
use pgbranch::runtime::{plan_start, plan_stop, ContainerStatus, StartPlan, StopPlan};
use pgbranch::storage::ZfsProjectConfig;

fn branch(id: &str, name: &str, state: BranchState, parent: Option<&str>, port: u16) -> Branch {
    Branch {
        id: id.to_string(),
        project_id: "p".to_string(),
        name: name.to_string(),
        parent_branch_id: parent.map(|p| p.to_string()),
        state,
        data_dir: format!("/data/projects/p/branches/{id}/pgdata"),
        container_name: format!("pgbranch-proj-{name}"),
        port,
        storage_metadata: None,
        created_at: 0,
    }
}

fn err(kind: ErrorKind) -> EngineError {
    EngineError { kind, message: "boom".to_string() }
}

#[test]
fn state_names_round_trip() {
    for s in [BranchState::Provisioning, BranchState::Stopped, BranchState::Running, BranchState::Failed] {
        assert_eq!(BranchState::from_str(s.as_str()), Some(s));
    }
    for b in [StorageBackend::Zfs, StorageBackend::ApfsClone, StorageBackend::Reflink, StorageBackend::Copy] {
        assert_eq!(StorageBackend::from_str(b.as_str()), Some(b));
    }
    assert_eq!(StorageBackend::ApfsClone.as_str(), "apfs_clone");
    assert_eq!(BranchState::from_str("Running"), None);
    assert_eq!(StorageBackend::from_str("btrfs"), None);
}

#[test]
fn next_port_starts_at_floor_and_stops_at_top() {
    assert_eq!(next_port(None), Some(55432));
    assert_eq!(next_port(Some(55440)), Some(55441));
    assert_eq!(next_port(Some(65534)), Some(65535));
    assert_eq!(next_port(Some(65535)), None);
}

#[test]
fn allocation_at_top_of_range_fails() {
    assert_eq!(allocation_start(Some(65535), 55432), Err(PortError::RangeExhausted));
    assert_eq!(allocation_start(Some(100), 55432), Ok(55432));
    assert_eq!(allocation_start(Some(60000), 55432), Ok(60001));
    assert_eq!(allocation_start(None, 6000), Ok(55432));
}

#[test]
fn port_candidates_skip_published_ports() {
    let c = port_candidates(55432, &vec![55433, 55435]);
    assert_eq!(&c[..4], &[55432, 55434, 55436, 55437]);
    assert_eq!(c.len(), 998);
    assert_eq!(port_candidates(65535, &vec![]), vec![65535]);
    assert_eq!(port_candidates(65000, &vec![]).len(), 536);
    assert_eq!(*port_candidates(65000, &vec![]).last().unwrap(), 65535);
}

#[test]
fn port_scan_exhaustion_fails_cleanly() {
    let published: Vec<u16> = (60000u16..61000).collect();
    assert!(port_candidates(60000, &published).is_empty());
    assert_eq!(
        pick_available_port(60000, &published, &vec![]),
        Err(PortError::NoFreePort { start_port: 60000 })
    );
    let probes = vec![false; 1000];
    assert_eq!(
        pick_available_port(50000, &vec![], &probes),
        Err(PortError::NoFreePort { start_port: 50000 })
    );
}

#[test]
fn first_bindable_candidate_is_picked() {
    assert_eq!(pick_available_port(55432, &vec![55432], &vec![false, true]), Ok(55434));
    assert_eq!(pick_available_port(55432, &vec![], &vec![true]), Ok(55432));
}

#[test]
fn reconcile_maps_observations() {
    assert_eq!(next_state(ContainerObservation::Running), Some(BranchState::Running));
    assert_eq!(next_state(ContainerObservation::Unpaused), Some(BranchState::Running));
    assert_eq!(next_state(ContainerObservation::UnpauseFailed), Some(BranchState::Failed));
    assert_eq!(next_state(ContainerObservation::Down { data_dir_exists: true }), Some(BranchState::Stopped));
    assert_eq!(next_state(ContainerObservation::Down { data_dir_exists: false }), Some(BranchState::Failed));
    assert_eq!(next_state(ContainerObservation::InspectFailed), None);
}

#[test]
fn reconcile_without_runtime_stops_provisioning_only() {
    let bs = vec![
        branch("1", "a", BranchState::Provisioning, None, 1),
        branch("2", "b", BranchState::Running, None, 2),
    ];
    let changes = compute_state_changes(&bs, &RuntimeObservation::Unavailable);
    assert_eq!(changes, vec![("1".to_string(), BranchState::Stopped)]);
}

#[test]
fn crash_recovery_marks_missing_container_stopped() {
    let bs = vec![
        branch("1", "main", BranchState::Running, None, 1),
        branch("2", "feature", BranchState::Running, Some("1"), 2),
    ];
    let obs = RuntimeObservation::Available(vec![
        ContainerObservation::Running,
        ContainerObservation::Down { data_dir_exists: true },
    ]);
    assert_eq!(compute_state_changes(&bs, &obs), vec![("2".to_string(), BranchState::Stopped)]);
}

#[test]
fn reconcile_twice_changes_nothing_the_second_time() {
    let mut bs = vec![
        branch("1", "a", BranchState::Stopped, None, 1),
        branch("2", "b", BranchState::Running, None, 2),
        branch("3", "c", BranchState::Provisioning, None, 3),
        branch("4", "d", BranchState::Running, None, 4),
    ];
    let first = vec![
        ContainerObservation::Unpaused,
        ContainerObservation::UnpauseFailed,
        ContainerObservation::Down { data_dir_exists: false },
        ContainerObservation::InspectFailed,
    ];
    let changes = compute_state_changes(&bs, &RuntimeObservation::Available(first));
    assert_eq!(changes.len(), 3);
    for (id, s) in changes {
        for b in bs.iter_mut() {
            if b.id == id {
                b.state = s;
            }
        }
    }
    let second = vec![
        ContainerObservation::Running,
        ContainerObservation::UnpauseFailed,
        ContainerObservation::Down { data_dir_exists: false },
        ContainerObservation::InspectFailed,
    ];
    assert!(compute_state_changes(&bs, &RuntimeObservation::Available(second)).is_empty());
}

#[test]
fn create_on_running_branch_returns_it() {
    let b = branch("1", "main", BranchState::Running, None, 55432);
    match create_start(Some(b)) {
        Ok(CreateStart::Existing(e)) => assert_eq!(e.port, 55432),
        _ => panic!("expected the existing branch"),
    }
    assert!(matches!(create_start(None), Ok(CreateStart::Provision)));
    assert_eq!(
        create_start(Some(branch("1", "main", BranchState::Stopped, None, 1))).err(),
        Some(ErrorKind::AlreadyExists)
    );
}

#[test]
fn parent_is_explicit_or_most_recent_live_branch() {
    let bs = vec![
        branch("3", "broken", BranchState::Failed, None, 3),
        branch("2", "feature", BranchState::Stopped, None, 2),
        branch("1", "main", BranchState::Running, None, 1),
    ];
    assert_eq!(choose_parent(&bs, Some("main")), Some(2));
    assert_eq!(choose_parent(&bs, None), Some(1));
    assert_eq!(choose_parent(&bs, Some("nope")), None);
    assert_eq!(choose_parent(&vec![], None), None);
}

fn run(mut flow: Flow, first: Action, events: Vec<Event>) -> Vec<Action> {
    let mut actions = vec![first];
    for e in events {
        let (f, a) = step(flow, e);
        flow = f;
        actions.push(a);
    }
    actions
}

fn names(actions: &[Action]) -> Vec<String> {
    actions
        .iter()
        .map(|a| match a {
            Action::Finish(Ok(())) => "Finish(Ok)".to_string(),
            Action::Finish(Err(e)) => format!("Finish(Err {:?})", e.kind),
            Action::Record(_) => "Record".to_string(),
            other => format!("{:?}", other),
        })
        .collect()
}

#[test]
fn create_with_running_parent_pauses_and_unpauses() {
    let (flow, first) = begin_create(true);
    let actions = run(
        flow,
        first,
        vec![
            Event::Status(ContainerStatus::Running),
            Event::Done,
            Event::Cloned(None),
            Event::Done,
            Event::Done,
            Event::Done,
            Event::Done,
            Event::Done,
        ],
    );
    assert_eq!(
        names(&actions),
        vec![
            "InspectParent", "PauseParent", "CloneFromParent", "UnpauseParent", "Record",
            "StartContainer", "WaitReady", "MarkRunning", "Finish(Ok)"
        ]
    );
}

#[test]
fn failed_clone_still_unpauses_parent() {
    let (flow, first) = begin_create(true);
    let actions = run(
        flow,
        first,
        vec![
            Event::Status(ContainerStatus::Running),
            Event::Done,
            Event::Failed(err(ErrorKind::StorageUnavailable)),
            Event::Done,
        ],
    );
    assert_eq!(
        names(&actions),
        vec!["InspectParent", "PauseParent", "CloneFromParent", "UnpauseParent", "Finish(Err StorageUnavailable)"]
    );
}

#[test]
fn create_without_parent_prepares_empty_directory() {
    let (flow, first) = begin_create(false);
    let actions = run(flow, first, vec![Event::Cloned(Some("meta".to_string())), Event::Done, Event::Done, Event::Failed(err(ErrorKind::Timeout))]);
    assert_eq!(names(&actions), vec!["CreateEmpty", "Record", "StartContainer", "WaitReady", "Finish(Err Timeout)"]);
}

#[test]
fn paused_parent_is_left_alone_when_not_running() {
    let (flow, first) = begin_create(true);
    let actions = run(flow, first, vec![Event::Status(ContainerStatus::Exited), Event::Cloned(None)]);
    assert_eq!(names(&actions), vec!["InspectParent", "CloneFromParent", "Record"]);
}

#[test]
fn reset_of_running_branch_restarts_it() {
    let (flow, first) = begin_reset(true, true);
    assert_eq!(flow.kind, FlowKind::Reset { was_running: true });
    let actions = run(
        flow,
        first,
        vec![
            Event::Done,
            Event::Status(ContainerStatus::Running),
            Event::Done,
            Event::Cloned(None),
            Event::Done,
            Event::Done,
            Event::Done,
            Event::Done,
        ],
    );
    assert_eq!(
        names(&actions),
        vec![
            "StopBranch", "InspectParent", "PauseParent", "CloneFromParent", "UnpauseParent",
            "StartContainer", "WaitReady", "MarkRunning", "Finish(Ok)"
        ]
    );
}

#[test]
fn reset_of_stopped_branch_without_parent_marks_stopped() {
    let (flow, first) = begin_reset(false, false);
    let actions = run(flow, first, vec![Event::Done, Event::Done]);
    assert_eq!(names(&actions), vec!["StopBranch", "MarkStopped", "Finish(Ok)"]);
}

#[test]
fn unexpected_event_aborts() {
    let (flow, _) = begin_create(false);
    let (f, a) = step(flow, Event::Status(ContainerStatus::Running));
    assert!(matches!(a, Action::Abort));
    assert!(matches!(f.stage, Stage::Finished));
}

#[test]
fn listing_resolves_parent_names() {
    let bs = vec![
        branch("2", "feature", BranchState::Stopped, Some("1"), 2),
        branch("1", "main", BranchState::Running, None, 1),
        branch("3", "orphan", BranchState::Failed, Some("9"), 3),
    ];
    let infos = branch_infos(&bs, "postgres");
    assert_eq!(infos.len(), 3);
    assert_eq!(infos[0].parent_branch, Some("main".to_string()));
    assert_eq!(infos[0].state, Some("stopped".to_string()));
    assert_eq!(infos[1].parent_branch, None);
    assert_eq!(infos[2].parent_branch, None);
    assert_eq!(infos[2].database_name, "postgres");
}

#[test]
fn destroy_reports_branch_names() {
    let newest_first = vec![
        branch("2", "feature", BranchState::Running, Some("1"), 2),
        branch("1", "main", BranchState::Running, None, 1),
    ];
    assert_eq!(branch_names(&newest_first), vec!["main".to_string(), "feature".to_string()]);
    assert!(branch_names(&vec![]).is_empty());
}

#[test]
fn missing_branch_is_not_found() {
    assert_eq!(require_branch(None, "ghost").err().map(|e| e.kind), Some(ErrorKind::NotFound));
    assert!(require_branch(Some(branch("1", "main", BranchState::Running, None, 1)), "main").is_ok());
}

#[test]
fn missing_zfs_root_is_storage_unavailable() {
    let cfg = ZfsProjectConfig { root_dataset: "tank/pg".to_string() };
    assert_eq!(require_zfs_root("p", Some(cfg.clone()), false).err().map(|e| e.kind), Some(ErrorKind::StorageUnavailable));
    assert_eq!(require_zfs_root("p", None, true).err().map(|e| e.kind), Some(ErrorKind::Internal));
    assert_eq!(require_zfs_root("p", Some(cfg), true).unwrap().root_dataset, "tank/pg");
}

#[test]
fn start_and_stop_plans() {
    assert_eq!(plan_start(&ContainerStatus::Running), StartPlan::Nothing);
    assert_eq!(plan_start(&ContainerStatus::Paused), StartPlan::Unpause);
    assert_eq!(plan_start(&ContainerStatus::Other("dead".to_string())), StartPlan::StartExisting);
    assert_eq!(plan_start(&ContainerStatus::NotFound), StartPlan::CreateAndStart);
    assert_eq!(plan_stop(&ContainerStatus::Exited), StopPlan::Nothing);
    assert_eq!(plan_stop(&ContainerStatus::NotFound), StopPlan::Nothing);
    assert_eq!(plan_stop(&ContainerStatus::Paused), StopPlan::UnpauseThenStop);
    assert_eq!(plan_stop(&ContainerStatus::Running), StopPlan::Stop);
}

#[test]
fn cold_create_port_is_in_default_range() {
    let start = allocation_start(None, pgbranch::local::local_settings(None).port_range_start).unwrap();
    assert_eq!(start, 55432);
    let port = pick_available_port(start, &vec![55432, 55433], &vec![true]).unwrap();
    assert_eq!(port, 55434);
    assert!((55432..55432 + 1000).contains(&port));
}

#[test]
fn allocated_port_is_above_recorded_ports() {
    let recorded = [55432u16, 55433, 55437];
    let start = allocation_start(recorded.iter().copied().max(), 55432).unwrap();
    let port = pick_available_port(start, &vec![], &vec![true]).unwrap();
    assert_eq!(port, 55438);
    assert!(!recorded.contains(&port));
}

#[test]
fn clone_row_links_its_parent() {
    let main = branch("1", "main", BranchState::Running, None, 55432);
    let row = pgbranch::store::provisioning_branch(
        "2".to_string(),
        "p".to_string(),
        "feature".to_string(),
        Some(&main),
        "/d/pgdata".to_string(),
        "pgbranch-proj-feature".to_string(),
        55433,
        None,
    );
    assert_eq!(row.parent_branch_id, Some("1".to_string()));
    assert_eq!(row.state, BranchState::Provisioning);
    assert_ne!(row.port, main.port);
    assert_ne!(row.container_name, main.container_name);
}
