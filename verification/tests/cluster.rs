use vault_mgmt::{
    Action, ClusterUpgrade, Container, ErrorKind, Event, Flavor, Label, Member, MemberSpec,
    MemberStatus, PodApi, Secret, StatefulSetApi, StatusCondition, UpgradeOptions, VaultResponse,
    Workload, WorkloadSpec, WorkloadStatus,
};

fn member(name: &str, tag: &str, active: bool, sealed: bool) -> Member {
    Member {
        name: Some(name.to_string()),
        uid: None,
        labels: Some(vec![
            Label {
                key: "vault-active".to_string(),
                value: active.to_string(),
            },
            Label {
                key: "vault-sealed".to_string(),
                value: sealed.to_string(),
            },
        ]),
        spec: Some(MemberSpec {
            containers: vec![Container {
                name: "vault".to_string(),
                image: Some(format!("hashicorp/vault:{}", tag)),
            }],
        }),
        status: Some(MemberStatus {
            phase: Some("Running".to_string()),
            conditions: Some(vec![StatusCondition {
                type_: "Ready".to_string(),
                status: "True".to_string(),
            }]),
        }),
    }
}

fn workload(tag: &str) -> Workload {
    Workload {
        name: Some("vault".to_string()),
        spec: Some(WorkloadSpec {
            template: member("template", tag, false, false).spec,
        }),
        status: Some(WorkloadStatus {
            replicas: 3,
            ready_replicas: Some(3),
            available_replicas: Some(3),
            updated_replicas: Some(3),
        }),
    }
}

fn options(force_upgrade: bool) -> UpgradeOptions {
    UpgradeOptions {
        token: Secret::new("token".to_string()),
        should_unseal: true,
        force_upgrade,
        keys: vec![
            Secret::new("abc".to_string()),
            Secret::new("def".to_string()),
        ],
    }
}

fn response(status: u16, body: &str) -> Event {
    Event::Response(VaultResponse {
        status,
        body: body.to_string(),
    })
}

const INITIALIZED: &str = "{\"type\":\"shamir\",\"initialized\":true,\"sealed\":true,\"t\":2,\
    \"n\":3,\"progress\":0,\"nonce\":\"\",\"version\":\"1.17.0\",\"build_date\":\"\",\
    \"migration\":false,\"recovery_seal\":false,\"storage_type\":\"raft\"}";

/// The events of the restart of a standby member that comes back sealed and is unsealed
/// with two keys.
fn restart_of_standby(name: &str, tag: &str) -> Vec<Event> {
    vec![
        Event::Completed,
        Event::Completed,
        Event::Member(member(name, tag, false, true)),
        Event::Completed,
        response(200, INITIALIZED),
        response(200, ""),
        response(200, ""),
        Event::Completed,
        Event::Completed,
    ]
}

/// The events of the restart of the active member.
fn restart_of_active(name: &str, tag: &str) -> Vec<Event> {
    let mut events = vec![Event::Completed, response(204, ""), Event::Completed];
    events.extend(restart_of_standby(name, tag));
    events
}

/// The events of a member that is left running.
fn check_of_current() -> Vec<Event> {
    let unsealed = INITIALIZED.replace("\"sealed\":true", "\"sealed\":false");
    vec![
        Event::Completed,
        response(200, &unsealed),
        Event::Completed,
        Event::Completed,
    ]
}

fn run(workload: &Workload, options: &UpgradeOptions, events: Vec<Event>) -> (ClusterUpgrade, Vec<Action>) {
    let pods = PodApi::new(false, String::new(), Flavor::Vault);
    let sts = StatefulSetApi::new(Flavor::Vault);
    let (mut state, first) = sts.upgrade(workload);
    let mut actions = vec![first];
    for event in events {
        let (next, action) = sts.upgrade_next(&pods, options, state, event);
        state = next;
        actions.push(action);
    }
    (state, actions)
}

fn touched(actions: &[Action]) -> Vec<String> {
    actions
        .iter()
        .filter_map(|a| match a {
            Action::Delete { member } => Some(format!("DELETE {}", member)),
            Action::Send { request } if request.path == "/v1/sys/step-down" => {
                Some("STEP-DOWN".to_string())
            }
            _ => None,
        })
        .collect()
}

#[test]
fn cluster_upgrade_lists_standby_then_active_members() {
    let (state, actions) = run(
        &workload("1.17.0"),
        &options(false),
        vec![Event::Members(vec![member("vault-1", "1.16.0", false, false)])],
    );
    assert!(matches!(state, ClusterUpgrade::ListingActive { .. }));
    match (&actions[0], &actions[1]) {
        (Action::List { params: standby }, Action::List { params: active }) => {
            assert_eq!(standby.label_selector.as_deref(), Some("vault-active=false"));
            assert_eq!(active.label_selector.as_deref(), Some("vault-active=true"));
        }
        _ => panic!("the upgrade lists the members first"),
    }
}

#[test]
fn cluster_upgrade_restarts_standby_members_before_the_active_one() {
    let mut events = vec![
        Event::Members(vec![
            member("vault-1", "1.16.0", false, false),
            member("vault-2", "1.16.0", false, false),
        ]),
        Event::Members(vec![member("vault-0", "1.16.0", true, false)]),
    ];
    events.extend(restart_of_standby("vault-1", "1.17.0"));
    events.extend(restart_of_standby("vault-2", "1.17.0"));
    events.extend(restart_of_active("vault-0", "1.17.0"));

    let (state, actions) = run(&workload("1.17.0"), &options(false), events);

    assert!(matches!(state, ClusterUpgrade::Done));
    assert!(matches!(actions.last().unwrap(), Action::Done));
    assert_eq!(
        touched(&actions),
        vec![
            "DELETE vault-1",
            "DELETE vault-2",
            "STEP-DOWN",
            "DELETE vault-0"
        ]
    );
}

#[test]
fn cluster_upgrade_leaves_current_members_running() {
    let mut events = vec![
        Event::Members(vec![
            member("vault-1", "1.17.0", false, false),
            member("vault-2", "1.17.0", false, false),
        ]),
        Event::Members(vec![member("vault-0", "1.17.0", true, false)]),
    ];
    events.extend(check_of_current());
    events.extend(check_of_current());
    events.extend(check_of_current());

    let (state, actions) = run(&workload("1.17.0"), &options(false), events);

    assert!(matches!(state, ClusterUpgrade::Done));
    assert!(touched(&actions).is_empty());
}

#[test]
fn cluster_upgrade_restarts_current_members_when_forced() {
    let mut events = vec![
        Event::Members(vec![
            member("vault-1", "1.17.0", false, false),
            member("vault-2", "1.17.0", false, false),
        ]),
        Event::Members(vec![member("vault-0", "1.17.0", true, false)]),
    ];
    events.extend(restart_of_standby("vault-1", "1.17.0"));
    events.extend(restart_of_standby("vault-2", "1.17.0"));
    events.extend(restart_of_active("vault-0", "1.17.0"));

    let (state, actions) = run(&workload("1.17.0"), &options(true), events);

    assert!(matches!(state, ClusterUpgrade::Done));
    assert_eq!(
        touched(&actions),
        vec![
            "DELETE vault-1",
            "DELETE vault-2",
            "STEP-DOWN",
            "DELETE vault-0"
        ]
    );
}

#[test]
fn cluster_upgrade_restarts_only_outdated_members() {
    let mut events = vec![
        Event::Members(vec![
            member("vault-1", "1.17.0", false, false),
            member("vault-2", "1.16.0", false, false),
        ]),
        Event::Members(vec![member("vault-0", "1.17.0", true, false)]),
    ];
    events.extend(check_of_current());
    events.extend(restart_of_standby("vault-2", "1.17.0"));
    events.extend(check_of_current());

    let (state, actions) = run(&workload("1.17.0"), &options(false), events);

    assert!(matches!(state, ClusterUpgrade::Done));
    assert_eq!(touched(&actions), vec!["DELETE vault-2"]);
}

#[test]
fn cluster_upgrade_does_nothing_without_standby_members() {
    let (state, actions) = run(
        &workload("1.17.0"),
        &options(true),
        vec![Event::Members(vec![])],
    );
    assert!(matches!(state, ClusterUpgrade::Done));
    assert_eq!(actions.len(), 2);
    assert!(matches!(actions[1], Action::Done));
}

#[test]
fn cluster_upgrade_does_nothing_without_active_members() {
    let (state, actions) = run(
        &workload("1.17.0"),
        &options(true),
        vec![
            Event::Members(vec![member("vault-1", "1.16.0", false, false)]),
            Event::Members(vec![]),
        ],
    );
    assert!(matches!(state, ClusterUpgrade::Done));
    assert_eq!(actions.len(), 3);
    assert!(matches!(actions[2], Action::Done));
    assert!(touched(&actions).is_empty());
}

#[test]
fn cluster_upgrade_stops_at_the_first_failure() {
    let events = vec![
        Event::Members(vec![
            member("vault-1", "1.16.0", false, false),
            member("vault-2", "1.16.0", false, false),
        ]),
        Event::Members(vec![member("vault-0", "1.16.0", true, false)]),
        Event::Failed("forbidden".to_string()),
    ];

    let (state, actions) = run(&workload("1.17.0"), &options(false), events);

    assert!(matches!(state, ClusterUpgrade::Failed));
    assert_eq!(touched(&actions), vec!["DELETE vault-1"]);
    match actions.last().unwrap() {
        Action::Fail { error } => {
            assert_eq!(error.kind, ErrorKind::WaitCondition);
            assert_eq!(error.message, "deleting pod vault-1: forbidden");
        }
        _ => panic!("the upgrade fails"),
    }

    // once it has failed, the upgrade takes no event
    let pods = PodApi::new(false, String::new(), Flavor::Vault);
    let sts = StatefulSetApi::new(Flavor::Vault);
    let (state, action) = sts.upgrade_next(&pods, &options(false), state, Event::Completed);
    assert!(matches!(state, ClusterUpgrade::Failed));
    match action {
        Action::Fail { error } => assert_eq!(error.message, "unexpected event"),
        _ => panic!("the upgrade stays failed"),
    }
}

#[test]
fn cluster_upgrade_fails_without_a_target_version() {
    let mut sts = workload("1.17.0");
    sts.spec = None;
    let (state, actions) = run(&sts, &options(false), vec![]);
    assert!(matches!(state, ClusterUpgrade::Failed));
    match &actions[0] {
        Action::Fail { error } => {
            assert_eq!(error.kind, ErrorKind::Naming);
            assert_eq!(error.message, "statefulset does not have a spec");
        }
        _ => panic!("the upgrade fails"),
    }

    let mut sts = workload("1.17.0");
    sts.spec.as_mut().unwrap().template = None;
    let (_, actions) = run(&sts, &options(false), vec![]);
    match &actions[0] {
        Action::Fail { error } => assert_eq!(error.message, "statefulset does not have a pod spec"),
        _ => panic!("the upgrade fails"),
    }

    let mut sts = workload("1.17.0");
    sts.spec
        .as_mut()
        .unwrap()
        .template
        .as_mut()
        .unwrap()
        .containers
        .clear();
    let (_, actions) = run(&sts, &options(false), vec![]);
    match &actions[0] {
        Action::Fail { error } => {
            assert_eq!(error.message, "statefulset does not have a container")
        }
        _ => panic!("the upgrade fails"),
    }
}

#[test]
fn cluster_upgrade_fails_when_the_listing_fails() {
    let (state, actions) = run(
        &workload("1.17.0"),
        &options(false),
        vec![Event::Failed("connection refused".to_string())],
    );
    assert!(matches!(state, ClusterUpgrade::Failed));
    match actions.last().unwrap() {
        Action::Fail { error } => {
            assert_eq!(error.kind, ErrorKind::WaitCondition);
            assert_eq!(error.message, "listing standby pods: connection refused");
        }
        _ => panic!("the upgrade fails"),
    }

    let (state, actions) = run(&workload("1.17.0"), &options(false), vec![Event::Cancelled]);
    assert!(matches!(state, ClusterUpgrade::Failed));
    match actions.last().unwrap() {
        Action::Fail { error } => assert_eq!(error.kind, ErrorKind::Cancelled),
        _ => panic!("the upgrade fails"),
    }
}
