use vault_mgmt::show::{construct_table, table_row, titles, Cell, Color};
use vault_mgmt::{
    Container, ErrorKind, Label, Member, MemberSpec, MemberStatus, StatusCondition,
};

fn pod(name: &str, labels: Vec<(&str, &str)>, ready: Option<&str>) -> Member {
    Member {
        name: Some(name.to_string()),
        uid: None,
        labels: Some(
            labels
                .into_iter()
                .map(|(key, value)| Label {
                    key: key.to_string(),
                    value: value.to_string(),
                })
                .collect(),
        ),
        spec: Some(MemberSpec {
            containers: vec![Container {
                name: "vault".to_string(),
                image: Some("hashicorp/vault:1.13.0".to_string()),
            }],
        }),
        status: Some(MemberStatus {
            phase: Some("Running".to_string()),
            conditions: Some(
                ready
                    .into_iter()
                    .map(|status| StatusCondition {
                        type_: "Ready".to_string(),
                        status: status.to_string(),
                    })
                    .collect(),
            ),
        }),
    }
}

fn cell(text: &str, color: Color) -> Cell {
    Cell {
        text: text.to_string(),
        color,
    }
}

#[test]
fn show_succeeds() {
    assert_eq!(
        titles(),
        vec!["NAME", "STATUS", "IMAGE", "INITIALIZED", "SEALED", "ACTIVE", "READY"]
    );

    let pods = vec![
        pod(
            "vault-0",
            vec![
                ("vault-initialized", "true"),
                ("vault-sealed", "false"),
                ("vault-active", "true"),
            ],
            Some("True"),
        ),
        pod(
            "vault-1",
            vec![
                ("vault-initialized", "false"),
                ("vault-sealed", "true"),
                ("vault-active", "false"),
            ],
            Some("False"),
        ),
        pod("vault-2", vec![("vault-sealed", "maybe")], None),
    ];

    let table = construct_table("vault", &pods).unwrap();

    assert_eq!(table.len(), 3);
    assert_eq!(table[0].name, "vault-0");
    assert_eq!(table[0].status, "Running");
    assert_eq!(table[0].image, "hashicorp/vault:1.13.0");
    assert_eq!(table[0].initialized, cell("true", Color::Green));
    assert_eq!(table[0].sealed, cell("false", Color::Green));
    assert_eq!(table[0].active, cell("true", Color::Green));
    assert_eq!(table[0].ready, cell("true", Color::Green));

    assert_eq!(table[1].name, "vault-1");
    assert_eq!(table[1].initialized, cell("false", Color::Red));
    assert_eq!(table[1].sealed, cell("true", Color::Red));
    assert_eq!(table[1].active, cell("false", Color::White));
    assert_eq!(table[1].ready, cell("false", Color::White));

    assert_eq!(table[2].name, "vault-2");
    assert_eq!(table[2].initialized, cell("unknown", Color::Yellow));
    assert_eq!(table[2].sealed, cell("maybe", Color::Yellow));
    assert_eq!(table[2].active, cell("unknown", Color::Yellow));
    assert_eq!(table[2].ready, cell("unknown", Color::Yellow));
}

#[test]
fn vault_show_succeeds() {
    let row = table_row(
        "vault",
        &pod("vault-0", vec![("vault-sealed", "true"), ("openbao-sealed", "false")], Some("True")),
    )
    .unwrap();
    assert_eq!(row.sealed, cell("true", Color::Red));
}

#[test]
fn openbao_show_succeeds() {
    let row = table_row(
        "openbao",
        &pod("openbao-0", vec![("vault-sealed", "true"), ("openbao-sealed", "false")], Some("True")),
    )
    .unwrap();
    assert_eq!(row.sealed, cell("false", Color::Green));
    assert_eq!(row.active, cell("unknown", Color::Yellow));
}

#[test]
fn show_reads_readiness_from_the_first_ready_condition() {
    let mut member = pod("vault-0", vec![], None);
    let set = |member: &mut Member, conditions: Vec<(&str, &str)>| {
        member.status.as_mut().unwrap().conditions = Some(
            conditions
                .into_iter()
                .map(|(type_, status)| StatusCondition {
                    type_: type_.to_string(),
                    status: status.to_string(),
                })
                .collect(),
        );
    };
    set(&mut member, vec![("Initialized", "True"), ("Ready", "False"), ("Ready", "True")]);
    assert_eq!(table_row("vault", &member).unwrap().ready, cell("false", Color::White));
    set(&mut member, vec![("Ready", "Unknown"), ("Ready", "True")]);
    assert_eq!(table_row("vault", &member).unwrap().ready, cell("unknown", Color::Yellow));
    set(&mut member, vec![("ContainersReady", "True")]);
    assert_eq!(table_row("vault", &member).unwrap().ready, cell("unknown", Color::Yellow));
    let mut unlabeled = pod("vault-0", vec![], Some("True"));
    unlabeled.labels = None;
    let row = table_row("vault", &unlabeled).unwrap();
    assert_eq!(row.sealed, cell("unknown", Color::Yellow));
    assert_eq!(row.ready, cell("true", Color::Green));
}

#[test]
fn show_fails_for_a_member_that_lacks_what_the_table_shows() {
    let message = |change: fn(&mut Member)| {
        let mut member = pod("vault-0", vec![], Some("True"));
        change(&mut member);
        let error = table_row("vault", &member).unwrap_err();
        assert_eq!(error.kind, ErrorKind::Naming);
        let pods = vec![pod("vault-1", vec![], Some("True")), member, pod("", vec![], None)];
        assert_eq!(construct_table("vault", &pods).unwrap_err(), error);
        error.message
    };
    assert_eq!(message(|m| m.name = None), "pod does not have a name");
    assert_eq!(message(|m| m.status = None), "pod does not have a status");
    assert_eq!(
        message(|m| m.status.as_mut().unwrap().phase = None),
        "pod does not have a phase"
    );
    assert_eq!(message(|m| m.spec = None), "pod does not have a spec");
    assert_eq!(
        message(|m| m.spec.as_mut().unwrap().containers.clear()),
        "pod does not have a container"
    );
    assert_eq!(
        message(|m| m.spec.as_mut().unwrap().containers[0].image = None),
        "container does not have an image"
    );
    assert_eq!(
        message(|m| m.status.as_mut().unwrap().conditions = None),
        "pod does not have status conditions"
    );
    assert_eq!(
        message(|m| {
            m.name = None;
            m.spec = None;
            m.status = None;
        }),
        "pod does not have a name"
    );
    assert!(construct_table("vault", &vec![]).unwrap().is_empty());
}
