use vault_mgmt::{
    await_raft_configuration, await_seal_status, is_seal_status_initialized,
    is_seal_status_sealed, raft_configuration, raft_configuration_all_voters,
    raft_configuration_any_leader, raft_configuration_request, seal_status, seal_status_request,
    ErrorKind, Flavor, Json, Method, Poll, RaftConfiguration, Secret, VaultResponse,
};

const MINIMAL: &str = r#"{
    "type": "shamir",
    "initialized": false,
    "sealed": true,
    "t": 2,
    "n": 3,
    "progress": 0,
    "nonce": "",
    "version": "1.13.0",
    "build_date": "2023-03-01T14:58:13Z",
    "migration": false,
    "recovery_seal": false,
    "storage_type": "raft"
}"#;

const UNINITIALIZED: &str = r#"{
    "type": "shamir",
    "initialized": false,
    "sealed": true,
    "t": 2,
    "n": 3,
    "progress": 0,
    "nonce": "",
    "version": "1.13.0",
    "build_date": "2023-03-01T14:58:13Z",
    "migration": false,
    "recovery_seal": false,
    "storage_type": "raft",
    "ha_enabled": true,
    "active_time": "0001-01-01T00:00:00Z"
}"#;

const INITIALIZED: &str = r#"{
    "type": "shamir",
    "initialized": true,
    "sealed": false,
    "t": 2,
    "n": 3,
    "progress": 0,
    "nonce": "",
    "version": "1.13.0",
    "build_date": "2023-03-01T14:58:13Z",
    "migration": false,
    "cluster_name": "vault-cluster-211d673a",
    "cluster_id": "b7b7f5e2-803a-2484-df4a-870c6b15f22f",
    "recovery_seal": false,
    "storage_type": "raft",
    "ha_enabled": true,
    "active_time": "0001-01-01T00:00:00Z",
    "leader_address": "http://10.42.2.25:8200",
    "leader_cluster_address": "https://vault-0.vault-internal:8201",
    "raft_committed_index": 40,
    "raft_applied_index": 40
}"#;

fn ok(body: &str) -> VaultResponse {
    VaultResponse {
        status: 200,
        body: body.to_string(),
    }
}

#[test]
fn getting_seal_status_works_if_minimal() {
    let request = seal_status_request(Flavor::Vault);
    assert_eq!(request.method, Method::Get);
    assert_eq!(request.path, "/v1/sys/seal-status");
    assert!(request
        .headers
        .iter()
        .any(|h| h.name.eq_ignore_ascii_case("X-Vault-Request") && h.value == "true"));
    assert!(request.body.is_empty());

    let status = seal_status(&ok(MINIMAL)).unwrap();

    assert_eq!(status.type_, "shamir");
    assert!(!status.initialized);
    assert!(status.sealed);
    assert_eq!(status.t, 2);
    assert_eq!(status.n, 3);
    assert_eq!(status.progress, 0);
    assert_eq!(status.nonce, "");
    assert_eq!(status.version, "1.13.0");
    assert_eq!(status.build_date, "2023-03-01T14:58:13Z");
    assert!(!status.migration);
    assert!(!status.recovery_seal);
    assert_eq!(status.storage_type, "raft");
    assert_eq!(status.ha_enabled, None);
    assert_eq!(status.cluster_name, None);
    assert_eq!(status.cluster_id, None);
    assert_eq!(status.active_time, None);
    assert_eq!(status.leader_address, None);
    assert_eq!(status.leader_cluster_address, None);
    assert_eq!(status.raft_committed_index, None);
    assert_eq!(status.raft_applied_index, None);
}

#[test]
fn getting_seal_status_works_if_uninitialized() {
    let status = seal_status(&ok(UNINITIALIZED)).unwrap();

    assert_eq!(status.type_, "shamir");
    assert!(!status.initialized);
    assert!(status.sealed);
    assert_eq!(status.t, 2);
    assert_eq!(status.n, 3);
    assert_eq!(status.progress, 0);
    assert_eq!(status.nonce, "");
    assert_eq!(status.version, "1.13.0");
    assert_eq!(status.build_date, "2023-03-01T14:58:13Z");
    assert!(!status.migration);
    assert!(!status.recovery_seal);
    assert_eq!(status.storage_type, "raft");
    assert!(status.ha_enabled.unwrap());
    assert_eq!(status.cluster_name, None);
    assert_eq!(status.cluster_id, None);
    assert_eq!(status.active_time.unwrap(), "0001-01-01T00:00:00Z");
    assert_eq!(status.leader_address, None);
    assert_eq!(status.leader_cluster_address, None);
    assert_eq!(status.raft_committed_index, None);
    assert_eq!(status.raft_applied_index, None);
}

#[test]
fn getting_seal_status_works_if_initialized() {
    let status = seal_status(&ok(INITIALIZED)).unwrap();

    assert_eq!(status.type_, "shamir");
    assert!(status.initialized);
    assert!(!status.sealed);
    assert_eq!(status.t, 2);
    assert_eq!(status.n, 3);
    assert_eq!(status.progress, 0);
    assert_eq!(status.nonce, "");
    assert_eq!(status.version, "1.13.0");
    assert_eq!(status.build_date, "2023-03-01T14:58:13Z");
    assert!(!status.migration);
    assert!(!status.recovery_seal);
    assert_eq!(status.storage_type, "raft");
    assert!(status.ha_enabled.unwrap());
    assert_eq!(status.cluster_name.unwrap(), "vault-cluster-211d673a");
    assert_eq!(
        status.cluster_id.unwrap(),
        "b7b7f5e2-803a-2484-df4a-870c6b15f22f"
    );
    assert_eq!(status.active_time.unwrap(), "0001-01-01T00:00:00Z");
    assert_eq!(status.leader_address.unwrap(), "http://10.42.2.25:8200");
    assert_eq!(
        status.leader_cluster_address.unwrap(),
        "https://vault-0.vault-internal:8201"
    );
    assert_eq!(status.raft_committed_index.unwrap(), 40);
    assert_eq!(status.raft_applied_index.unwrap(), 40);
}

#[test]
fn getting_seal_status_passes_over_other_members_and_takes_null_as_absent() {
    let body = MINIMAL.replacen(
        "{",
        "{ \"removed_from_cluster\": false, \"ha_enabled\": null, \"cluster_name\": null,",
        1,
    );
    let status = seal_status(&ok(&body)).unwrap();
    assert_eq!(status.ha_enabled, None);
    assert_eq!(status.cluster_name, None);
    assert_eq!(status, seal_status(&ok(MINIMAL)).unwrap());
}

#[test]
fn getting_seal_status_fails_on_other_statuses_and_bodies() {
    let error = seal_status(&VaultResponse {
        status: 503,
        body: MINIMAL.to_string(),
    })
    .unwrap_err();
    assert_eq!(error.kind, ErrorKind::Protocol);
    assert_eq!(error.message, format!("getting seal status: {}", MINIMAL));

    let error = seal_status(&VaultResponse {
        status: 204,
        body: String::new(),
    })
    .unwrap_err();
    assert_eq!(error.message, "getting seal status: ");

    for body in [
        "",
        "sealed",
        "[]",
        "{}",
        &MINIMAL.replace("\"sealed\": true,", ""),
        &MINIMAL.replace("\"t\": 2", "\"t\": 256"),
        &MINIMAL.replace("\"t\": 2", "\"t\": -1"),
        &MINIMAL.replace("\"t\": 2", "\"t\": 2.5"),
        &MINIMAL.replace("\"t\": 2", "\"t\": \"2\""),
        &MINIMAL.replace("\"nonce\": \"\"", "\"nonce\": null"),
        &MINIMAL.replace("\"sealed\": true", "\"sealed\": \"true\""),
        &UNINITIALIZED.replace("\"ha_enabled\": true", "\"ha_enabled\": 1"),
        &INITIALIZED.replace("\"raft_applied_index\": 40", "\"raft_applied_index\": \"40\""),
    ] {
        let error = seal_status(&ok(body)).unwrap_err();
        assert_eq!(error.kind, ErrorKind::Protocol);
        assert_eq!(error.message, format!("decoding seal status: {}", body));
    }

    assert_eq!(
        seal_status(&ok(&MINIMAL.replace("\"t\": 2", "\"t\": 255")))
            .unwrap()
            .t,
        255
    );
}

#[test]
fn waiting_for_seal_status_works() {
    let status = match await_seal_status(
        Flavor::Vault,
        &is_seal_status_initialized(),
        &ok(INITIALIZED),
    ) {
        Poll::Ready(status) => status,
        _ => panic!("the member is initialized"),
    };

    assert!(status.initialized);
}

#[test]
fn waiting_for_seal_status_polls_again_until_the_condition_holds() {
    match await_seal_status(Flavor::OpenBao, &is_seal_status_initialized(), &ok(MINIMAL)) {
        Poll::Again(request) => {
            assert_eq!(request.method, Method::Get);
            assert_eq!(request.path, "/v1/sys/seal-status");
            assert_eq!(request.headers[1].name, "X-openbao-Request");
        }
        _ => panic!("the member is not initialized"),
    }
    assert!(matches!(
        await_seal_status(Flavor::Vault, &is_seal_status_sealed(), &ok(MINIMAL)),
        Poll::Ready(_)
    ));
    assert!(matches!(
        await_seal_status(Flavor::Vault, &is_seal_status_sealed().not(), &ok(MINIMAL)),
        Poll::Again(_)
    ));
    assert!(matches!(
        await_seal_status(Flavor::Vault, &is_seal_status_sealed().not(), &ok(INITIALIZED)),
        Poll::Ready(_)
    ));
    match await_seal_status(
        Flavor::Vault,
        &is_seal_status_initialized(),
        &VaultResponse {
            status: 500,
            body: "broken".to_string(),
        },
    ) {
        Poll::Failed(error) => assert_eq!(error.message, "getting seal status: broken"),
        _ => panic!("the poll fails"),
    }
}

#[test]
fn seal_status_conditions_do_not_hold_of_nothing() {
    assert!(!is_seal_status_initialized().matches_object(None));
    assert!(!is_seal_status_sealed().matches_object(None));
    assert!(is_seal_status_sealed().not().matches_object(None));
    assert!(!is_seal_status_sealed().not().not().matches_object(None));
}

fn raft(leader: [bool; 3], voter: [bool; 3]) -> String {
    format!(
        r#"{{
        "request_id": "7f6fc909-bb7f-e48c-d850-0ad8a22cb434",
        "lease_id": "",
        "renewable": false,
        "lease_duration": 0,
        "data": {{
            "config": {{
                "servers": [
                    {{
                        "node_id": "147c957f-5718-07b6-424e-5522efcfbc9e",
                        "address": "vault-0.vault-internal:8201",
                        "leader": {},
                        "protocol_version": "3",
                        "voter": {}
                    }},
                    {{
                        "node_id": "04ffa935-e1c2-e891-a9e9-426bf1a6c93d",
                        "address": "vault-1.vault-internal:8201",
                        "leader": {},
                        "protocol_version": "3",
                        "voter": {}
                    }},
                    {{
                        "node_id": "124bef00-64ec-59de-1366-7050edfb5c49",
                        "address": "vault-2.vault-internal:8201",
                        "leader": {},
                        "protocol_version": "3",
                        "voter": {}
                    }}
                ],
                "index": 0
            }}
        }},
        "wrap_info": null,
        "warnings": null,
        "auth": null
    }}"#,
        leader[0], voter[0], leader[1], voter[1], leader[2], voter[2]
    )
}

fn raft_configuration_body() -> String {
    raft([true, false, false], [true, true, true])
}

fn raft_configuration_no_leader() -> String {
    raft([false, false, false], [true, true, true])
}

fn raft_configuration_single_non_voter() -> String {
    raft([true, false, false], [true, true, false])
}

fn raft_configuration_no_voter() -> String {
    raft([false, false, false], [false, false, false])
}

#[test]
fn getting_raft_configuration_works() {
    let request = raft_configuration_request(Flavor::Vault, &Secret::new("abc".to_string()));
    assert_eq!(request.method, Method::Get);
    assert_eq!(request.path, "/v1/sys/storage/raft/configuration");
    assert!(request
        .headers
        .iter()
        .any(|h| h.name.eq_ignore_ascii_case("X-Vault-Request") && h.value == "true"));
    assert!(request
        .headers
        .iter()
        .any(|h| h.name.eq_ignore_ascii_case("X-Vault-Token") && h.value == "abc"));

    let config = raft_configuration(&ok(&raft_configuration_body())).unwrap();

    assert_eq!(config.request_id, "7f6fc909-bb7f-e48c-d850-0ad8a22cb434");
    assert_eq!(config.lease_id, "");
    assert!(!config.renewable);
    assert_eq!(config.lease_duration, 0);
    assert_eq!(config.data.config.index, 0);
    assert_eq!(config.data.config.servers.len(), 3);
    assert_eq!(
        config.data.config.servers[0].node_id,
        "147c957f-5718-07b6-424e-5522efcfbc9e"
    );
    assert_eq!(
        config.data.config.servers[0].address,
        "vault-0.vault-internal:8201"
    );
    assert!(config.data.config.servers[0].leader);
    assert_eq!(config.data.config.servers[0].protocol_version, "3");
    assert!(config.data.config.servers[0].voter);
    assert_eq!(
        config.data.config.servers[1].node_id,
        "04ffa935-e1c2-e891-a9e9-426bf1a6c93d"
    );
    assert_eq!(
        config.data.config.servers[1].address,
        "vault-1.vault-internal:8201"
    );
    assert!(!config.data.config.servers[1].leader);
    assert_eq!(config.data.config.servers[1].protocol_version, "3");
    assert!(config.data.config.servers[1].voter);
    assert_eq!(
        config.data.config.servers[2].node_id,
        "124bef00-64ec-59de-1366-7050edfb5c49"
    );
    assert_eq!(
        config.data.config.servers[2].address,
        "vault-2.vault-internal:8201"
    );
    assert!(!config.data.config.servers[2].leader);
    assert_eq!(config.data.config.servers[2].protocol_version, "3");
    assert!(config.data.config.servers[2].voter);

    assert_eq!(config.wrap_info, None);
    assert_eq!(config.warnings, None);
    assert_eq!(config.auth, None);
}

#[test]
fn getting_raft_configuration_keeps_what_it_does_not_read() {
    let body = raft_configuration_body().replace(
        "\"warnings\": null",
        "\"warnings\": [\"slow\", {\"after\": 3, \"exact\": 1.5, \"ok\": true, \"by\": null}]",
    );
    let config = raft_configuration(&ok(&body)).unwrap();
    assert_eq!(
        config.warnings,
        Some(Json::Array(vec![
            Json::Text("slow".to_string()),
            Json::Object(vec![
                vault_mgmt::JsonMember {
                    name: "after".to_string(),
                    value: Json::Number(Some(3)),
                },
                vault_mgmt::JsonMember {
                    name: "by".to_string(),
                    value: Json::Null,
                },
                vault_mgmt::JsonMember {
                    name: "exact".to_string(),
                    value: Json::Number(None),
                },
                vault_mgmt::JsonMember {
                    name: "ok".to_string(),
                    value: Json::Bool(true),
                },
            ]),
        ]))
    );
}

#[test]
fn getting_raft_configuration_fails_on_other_statuses_and_bodies() {
    let error = raft_configuration(&VaultResponse {
        status: 403,
        body: "permission denied".to_string(),
    })
    .unwrap_err();
    assert_eq!(error.kind, ErrorKind::Protocol);
    assert_eq!(error.message, "getting raft configuration: permission denied");

    for body in [
        "{}".to_string(),
        raft_configuration_body().replace("\"leader\": true", "\"leader\": 1"),
        raft_configuration_body().replace("\"servers\": [", "\"servers\": [ null, "),
        raft_configuration_body().replace("\"index\": 0", "\"index\": -1"),
        raft_configuration_body().replace("\"config\":", "\"configuration\":"),
    ] {
        let error = raft_configuration(&ok(&body)).unwrap_err();
        assert_eq!(error.kind, ErrorKind::Protocol);
        assert_eq!(error.message, format!("decoding raft configuration: {}", body));
    }
}

fn wait_for(
    condition: &vault_mgmt::RaftCondition,
    responses: &[String],
) -> (usize, Option<RaftConfiguration>) {
    let token = Secret::new("abc".to_string());
    for (i, body) in responses.iter().enumerate() {
        match await_raft_configuration(Flavor::Vault, &token, condition, &ok(body)) {
            Poll::Ready(config) => return (i + 1, Some(config)),
            Poll::Again(request) => {
                assert_eq!(request.path, "/v1/sys/storage/raft/configuration");
                assert_eq!(request.headers[2].value, "abc");
            }
            Poll::Failed(error) => panic!("{}", error.message),
        }
    }
    (responses.len(), None)
}

#[test]
fn waiting_for_raft_configuration_works() {
    let (polls, config) = wait_for(
        &raft_configuration_any_leader(),
        &[raft_configuration_body()],
    );

    assert_eq!(polls, 1);
    assert!(config.unwrap().data.config.servers[0].leader);
}

#[test]
fn waiting_for_raft_configuration_having_leader_works() {
    let (polls, config) = wait_for(
        &raft_configuration_any_leader(),
        &[
            raft_configuration_no_leader(),
            raft_configuration_no_leader(),
            raft_configuration_body(),
        ],
    );

    assert_eq!(polls, 3);
    assert!(config.unwrap().data.config.servers[0].leader);
}

#[test]
fn waiting_for_raft_configuration_having_all_voters_works() {
    let (polls, config) = wait_for(
        &raft_configuration_all_voters(),
        &[
            raft_configuration_no_voter(),
            raft_configuration_single_non_voter(),
            raft_configuration_body(),
        ],
    );

    assert_eq!(polls, 3);
    assert!(config
        .unwrap()
        .data
        .config
        .servers
        .iter()
        .all(|s| s.voter));
}

#[test]
fn raft_conditions_hold_as_the_flags_say() {
    let config = |body: String| raft_configuration(&ok(&body)).unwrap();
    let any_leader = raft_configuration_any_leader();
    let all_voters = raft_configuration_all_voters();

    assert!(any_leader.matches_object(Some(&config(raft([false, false, true], [true; 3])))));
    assert!(any_leader.matches_object(Some(&config(raft([true, true, false], [false; 3])))));
    assert!(!any_leader.matches_object(Some(&config(raft([false; 3], [true; 3])))));
    assert!(!any_leader.matches_object(None));

    assert!(all_voters.matches_object(Some(&config(raft([false; 3], [true; 3])))));
    assert!(!all_voters.matches_object(Some(&config(raft([true; 3], [true, false, true])))));
    assert!(!all_voters.matches_object(Some(&config(raft([true; 3], [false, true, true])))));
    assert!(!all_voters.matches_object(None));

    // without servers no server is the leader, and every server is a voter
    let empty = raft_configuration_body();
    let start = empty.find('[').unwrap();
    let end = empty.rfind(']').unwrap();
    let empty = config(format!("{}[]{}", &empty[..start], &empty[end + 1..]));
    assert!(empty.data.config.servers.is_empty());
    assert!(!any_leader.matches_object(Some(&empty)));
    assert!(all_voters.matches_object(Some(&empty)));
    assert!(raft_configuration_any_leader()
        .not()
        .matches_object(Some(&empty)));
}
