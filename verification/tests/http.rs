use vault_mgmt::http::{is_redirection, is_success, vault_request, vault_request_with_token};
use vault_mgmt::{
    get_unseal_keys_request, init_request, raft_configuration_request, raft_join_request,
    seal_status_request, step_down_request, unseal_request, Flavor, Method, Secret, VaultRequest,
    VAULT_PORT,
};

fn headers(request: &VaultRequest) -> Vec<(String, String)> {
    request
        .headers
        .iter()
        .map(|h| (h.name.clone(), h.value.clone()))
        .collect()
}

fn plain(flavor: &str) -> Vec<(String, String)> {
    vec![
        ("Host".to_string(), "127.0.0.1".to_string()),
        (format!("X-{}-Request", flavor), "true".to_string()),
    ]
}

fn with_token(flavor: &str, token: &str) -> Vec<(String, String)> {
    let mut headers = plain(flavor);
    headers.push((format!("X-{}-Token", flavor), token.to_string()));
    headers
}

#[test]
fn members_serve_their_api_on_port_8200() {
    assert_eq!(VAULT_PORT, 8200);
}

#[test]
fn every_request_carries_the_host_and_the_marker_of_the_flavor() {
    let token = Secret::new("hvs.token".to_string());
    for (flavor, name) in [(Flavor::Vault, "vault"), (Flavor::OpenBao, "openbao")] {
        assert_eq!(headers(&seal_status_request(flavor)), plain(name));
        assert_eq!(headers(&unseal_request(flavor, &token)), plain(name));
        assert_eq!(headers(&init_request(flavor, String::new())), plain(name));
        assert_eq!(headers(&raft_join_request(flavor, String::new())), plain(name));
        assert_eq!(
            headers(&step_down_request(flavor, &token)),
            with_token(name, "hvs.token")
        );
        assert_eq!(
            headers(&raft_configuration_request(flavor, &token)),
            with_token(name, "hvs.token")
        );
        assert_eq!(
            headers(&get_unseal_keys_request(flavor, "/v1/kv/data/keys", &token)),
            with_token(name, "hvs.token")
        );
    }
}

#[test]
fn requests_have_the_method_and_the_path_of_their_endpoint() {
    let token = Secret::new("token".to_string());
    let flavor = Flavor::Vault;
    let endpoint = |request: VaultRequest| (request.method, request.path, request.body);
    assert_eq!(
        endpoint(seal_status_request(flavor)),
        (Method::Get, "/v1/sys/seal-status".to_string(), String::new())
    );
    assert_eq!(
        endpoint(init_request(flavor, "{}".to_string())),
        (Method::Put, "/v1/sys/init".to_string(), "{}".to_string())
    );
    assert_eq!(
        endpoint(unseal_request(flavor, &Secret::new("k".to_string()))),
        (
            Method::Put,
            "/v1/sys/unseal".to_string(),
            "{\"key\":\"k\",\"migrate\":false,\"reset\":false}".to_string()
        )
    );
    assert_eq!(
        endpoint(step_down_request(flavor, &token)),
        (Method::Put, "/v1/sys/step-down".to_string(), String::new())
    );
    assert_eq!(
        endpoint(raft_join_request(flavor, "{\"leader_api_addr\":\"a\"}".to_string())),
        (
            Method::Post,
            "/v1/sys/storage/raft/join".to_string(),
            "{\"leader_api_addr\":\"a\"}".to_string()
        )
    );
    assert_eq!(
        endpoint(raft_configuration_request(flavor, &token)),
        (
            Method::Get,
            "/v1/sys/storage/raft/configuration".to_string(),
            String::new()
        )
    );
    assert_eq!(
        endpoint(get_unseal_keys_request(flavor, "/v1/kv/data/keys?version=2", &token)),
        (
            Method::Get,
            "/v1/kv/data/keys?version=2".to_string(),
            String::new()
        )
    );
}

#[test]
fn requests_are_built_from_their_parts() {
    let request = vault_request(Flavor::Vault, Method::Post, "/v1/sys/any", "body".to_string());
    assert_eq!(request.method, Method::Post);
    assert_eq!(request.path, "/v1/sys/any");
    assert_eq!(request.body, "body");
    assert_eq!(headers(&request), plain("vault"));

    let request = vault_request_with_token(
        Flavor::OpenBao,
        &Secret::new("t".to_string()),
        Method::Get,
        "/",
        String::new(),
    );
    assert_eq!(headers(&request), with_token("openbao", "t"));
}

#[test]
fn statuses_are_classified_by_their_hundreds() {
    for status in 0u16..=1000 {
        assert_eq!(is_success(status), (200..300).contains(&status));
        assert_eq!(is_redirection(status), (300..400).contains(&status));
    }
    assert!(!is_success(u16::MAX));
    assert!(!is_redirection(u16::MAX));
}
