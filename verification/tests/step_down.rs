use vault_mgmt::{step_down, step_down_request, ErrorKind, Flavor, Method, Secret, VaultResponse};

#[test]
fn stepdown_calls_api() {
    let request = step_down_request(Flavor::Vault, &Secret::new("abc".to_string()));
    assert_eq!(request.method, Method::Put);
    assert_eq!(request.path, "/v1/sys/step-down");
    assert!(request
        .headers
        .iter()
        .any(|h| h.name.eq_ignore_ascii_case("X-Vault-Request") && h.value == "true"));
    assert!(request
        .headers
        .iter()
        .any(|h| h.name.eq_ignore_ascii_case("X-Vault-Token") && h.value == "abc"));
    assert!(request.body.is_empty());

    let outcome = step_down(&VaultResponse {
        status: 204,
        body: String::new(),
    });

    assert!(outcome.is_ok());
}

#[test]
fn stepdown_fails_on_any_status_but_204() {
    for status in [100u16, 200, 201, 203, 205, 301, 400, 403, 500, 503] {
        let error = step_down(&VaultResponse {
            status,
            body: "standby".to_string(),
        })
        .unwrap_err();
        assert_eq!(error.kind, ErrorKind::Protocol);
        assert_eq!(error.message, "stepping-down: standby");
        assert_eq!(error.to_string(), "stepping-down: standby");
    }
}

#[test]
fn stepdown_request_names_the_flavor_in_its_headers() {
    let request = step_down_request(Flavor::OpenBao, &Secret::new("s.token".to_string()));
    let headers: Vec<(&str, &str)> = request
        .headers
        .iter()
        .map(|h| (h.name.as_str(), h.value.as_str()))
        .collect();
    assert_eq!(
        headers,
        vec![
            ("Host", "127.0.0.1"),
            ("X-openbao-Request", "true"),
            ("X-openbao-Token", "s.token"),
        ]
    );
}
