use vault_mgmt::{
    command_keys, get_unseal_keys, get_unseal_keys_request, key_source, list_sealed_pods, unseal,
    unseal_keys, unseal_next, unseal_request, Action, Authority, ErrorKind, Event, Flavor,
    GetUnsealKeysFromVault, Json, JsonMember, KeyFetch, KeySource, Method, Response, Secret,
    UnsealProgress, Uri, VaultResponse,
};

fn secrets(keys: &[&str]) -> Vec<Secret> {
    keys.iter().map(|k| Secret::new(k.to_string())).collect()
}

fn texts(keys: &[Secret]) -> Vec<String> {
    keys.iter().map(|k| k.expose_secret().clone()).collect()
}

fn response(status: u16, body: &str) -> Event {
    Event::Response(VaultResponse {
        status,
        body: body.to_string(),
    })
}

const STORED: &str = r#"{
    "request_id": "abd3b7a3-581f-8add-1a6d-1d7cdb5b9c2b",
    "lease_id": "",
    "lease_duration": 0,
    "renewable": false,
    "data": {
        "data": {
            "keys": "abc\ndef\nghi"
        },
        "metadata": {
            "created_time": "2023-06-09T13:59:44.750984296Z",
            "custom_metadata": null,
            "deletion_time": "",
            "destroyed": false,
            "version": 1
        }
    },
    "warnings": null
}"#;

#[test]
fn get_sealed_pods_returns_sealed_pods() {
    match list_sealed_pods("vault") {
        Action::List { params } => {
            assert_eq!(params.label_selector.as_deref(), Some("vault-sealed=true"));
        }
        _ => panic!("the sealed members are listed"),
    }
    match list_sealed_pods("openbao") {
        Action::List { params } => {
            assert_eq!(params.label_selector.as_deref(), Some("openbao-sealed=true"));
        }
        _ => panic!("the sealed members are listed"),
    }
}

#[test]
fn unseal_returns_err_without_keys() {
    let (progress, action) = unseal(Flavor::Vault, &vec![]);

    assert_eq!(progress, UnsealProgress::Failed);
    match action {
        Action::Fail { error } => {
            assert_eq!(error.kind, ErrorKind::Protocol);
            assert_eq!(error.message, "no keys provided");
        }
        _ => panic!("an unsealing without keys fails"),
    }
}

#[test]
fn unseal_calls_api() {
    let keys = secrets(&["abc", "def", "ghi"]);
    let mut bodies = Vec::new();

    let (mut progress, mut action) = unseal(Flavor::Vault, &keys);
    let mut sent = 0;
    loop {
        match action {
            Action::Send { request } => {
                assert_eq!(request.method, Method::Put);
                assert_eq!(request.path, "/v1/sys/unseal");
                assert!(request
                    .headers
                    .iter()
                    .any(|h| h.name.eq_ignore_ascii_case("X-Vault-Request") && h.value == "true"));
                let body: serde_json::Value = serde_json::from_str(&request.body).unwrap();
                assert!(body.get("reset").is_some());
                assert!(body.get("migrate").is_some());
                bodies.push(body.get("key").unwrap().as_str().unwrap().to_string());
                assert_eq!(progress, UnsealProgress::Submitting(sent));
                sent += 1;
            }
            Action::Done => break,
            _ => panic!("the unsealing goes on"),
        }
        let next = unseal_next(Flavor::Vault, &keys, progress, response(200, ""));
        progress = next.0;
        action = next.1;
    }

    assert_eq!(progress, UnsealProgress::Done);
    assert_eq!(bodies, vec!["abc", "def", "ghi"]);
}

#[test]
fn unseal_submits_the_key_with_both_flags_off() {
    let request = unseal_request(Flavor::Vault, &Secret::new("abc".to_string()));
    assert_eq!(
        request.body,
        "{\"key\":\"abc\",\"migrate\":false,\"reset\":false}"
    );
    let body: serde_json::Value = serde_json::from_str(&request.body).unwrap();
    let body = body.as_object().unwrap();
    assert_eq!(body.len(), 3);
    assert_eq!(body["key"], "abc");
    assert_eq!(body["reset"], false);
    assert_eq!(body["migrate"], false);
    assert_eq!(request.headers.len(), 2);

    let key = "quote\" backslash\\ newline\n tab\t unicode\u{e9}\u{1F511} control\u{1}";
    let request = unseal_request(Flavor::OpenBao, &Secret::new(key.to_string()));
    assert_ne!(request.body, format!("{{\"key\":\"{}\",\"migrate\":false,\"reset\":false}}", key));
    let body: serde_json::Value = serde_json::from_str(&request.body).unwrap();
    assert_eq!(body["key"], key);
}

#[test]
fn unseal_stops_at_the_first_key_that_is_not_accepted() {
    let keys = secrets(&["abc", "def", "ghi"]);
    let (progress, _) = unseal(Flavor::Vault, &keys);
    let (progress, action) = unseal_next(Flavor::Vault, &keys, progress, response(204, ""));
    assert_eq!(progress, UnsealProgress::Submitting(1));
    assert!(matches!(action, Action::Send { .. }));
    let (progress, action) =
        unseal_next(Flavor::Vault, &keys, progress, response(400, "invalid key"));
    assert_eq!(progress, UnsealProgress::Failed);
    match action {
        Action::Fail { error } => {
            assert_eq!(error.kind, ErrorKind::Protocol);
            assert_eq!(error.message, "unsealing: invalid key");
        }
        _ => panic!("the unsealing fails"),
    }
    let (progress, action) = unseal_next(Flavor::Vault, &keys, progress, response(200, ""));
    assert_eq!(progress, UnsealProgress::Failed);
    assert!(matches!(action, Action::Fail { .. }));
}

#[test]
fn unseal_takes_successes_and_redirections_as_acceptance() {
    let keys = secrets(&["abc", "def"]);
    for status in [200u16, 201, 204, 299, 300, 301, 307, 399] {
        let (progress, action) = unseal_next(
            Flavor::Vault,
            &keys,
            UnsealProgress::Submitting(0),
            response(status, ""),
        );
        assert_eq!(progress, UnsealProgress::Submitting(1));
        assert!(matches!(action, Action::Send { .. }));
    }
    for status in [100u16, 199, 400, 404, 500, 503] {
        let (progress, action) = unseal_next(
            Flavor::Vault,
            &keys,
            UnsealProgress::Submitting(0),
            response(status, "no"),
        );
        assert_eq!(progress, UnsealProgress::Failed);
        assert!(matches!(action, Action::Fail { .. }));
    }
}

#[test]
fn unseal_fails_on_anything_but_a_response() {
    let keys = secrets(&["abc", "def"]);
    let fail = |progress: UnsealProgress, event: Event| {
        match unseal_next(Flavor::Vault, &keys, progress, event) {
            (UnsealProgress::Failed, Action::Fail { error }) => (error.kind, error.message),
            _ => panic!("the unsealing fails"),
        }
    };
    assert_eq!(
        fail(
            UnsealProgress::Submitting(0),
            Event::Failed("connection reset".to_string())
        ),
        (ErrorKind::Channel, "connection reset".to_string())
    );
    assert_eq!(
        fail(UnsealProgress::Submitting(0), Event::Cancelled),
        (ErrorKind::Cancelled, "cancelled".to_string())
    );
    assert_eq!(
        fail(UnsealProgress::Submitting(0), Event::Completed),
        (ErrorKind::WaitCondition, "unexpected event".to_string())
    );
    assert_eq!(
        fail(UnsealProgress::Submitting(2), response(200, "")),
        (ErrorKind::WaitCondition, "unexpected event".to_string())
    );
    assert_eq!(
        fail(UnsealProgress::Done, response(200, "")),
        (ErrorKind::WaitCondition, "unexpected event".to_string())
    );
}

#[test]
fn retrieving_unseal_keys_works() {
    let request = get_unseal_keys_request(
        Flavor::Vault,
        "/v1/kv/data/test",
        &Secret::new("token".to_string()),
    );
    assert_eq!(request.method, Method::Get);
    assert_eq!(request.path, "/v1/kv/data/test");
    assert!(request
        .headers
        .iter()
        .any(|h| h.name.eq_ignore_ascii_case("X-Vault-Request") && h.value == "true"));
    assert!(request
        .headers
        .iter()
        .any(|h| h.name.eq_ignore_ascii_case("X-Vault-Token") && h.value == "token"));
    assert!(request.body.is_empty());

    let outcome = unseal_keys(&VaultResponse {
        status: 200,
        body: STORED.to_string(),
    });

    assert!(outcome.is_ok());
    assert_eq!(texts(&outcome.unwrap()), vec!["abc", "def", "ghi"]);
}

#[test]
fn retrieving_unseal_keys_works_externally() {
    let uri = Uri {
        scheme: Some("http".to_string()),
        authority: Some(Authority {
            host: "127.0.0.1".to_string(),
            port: Some(34567),
        }),
        path_and_query: Some("/v1/kv/data/test".to_string()),
    };

    let client = GetUnsealKeysFromVault::new(&uri).unwrap();

    let (fetch, action) = client.get_unseal_keys(
        Flavor::Vault,
        uri.path_and_query.as_ref().unwrap(),
        &Secret::new("token".to_string()),
    );
    match action {
        Action::Dial { host, port } => {
            assert_eq!(host, "127.0.0.1");
            assert_eq!(port, 34567);
        }
        _ => panic!("a stream is opened"),
    }
    let (fetch, action) = client.get_unseal_keys_next(fetch, Event::Completed);
    assert!(matches!(action, Action::Handshake { server_name: None }));
    let (fetch, action) = client.get_unseal_keys_next(fetch, Event::Completed);
    match action {
        Action::Send { request } => {
            assert_eq!(request.method, Method::Get);
            assert_eq!(request.path, "/v1/kv/data/test");
            assert_eq!(request.headers[2].value, "token");
        }
        _ => panic!("the request is sent"),
    }
    let (fetch, action) = client.get_unseal_keys_next(fetch, response(200, STORED));
    assert!(matches!(action, Action::Done));
    let outcome = match fetch {
        KeyFetch::Done(keys) => Ok(keys),
        _ => Err(()),
    };

    assert!(outcome.is_ok());
    assert_eq!(texts(&outcome.unwrap()), vec!["abc", "def", "ghi"]);
}

#[test]
fn retrieving_unseal_keys_fails_on_other_statuses_and_bodies() {
    for status in [201u16, 204, 301, 403, 404, 500] {
        let error = unseal_keys(&VaultResponse {
            status,
            body: STORED.to_string(),
        })
        .unwrap_err();
        assert_eq!(error.kind, ErrorKind::Protocol);
        assert_eq!(error.message, format!("retrieving unseal keys: {}", STORED));
    }
    for body in [
        "",
        "{}",
        "{\"data\":{\"keys\":\"abc\"}}",
        "{\"data\":{\"data\":{}}}",
        "{\"data\":{\"data\":{\"keys\":[\"abc\"]}}}",
        "{\"data\":{\"data\":{\"keys\":null}}}",
    ] {
        let error = unseal_keys(&VaultResponse {
            status: 200,
            body: body.to_string(),
        })
        .unwrap_err();
        assert_eq!(error.kind, ErrorKind::Protocol);
        assert_eq!(error.message, format!("decoding unseal keys: {}", body));
    }
}

#[test]
fn stored_keys_are_split_at_line_ends() {
    let keys = |text: &str| {
        let response = Response::from_json(&Json::Object(vec![JsonMember {
            name: "data".to_string(),
            value: Json::Object(vec![JsonMember {
                name: "data".to_string(),
                value: Json::Object(vec![JsonMember {
                    name: "keys".to_string(),
                    value: Json::Text(text.to_string()),
                }]),
            }]),
        }]))
        .unwrap();
        assert_eq!(response.data.data.keys, text);
        let keys = texts(&response.keys());
        let expected: Vec<String> = text.lines().map(|l| l.to_string()).collect();
        assert_eq!(keys, expected);
        keys
    };
    assert_eq!(keys("abc\ndef\nghi"), vec!["abc", "def", "ghi"]);
    assert_eq!(keys("abc\ndef\nghi\n"), vec!["abc", "def", "ghi"]);
    assert_eq!(keys("abc\n\nghi"), vec!["abc", "", "ghi"]);
    assert_eq!(keys("\nabc"), vec!["", "abc"]);
    assert_eq!(keys("abc\r\ndef\r\n"), vec!["abc", "def"]);
    assert_eq!(keys("abc\rdef"), vec!["abc\rdef"]);
    assert_eq!(keys("abc\r"), vec!["abc\r"]);
    assert_eq!(keys("abc\r\r\n"), vec!["abc\r"]);
    assert_eq!(keys("\n"), vec![""]);
    assert_eq!(keys("\n\n"), vec!["", ""]);
    assert_eq!(keys("\r\n"), vec![""]);
    assert_eq!(keys("k\u{e9}y \u{1F511}\nnext"), vec!["k\u{e9}y \u{1F511}", "next"]);
    assert!(keys("").is_empty());
}

#[test]
fn command_output_is_split_into_keys() {
    assert_eq!(texts(&get_unseal_keys("abc\ndef\nghi\n")), vec!["abc", "def", "ghi"]);
    assert!(get_unseal_keys("").is_empty());
    assert_eq!(
        texts(&command_keys("abc\ndef\n").unwrap()),
        vec!["abc", "def"]
    );
    assert_eq!(texts(&command_keys("\n").unwrap()), vec![""]);
    let error = command_keys("").unwrap_err();
    assert_eq!(error.message, "no unseal keys returned from command");
}

#[test]
fn keys_come_from_the_secret_before_the_command() {
    assert_eq!(
        key_source(
            Some("https://vault.example.com/v1/secret/data/keys".to_string()),
            Some("cat keys".to_string())
        )
        .unwrap(),
        KeySource::SecretUri("https://vault.example.com/v1/secret/data/keys".to_string())
    );
    assert_eq!(
        key_source(None, Some("cat keys".to_string())).unwrap(),
        KeySource::Command("cat keys".to_string())
    );
    let error = key_source(None, None).unwrap_err();
    assert_eq!(error.message, "no keys secret uri or key cmd specified");
}

fn uri(scheme: Option<&str>, host: &str, port: Option<u16>) -> Uri {
    Uri {
        scheme: scheme.map(|s| s.to_string()),
        authority: Some(Authority {
            host: host.to_string(),
            port,
        }),
        path_and_query: Some("/v1/secret/data/keys".to_string()),
    }
}

#[test]
fn keys_are_fetched_by_the_scheme_of_the_address() {
    let from = GetUnsealKeysFromVault::new(&uri(Some("https"), "vault.example.com", None)).unwrap();
    assert_eq!(from.scheme, "https");
    assert_eq!(from.authority.host, "vault.example.com");
    assert_eq!(from.port(), 443);

    let from = GetUnsealKeysFromVault::new(&uri(Some("http"), "vault.example.com", None)).unwrap();
    assert_eq!(from.scheme, "http");
    assert_eq!(from.port(), 80);

    let from = GetUnsealKeysFromVault::new(&uri(Some("https"), "vault.example.com", Some(8200)))
        .unwrap();
    assert_eq!(from.scheme, "https");
    assert_eq!(from.port(), 8200);

    let from = GetUnsealKeysFromVault::new(&uri(None, "vault.example.com", Some(443))).unwrap();
    assert_eq!(from.scheme, "https");
    assert_eq!(from.port(), 443);

    let from = GetUnsealKeysFromVault::new(&uri(None, "vault.example.com", Some(8200))).unwrap();
    assert_eq!(from.scheme, "http");
    assert_eq!(from.port(), 8200);

    let from = GetUnsealKeysFromVault::new(&uri(None, "vault.example.com", None)).unwrap();
    assert_eq!(from.scheme, "http");
    assert_eq!(from.port(), 80);

    let from = GetUnsealKeysFromVault::new(&uri(Some("ftp"), "vault.example.com", None)).unwrap();
    assert_eq!(from.scheme, "ftp");
    assert_eq!(from.port(), 80);
}

#[test]
fn keys_are_not_fetched_from_an_address_without_an_authority() {
    let uri = Uri {
        scheme: None,
        authority: None,
        path_and_query: Some("/v1/secret/data/keys".to_string()),
    };
    let error = match GetUnsealKeysFromVault::new(&uri) {
        Err(error) => error,
        Ok(_) => panic!("an address without an authority is refused"),
    };
    assert_eq!(error.kind, ErrorKind::Naming);
    assert_eq!(error.message, "keys secret uri does not include an authority");
}

#[test]
fn keys_are_fetched_inside_tls_for_https() {
    let token = Secret::new("token".to_string());
    let from = GetUnsealKeysFromVault::new(&uri(Some("https"), "vault.example.com", None)).unwrap();
    let (fetch, action) = from.get_unseal_keys(Flavor::Vault, "/v1/secret/data/keys", &token);
    assert!(
        matches!(&action, Action::Dial { host, port } if host == "vault.example.com" && *port == 443)
    );
    let (fetch, action) = from.get_unseal_keys_next(fetch, Event::Completed);
    match action {
        Action::Handshake { server_name } => {
            assert_eq!(server_name.as_deref(), Some("vault.example.com"))
        }
        _ => panic!("the channel is opened inside TLS"),
    }
    let (fetch, _) = from.get_unseal_keys_next(fetch, Event::Completed);
    let (fetch, action) = from.get_unseal_keys_next(fetch, response(403, "permission denied"));
    assert!(matches!(fetch, KeyFetch::Failed));
    match action {
        Action::Fail { error } => {
            assert_eq!(error.message, "retrieving unseal keys: permission denied")
        }
        _ => panic!("the fetching fails"),
    }
}

#[test]
fn keys_are_not_fetched_by_other_schemes() {
    let token = Secret::new("token".to_string());
    let from = GetUnsealKeysFromVault::new(&uri(Some("ftp"), "vault.example.com", None)).unwrap();
    let (fetch, action) = from.get_unseal_keys(Flavor::Vault, "/v1/secret/data/keys", &token);
    assert!(matches!(action, Action::Dial { .. }));
    let (fetch, action) = from.get_unseal_keys_next(fetch, Event::Completed);
    assert!(matches!(fetch, KeyFetch::Failed));
    match action {
        Action::Fail { error } => assert_eq!(error.message, "unsupported scheme ftp"),
        _ => panic!("the fetching fails"),
    }

    let (fetch, _) = from.get_unseal_keys(Flavor::Vault, "/v1/secret/data/keys", &token);
    let (_, action) = from.get_unseal_keys_next(fetch, Event::Failed("refused".to_string()));
    match action {
        Action::Fail { error } => {
            assert_eq!(error.kind, ErrorKind::Channel);
            assert_eq!(error.message, "refused");
        }
        _ => panic!("the fetching fails"),
    }
}
