use vault_mgmt::exec::env_pair;
use vault_mgmt::{command_line, EnvVar, ErrorKind, Secret};

fn var(name: &str, value: &str) -> EnvVar {
    EnvVar {
        name: name.to_string(),
        value: Secret::new(value.to_string()),
    }
}

#[test]
fn command_line_assigns_the_variables_before_the_command() {
    assert_eq!(command_line(&vec![], "vault status"), "vault status\nexit\n");
    assert_eq!(
        command_line(&vec![var("VAULT_TOKEN", "abc")], "vault status"),
        "VAULT_TOKEN=abc vault status\nexit\n"
    );
    assert_eq!(
        command_line(
            &vec![var("VAULT_TOKEN", "abc"), var("VAULT_ADDR", "http://127.0.0.1:8200")],
            "vault operator raft list-peers"
        ),
        "VAULT_TOKEN=abc VAULT_ADDR=http://127.0.0.1:8200 vault operator raft list-peers\nexit\n"
    );
    assert_eq!(command_line(&vec![var("A", "")], ""), "A= \nexit\n");
}

#[test]
fn env_pair_takes_the_name_and_the_value_around_the_first_equals_sign() {
    let read = |text: &str| {
        let pair = env_pair(text).unwrap();
        (pair.name, pair.value.expose_secret().clone())
    };
    assert_eq!(read("A=b"), ("A".to_string(), "b".to_string()));
    assert_eq!(read("VAULT_TOKEN=hvs.abc"), ("VAULT_TOKEN".to_string(), "hvs.abc".to_string()));
    assert_eq!(read("A="), ("A".to_string(), String::new()));
    assert_eq!(read("=b"), (String::new(), "b".to_string()));
    assert_eq!(read("="), (String::new(), String::new()));
    // what follows a second equals sign is dropped
    assert_eq!(read("A=b=c"), ("A".to_string(), "b".to_string()));
    assert_eq!(read("A==c"), ("A".to_string(), String::new()));
    assert_eq!(read("\u{e9}=\u{1F511}"), ("\u{e9}".to_string(), "\u{1F511}".to_string()));
    for text in ["A=b=c", "A=", "=b", "x=y z", "k\u{e9}y=v\u{e4}l=more"] {
        let mut split = text.split('=');
        let expected = (
            split.next().unwrap().to_string(),
            split.next().unwrap().to_string(),
        );
        assert_eq!(read(text), expected);
    }
}

#[test]
fn env_pair_refuses_a_text_without_an_equals_sign() {
    for text in ["", "A", "VAULT_TOKEN", "a b"] {
        let error = match env_pair(text) {
            Err(error) => error,
            Ok(_) => panic!("a text without an equals sign assigns nothing"),
        };
        assert_eq!(error.kind, ErrorKind::Naming);
        assert_eq!(error.message, "invalid key=value pair");
    }
}
