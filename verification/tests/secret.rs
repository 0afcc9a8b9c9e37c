use vault_mgmt::{Error, ErrorKind, Secret};

#[test]
fn secret_hands_out_what_it_wraps() {
    let secret = Secret::new("hvs.CAESIJ".to_string());
    assert_eq!(secret.expose_secret(), "hvs.CAESIJ");
    assert_eq!(Secret::new(String::new()).expose_secret(), "");
}

#[test]
fn secret_is_cloned_with_its_text() {
    let secret = Secret::new("unseal key".to_string());
    let copy = secret.clone();
    drop(secret);
    assert_eq!(copy.expose_secret(), "unseal key");
}

#[test]
fn secret_does_not_show_its_text() {
    let secret = Secret::new("hvs.CAESIJ".to_string());
    let shown = format!("{:?}", secret);
    assert!(!shown.contains("hvs.CAESIJ"));
    assert!(shown.contains("REDACTED"));
    assert_eq!(shown, format!("{:?}", Secret::new("other".to_string())));
}

#[test]
fn error_keeps_its_kind_in_context() {
    let error = Error::new(ErrorKind::Protocol, "unsealing: sealed");
    assert_eq!(error.kind, ErrorKind::Protocol);
    assert_eq!(error.message, "unsealing: sealed");
    assert_eq!(error.to_string(), "unsealing: sealed");
    let error = error.context("unsealing pod vault-0");
    assert_eq!(error.kind, ErrorKind::Protocol);
    assert_eq!(error.to_string(), "unsealing pod vault-0: unsealing: sealed");
    let error = Error::new(ErrorKind::Cancelled, "").context("");
    assert_eq!(error.kind, ErrorKind::Cancelled);
    assert_eq!(error.message, ": ");
}
