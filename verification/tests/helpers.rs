use vault_mgmt::{
    is_active, is_sealed, list_vault_pods, ErrorKind, ExecIn, Flavor, Label, Member,
};

fn pod(labels: Option<Vec<(&str, &str)>>) -> Member {
    Member {
        name: Some("vault-0".to_string()),
        uid: None,
        labels: labels.map(|labels| {
            labels
                .into_iter()
                .map(|(key, value)| Label {
                    key: key.to_string(),
                    value: value.to_string(),
                })
                .collect()
        }),
        spec: None,
        status: None,
    }
}

#[test]
fn flavor_has_a_lower_case_name() {
    assert_eq!(Flavor::Vault.to_string(), "vault");
    assert_eq!(Flavor::OpenBao.to_string(), "openbao");
    assert_eq!(Flavor::Vault.container_name(), "vault");
    assert_eq!(Flavor::OpenBao.container_name(), "openbao");
}

#[test]
fn flavor_is_read_in_any_case() {
    assert_eq!(Flavor::from_str("vault"), Ok(Flavor::Vault));
    assert_eq!(Flavor::from_str("Vault"), Ok(Flavor::Vault));
    assert_eq!(Flavor::from_str("VAULT"), Ok(Flavor::Vault));
    assert_eq!(Flavor::from_str("openbao"), Ok(Flavor::OpenBao));
    assert_eq!(Flavor::from_str("OpenBao"), Ok(Flavor::OpenBao));
    assert_eq!(Flavor::from_lowercase("openbao"), Some(Flavor::OpenBao));
    assert_eq!(Flavor::from_lowercase("OpenBao"), None);
    assert_eq!(
        Flavor::from_str("consul"),
        Err("invalid flavor: consul".to_string())
    );
    assert_eq!(
        Flavor::from_str("Vault "),
        Err("invalid flavor: Vault ".to_string())
    );
    assert_eq!(Flavor::from_str(""), Err("invalid flavor: ".to_string()));
    for flavor in [Flavor::Vault, Flavor::OpenBao] {
        assert_eq!(Flavor::from_str(&flavor.to_string()), Ok(flavor));
    }
}

#[test]
fn members_are_listed_by_the_name_of_the_flavor() {
    assert_eq!(
        list_vault_pods("vault").label_selector.as_deref(),
        Some("app.kubernetes.io/name=vault")
    );
    assert_eq!(
        list_vault_pods("openbao").label_selector.as_deref(),
        Some("app.kubernetes.io/name=openbao")
    );
    // a second selector takes the place of the first
    assert_eq!(
        list_vault_pods("vault")
            .labels(&ExecIn::Standby.to_label_selector("vault"))
            .label_selector
            .as_deref(),
        Some("vault-active=false")
    );
    assert_eq!(
        list_vault_pods("vault").labels("").label_selector.as_deref(),
        Some("")
    );
}

#[test]
fn exec_in_selects_by_the_labels_of_the_flavor() {
    assert_eq!(ExecIn::Active.to_label_selector("vault"), "vault-active=true");
    assert_eq!(ExecIn::Standby.to_label_selector("vault"), "vault-active=false");
    assert_eq!(ExecIn::Sealed.to_label_selector("vault"), "vault-sealed=true");
    assert_eq!(
        ExecIn::Active.to_label_selector("openbao"),
        "openbao-active=true"
    );
    assert_eq!(
        ExecIn::Standby.to_label_selector("openbao"),
        "openbao-active=false"
    );
    assert_eq!(
        ExecIn::Sealed.to_label_selector("openbao"),
        "openbao-sealed=true"
    );
    assert_eq!(ExecIn::Active.to_string(), "active");
    assert_eq!(ExecIn::Standby.to_string(), "standby");
    assert_eq!(ExecIn::Sealed.to_string(), "sealed");
}

#[test]
fn is_sealed_reads_the_label_of_the_flavor() {
    let member = pod(Some(vec![
        ("vault-sealed", "true"),
        ("openbao-sealed", "false"),
        ("vault-active", "false"),
    ]));
    assert_eq!(is_sealed(&member, "vault"), Ok(true));
    assert_eq!(is_sealed(&member, "openbao"), Ok(false));
    assert_eq!(is_active(&member, "vault"), Ok(false));
}

#[test]
fn is_sealed_fails_without_a_readable_label() {
    let error = is_sealed(&pod(None), "vault").unwrap_err();
    assert_eq!(error.kind, ErrorKind::Labeling);
    assert_eq!(error.message, "pod does not have labels");

    for labels in [
        vec![],
        vec![("vault-active", "true")],
        vec![("vault-sealed", "")],
        vec![("vault-sealed", "True")],
        vec![("vault-sealed", "yes")],
        vec![("vault-sealed ", "true")],
        vec![("openbao-sealed", "true")],
    ] {
        let error = is_sealed(&pod(Some(labels)), "vault").unwrap_err();
        assert_eq!(error.kind, ErrorKind::Labeling);
        assert_eq!(error.message, "pod does not have a vault-sealed label");
    }
}

#[test]
fn is_active_reads_the_label_of_the_flavor() {
    assert_eq!(
        is_active(&pod(Some(vec![("vault-active", "true")])), "vault"),
        Ok(true)
    );
    assert_eq!(
        is_active(&pod(Some(vec![("openbao-active", "false")])), "openbao"),
        Ok(false)
    );
    let error = is_active(&pod(Some(vec![("vault-active", "no")])), "vault").unwrap_err();
    assert_eq!(error.kind, ErrorKind::Labeling);
    assert_eq!(error.message, "pod does not have a vault-active label");
    let error = is_active(&pod(Some(vec![("vault-active", "true")])), "openbao").unwrap_err();
    assert_eq!(error.message, "pod does not have a openbao-active label");
    let error = is_active(&pod(None), "openbao").unwrap_err();
    assert_eq!(error.message, "pod does not have labels");
}

#[test]
fn the_first_of_two_labels_with_one_key_counts() {
    let member = pod(Some(vec![
        ("vault-sealed", "false"),
        ("vault-sealed", "true"),
    ]));
    assert_eq!(is_sealed(&member, "vault"), Ok(false));
    assert_eq!(member.label("vault-sealed").unwrap(), "false");
    assert_eq!(member.label("vault-active"), None);
    assert_eq!(pod(None).label("vault-sealed"), None);
}
