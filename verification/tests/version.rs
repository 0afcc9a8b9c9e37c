use vault_mgmt::{Container, Member, MemberSpec, VaultVersion, Workload, WorkloadSpec};

fn pod_with_image(image: Option<&str>) -> Member {
    Member {
        name: Some("vault-0".to_string()),
        uid: None,
        labels: None,
        spec: Some(MemberSpec {
            containers: vec![Container {
                name: "vault".to_string(),
                image: image.map(|i| i.to_string()),
            }],
        }),
        status: None,
    }
}

#[test]
fn comparing_vault_versions_works() {
    let current = VaultVersion {
        version: "1.13.0".to_string(),
    };

    let outdated = VaultVersion {
        version: "1.12.0".to_string(),
    };

    let newer = VaultVersion {
        version: "1.14.0".to_string(),
    };

    assert!(current == current);
    assert!(current != outdated);
    assert!(current != newer);
    assert!(outdated != newer);
}

#[test]
fn constructing_vault_version_from_pod_works() {
    let pod = pod_with_image(Some("hashicorp/vault:1.13.0"));

    let version = VaultVersion::try_from(&pod).unwrap();

    assert_eq!(version.version, "1.13.0");
}

#[test]
fn constructing_vault_version_from_pod_with_invalid_image_fails() {
    let pod = pod_with_image(Some("vault"));

    let version: Result<VaultVersion, _> = (&pod).try_into();

    assert!(version.is_err());
    assert_eq!(version.unwrap_err().message, "image does not have a tag");
}

#[test]
fn constructing_vault_version_from_statefulset_works() {
    let statefulset = Workload {
        name: Some("vault".to_string()),
        spec: Some(WorkloadSpec {
            template: pod_with_image(Some("hashicorp/vault:1.13.0")).spec,
        }),
        status: None,
    };

    let version: VaultVersion = (&statefulset).try_into().unwrap();

    assert_eq!(version.version, "1.13.0");
}
