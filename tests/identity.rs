use coreos_pinger_identity::error::ErrorKind;
use coreos_pinger_identity::identity::{Identity, IdentityError, Level, Sources};
use coreos_pinger_identity::platform::{detect_platform, resolve_instance_type, CloudProvider};
use coreos_pinger_identity::status::{booted_version, Deployment};

#[test]
fn test_minimal() {
    let id = Identity::mock_default("minimal");
    let vars = id.get_data();

    // check if the keys exist
    assert!(vars.contains_key("level"));
    assert!(vars.contains_key("platform"));
    assert!(vars.contains_key("original_os_version"));
    assert!(vars.contains_key("current_os_version"));
    assert!(vars.contains_key("instance_type"));

    // check if the values match
    assert_eq!(vars.get("level"), Some(&"minimal".to_string()));
    assert_eq!(vars.get("platform"), Some(&"mock-qemu".to_string()));
    assert_eq!(vars.get("original_os_version"), Some(&"30.20190923.dev.2-2".to_string()));
    assert_eq!(vars.get("current_os_version"), Some(&"mock-os-version".to_string()));
    assert_eq!(vars.get("instance_type"), Some(&"mock-instance-type".to_string()));
}

#[test]
fn test_full() {
    let id = Identity::mock_default("full");
    let vars = id.get_data();

    // check if the keys exist
    assert!(vars.contains_key("level"));
    assert!(vars.contains_key("platform"));
    assert!(vars.contains_key("original_os_version"));
    assert!(vars.contains_key("current_os_version"));
    assert!(vars.contains_key("instance_type"));

    // check if the values match
    assert_eq!(vars.get("level"), Some(&"full".to_string()));
    assert_eq!(vars.get("platform"), Some(&"mock-gcp".to_string()));
    assert_eq!(vars.get("original_os_version"), Some(&"30.20190923.dev.2-2".to_string()));
    assert_eq!(vars.get("current_os_version"), Some(&"mock-os-version".to_string()));
    assert_eq!(vars.get("instance_type"), Some(&"mock-instance-type".to_string()));
}

fn deployment(version: &str, booted: bool) -> Deployment {
    Deployment { version: Some(version.to_string()), booted }
}

fn sources(cmdline: &str, metadata: Result<String, ErrorKind>) -> Sources {
    Sources {
        kernel_args: Ok(cmdline.to_string()),
        original_os_version: Ok("30.20190923.dev.2-2".to_string()),
        deployments: Ok(vec![deployment("30.1", false), deployment("31.2", true)]),
        metadata,
    }
}

#[test]
fn platform_from_boot_arguments() {
    let args = "BOOT_IMAGE=/vmlinuz root=UUID=abc ignition.platform.id=qemu console=ttyS0\n";
    assert_eq!(detect_platform(args), "qemu");
}

#[test]
fn platform_is_lower_cased() {
    assert_eq!(detect_platform("quiet ignition.platform.id=AWS"), "aws");
}

#[test]
fn platform_defaults_to_metal() {
    assert_eq!(detect_platform("BOOT_IMAGE=/vmlinuz rw quiet"), "metal");
    assert_eq!(detect_platform(""), "metal");
    assert_eq!(detect_platform("ignition.platform.idx=gcp"), "metal");
}

#[test]
fn platform_skips_empty_value_and_takes_first() {
    assert_eq!(
        detect_platform("ignition.platform.id= \tignition.platform.id=azure ignition.platform.id=gcp"),
        "azure"
    );
}

#[test]
fn cloud_providers_are_recognized() {
    assert_eq!(CloudProvider::from_platform("aliyun"), Some(CloudProvider::Aliyun));
    assert_eq!(CloudProvider::from_platform("aws"), Some(CloudProvider::Aws));
    assert_eq!(CloudProvider::from_platform("azure"), Some(CloudProvider::Azure));
    assert_eq!(CloudProvider::from_platform("gcp"), Some(CloudProvider::Gcp));
    assert_eq!(CloudProvider::from_platform("openstack"), Some(CloudProvider::Openstack));
    assert_eq!(CloudProvider::from_platform("qemu"), None);
    assert_eq!(CloudProvider::from_platform("mock-gcp"), None);
    assert_eq!(CloudProvider::from_platform("metal"), None);
}

#[test]
fn instance_type_per_provider() {
    let m = "AFTERBURN_AWS_INSTANCE_TYPE=m5.large\nAFTERBURN_GCP_MACHINE_TYPE=n1-standard-1\n";
    assert_eq!(resolve_instance_type(m, CloudProvider::Aws), Ok("m5.large".to_string()));
    assert_eq!(resolve_instance_type(m, CloudProvider::Gcp), Ok("n1-standard-1".to_string()));
    assert_eq!(resolve_instance_type(m, CloudProvider::Azure), Err(ErrorKind::ParseError));
    let az = "AFTERBURN_AZURE_VMSIZE=Standard_B1s";
    assert_eq!(resolve_instance_type(az, CloudProvider::Azure), Ok("Standard_B1s".to_string()));
}

#[test]
fn instance_type_empty_value_is_missing() {
    let m = "AFTERBURN_ALIYUN_INSTANCE_TYPE=\n";
    assert_eq!(resolve_instance_type(m, CloudProvider::Aliyun), Err(ErrorKind::ParseError));
}

#[test]
fn booted_deployment_gives_current_version() {
    let ds = vec![deployment("30.1", false), deployment("31.2", true), deployment("32.0", false)];
    assert_eq!(booted_version(&ds), Ok("31.2".to_string()));
}

#[test]
fn no_booted_deployment_is_a_parse_error() {
    assert_eq!(booted_version(&vec![]), Err(ErrorKind::ParseError));
    assert_eq!(booted_version(&vec![deployment("30.1", false)]), Err(ErrorKind::ParseError));
    let unversioned = vec![Deployment { version: None, booted: true }];
    assert_eq!(booted_version(&unversioned), Err(ErrorKind::ParseError));
}

#[test]
fn level_names() {
    assert_eq!(Level::from_name("minimal"), Level::Minimal);
    assert_eq!(Level::from_name("full"), Level::Full);
    assert_eq!(Level::from_name("FULL"), Level::Minimal);
    assert_eq!(Level::Full.name(), "full");
    assert_eq!(Level::Minimal.name(), "minimal");
}

#[test]
fn assembles_off_cloud_without_instance_type() {
    let s = sources("ignition.platform.id=qemu", Err(ErrorKind::IoError));
    let id = Identity::try_default("full", &s).unwrap();
    assert_eq!(id.level, Level::Full);
    assert_eq!(id.platform, "qemu");
    assert_eq!(id.original_os_version, "30.20190923.dev.2-2");
    assert_eq!(id.current_os_version, "31.2");
    assert_eq!(id.instance_type, None);
}

#[test]
fn assembles_on_cloud_with_instance_type() {
    let s = sources("ignition.platform.id=aws", Ok("AFTERBURN_AWS_INSTANCE_TYPE=t3.micro\n".to_string()));
    let id = Identity::try_default("minimal", &s).unwrap();
    assert_eq!(id.platform, "aws");
    assert_eq!(id.instance_type, Some("t3.micro".to_string()));
}

#[test]
fn cloud_without_metadata_fails() {
    let s = sources("ignition.platform.id=gcp", Err(ErrorKind::IoError));
    let e = Identity::try_default("full", &s).unwrap_err();
    assert_eq!(e, IdentityError { level: Level::Full, kind: ErrorKind::IoError });
    let s = sources("ignition.platform.id=gcp", Ok("OTHER=1\n".to_string()));
    let e = Identity::try_default("full", &s).unwrap_err();
    assert_eq!(e, IdentityError { level: Level::Full, kind: ErrorKind::ParseError });
}

#[test]
fn unknown_level_is_minimal() {
    let s = sources("ignition.platform.id=qemu", Err(ErrorKind::IoError));
    let id = Identity::try_default("everything", &s).unwrap();
    assert_eq!(id.level, Level::Minimal);
    assert_eq!(id.get_data().get("level"), Some(&"minimal".to_string()));
}

#[test]
fn missing_version_marker_fails_with_io_error() {
    let mut s = sources("ignition.platform.id=qemu", Err(ErrorKind::IoError));
    s.original_os_version = Err(ErrorKind::IoError);
    let e = Identity::try_default("minimal", &s).unwrap_err();
    assert_eq!(e, IdentityError { level: Level::Minimal, kind: ErrorKind::IoError });
}

#[test]
fn unreadable_sources_fail_in_order() {
    let mut s = sources("ignition.platform.id=qemu", Err(ErrorKind::IoError));
    s.deployments = Err(ErrorKind::ExternalQueryError);
    let e = Identity::try_default("minimal", &s).unwrap_err();
    assert_eq!(e.kind, ErrorKind::ExternalQueryError);
    s.kernel_args = Err(ErrorKind::IoError);
    let e = Identity::try_default("minimal", &s).unwrap_err();
    assert_eq!(e.kind, ErrorKind::IoError);
    let mut s = sources("", Err(ErrorKind::IoError));
    s.deployments = Ok(vec![deployment("30.1", false)]);
    let e = Identity::try_default("minimal", &s).unwrap_err();
    assert_eq!(e.kind, ErrorKind::ParseError);
}

#[test]
fn flattened_keys_are_the_five_fields() {
    let s = sources("ignition.platform.id=metal", Err(ErrorKind::IoError));
    let data = Identity::try_default("minimal", &s).unwrap().get_data();
    assert!(!data.contains_key("extra"));
    let pairs = data.into_pairs();
    let names: Vec<&str> = pairs.iter().map(|p| p.0.as_str()).collect();
    assert_eq!(
        names,
        vec!["level", "platform", "original_os_version", "current_os_version", "instance_type"]
    );
}

#[test]
fn off_cloud_instance_type_flattens_empty() {
    let id = Identity {
        level: Level::Minimal,
        platform: "mock-qemu".to_string(),
        original_os_version: "30.20190923.dev.2-2".to_string(),
        current_os_version: "mock-os-version".to_string(),
        instance_type: None,
    };
    let vars = id.get_data();
    assert_eq!(vars.get("instance_type"), Some(&"".to_string()));
    assert_eq!(vars.get("platform"), Some(&"mock-qemu".to_string()));
}
