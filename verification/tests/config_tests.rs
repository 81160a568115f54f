use meta2env::config::{build_config, task_metadata_url, ConfigError, HostStage};

#[test]
fn missing_metadata_uri_is_fatal_before_any_fetch() {
    let r = build_config(None, false, false, None);
    assert_eq!(r.unwrap_err(), ConfigError::MissingMetadataUri);
}

#[test]
fn file_stage_without_file_path_is_fatal() {
    let r = build_config(Some("http://169.254.170.2/v4/abc".to_string()), true, false, None);
    assert_eq!(r.unwrap_err(), ConfigError::MissingMetadataFile);
}

#[test]
fn full_configuration_is_accepted() {
    let c = build_config(
        Some("http://169.254.170.2/v4/abc".to_string()),
        true,
        true,
        Some("/var/lib/ecs/metadata.json".to_string()),
    )
    .unwrap();
    assert_eq!(c.metadata_uri, "http://169.254.170.2/v4/abc");
    assert!(c.use_file);
    assert!(c.fetch_hostname);
    assert_eq!(c.metadata_file, Some("/var/lib/ecs/metadata.json".to_string()));
    assert_eq!(c.host_stage(), HostStage::FileAndResolve);
}

#[test]
fn no_flags_skip_every_optional_stage() {
    let c = build_config(Some("http://uri".to_string()), false, false, None).unwrap();
    assert_eq!(c.host_stage(), HostStage::Skip);
}

#[test]
fn hostname_flag_alone_does_not_enable_resolution() {
    let c = build_config(Some("http://uri".to_string()), false, true, None).unwrap();
    assert_eq!(c.host_stage(), HostStage::Skip);
}

#[test]
fn file_flag_alone_reads_the_file_only() {
    let c = build_config(
        Some("http://uri".to_string()),
        true,
        false,
        Some("/tmp/meta.json".to_string()),
    )
    .unwrap();
    assert_eq!(c.host_stage(), HostStage::FileOnly);
}

#[test]
fn task_url_appends_the_task_suffix() {
    assert_eq!(
        task_metadata_url("http://169.254.170.2/v4/abc"),
        "http://169.254.170.2/v4/abc/task"
    );
}
