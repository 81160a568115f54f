use meta2env::metadata::{
    parse_container_instance_file, parse_container_metadata, parse_task_metadata, MetadataError,
};

#[test]
fn task_payload_decodes_every_field() {
    let body = "{\"Cluster\":\"c1\",\"TaskARN\":\"t1\",\"Family\":\"f1\",\"Revision\":\"1\",\"ServiceName\":\"svc\"}";
    let t = parse_task_metadata(body).unwrap();
    assert_eq!(t.cluster, "c1");
    assert_eq!(t.task_arn, "t1");
    assert_eq!(t.family, "f1");
    assert_eq!(t.revision, "1");
    assert_eq!(t.service_name, Some("svc".to_string()));
}

#[test]
fn task_payload_without_service_name_decodes() {
    let body = "{\"Cluster\":\"c1\",\"TaskARN\":\"t1\",\"Family\":\"f1\",\"Revision\":\"1\"}";
    let t = parse_task_metadata(body).unwrap();
    assert_eq!(t.service_name, None);
}

#[test]
fn task_payload_missing_required_field_is_rejected() {
    let body = "{\"Cluster\":\"c1\",\"TaskARN\":\"t1\",\"Family\":\"f1\"}";
    assert_eq!(parse_task_metadata(body).unwrap_err(), MetadataError::MissingField);
}

#[test]
fn task_payload_invalid_json_is_rejected() {
    assert_eq!(parse_task_metadata("not json").unwrap_err(), MetadataError::Malformed);
}

#[test]
fn task_payload_non_string_field_is_rejected() {
    let body = "{\"Cluster\":\"c1\",\"TaskARN\":\"t1\",\"Family\":\"f1\",\"Revision\":7}";
    assert_eq!(parse_task_metadata(body).unwrap_err(), MetadataError::MissingField);
}

#[test]
fn container_payload_decodes_every_field() {
    let body = "{\"Name\":\"n1\",\"DockerName\":\"dn1\",\"ContainerARN\":\"ca1\"}";
    let c = parse_container_metadata(body).unwrap();
    assert_eq!(c.name, "n1");
    assert_eq!(c.docker_name, "dn1");
    assert_eq!(c.container_arn, "ca1");
}

#[test]
fn container_payload_missing_field_is_rejected() {
    let body = "{\"Name\":\"n1\",\"DockerName\":\"dn1\"}";
    assert_eq!(parse_container_metadata(body).unwrap_err(), MetadataError::MissingField);
}

#[test]
fn container_payload_invalid_json_is_rejected() {
    assert_eq!(parse_container_metadata("{").unwrap_err(), MetadataError::Malformed);
}

#[test]
fn instance_file_decodes_the_arn() {
    let body = "{\"ContainerInstanceARN\":\"arn:aws:ecs:us-east-1:1:container-instance/i\"}";
    let a = parse_container_instance_file(body).unwrap();
    assert_eq!(a, "arn:aws:ecs:us-east-1:1:container-instance/i");
}

#[test]
fn instance_file_without_arn_is_rejected() {
    assert_eq!(
        parse_container_instance_file("{}").unwrap_err(),
        MetadataError::MissingField
    );
}

#[test]
fn instance_file_invalid_json_is_rejected() {
    assert_eq!(
        parse_container_instance_file("").unwrap_err(),
        MetadataError::Malformed
    );
}
