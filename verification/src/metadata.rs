use vstd::prelude::*;

verus! {

use crate::json::{json_document, json_string_field, json_string_fields, parse_json};

/// Task-level metadata fetched once from the local endpoint.
#[derive(Debug)]
pub struct TaskMetadata {
    pub cluster: String,
    pub task_arn: String,
    pub family: String,
    pub revision: String,
    /// Absent on some deployment types; defaults to empty only when the
    /// launch environment is composed.
    pub service_name: Option<String>,
}

/// Container-level metadata fetched once from the local endpoint.
#[derive(Debug)]
pub struct ContainerMetadata {
    pub name: String,
    pub docker_name: String,
    pub container_arn: String,
}

/// Why a metadata document was rejected.
#[derive(Clone, Copy, Debug, PartialEq, Eq, Structural)]
pub enum MetadataError {
    /// The text is not valid JSON.
    Malformed,
    /// The document lacks a required string field.
    MissingField,
}

/// The task document holds every required string field.
pub open spec fn task_fields_present(m: Map<Seq<char>, Seq<char>>) -> bool {
    &&& m.dom().contains("Cluster"@)
    &&& m.dom().contains("TaskARN"@)
    &&& m.dom().contains("Family"@)
    &&& m.dom().contains("Revision"@)
}

/// The task record carries exactly the document's field values, the service
/// name present exactly when the document holds one.
pub open spec fn task_matches_doc(t: TaskMetadata, m: Map<Seq<char>, Seq<char>>) -> bool {
    &&& t.cluster@ == m["Cluster"@]
    &&& t.task_arn@ == m["TaskARN"@]
    &&& t.family@ == m["Family"@]
    &&& t.revision@ == m["Revision"@]
    &&& m.dom().contains("ServiceName"@)
        ==> (t.service_name matches Some(s) && s@ == m["ServiceName"@])
    &&& !m.dom().contains("ServiceName"@) ==> t.service_name is None
}

/// The container document holds every required string field.
pub open spec fn container_fields_present(m: Map<Seq<char>, Seq<char>>) -> bool {
    &&& m.dom().contains("Name"@)
    &&& m.dom().contains("DockerName"@)
    &&& m.dom().contains("ContainerARN"@)
}

/// The container record carries exactly the document's field values.
pub open spec fn container_matches_doc(c: ContainerMetadata, m: Map<Seq<char>, Seq<char>>) -> bool {
    &&& c.name@ == m["Name"@]
    &&& c.docker_name@ == m["DockerName"@]
    &&& c.container_arn@ == m["ContainerARN"@]
}

/// Builds the task record from a decoded document, rejecting a document that
/// lacks a required field; a missing service name is tolerated.
pub fn task_metadata_from_json(v: &serde_json::Value) -> (r: Result<TaskMetadata, MetadataError>)
    ensures
        r matches Ok(t) ==> task_fields_present(json_string_fields(*v))
            && task_matches_doc(t, json_string_fields(*v)),
        r matches Err(e) ==> e == MetadataError::MissingField
            && !task_fields_present(json_string_fields(*v)),
{
    let cluster = match json_string_field(v, "Cluster") {
        Some(s) => s,
        None => { return Err(MetadataError::MissingField); },
    };
    let task_arn = match json_string_field(v, "TaskARN") {
        Some(s) => s,
        None => { return Err(MetadataError::MissingField); },
    };
    let family = match json_string_field(v, "Family") {
        Some(s) => s,
        None => { return Err(MetadataError::MissingField); },
    };
    let revision = match json_string_field(v, "Revision") {
        Some(s) => s,
        None => { return Err(MetadataError::MissingField); },
    };
    let service_name = json_string_field(v, "ServiceName");
    Ok(TaskMetadata { cluster, task_arn, family, revision, service_name })
}

/// Builds the container record from a decoded document, rejecting a document
/// that lacks a required field.
pub fn container_metadata_from_json(v: &serde_json::Value) -> (r: Result<
    ContainerMetadata,
    MetadataError,
>)
    ensures
        r matches Ok(c) ==> container_fields_present(json_string_fields(*v))
            && container_matches_doc(c, json_string_fields(*v)),
        r matches Err(e) ==> e == MetadataError::MissingField
            && !container_fields_present(json_string_fields(*v)),
{
    let name = match json_string_field(v, "Name") {
        Some(s) => s,
        None => { return Err(MetadataError::MissingField); },
    };
    let docker_name = match json_string_field(v, "DockerName") {
        Some(s) => s,
        None => { return Err(MetadataError::MissingField); },
    };
    let container_arn = match json_string_field(v, "ContainerARN") {
        Some(s) => s,
        None => { return Err(MetadataError::MissingField); },
    };
    Ok(ContainerMetadata { name, docker_name, container_arn })
}

/// Decodes the body of the task endpoint's answer into the task record.
pub fn parse_task_metadata(body: &str) -> (r: Result<TaskMetadata, MetadataError>)
    ensures
        r matches Ok(t) ==> json_document(body@) matches Some(m) && task_fields_present(m)
            && task_matches_doc(t, m),
        (r matches Err(MetadataError::Malformed)) <==> json_document(body@) is None,
        r matches Err(MetadataError::MissingField) ==> json_document(body@) matches Some(m)
            && !task_fields_present(m),
{
    match parse_json(body) {
        Some(v) => task_metadata_from_json(&v),
        None => Err(MetadataError::Malformed),
    }
}

/// Decodes the body of the container endpoint's answer into the container
/// record.
pub fn parse_container_metadata(body: &str) -> (r: Result<ContainerMetadata, MetadataError>)
    ensures
        r matches Ok(c) ==> json_document(body@) matches Some(m) && container_fields_present(m)
            && container_matches_doc(c, m),
        (r matches Err(MetadataError::Malformed)) <==> json_document(body@) is None,
        r matches Err(MetadataError::MissingField) ==> json_document(body@) matches Some(m)
            && !container_fields_present(m),
{
    match parse_json(body) {
        Some(v) => container_metadata_from_json(&v),
        None => Err(MetadataError::Malformed),
    }
}

/// Decodes the local metadata file's content into the host instance ARN.
pub fn parse_container_instance_file(body: &str) -> (r: Result<String, MetadataError>)
    ensures
        r matches Ok(a) ==> json_document(body@) matches Some(m)
            && m.dom().contains("ContainerInstanceARN"@) && a@ == m["ContainerInstanceARN"@],
        (r matches Err(MetadataError::Malformed)) <==> json_document(body@) is None,
        r matches Err(MetadataError::MissingField) ==> json_document(body@) matches Some(m)
            && !m.dom().contains("ContainerInstanceARN"@),
{
    match parse_json(body) {
        Some(v) => match json_string_field(&v, "ContainerInstanceARN") {
            Some(a) => Ok(a),
            None => Err(MetadataError::MissingField),
        },
        None => Err(MetadataError::Malformed),
    }
}

} // verus!
