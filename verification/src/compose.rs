use vstd::prelude::*;

verus! {

use vstd::string::StringExecFns;

use crate::metadata::{ContainerMetadata, TaskMetadata};

/// The resolved host identity: nothing, the host instance's ARN alone, or
/// the ARN together with the instance's hostname. The unresolved parts turn
/// into empty strings only here, at the composition boundary.
#[derive(Debug)]
pub enum HostIdentity {
    Absent,
    ArnOnly(String),
    Full(String, String),
}

impl HostIdentity {
    /// The host instance ARN that composition writes; empty when unresolved.
    pub open spec fn arn_chars(self) -> Seq<char> {
        match self {
            HostIdentity::Absent => Seq::empty(),
            HostIdentity::ArnOnly(a) => a@,
            HostIdentity::Full(a, h) => a@,
        }
    }

    /// The hostname that composition writes; empty when unresolved.
    pub open spec fn hostname_chars(self) -> Seq<char> {
        match self {
            HostIdentity::Absent => Seq::empty(),
            HostIdentity::ArnOnly(a) => Seq::empty(),
            HostIdentity::Full(a, h) => h@,
        }
    }
}

/// The service name that composition writes: the fetched one, or empty when
/// the payload carried none.
pub open spec fn service_name_chars(t: TaskMetadata) -> Seq<char> {
    match t.service_name {
        Some(s) => s@,
        None => Seq::empty(),
    }
}

/// The composed launch environment: the ten prefixed names, each bound to
/// the corresponding fetched field, with empty strings for the unresolved
/// optional fields.
pub open spec fn env_composed(
    env: Seq<(String, String)>,
    t: TaskMetadata,
    c: ContainerMetadata,
    h: HostIdentity,
) -> bool {
    &&& env.len() == 10
    &&& env[0].0@ == "X_ECS_CLUSTER"@ && env[0].1@ == t.cluster@
    &&& env[1].0@ == "X_ECS_TASK_ARN"@ && env[1].1@ == t.task_arn@
    &&& env[2].0@ == "X_ECS_FAMILY"@ && env[2].1@ == t.family@
    &&& env[3].0@ == "X_ECS_REVISION"@ && env[3].1@ == t.revision@
    &&& env[4].0@ == "X_ECS_SERVICE_NAME"@ && env[4].1@ == service_name_chars(t)
    &&& env[5].0@ == "X_ECS_CONTAINER_NAME"@ && env[5].1@ == c.name@
    &&& env[6].0@ == "X_ECS_CONTAINER_DOCKER_NAME"@ && env[6].1@ == c.docker_name@
    &&& env[7].0@ == "X_ECS_CONTAINER_ARN"@ && env[7].1@ == c.container_arn@
    &&& env[8].0@ == "X_ECS_CONTAINER_INSTANCE_ARN"@ && env[8].1@ == h.arn_chars()
    &&& env[9].0@ == "X_ECS_CONTAINER_INSTANCE_HOSTNAME"@ && env[9].1@ == h.hostname_chars()
}

/// Assembles the ten prefixed variables from the fetched metadata. The
/// driver overlays them onto the inherited process environment, new names
/// taking precedence, and then replaces the process image.
pub fn compose_environment(
    task: &TaskMetadata,
    container: &ContainerMetadata,
    host: &HostIdentity,
) -> (r: Vec<(String, String)>)
    ensures
        env_composed(r@, *task, *container, *host),
{
    let service_name = match &task.service_name {
        Some(s) => s.clone(),
        None => String::new(),
    };
    let (host_arn, host_name) = match host {
        HostIdentity::Absent => (String::new(), String::new()),
        HostIdentity::ArnOnly(a) => (a.clone(), String::new()),
        HostIdentity::Full(a, h) => (a.clone(), h.clone()),
    };
    let mut env: Vec<(String, String)> = Vec::new();
    env.push((String::from_str("X_ECS_CLUSTER"), task.cluster.clone()));
    env.push((String::from_str("X_ECS_TASK_ARN"), task.task_arn.clone()));
    env.push((String::from_str("X_ECS_FAMILY"), task.family.clone()));
    env.push((String::from_str("X_ECS_REVISION"), task.revision.clone()));
    env.push((String::from_str("X_ECS_SERVICE_NAME"), service_name));
    env.push((String::from_str("X_ECS_CONTAINER_NAME"), container.name.clone()));
    env.push((String::from_str("X_ECS_CONTAINER_DOCKER_NAME"), container.docker_name.clone()));
    env.push((String::from_str("X_ECS_CONTAINER_ARN"), container.container_arn.clone()));
    env.push((String::from_str("X_ECS_CONTAINER_INSTANCE_ARN"), host_arn));
    env.push((String::from_str("X_ECS_CONTAINER_INSTANCE_HOSTNAME"), host_name));
    env
}

} // verus!
