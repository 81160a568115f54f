use vstd::prelude::*;

verus! {

use crate::compose::{env_composed, HostIdentity};
use crate::config::{Config, HostStage};
use crate::metadata::{
    container_fields_present,
    container_matches_doc,
    task_fields_present,
    task_matches_doc,
    ContainerMetadata,
    TaskMetadata,
};

/// The host identity a driver may hand to composition under a given stage
/// decision: nothing without the file read, no hostname without resolution.
pub open spec fn host_allowed(stage: HostStage, h: HostIdentity) -> bool {
    match stage {
        HostStage::Skip => h is Absent,
        HostStage::FileOnly => h is ArnOnly,
        HostStage::FileAndResolve => h is Full,
    }
}

/// For any task and container payloads that decode with their required
/// fields, the composed environment carries exactly the decoded field values
/// under the prefixed names, the service name defaulting to empty when the
/// payload lacks one.
pub proof fn lemma_environment_reflects_payload(
    tm: Map<Seq<char>, Seq<char>>,
    cm: Map<Seq<char>, Seq<char>>,
    t: TaskMetadata,
    c: ContainerMetadata,
    h: HostIdentity,
    env: Seq<(String, String)>,
)
    requires
        task_fields_present(tm),
        task_matches_doc(t, tm),
        container_fields_present(cm),
        container_matches_doc(c, cm),
        env_composed(env, t, c, h),
    ensures
        env.len() == 10,
        env[0].1@ == tm["Cluster"@],
        env[1].1@ == tm["TaskARN"@],
        env[2].1@ == tm["Family"@],
        env[3].1@ == tm["Revision"@],
        env[4].1@ == if tm.dom().contains("ServiceName"@) {
            tm["ServiceName"@]
        } else {
            Seq::<char>::empty()
        },
        env[5].1@ == cm["Name"@],
        env[6].1@ == cm["DockerName"@],
        env[7].1@ == cm["ContainerARN"@],
{
}

/// With the file stage disabled, the stage decision skips the file read and
/// the remote calls, and both host instance fields of the composed
/// environment are empty.
pub proof fn lemma_disabled_file_stage_leaves_host_fields_empty(
    cfg: Config,
    h: HostIdentity,
    t: TaskMetadata,
    c: ContainerMetadata,
    env: Seq<(String, String)>,
)
    requires
        !cfg.use_file,
        host_allowed(cfg.spec_host_stage(), h),
        env_composed(env, t, c, h),
    ensures
        cfg.spec_host_stage() == HostStage::Skip,
        env[8].1@ == Seq::<char>::empty(),
        env[9].1@ == Seq::<char>::empty(),
{
}

/// With the file stage enabled but resolution disabled, the stage decision
/// allows no remote call, the host ARN field carries the ARN the file's
/// document holds, and the hostname field stays empty.
pub proof fn lemma_file_only_stage_populates_arn_alone(
    cfg: Config,
    fm: Map<Seq<char>, Seq<char>>,
    arn: String,
    t: TaskMetadata,
    c: ContainerMetadata,
    env: Seq<(String, String)>,
)
    requires
        cfg.use_file,
        !cfg.fetch_hostname,
        fm.dom().contains("ContainerInstanceARN"@),
        arn@ == fm["ContainerInstanceARN"@],
        env_composed(env, t, c, HostIdentity::ArnOnly(arn)),
    ensures
        cfg.spec_host_stage() == HostStage::FileOnly,
        host_allowed(cfg.spec_host_stage(), HostIdentity::ArnOnly(arn)),
        env[8].1@ == fm["ContainerInstanceARN"@],
        env[9].1@ == Seq::<char>::empty(),
{
}

} // verus!
