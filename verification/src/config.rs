use vstd::prelude::*;

verus! {

use vstd::string::StringExecFns;

/// Why the configuration gathered from the environment was rejected.
#[derive(Clone, Copy, Debug, PartialEq, Eq, Structural)]
pub enum ConfigError {
    /// The local metadata endpoint's URL is not set.
    MissingMetadataUri,
    /// The file stage is enabled but no metadata file path is set.
    MissingMetadataFile,
}

/// Which optional stages of the pipeline run after the local fetches.
#[derive(Clone, Copy, Debug, PartialEq, Eq, Structural)]
pub enum HostStage {
    /// Neither the file read nor any remote call happens.
    Skip,
    /// The file read happens; no remote call does.
    FileOnly,
    /// The file read and the two remote lookups happen.
    FileAndResolve,
}

/// The immutable configuration gathered once at startup: the endpoint's URL
/// and the two feature toggles with the file path the first one demands.
#[derive(Debug)]
pub struct Config {
    pub metadata_uri: String,
    pub use_file: bool,
    pub fetch_hostname: bool,
    pub metadata_file: Option<String>,
}

impl Config {
    /// The stage decision: the file is read only when enabled, and the
    /// hostname is resolved only when the file read is enabled too.
    pub open spec fn spec_host_stage(self) -> HostStage {
        if !self.use_file {
            HostStage::Skip
        } else if !self.fetch_hostname {
            HostStage::FileOnly
        } else {
            HostStage::FileAndResolve
        }
    }

    /// Decides which optional stages the driver runs.
    pub fn host_stage(&self) -> (s: HostStage)
        ensures
            s == self.spec_host_stage(),
    {
        if !self.use_file {
            HostStage::Skip
        } else if !self.fetch_hostname {
            HostStage::FileOnly
        } else {
            HostStage::FileAndResolve
        }
    }
}

/// Validates the values read from the environment: the endpoint's URL is
/// required always, the file path exactly when the file stage is enabled.
/// Rejection happens before any fetch is attempted.
pub fn build_config(
    metadata_uri: Option<String>,
    use_file: bool,
    fetch_hostname: bool,
    metadata_file: Option<String>,
) -> (r: Result<Config, ConfigError>)
    ensures
        (r matches Err(ConfigError::MissingMetadataUri)) <==> metadata_uri is None,
        (r matches Err(ConfigError::MissingMetadataFile)) <==> (metadata_uri is Some && use_file
            && metadata_file is None),
        r matches Ok(c) ==> {
            &&& metadata_uri matches Some(u) && c.metadata_uri == u
            &&& c.use_file == use_file
            &&& c.fetch_hostname == fetch_hostname
            &&& c.metadata_file == metadata_file
            &&& use_file ==> c.metadata_file is Some
        },
{
    let uri = match metadata_uri {
        Some(u) => u,
        None => { return Err(ConfigError::MissingMetadataUri); },
    };
    if use_file && metadata_file.is_none() {
        return Err(ConfigError::MissingMetadataFile);
    }
    Ok(Config { metadata_uri: uri, use_file, fetch_hostname, metadata_file })
}

/// The task-level endpoint: the container endpoint's URL with `/task`
/// appended.
pub fn task_metadata_url(base: &str) -> (r: String)
    ensures
        r@ == base@ + "/task"@,
{
    let mut url = base.to_owned();
    url.append("/task");
    url
}

} // verus!
