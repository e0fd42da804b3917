//! The watcher's configuration and its validation.

use vstd::prelude::*;

verus! {

/// One watched glob pattern and where its files go.
pub struct FileConfig {
    pub path_pattern: String,
    pub container_id: u64,
    /// Timeseries data source the files are uploaded to, if any.
    pub data_source_id: Option<u64>,
    /// Standard (metadata) data source the files are uploaded to, if any.
    pub metadata_data_source_id: Option<u64>,
}

/// The whole configuration file.
pub struct Config {
    pub api_key: String,
    pub api_secret: String,
    pub deep_lynx_url: String,
    pub files: Vec<FileConfig>,
}

/// Why a configuration is refused.
#[derive(Debug, PartialEq, Eq, Structural)]
pub enum ConfigError {
    /// The configuration names no file pattern to watch.
    NoFiles,
}

/// What validation answers for a list of file entries: a configuration
/// without file entries is refused, any other is accepted (an entry that
/// names no data source is still watched and recorded, but its files go
/// nowhere).
pub open spec fn config_verdict(files: Seq<FileConfig>) -> Result<(), ConfigError> {
    if files.len() == 0 {
        Err(ConfigError::NoFiles)
    } else {
        Ok(())
    }
}

/// Checks a configuration before any watcher starts: there must be at least
/// one file entry to watch.
pub fn validate_config(config: &Config) -> (r: Result<(), ConfigError>)
    ensures
        r == config_verdict(config.files@),
{
    if config.files.len() == 0 {
        Err(ConfigError::NoFiles)
    } else {
        Ok(())
    }
}

/// Only the empty list of file entries is refused: any configuration with
/// at least one entry, however many, is accepted.
pub proof fn lemma_nonempty_config_accepted(files: Seq<FileConfig>)
    ensures
        files.len() >= 1 ==> config_verdict(files) == Ok::<(), ConfigError>(()),
        files.len() == 0 ==> config_verdict(files) == Err::<(), ConfigError>(ConfigError::NoFiles),
{
}

} // verus!
