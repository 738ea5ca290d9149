//! Settings of the storage tier and of the stores beside it: write-ahead log,
//! data location, region engines, metadata store and procedure execution.

use crate::text::{clone_opt_text, opt_text};
use vstd::prelude::*;
use vstd::string::StringExecFns;

verus! {

/// Write-ahead log policy.
#[derive(Debug)]
pub struct WalConfig {
    /// Where the log lives; under the data home when absent.
    pub dir: Option<String>,
    pub file_size_bytes: u64,
    pub purge_threshold_bytes: u64,
    pub sync_write: bool,
}

/// Mathematical model of a [`WalConfig`].
pub struct WalConfigView {
    pub dir: Option<Seq<char>>,
    pub file_size_bytes: u64,
    pub purge_threshold_bytes: u64,
    pub sync_write: bool,
}

impl View for WalConfig {
    type V = WalConfigView;

    open spec fn view(&self) -> WalConfigView {
        WalConfigView {
            dir: opt_text(self.dir),
            file_size_bytes: self.file_size_bytes,
            purge_threshold_bytes: self.purge_threshold_bytes,
            sync_write: self.sync_write,
        }
    }
}

impl WalConfigView {
    /// No directory of its own, files of 256 MiB, purged beyond 4 GiB,
    /// writes not synced one by one.
    pub open spec fn default_value() -> WalConfigView {
        WalConfigView {
            dir: None,
            file_size_bytes: 268435456,
            purge_threshold_bytes: 4294967296,
            sync_write: false,
        }
    }
}

impl Default for WalConfig {
    fn default() -> (r: WalConfig)
        ensures
            r@ == WalConfigView::default_value(),
    {
        WalConfig {
            dir: None,
            file_size_bytes: 268435456,
            purge_threshold_bytes: 4294967296,
            sync_write: false,
        }
    }
}

impl Clone for WalConfig {
    fn clone(&self) -> (r: WalConfig)
        ensures
            r@ == self@,
    {
        WalConfig {
            dir: clone_opt_text(&self.dir),
            file_size_bytes: self.file_size_bytes,
            purge_threshold_bytes: self.purge_threshold_bytes,
            sync_write: self.sync_write,
        }
    }
}

/// Where the data lives and how long it is kept.
#[derive(Debug)]
pub struct StorageConfig {
    /// Root directory of everything this process stores.
    pub data_home: String,
    /// Retention of all tables, in seconds; unlimited when absent.
    pub global_ttl_secs: Option<u64>,
}

/// Mathematical model of a [`StorageConfig`].
pub struct StorageConfigView {
    pub data_home: Seq<char>,
    pub global_ttl_secs: Option<u64>,
}

impl View for StorageConfig {
    type V = StorageConfigView;

    open spec fn view(&self) -> StorageConfigView {
        StorageConfigView { data_home: self.data_home@, global_ttl_secs: self.global_ttl_secs }
    }
}

impl StorageConfigView {
    /// Data under `/tmp/engram/`, kept without limit.
    pub open spec fn default_value() -> StorageConfigView {
        StorageConfigView { data_home: "/tmp/engram/"@, global_ttl_secs: None }
    }
}

impl Default for StorageConfig {
    fn default() -> (r: StorageConfig)
        ensures
            r@ == StorageConfigView::default_value(),
    {
        StorageConfig { data_home: String::from_str("/tmp/engram/"), global_ttl_secs: None }
    }
}

impl Clone for StorageConfig {
    fn clone(&self) -> (r: StorageConfig)
        ensures
            r@ == self@,
    {
        StorageConfig { data_home: self.data_home.clone(), global_ttl_secs: self.global_ttl_secs }
    }
}

/// Descriptor of the key-value store that holds the metadata.
#[derive(Clone, Copy, Debug, PartialEq, Eq, Structural)]
pub struct KvBackendConfig {
    pub file_size_bytes: u64,
    pub purge_threshold_bytes: u64,
}

impl KvBackendConfig {
    /// Files of 256 MiB, purged beyond 4 GiB.
    pub open spec fn default_value() -> KvBackendConfig {
        KvBackendConfig { file_size_bytes: 268435456, purge_threshold_bytes: 4294967296 }
    }
}

impl Default for KvBackendConfig {
    fn default() -> (r: KvBackendConfig)
        ensures
            r == KvBackendConfig::default_value(),
    {
        KvBackendConfig { file_size_bytes: 268435456, purge_threshold_bytes: 4294967296 }
    }
}

/// How procedures are retried.
#[derive(Clone, Copy, Debug, PartialEq, Eq, Structural)]
pub struct ProcedureConfig {
    pub max_retry_times: u64,
    pub retry_delay_millis: u64,
}

impl ProcedureConfig {
    /// At most 3 retries, 500 milliseconds apart.
    pub open spec fn default_value() -> ProcedureConfig {
        ProcedureConfig { max_retry_times: 3, retry_delay_millis: 500 }
    }
}

impl Default for ProcedureConfig {
    fn default() -> (r: ProcedureConfig)
        ensures
            r == ProcedureConfig::default_value(),
    {
        ProcedureConfig { max_retry_times: 3, retry_delay_millis: 500 }
    }
}

/// Settings of the default region engine.
#[derive(Clone, Copy, Debug, PartialEq, Eq, Structural)]
pub struct MitoConfig {
    pub num_workers: u64,
    pub manifest_checkpoint_distance: u64,
}

impl MitoConfig {
    /// One worker, a manifest checkpoint every 10 actions.
    pub open spec fn default_value() -> MitoConfig {
        MitoConfig { num_workers: 1, manifest_checkpoint_distance: 10 }
    }
}

impl Default for MitoConfig {
    fn default() -> (r: MitoConfig)
        ensures
            r == MitoConfig::default_value(),
    {
        MitoConfig { num_workers: 1, manifest_checkpoint_distance: 10 }
    }
}

/// Settings of the file-backed region engine; it has none so far.
#[derive(Clone, Copy, Debug, PartialEq, Eq, Structural)]
pub struct FileEngineConfig {}

impl FileEngineConfig {
    pub open spec fn default_value() -> FileEngineConfig {
        FileEngineConfig {  }
    }
}

impl Default for FileEngineConfig {
    fn default() -> (r: FileEngineConfig)
        ensures
            r == FileEngineConfig::default_value(),
    {
        FileEngineConfig {  }
    }
}

/// Settings of one region engine.
#[derive(Clone, Copy, Debug, PartialEq, Eq, Structural)]
pub enum RegionEngineConfig {
    Mito(MitoConfig),
    File(FileEngineConfig),
}

/// The engines of an unconfigured node: the default engine, then the
/// file-backed one, each with its defaults.
pub open spec fn default_region_engines() -> Seq<RegionEngineConfig> {
    seq![
        RegionEngineConfig::Mito(MitoConfig::default_value()),
        RegionEngineConfig::File(FileEngineConfig::default_value()),
    ]
}

/// Builds the engine list of an unconfigured node.
pub fn default_region_engine_list() -> (r: Vec<RegionEngineConfig>)
    ensures
        r@ == default_region_engines(),
{
    let mut engines: Vec<RegionEngineConfig> = Vec::new();
    engines.push(RegionEngineConfig::Mito(MitoConfig::default()));
    engines.push(RegionEngineConfig::File(FileEngineConfig::default()));
    assert(engines@ =~= default_region_engines());
    engines
}

/// A copy of an engine list.
pub fn clone_region_engines(engines: &Vec<RegionEngineConfig>) -> (r: Vec<RegionEngineConfig>)
    ensures
        r@ == engines@,
{
    let mut copy: Vec<RegionEngineConfig> = Vec::new();
    let mut i: usize = 0;
    while i < engines.len()
        invariant
            i <= engines.len(),
            copy@ == engines@.take(i as int),
        decreases engines.len() - i,
    {
        copy.push(engines[i]);
        assert(copy@ =~= engines@.take(i + 1));
        i += 1;
    }
    assert(engines@.take(i as int) =~= engines@);
    copy
}

} // verus!
