//! Configuration sources and how they are laid over the defaults.
//!
//! A source (the configuration file, the environment) yields a layer: for
//! each setting either a value or nothing. A layer laid over a configuration
//! replaces exactly the settings for which it has a value. The file is laid
//! over the built-in defaults and the environment over the file, so that of
//! two sources that name the same setting the later one wins.

use crate::error::{Error, ErrorView};
use crate::logging::{LoggingOptions, LoggingOptionsView};
use crate::options::Mode;
use crate::service_config::{
    GrpcOptions, GrpcOptionsView, HttpOptions, HttpOptionsView, InfluxdbOptions, MysqlOptions,
    MysqlOptionsView, OpentsdbOptions, OpentsdbOptionsView, PostgresOptions, PostgresOptionsView,
    PromStoreOptions,
};
use crate::storage_config::{
    clone_region_engines, KvBackendConfig, ProcedureConfig, RegionEngineConfig, StorageConfig,
    StorageConfigView, WalConfig, WalConfigView,
};
use crate::subcmd::standalone::{StandaloneOptions, StandaloneOptionsView};
use crate::text::{
    opt_text_or, opt_value_or, pick, pick_opt, pick_opt_text, pick_text, text_or, value_or,
};
use crate::tls::TlsMode;
use vstd::prelude::*;

verus! {

/// What one source says: a value for each setting that the source names,
/// `None` for each that it leaves alone.
#[derive(Debug)]
pub struct ConfigLayer {
    pub mode: Option<Mode>,
    pub enable_telemetry: Option<bool>,
    pub http_addr: Option<String>,
    pub http_timeout_secs: Option<u64>,
    pub http_disable_dashboard: Option<bool>,
    pub grpc_addr: Option<String>,
    pub grpc_runtime_size: Option<u64>,
    pub mysql_enable: Option<bool>,
    pub mysql_addr: Option<String>,
    pub mysql_runtime_size: Option<u64>,
    pub mysql_tls_mode: Option<TlsMode>,
    pub mysql_tls_cert_path: Option<String>,
    pub mysql_tls_key_path: Option<String>,
    pub postgres_enable: Option<bool>,
    pub postgres_addr: Option<String>,
    pub postgres_runtime_size: Option<u64>,
    pub postgres_tls_mode: Option<TlsMode>,
    pub postgres_tls_cert_path: Option<String>,
    pub postgres_tls_key_path: Option<String>,
    pub opentsdb_enable: Option<bool>,
    pub opentsdb_addr: Option<String>,
    pub opentsdb_runtime_size: Option<u64>,
    pub influxdb_enable: Option<bool>,
    pub prom_store_enable: Option<bool>,
    pub wal_dir: Option<String>,
    pub wal_file_size_bytes: Option<u64>,
    pub wal_purge_threshold_bytes: Option<u64>,
    pub wal_sync_write: Option<bool>,
    pub storage_data_home: Option<String>,
    pub storage_global_ttl_secs: Option<u64>,
    pub metadata_store_file_size_bytes: Option<u64>,
    pub metadata_store_purge_threshold_bytes: Option<u64>,
    pub procedure_max_retry_times: Option<u64>,
    pub procedure_retry_delay_millis: Option<u64>,
    pub logging_dir: Option<String>,
    pub logging_level: Option<String>,
    pub user_provider: Option<String>,
    /// The whole engine list; a source cannot change one engine alone.
    pub region_engine: Option<Vec<RegionEngineConfig>>,
}

impl ConfigLayer {
    /// Whether the layer names no setting at all.
    pub open spec fn is_blank(self) -> bool {
        &&& self.mode is None
        &&& self.enable_telemetry is None
        &&& self.http_addr is None
        &&& self.http_timeout_secs is None
        &&& self.http_disable_dashboard is None
        &&& self.grpc_addr is None
        &&& self.grpc_runtime_size is None
        &&& self.mysql_enable is None
        &&& self.mysql_addr is None
        &&& self.mysql_runtime_size is None
        &&& self.mysql_tls_mode is None
        &&& self.mysql_tls_cert_path is None
        &&& self.mysql_tls_key_path is None
        &&& self.postgres_enable is None
        &&& self.postgres_addr is None
        &&& self.postgres_runtime_size is None
        &&& self.postgres_tls_mode is None
        &&& self.postgres_tls_cert_path is None
        &&& self.postgres_tls_key_path is None
        &&& self.opentsdb_enable is None
        &&& self.opentsdb_addr is None
        &&& self.opentsdb_runtime_size is None
        &&& self.influxdb_enable is None
        &&& self.prom_store_enable is None
        &&& self.wal_dir is None
        &&& self.wal_file_size_bytes is None
        &&& self.wal_purge_threshold_bytes is None
        &&& self.wal_sync_write is None
        &&& self.storage_data_home is None
        &&& self.storage_global_ttl_secs is None
        &&& self.metadata_store_file_size_bytes is None
        &&& self.metadata_store_purge_threshold_bytes is None
        &&& self.procedure_max_retry_times is None
        &&& self.procedure_retry_delay_millis is None
        &&& self.logging_dir is None
        &&& self.logging_level is None
        &&& self.user_provider is None
        &&& self.region_engine is None
    }

    /// The configuration `base` with this layer laid over it: each setting
    /// that the layer names has the layer's value, every other keeps the
    /// value it has in `base`.
    pub open spec fn over(self, base: StandaloneOptionsView) -> StandaloneOptionsView {
        StandaloneOptionsView {
            mode: value_or(self.mode, base.mode),
            enable_telemetry: value_or(self.enable_telemetry, base.enable_telemetry),
            http: HttpOptionsView {
                addr: text_or(self.http_addr, base.http.addr),
                timeout_secs: value_or(self.http_timeout_secs, base.http.timeout_secs),
                disable_dashboard: value_or(
                    self.http_disable_dashboard,
                    base.http.disable_dashboard,
                ),
            },
            grpc: GrpcOptionsView {
                addr: text_or(self.grpc_addr, base.grpc.addr),
                runtime_size: value_or(self.grpc_runtime_size, base.grpc.runtime_size),
            },
            mysql: MysqlOptionsView {
                enable: value_or(self.mysql_enable, base.mysql.enable),
                addr: text_or(self.mysql_addr, base.mysql.addr),
                runtime_size: value_or(self.mysql_runtime_size, base.mysql.runtime_size),
                tls: base.mysql.tls.overlaid(
                    self.mysql_tls_mode,
                    self.mysql_tls_cert_path,
                    self.mysql_tls_key_path,
                ),
            },
            postgres: PostgresOptionsView {
                enable: value_or(self.postgres_enable, base.postgres.enable),
                addr: text_or(self.postgres_addr, base.postgres.addr),
                runtime_size: value_or(self.postgres_runtime_size, base.postgres.runtime_size),
                tls: base.postgres.tls.overlaid(
                    self.postgres_tls_mode,
                    self.postgres_tls_cert_path,
                    self.postgres_tls_key_path,
                ),
            },
            opentsdb: OpentsdbOptionsView {
                enable: value_or(self.opentsdb_enable, base.opentsdb.enable),
                addr: text_or(self.opentsdb_addr, base.opentsdb.addr),
                runtime_size: value_or(self.opentsdb_runtime_size, base.opentsdb.runtime_size),
            },
            influxdb: InfluxdbOptions {
                enable: value_or(self.influxdb_enable, base.influxdb.enable),
            },
            prom_store: PromStoreOptions {
                enable: value_or(self.prom_store_enable, base.prom_store.enable),
            },
            wal: WalConfigView {
                dir: opt_text_or(self.wal_dir, base.wal.dir),
                file_size_bytes: value_or(self.wal_file_size_bytes, base.wal.file_size_bytes),
                purge_threshold_bytes: value_or(
                    self.wal_purge_threshold_bytes,
                    base.wal.purge_threshold_bytes,
                ),
                sync_write: value_or(self.wal_sync_write, base.wal.sync_write),
            },
            storage: StorageConfigView {
                data_home: text_or(self.storage_data_home, base.storage.data_home),
                global_ttl_secs: opt_value_or(
                    self.storage_global_ttl_secs,
                    base.storage.global_ttl_secs,
                ),
            },
            metadata_store: KvBackendConfig {
                file_size_bytes: value_or(
                    self.metadata_store_file_size_bytes,
                    base.metadata_store.file_size_bytes,
                ),
                purge_threshold_bytes: value_or(
                    self.metadata_store_purge_threshold_bytes,
                    base.metadata_store.purge_threshold_bytes,
                ),
            },
            procedure: ProcedureConfig {
                max_retry_times: value_or(
                    self.procedure_max_retry_times,
                    base.procedure.max_retry_times,
                ),
                retry_delay_millis: value_or(
                    self.procedure_retry_delay_millis,
                    base.procedure.retry_delay_millis,
                ),
            },
            logging: LoggingOptionsView {
                dir: text_or(self.logging_dir, base.logging.dir),
                level: opt_text_or(self.logging_level, base.logging.level),
            },
            user_provider: opt_text_or(self.user_provider, base.user_provider),
            region_engine: match self.region_engine {
                Some(engines) => engines@,
                None => base.region_engine,
            },
        }
    }

    /// A layer that names no setting.
    pub fn blank() -> (r: ConfigLayer)
        ensures
            r.is_blank(),
    {
        ConfigLayer {
            mode: None,
            enable_telemetry: None,
            http_addr: None,
            http_timeout_secs: None,
            http_disable_dashboard: None,
            grpc_addr: None,
            grpc_runtime_size: None,
            mysql_enable: None,
            mysql_addr: None,
            mysql_runtime_size: None,
            mysql_tls_mode: None,
            mysql_tls_cert_path: None,
            mysql_tls_key_path: None,
            postgres_enable: None,
            postgres_addr: None,
            postgres_runtime_size: None,
            postgres_tls_mode: None,
            postgres_tls_cert_path: None,
            postgres_tls_key_path: None,
            opentsdb_enable: None,
            opentsdb_addr: None,
            opentsdb_runtime_size: None,
            influxdb_enable: None,
            prom_store_enable: None,
            wal_dir: None,
            wal_file_size_bytes: None,
            wal_purge_threshold_bytes: None,
            wal_sync_write: None,
            storage_data_home: None,
            storage_global_ttl_secs: None,
            metadata_store_file_size_bytes: None,
            metadata_store_purge_threshold_bytes: None,
            procedure_max_retry_times: None,
            procedure_retry_delay_millis: None,
            logging_dir: None,
            logging_level: None,
            user_provider: None,
            region_engine: None,
        }
    }

    /// Lays this layer over `base`.
    pub fn apply(&self, base: StandaloneOptions) -> (r: StandaloneOptions)
        ensures
            r@ == self.over(base@),
    {
        StandaloneOptions {
            mode: pick(&self.mode, base.mode),
            enable_telemetry: pick(&self.enable_telemetry, base.enable_telemetry),
            http: HttpOptions {
                addr: pick_text(&self.http_addr, base.http.addr),
                timeout_secs: pick(&self.http_timeout_secs, base.http.timeout_secs),
                disable_dashboard: pick(&self.http_disable_dashboard, base.http.disable_dashboard),
            },
            grpc: GrpcOptions {
                addr: pick_text(&self.grpc_addr, base.grpc.addr),
                runtime_size: pick(&self.grpc_runtime_size, base.grpc.runtime_size),
            },
            mysql: MysqlOptions {
                enable: pick(&self.mysql_enable, base.mysql.enable),
                addr: pick_text(&self.mysql_addr, base.mysql.addr),
                runtime_size: pick(&self.mysql_runtime_size, base.mysql.runtime_size),
                tls: base.mysql.tls.overlay(
                    &self.mysql_tls_mode,
                    &self.mysql_tls_cert_path,
                    &self.mysql_tls_key_path,
                ),
            },
            postgres: PostgresOptions {
                enable: pick(&self.postgres_enable, base.postgres.enable),
                addr: pick_text(&self.postgres_addr, base.postgres.addr),
                runtime_size: pick(&self.postgres_runtime_size, base.postgres.runtime_size),
                tls: base.postgres.tls.overlay(
                    &self.postgres_tls_mode,
                    &self.postgres_tls_cert_path,
                    &self.postgres_tls_key_path,
                ),
            },
            opentsdb: OpentsdbOptions {
                enable: pick(&self.opentsdb_enable, base.opentsdb.enable),
                addr: pick_text(&self.opentsdb_addr, base.opentsdb.addr),
                runtime_size: pick(&self.opentsdb_runtime_size, base.opentsdb.runtime_size),
            },
            influxdb: InfluxdbOptions {
                enable: pick(&self.influxdb_enable, base.influxdb.enable),
            },
            prom_store: PromStoreOptions {
                enable: pick(&self.prom_store_enable, base.prom_store.enable),
            },
            wal: WalConfig {
                dir: pick_opt_text(&self.wal_dir, base.wal.dir),
                file_size_bytes: pick(&self.wal_file_size_bytes, base.wal.file_size_bytes),
                purge_threshold_bytes: pick(
                    &self.wal_purge_threshold_bytes,
                    base.wal.purge_threshold_bytes,
                ),
                sync_write: pick(&self.wal_sync_write, base.wal.sync_write),
            },
            storage: StorageConfig {
                data_home: pick_text(&self.storage_data_home, base.storage.data_home),
                global_ttl_secs: pick_opt(
                    &self.storage_global_ttl_secs,
                    base.storage.global_ttl_secs,
                ),
            },
            metadata_store: KvBackendConfig {
                file_size_bytes: pick(
                    &self.metadata_store_file_size_bytes,
                    base.metadata_store.file_size_bytes,
                ),
                purge_threshold_bytes: pick(
                    &self.metadata_store_purge_threshold_bytes,
                    base.metadata_store.purge_threshold_bytes,
                ),
            },
            procedure: ProcedureConfig {
                max_retry_times: pick(
                    &self.procedure_max_retry_times,
                    base.procedure.max_retry_times,
                ),
                retry_delay_millis: pick(
                    &self.procedure_retry_delay_millis,
                    base.procedure.retry_delay_millis,
                ),
            },
            logging: LoggingOptions {
                dir: pick_text(&self.logging_dir, base.logging.dir),
                level: pick_opt_text(&self.logging_level, base.logging.level),
            },
            user_provider: pick_opt_text(&self.user_provider, base.user_provider),
            region_engine: match &self.region_engine {
                Some(engines) => clone_region_engines(engines),
                None => base.region_engine,
            },
        }
    }
}

/// The prefix of the environment variables that configure the process.
pub fn env_prefix() -> (r: &'static str)
    ensures
        r@ == "ENGRAM_"@,
{
    "ENGRAM_"
}

/// What became of reading one configuration source.
#[derive(Debug)]
pub enum LayerSource {
    /// There is no such source: no file was named, or nothing was set.
    Absent,
    /// The source was read and holds these settings.
    Loaded(ConfigLayer),
    /// The source is there but cannot be parsed.
    Unparsable { cause: String },
    /// The source was parsed, but a value in it does not have the type its
    /// setting declares.
    Mistyped { cause: String },
}

impl LayerSource {
    /// The error that the source stops the resolution with, if it does.
    pub open spec fn fault(self) -> Option<ErrorView> {
        match self {
            LayerSource::Unparsable { cause } => Some(ErrorView::ConfigLoad { cause: cause@ }),
            LayerSource::Mistyped { cause } => Some(ErrorView::ConfigFormat { cause: cause@ }),
            _ => None,
        }
    }

    /// The configuration `base` with this source laid over it; an absent
    /// source changes nothing.
    pub open spec fn over(self, base: StandaloneOptionsView) -> StandaloneOptionsView {
        match self {
            LayerSource::Loaded(layer) => layer.over(base),
            _ => base,
        }
    }

    /// Lays the source over `base`, or reports why it cannot be used.
    pub fn apply(&self, base: StandaloneOptions) -> (r: Result<StandaloneOptions, Error>)
        ensures
            match self.fault() {
                Some(error) => r matches Err(e) && e@ == error,
                None => r matches Ok(merged) && merged@ == self.over(base@),
            },
    {
        match self {
            LayerSource::Absent => Ok(base),
            LayerSource::Loaded(layer) => Ok(layer.apply(base)),
            LayerSource::Unparsable { cause } => Err(Error::ConfigLoad { cause: cause.clone() }),
            LayerSource::Mistyped { cause } => Err(Error::ConfigFormat { cause: cause.clone() }),
        }
    }
}

/// What [`resolve`] returns: the fault of the file if it has one, else the
/// fault of the environment if it has one, else the defaults with the file
/// laid over them and the environment over that.
pub open spec fn resolved(file: LayerSource, env: LayerSource) -> Result<
    StandaloneOptionsView,
    ErrorView,
> {
    match file.fault() {
        Some(error) => Err(error),
        None => match env.fault() {
            Some(error) => Err(error),
            None => Ok(env.over(file.over(StandaloneOptionsView::default_value()))),
        },
    }
}

/// Merges the configuration sources over the built-in defaults.
///
/// `file` is what reading the configuration file gave and `env` what the
/// environment overlay gave. A setting has the value of the environment
/// where the environment names it, else that of the file where the file
/// names it, else its built-in default. A source that is absent is no error.
/// A source that cannot be parsed gives [`Error::ConfigLoad`], one that holds
/// a value of the wrong type [`Error::ConfigFormat`]; the file is looked at
/// first.
pub fn resolve(file: &LayerSource, env: &LayerSource) -> (r: Result<StandaloneOptions, Error>)
    ensures
        match resolved(*file, *env) {
            Ok(merged) => r matches Ok(options) && options@ == merged,
            Err(error) => r matches Err(e) && e@ == error,
        },
{
    match file.apply(StandaloneOptions::default()) {
        Ok(with_file) => env.apply(with_file),
        Err(error) => Err(error),
    }
}

} // verus!
