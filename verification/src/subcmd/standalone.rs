//! The `standalone` subcommand: the merged configuration of a standalone
//! process, what the command line adds to it, the cross-field check, and the
//! projection into the bundle that a launch runs with.

use crate::error::{Error, ErrorView};
use crate::layer::{resolve, resolved, ConfigLayer, LayerSource};
use crate::logging::{LoggingOptions, LoggingOptionsView};
use crate::options::{
    datanode_default_rpc_addr, DatanodeOptions, DatanodeOptionsView, FrontendOptions,
    FrontendOptionsView, MixOptions, MixOptionsView, Mode, Options, OptionsView,
};
use crate::service_config::{
    GrpcOptions, GrpcOptionsView, HttpOptions, HttpOptionsView, InfluxdbOptions, MysqlOptions,
    MysqlOptionsView, OpentsdbOptions, OpentsdbOptionsView, PostgresOptions, PostgresOptionsView,
    PromStoreOptions,
};
use crate::startup::{Orchestrator, ProgressView};
use crate::storage_config::{
    clone_region_engines, default_region_engine_list, default_region_engines, KvBackendConfig,
    ProcedureConfig, RegionEngineConfig, StorageConfig, StorageConfigView, WalConfig,
    WalConfigView,
};
use crate::text::{clone_opt_text, opt_text, opt_text_or, text_or};
use crate::tls::TlsMode;
use vstd::prelude::*;

verus! {

/// Every setting of a standalone process, after the configuration sources
/// have been laid over the built-in defaults.
#[derive(Debug)]
pub struct StandaloneOptions {
    pub mode: Mode,
    pub enable_telemetry: bool,
    pub http: HttpOptions,
    pub grpc: GrpcOptions,
    pub mysql: MysqlOptions,
    pub postgres: PostgresOptions,
    pub opentsdb: OpentsdbOptions,
    pub influxdb: InfluxdbOptions,
    pub prom_store: PromStoreOptions,
    pub wal: WalConfig,
    pub storage: StorageConfig,
    pub metadata_store: KvBackendConfig,
    pub procedure: ProcedureConfig,
    pub logging: LoggingOptions,
    /// Identifier of the authentication provider, if one is to be used.
    pub user_provider: Option<String>,
    /// Settings of the region engines.
    pub region_engine: Vec<RegionEngineConfig>,
}

/// Mathematical model of [`StandaloneOptions`].
pub struct StandaloneOptionsView {
    pub mode: Mode,
    pub enable_telemetry: bool,
    pub http: HttpOptionsView,
    pub grpc: GrpcOptionsView,
    pub mysql: MysqlOptionsView,
    pub postgres: PostgresOptionsView,
    pub opentsdb: OpentsdbOptionsView,
    pub influxdb: InfluxdbOptions,
    pub prom_store: PromStoreOptions,
    pub wal: WalConfigView,
    pub storage: StorageConfigView,
    pub metadata_store: KvBackendConfig,
    pub procedure: ProcedureConfig,
    pub logging: LoggingOptionsView,
    pub user_provider: Option<Seq<char>>,
    pub region_engine: Seq<RegionEngineConfig>,
}

impl View for StandaloneOptions {
    type V = StandaloneOptionsView;

    open spec fn view(&self) -> StandaloneOptionsView {
        StandaloneOptionsView {
            mode: self.mode,
            enable_telemetry: self.enable_telemetry,
            http: self.http@,
            grpc: self.grpc@,
            mysql: self.mysql@,
            postgres: self.postgres@,
            opentsdb: self.opentsdb@,
            influxdb: self.influxdb,
            prom_store: self.prom_store,
            wal: self.wal@,
            storage: self.storage@,
            metadata_store: self.metadata_store,
            procedure: self.procedure,
            logging: self.logging@,
            user_provider: opt_text(self.user_provider),
            region_engine: self.region_engine@,
        }
    }
}

impl StandaloneOptionsView {
    /// The built-in defaults: standalone mode, telemetry on, no
    /// authentication provider, the default engine list, and every section
    /// with its own defaults.
    pub open spec fn default_value() -> StandaloneOptionsView {
        StandaloneOptionsView {
            mode: Mode::Standalone,
            enable_telemetry: true,
            http: HttpOptionsView::default_value(),
            grpc: GrpcOptionsView::default_value(),
            mysql: MysqlOptionsView::default_value(),
            postgres: PostgresOptionsView::default_value(),
            opentsdb: OpentsdbOptionsView::default_value(),
            influxdb: InfluxdbOptions::default_value(),
            prom_store: PromStoreOptions::default_value(),
            wal: WalConfigView::default_value(),
            storage: StorageConfigView::default_value(),
            metadata_store: KvBackendConfig::default_value(),
            procedure: ProcedureConfig::default_value(),
            logging: LoggingOptionsView::default_value(),
            user_provider: None,
            region_engine: default_region_engines(),
        }
    }
}

impl Default for StandaloneOptions {
    fn default() -> (r: StandaloneOptions)
        ensures
            r@ == StandaloneOptionsView::default_value(),
    {
        StandaloneOptions {
            mode: Mode::Standalone,
            enable_telemetry: true,
            http: HttpOptions::default(),
            grpc: GrpcOptions::default(),
            mysql: MysqlOptions::default(),
            postgres: PostgresOptions::default(),
            opentsdb: OpentsdbOptions::default(),
            influxdb: InfluxdbOptions::default(),
            prom_store: PromStoreOptions::default(),
            wal: WalConfig::default(),
            storage: StorageConfig::default(),
            metadata_store: KvBackendConfig::default(),
            procedure: ProcedureConfig::default(),
            logging: LoggingOptions::default(),
            user_provider: None,
            region_engine: default_region_engine_list(),
        }
    }
}

impl Clone for StandaloneOptions {
    fn clone(&self) -> (r: StandaloneOptions)
        ensures
            r@ == self@,
    {
        StandaloneOptions {
            mode: self.mode,
            enable_telemetry: self.enable_telemetry,
            http: self.http.clone(),
            grpc: self.grpc.clone(),
            mysql: self.mysql.clone(),
            postgres: self.postgres.clone(),
            opentsdb: self.opentsdb.clone(),
            influxdb: self.influxdb,
            prom_store: self.prom_store,
            wal: self.wal.clone(),
            storage: self.storage.clone(),
            metadata_store: self.metadata_store,
            procedure: self.procedure,
            logging: self.logging.clone(),
            user_provider: clone_opt_text(&self.user_provider),
            region_engine: clone_region_engines(&self.region_engine),
        }
    }
}

impl StandaloneOptionsView {
    /// Whether the frontend would listen for gRPC on the address that is
    /// reserved for the storage tier.
    pub open spec fn has_rpc_conflict(self) -> bool {
        self.grpc.addr == datanode_default_rpc_addr()
    }

    /// The outcome of the cross-field checks: the configuration itself, or
    /// the conflict of the two addresses.
    pub open spec fn checked(self) -> Result<StandaloneOptionsView, ErrorView> {
        if self.has_rpc_conflict() {
            Err(
                ErrorView::AddressConflict {
                    frontend_addr: self.grpc.addr,
                    storage_addr: datanode_default_rpc_addr(),
                },
            )
        } else {
            Ok(self)
        }
    }

    /// The options of the frontend tier: the mode and the listeners of this
    /// configuration, no metadata-service client, defaults for the rest.
    pub open spec fn frontend(self) -> FrontendOptionsView {
        FrontendOptionsView {
            mode: self.mode,
            node_id: FrontendOptionsView::default_value().node_id,
            http: self.http,
            grpc: self.grpc,
            mysql: self.mysql,
            postgres: self.postgres,
            opentsdb: self.opentsdb,
            influxdb: self.influxdb,
            prom_store: self.prom_store,
            meta_client: None,
        }
    }

    /// The options of the storage tier: node 0 with the log and the storage
    /// of this configuration, defaults for the rest.
    pub open spec fn datanode(self) -> DatanodeOptionsView {
        DatanodeOptionsView {
            node_id: Some(0),
            rpc_addr: DatanodeOptionsView::default_value().rpc_addr,
            rpc_runtime_size: DatanodeOptionsView::default_value().rpc_runtime_size,
            wal: self.wal,
            storage: self.storage,
        }
    }

    /// The bundle that a launch runs with: the two projections, and beside
    /// them the data home, the procedure policy, the metadata-store
    /// descriptor and the logging policy.
    pub open spec fn bundle(self) -> MixOptionsView {
        MixOptionsView {
            data_home: self.storage.data_home,
            procedure: self.procedure,
            metadata_store: self.metadata_store,
            frontend: self.frontend(),
            datanode: self.datanode(),
            logging: self.logging,
        }
    }
}

impl StandaloneOptions {
    /// Projects the configuration onto the frontend tier.
    fn frontend_options(self) -> (r: FrontendOptions)
        ensures
            r@ == self@.frontend(),
    {
        let rest = FrontendOptions::default();
        FrontendOptions {
            mode: self.mode,
            node_id: rest.node_id,
            http: self.http,
            grpc: self.grpc,
            mysql: self.mysql,
            postgres: self.postgres,
            opentsdb: self.opentsdb,
            influxdb: self.influxdb,
            prom_store: self.prom_store,
            meta_client: None,
        }
    }

    /// Projects the configuration onto the storage tier.
    fn datanode_options(self) -> (r: DatanodeOptions)
        ensures
            r@ == self@.datanode(),
    {
        let rest = DatanodeOptions::default();
        DatanodeOptions {
            node_id: Some(0),
            rpc_addr: rest.rpc_addr,
            rpc_runtime_size: rest.rpc_runtime_size,
            wal: self.wal,
            storage: self.storage,
        }
    }
}

/// A merged configuration that has passed the cross-field checks. Only such
/// a configuration can be projected into the options of the tiers.
#[derive(Debug)]
pub struct ValidatedConfig {
    options: StandaloneOptions,
}

impl View for ValidatedConfig {
    type V = StandaloneOptionsView;

    closed spec fn view(&self) -> StandaloneOptionsView {
        self.options@
    }
}

impl ValidatedConfig {
    #[verifier::type_invariant]
    spec fn consistent(self) -> bool {
        !self.options@.has_rpc_conflict()
    }

    /// Checks a merged configuration. It is refused, with an error that
    /// names both addresses, exactly when the frontend's gRPC address is the
    /// one reserved for the storage tier; otherwise it is accepted unchanged.
    pub fn validate(options: StandaloneOptions) -> (r: Result<ValidatedConfig, Error>)
        ensures
            match options@.checked() {
                Ok(accepted) => r matches Ok(valid) && valid@ == accepted,
                Err(error) => r matches Err(e) && e@ == error,
            },
    {
        let reserved = DatanodeOptions::default().rpc_addr;
        if options.grpc.addr == reserved {
            Err(Error::AddressConflict { frontend_addr: options.grpc.addr, storage_addr: reserved })
        } else {
            Ok(ValidatedConfig { options })
        }
    }

    /// The configuration that was validated. Its gRPC address is not the
    /// reserved one.
    pub fn options(&self) -> (r: &StandaloneOptions)
        ensures
            r@ == self@,
            !self@.has_rpc_conflict(),
    {
        proof {
            use_type_invariant(self);
        }
        &self.options
    }

    /// Splits the configuration into the bundle that a launch runs with.
    pub fn project(self) -> (r: MixOptions)
        ensures
            r@ == self@.bundle(),
            !self@.has_rpc_conflict(),
    {
        proof {
            use_type_invariant(&self);
        }
        let procedure = self.options.procedure;
        let metadata_store = self.options.metadata_store;
        let logging = self.options.logging.clone();
        let frontend = self.options.clone().frontend_options();
        let datanode = self.options.datanode_options();
        MixOptions {
            data_home: datanode.storage.data_home.clone(),
            procedure,
            metadata_store,
            frontend,
            datanode,
            logging,
        }
    }
}

/// The command line of the `standalone` subcommand, as parsed. A flag that
/// was not given is `None`, a switch that was not given `false`.
#[derive(Debug)]
pub struct Standalone {
    pub http_addr: Option<String>,
    pub rpc_addr: Option<String>,
    pub mysql_addr: Option<String>,
    pub postgres_addr: Option<String>,
    pub opentsdb_addr: Option<String>,
    pub influxdb_enable: bool,
    pub config_file: Option<String>,
    pub enable_memory_catalog: bool,
    pub tls_mode: Option<TlsMode>,
    pub tls_cert_path: Option<String>,
    pub tls_key_path: Option<String>,
    pub user_provider: Option<String>,
}

impl Clone for Standalone {
    fn clone(&self) -> (r: Standalone)
        ensures
            r == *self,
    {
        Standalone {
            http_addr: clone_opt_text(&self.http_addr),
            rpc_addr: clone_opt_text(&self.rpc_addr),
            mysql_addr: clone_opt_text(&self.mysql_addr),
            postgres_addr: clone_opt_text(&self.postgres_addr),
            opentsdb_addr: clone_opt_text(&self.opentsdb_addr),
            influxdb_enable: self.influxdb_enable,
            config_file: clone_opt_text(&self.config_file),
            enable_memory_catalog: self.enable_memory_catalog,
            tls_mode: self.tls_mode,
            tls_cert_path: clone_opt_text(&self.tls_cert_path),
            tls_key_path: clone_opt_text(&self.tls_key_path),
            user_provider: clone_opt_text(&self.user_provider),
        }
    }
}

impl Standalone {
    /// Whether the command line overrides nothing.
    pub open spec fn overrides_nothing(self) -> bool {
        &&& self.http_addr is None
        &&& self.rpc_addr is None
        &&& self.mysql_addr is None
        &&& self.postgres_addr is None
        &&& self.opentsdb_addr is None
        &&& !self.influxdb_enable
        &&& self.tls_mode is None
        &&& self.tls_cert_path is None
        &&& self.tls_key_path is None
        &&& self.user_provider is None
    }

    /// The configuration `merged` with the command line applied to it.
    ///
    /// The mode is standalone. Each address that the command line gives
    /// replaces the one in `merged`, and so does the authentication
    /// provider. Each part of the TLS settings that the command line gives
    /// replaces that part in the settings of both listeners that support
    /// TLS, the MySQL and the PostgreSQL one; a part that it does not give
    /// stays as each listener has it. The InfluxDB switch turns that
    /// protocol on and never off. Every other setting is that of `merged`.
    pub open spec fn overridden(self, merged: StandaloneOptionsView) -> StandaloneOptionsView {
        StandaloneOptionsView {
            mode: Mode::Standalone,
            http: HttpOptionsView { addr: text_or(self.http_addr, merged.http.addr), ..merged.http },
            grpc: GrpcOptionsView { addr: text_or(self.rpc_addr, merged.grpc.addr), ..merged.grpc },
            mysql: MysqlOptionsView {
                addr: text_or(self.mysql_addr, merged.mysql.addr),
                tls: merged.mysql.tls.overlaid(
                    self.tls_mode,
                    self.tls_cert_path,
                    self.tls_key_path,
                ),
                ..merged.mysql
            },
            postgres: PostgresOptionsView {
                addr: text_or(self.postgres_addr, merged.postgres.addr),
                tls: merged.postgres.tls.overlaid(
                    self.tls_mode,
                    self.tls_cert_path,
                    self.tls_key_path,
                ),
                ..merged.postgres
            },
            opentsdb: OpentsdbOptionsView {
                addr: text_or(self.opentsdb_addr, merged.opentsdb.addr),
                ..merged.opentsdb
            },
            influxdb: InfluxdbOptions { enable: self.influxdb_enable || merged.influxdb.enable },
            user_provider: opt_text_or(self.user_provider, merged.user_provider),
            ..merged
        }
    }

    /// What [`Standalone::validate_and_project`] returns for `merged`: the
    /// address conflict where the overridden configuration has one, its
    /// bundle otherwise.
    pub open spec fn projected(self, merged: StandaloneOptionsView) -> Result<
        MixOptionsView,
        ErrorView,
    > {
        match self.overridden(merged).checked() {
            Ok(accepted) => Ok(accepted.bundle()),
            Err(error) => Err(error),
        }
    }

    /// What [`Standalone::load_options`] returns for the two sources: the
    /// fault of a source, else the outcome of validation and projection on
    /// what the sources resolve to.
    pub open spec fn loaded(self, file: LayerSource, env: LayerSource) -> Result<
        MixOptionsView,
        ErrorView,
    > {
        match resolved(file, env) {
            Ok(merged) => self.projected(merged),
            Err(error) => Err(error),
        }
    }

    /// Applies the command line to a merged configuration.
    pub fn apply_overrides(&self, merged: StandaloneOptions) -> (r: StandaloneOptions)
        ensures
            r@ == self.overridden(merged@),
    {
        let mut opts = merged;
        opts.mode = Mode::Standalone;

        if let Some(addr) = &self.http_addr {
            opts.http.addr = addr.clone();
        }
        if let Some(addr) = &self.rpc_addr {
            opts.grpc.addr = addr.clone();
        }
        if let Some(addr) = &self.mysql_addr {
            opts.mysql.addr = addr.clone();
        }
        opts.mysql.tls = opts.mysql.tls.overlay(
            &self.tls_mode,
            &self.tls_cert_path,
            &self.tls_key_path,
        );
        if let Some(addr) = &self.postgres_addr {
            opts.postgres.addr = addr.clone();
        }
        opts.postgres.tls = opts.postgres.tls.overlay(
            &self.tls_mode,
            &self.tls_cert_path,
            &self.tls_key_path,
        );
        if let Some(addr) = &self.opentsdb_addr {
            opts.opentsdb.addr = addr.clone();
        }
        if self.influxdb_enable {
            opts.influxdb = InfluxdbOptions { enable: true };
        }
        if let Some(provider) = &self.user_provider {
            opts.user_provider = Some(provider.clone());
        }
        opts
    }

    /// Applies the command line to a merged configuration, checks the
    /// result and splits it into the bundle of a launch. Fails, with
    /// [`Error::AddressConflict`], exactly when the frontend's gRPC address
    /// would be the one reserved for the storage tier.
    pub fn validate_and_project(&self, merged: StandaloneOptions) -> (r: Result<MixOptions, Error>)
        ensures
            match self.projected(merged@) {
                Ok(bundle) => r matches Ok(mix) && mix@ == bundle,
                Err(error) => r matches Err(e) && e@ == error,
            },
    {
        match ValidatedConfig::validate(self.apply_overrides(merged)) {
            Ok(valid) => Ok(valid.project()),
            Err(error) => Err(error),
        }
    }

    /// Begins the launch that the options describe: nothing has run yet and
    /// the first stage is due. The caller runs each stage that is due and
    /// reports how it ended, until none is due.
    pub fn execute(self, opts: MixOptions) -> (r: Orchestrator)
        ensures
            r@.options == opts@,
            r@.progress == ProgressView::initial(),
    {
        Orchestrator::new(opts)
    }

    /// Resolves the options of a standalone launch from the two
    /// configuration sources and the command line: defaults, then the file,
    /// then the environment, then the command line, then validation.
    pub fn load_options(&self, file: &LayerSource, env: &LayerSource) -> (r: Result<Options, Error>)
        ensures
            match self.loaded(*file, *env) {
                Ok(bundle) => r matches Ok(options) && options@ == OptionsView::Standalone(bundle),
                Err(error) => r matches Err(e) && e@ == error,
            },
    {
        let merged = match resolve(file, env) {
            Ok(merged) => merged,
            Err(error) => {
                return Err(error);
            },
        };
        match self.validate_and_project(merged) {
            Ok(mix) => Ok(Options::Standalone(Box::new(mix))),
            Err(error) => Err(error),
        }
    }
}

/// The command line has the last word.
///
/// Whatever the file and the environment say, a setting that the command
/// line gives has the command line's value in the configuration that is
/// validated, and in the bundle where the bundle carries it. A part of the
/// TLS settings that the command line gives has the command line's value for
/// both listeners that support TLS.
pub proof fn lemma_command_line_wins(cli: Standalone, file: LayerSource, env: LayerSource)
    ensures
        resolved(file, env) matches Ok(base) ==> ({
            let merged = cli.overridden(base);
            &&& merged.mode == Mode::Standalone
            &&& cli.http_addr matches Some(addr) ==> merged.http.addr == addr@
            &&& cli.rpc_addr matches Some(addr) ==> merged.grpc.addr == addr@
            &&& cli.mysql_addr matches Some(addr) ==> merged.mysql.addr == addr@
            &&& cli.postgres_addr matches Some(addr) ==> merged.postgres.addr == addr@
            &&& cli.tls_mode matches Some(mode) ==> merged.mysql.tls.mode == mode
                && merged.postgres.tls.mode == mode
            &&& cli.tls_cert_path matches Some(path) ==> merged.mysql.tls.cert_path == path@
                && merged.postgres.tls.cert_path == path@
            &&& cli.tls_key_path matches Some(path) ==> merged.mysql.tls.key_path == path@
                && merged.postgres.tls.key_path == path@
            &&& cli.opentsdb_addr matches Some(addr) ==> merged.opentsdb.addr == addr@
            &&& cli.influxdb_enable ==> merged.influxdb.enable
            &&& cli.user_provider matches Some(provider) ==> merged.user_provider == Some(
                provider@,
            )
        }),
        cli.loaded(file, env) matches Ok(bundle) ==> ({
            let frontend = bundle.frontend;
            &&& frontend.mode == Mode::Standalone
            &&& cli.http_addr matches Some(addr) ==> frontend.http.addr == addr@
            &&& cli.rpc_addr matches Some(addr) ==> frontend.grpc.addr == addr@
            &&& cli.mysql_addr matches Some(addr) ==> frontend.mysql.addr == addr@
            &&& cli.postgres_addr matches Some(addr) ==> frontend.postgres.addr == addr@
            &&& cli.tls_mode matches Some(mode) ==> frontend.mysql.tls.mode == mode
                && frontend.postgres.tls.mode == mode
            &&& cli.tls_cert_path matches Some(path) ==> frontend.mysql.tls.cert_path == path@
                && frontend.postgres.tls.cert_path == path@
            &&& cli.tls_key_path matches Some(path) ==> frontend.mysql.tls.key_path == path@
                && frontend.postgres.tls.key_path == path@
            &&& cli.opentsdb_addr matches Some(addr) ==> frontend.opentsdb.addr == addr@
            &&& cli.influxdb_enable ==> frontend.influxdb.enable
        }),
{
}

/// A setting that the command line does not give is left to the sources.
///
/// The configuration that is validated differs from what the file and the
/// environment resolve to only in the mode and in what the command line
/// gives.
pub proof fn lemma_command_line_leaves_the_rest(cli: Standalone, base: StandaloneOptionsView)
    ensures
        ({
            let merged = cli.overridden(base);
            &&& cli.http_addr is None ==> merged.http == base.http
            &&& cli.rpc_addr is None ==> merged.grpc == base.grpc
            &&& cli.mysql_addr is None ==> merged.mysql.addr == base.mysql.addr
            &&& cli.postgres_addr is None ==> merged.postgres.addr == base.postgres.addr
            &&& cli.tls_mode is None ==> merged.mysql.tls.mode == base.mysql.tls.mode
                && merged.postgres.tls.mode == base.postgres.tls.mode
            &&& cli.tls_cert_path is None ==> merged.mysql.tls.cert_path == base.mysql.tls.cert_path
                && merged.postgres.tls.cert_path == base.postgres.tls.cert_path
            &&& cli.tls_key_path is None ==> merged.mysql.tls.key_path == base.mysql.tls.key_path
                && merged.postgres.tls.key_path == base.postgres.tls.key_path
            &&& merged.mysql.enable == base.mysql.enable
            &&& merged.mysql.runtime_size == base.mysql.runtime_size
            &&& merged.postgres.enable == base.postgres.enable
            &&& merged.postgres.runtime_size == base.postgres.runtime_size
            &&& cli.opentsdb_addr is None ==> merged.opentsdb == base.opentsdb
            &&& !cli.influxdb_enable ==> merged.influxdb == base.influxdb
            &&& cli.user_provider is None ==> merged.user_provider == base.user_provider
            &&& merged.enable_telemetry == base.enable_telemetry
            &&& merged.prom_store == base.prom_store
            &&& merged.wal == base.wal
            &&& merged.storage == base.storage
            &&& merged.metadata_store == base.metadata_store
            &&& merged.procedure == base.procedure
            &&& merged.logging == base.logging
            &&& merged.region_engine == base.region_engine
        }),
{
}

/// A layer that names nothing changes nothing.
pub proof fn lemma_blank_layer_changes_nothing(layer: ConfigLayer, base: StandaloneOptionsView)
    requires
        layer.is_blank(),
    ensures
        layer.over(base) == base,
{
}

/// An unconfigured run has the built-in defaults.
///
/// With no file, nothing in the environment and nothing on the command line
/// every setting has its built-in default, the configuration passes
/// validation, and the bundle is the projection of the defaults.
pub proof fn lemma_unconfigured_run_has_defaults(cli: Standalone)
    requires
        cli.overrides_nothing(),
    ensures
        resolved(LayerSource::Absent, LayerSource::Absent) == Ok::<
            StandaloneOptionsView,
            ErrorView,
        >(StandaloneOptionsView::default_value()),
        cli.overridden(StandaloneOptionsView::default_value())
            == StandaloneOptionsView::default_value(),
        !StandaloneOptionsView::default_value().has_rpc_conflict(),
        cli.loaded(LayerSource::Absent, LayerSource::Absent) == Ok::<MixOptionsView, ErrorView>(
            StandaloneOptionsView::default_value().bundle(),
        ),
{
    reveal_strlit("127.0.0.1:3001");
    reveal_strlit("127.0.0.1:4001");
    assert("127.0.0.1:4001"@[10] != "127.0.0.1:3001"@[10]);
}

/// The conflict guard.
///
/// When the command line gives the reserved address of the storage tier as
/// the frontend's gRPC address, validation fails with the address conflict,
/// which names both addresses, whatever the rest of the configuration is;
/// and no bundle comes out of any sources.
pub proof fn lemma_conflict_guard(
    cli: Standalone,
    base: StandaloneOptionsView,
    file: LayerSource,
    env: LayerSource,
)
    requires
        cli.rpc_addr matches Some(addr) && addr@ == datanode_default_rpc_addr(),
    ensures
        cli.projected(base) == Err::<MixOptionsView, ErrorView>(
            ErrorView::AddressConflict {
                frontend_addr: datanode_default_rpc_addr(),
                storage_addr: datanode_default_rpc_addr(),
            },
        ),
        cli.loaded(file, env) is Err,
{
}

} // verus!
