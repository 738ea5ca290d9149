//! What each tier is handed at start-up, and the bundle that carries it there.

use crate::logging::{LoggingOptions, LoggingOptionsView};
use crate::service_config::{
    GrpcOptions, GrpcOptionsView, HttpOptions, HttpOptionsView, InfluxdbOptions, MysqlOptions,
    MysqlOptionsView, OpentsdbOptions, OpentsdbOptionsView, PostgresOptions, PostgresOptionsView,
    PromStoreOptions,
};
use crate::storage_config::{
    KvBackendConfig, ProcedureConfig, StorageConfig, StorageConfigView, WalConfig, WalConfigView,
};
use crate::text::{clone_opt_text, opt_text};
use vstd::prelude::*;
use vstd::string::StringExecFns;

verus! {

/// How the tiers of the database are deployed.
#[derive(Clone, Copy, Debug, PartialEq, Eq, Structural)]
pub enum Mode {
    /// All tiers in one process.
    Standalone,
    /// Each tier in processes of its own.
    Distributed,
}

/// How a frontend reaches the metadata service of a distributed deployment.
#[derive(Debug)]
pub struct MetaClientOptions {
    pub metasrv_addr: String,
    pub timeout_millis: u64,
}

/// Mathematical model of [`MetaClientOptions`].
pub struct MetaClientOptionsView {
    pub metasrv_addr: Seq<char>,
    pub timeout_millis: u64,
}

impl View for MetaClientOptions {
    type V = MetaClientOptionsView;

    open spec fn view(&self) -> MetaClientOptionsView {
        MetaClientOptionsView {
            metasrv_addr: self.metasrv_addr@,
            timeout_millis: self.timeout_millis,
        }
    }
}

impl Clone for MetaClientOptions {
    fn clone(&self) -> (r: MetaClientOptions)
        ensures
            r@ == self@,
    {
        MetaClientOptions {
            metasrv_addr: self.metasrv_addr.clone(),
            timeout_millis: self.timeout_millis,
        }
    }
}

/// The model of an optional metadata-service client.
pub open spec fn opt_meta_client(o: Option<MetaClientOptions>) -> Option<MetaClientOptionsView> {
    match o {
        Some(m) => Some(m@),
        None => None,
    }
}

/// Options of the frontend tier.
#[derive(Debug)]
pub struct FrontendOptions {
    pub mode: Mode,
    pub node_id: Option<String>,
    pub http: HttpOptions,
    pub grpc: GrpcOptions,
    pub mysql: MysqlOptions,
    pub postgres: PostgresOptions,
    pub opentsdb: OpentsdbOptions,
    pub influxdb: InfluxdbOptions,
    pub prom_store: PromStoreOptions,
    pub meta_client: Option<MetaClientOptions>,
}

/// Mathematical model of [`FrontendOptions`].
pub struct FrontendOptionsView {
    pub mode: Mode,
    pub node_id: Option<Seq<char>>,
    pub http: HttpOptionsView,
    pub grpc: GrpcOptionsView,
    pub mysql: MysqlOptionsView,
    pub postgres: PostgresOptionsView,
    pub opentsdb: OpentsdbOptionsView,
    pub influxdb: InfluxdbOptions,
    pub prom_store: PromStoreOptions,
    pub meta_client: Option<MetaClientOptionsView>,
}

impl View for FrontendOptions {
    type V = FrontendOptionsView;

    open spec fn view(&self) -> FrontendOptionsView {
        FrontendOptionsView {
            mode: self.mode,
            node_id: opt_text(self.node_id),
            http: self.http@,
            grpc: self.grpc@,
            mysql: self.mysql@,
            postgres: self.postgres@,
            opentsdb: self.opentsdb@,
            influxdb: self.influxdb,
            prom_store: self.prom_store,
            meta_client: opt_meta_client(self.meta_client),
        }
    }
}

impl FrontendOptionsView {
    /// A standalone frontend without a node id or a metadata-service client,
    /// every listener with its own defaults.
    pub open spec fn default_value() -> FrontendOptionsView {
        FrontendOptionsView {
            mode: Mode::Standalone,
            node_id: None,
            http: HttpOptionsView::default_value(),
            grpc: GrpcOptionsView::default_value(),
            mysql: MysqlOptionsView::default_value(),
            postgres: PostgresOptionsView::default_value(),
            opentsdb: OpentsdbOptionsView::default_value(),
            influxdb: InfluxdbOptions::default_value(),
            prom_store: PromStoreOptions::default_value(),
            meta_client: None,
        }
    }
}

impl Default for FrontendOptions {
    fn default() -> (r: FrontendOptions)
        ensures
            r@ == FrontendOptionsView::default_value(),
    {
        FrontendOptions {
            mode: Mode::Standalone,
            node_id: None,
            http: HttpOptions::default(),
            grpc: GrpcOptions::default(),
            mysql: MysqlOptions::default(),
            postgres: PostgresOptions::default(),
            opentsdb: OpentsdbOptions::default(),
            influxdb: InfluxdbOptions::default(),
            prom_store: PromStoreOptions::default(),
            meta_client: None,
        }
    }
}

impl Clone for FrontendOptions {
    fn clone(&self) -> (r: FrontendOptions)
        ensures
            r@ == self@,
    {
        FrontendOptions {
            mode: self.mode,
            node_id: clone_opt_text(&self.node_id),
            http: self.http.clone(),
            grpc: self.grpc.clone(),
            mysql: self.mysql.clone(),
            postgres: self.postgres.clone(),
            opentsdb: self.opentsdb.clone(),
            influxdb: self.influxdb,
            prom_store: self.prom_store,
            meta_client: match &self.meta_client {
                Some(m) => Some(m.clone()),
                None => None,
            },
        }
    }
}

/// The address on which a storage node serves gRPC unless told otherwise. In
/// a standalone process it is reserved: the frontend must not listen there.
pub open spec fn datanode_default_rpc_addr() -> Seq<char> {
    "127.0.0.1:3001"@
}

/// Options of the storage tier.
#[derive(Debug)]
pub struct DatanodeOptions {
    pub node_id: Option<u64>,
    pub rpc_addr: String,
    pub rpc_runtime_size: u64,
    pub wal: WalConfig,
    pub storage: StorageConfig,
}

/// Mathematical model of [`DatanodeOptions`].
pub struct DatanodeOptionsView {
    pub node_id: Option<u64>,
    pub rpc_addr: Seq<char>,
    pub rpc_runtime_size: u64,
    pub wal: WalConfigView,
    pub storage: StorageConfigView,
}

impl View for DatanodeOptions {
    type V = DatanodeOptionsView;

    open spec fn view(&self) -> DatanodeOptionsView {
        DatanodeOptionsView {
            node_id: self.node_id,
            rpc_addr: self.rpc_addr@,
            rpc_runtime_size: self.rpc_runtime_size,
            wal: self.wal@,
            storage: self.storage@,
        }
    }
}

impl DatanodeOptionsView {
    /// No node id, gRPC on the reserved address with 8 runtime threads, the
    /// log and the storage with their own defaults.
    pub open spec fn default_value() -> DatanodeOptionsView {
        DatanodeOptionsView {
            node_id: None,
            rpc_addr: datanode_default_rpc_addr(),
            rpc_runtime_size: 8,
            wal: WalConfigView::default_value(),
            storage: StorageConfigView::default_value(),
        }
    }
}

impl Default for DatanodeOptions {
    fn default() -> (r: DatanodeOptions)
        ensures
            r@ == DatanodeOptionsView::default_value(),
    {
        DatanodeOptions {
            node_id: None,
            rpc_addr: String::from_str("127.0.0.1:3001"),
            rpc_runtime_size: 8,
            wal: WalConfig::default(),
            storage: StorageConfig::default(),
        }
    }
}

impl Clone for DatanodeOptions {
    fn clone(&self) -> (r: DatanodeOptions)
        ensures
            r@ == self@,
    {
        DatanodeOptions {
            node_id: self.node_id,
            rpc_addr: self.rpc_addr.clone(),
            rpc_runtime_size: self.rpc_runtime_size,
            wal: self.wal.clone(),
            storage: self.storage.clone(),
        }
    }
}

/// Everything a standalone launch needs: the options of the two tiers, and
/// what the launch sequence itself reads.
#[derive(Debug)]
pub struct MixOptions {
    pub data_home: String,
    pub procedure: ProcedureConfig,
    pub metadata_store: KvBackendConfig,
    pub frontend: FrontendOptions,
    pub datanode: DatanodeOptions,
    pub logging: LoggingOptions,
}

/// Mathematical model of [`MixOptions`].
pub struct MixOptionsView {
    pub data_home: Seq<char>,
    pub procedure: ProcedureConfig,
    pub metadata_store: KvBackendConfig,
    pub frontend: FrontendOptionsView,
    pub datanode: DatanodeOptionsView,
    pub logging: LoggingOptionsView,
}

impl View for MixOptions {
    type V = MixOptionsView;

    open spec fn view(&self) -> MixOptionsView {
        MixOptionsView {
            data_home: self.data_home@,
            procedure: self.procedure,
            metadata_store: self.metadata_store,
            frontend: self.frontend@,
            datanode: self.datanode@,
            logging: self.logging@,
        }
    }
}

impl Clone for MixOptions {
    fn clone(&self) -> (r: MixOptions)
        ensures
            r@ == self@,
    {
        MixOptions {
            data_home: self.data_home.clone(),
            procedure: self.procedure,
            metadata_store: self.metadata_store,
            frontend: self.frontend.clone(),
            datanode: self.datanode.clone(),
            logging: self.logging.clone(),
        }
    }
}

/// The options a subcommand runs with.
#[derive(Debug)]
pub enum Options {
    /// A standalone launch.
    Standalone(Box<MixOptions>),
    /// A client-side subcommand, which only logs.
    Cli(Box<LoggingOptions>),
}

/// Mathematical model of [`Options`].
pub enum OptionsView {
    Standalone(MixOptionsView),
    Cli(LoggingOptionsView),
}

impl View for Options {
    type V = OptionsView;

    open spec fn view(&self) -> OptionsView {
        match *self {
            Options::Standalone(mix) => OptionsView::Standalone(mix@),
            Options::Cli(logging) => OptionsView::Cli(logging@),
        }
    }
}

} // verus!
