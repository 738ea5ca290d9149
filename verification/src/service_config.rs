//! Settings of the protocol listeners that the frontend offers.

use crate::tls::{TlsOption, TlsOptionView};
use vstd::prelude::*;
use vstd::string::StringExecFns;

verus! {

/// HTTP listener.
#[derive(Debug)]
pub struct HttpOptions {
    pub addr: String,
    pub timeout_secs: u64,
    pub disable_dashboard: bool,
}

/// Mathematical model of [`HttpOptions`].
pub struct HttpOptionsView {
    pub addr: Seq<char>,
    pub timeout_secs: u64,
    pub disable_dashboard: bool,
}

impl View for HttpOptions {
    type V = HttpOptionsView;

    open spec fn view(&self) -> HttpOptionsView {
        HttpOptionsView {
            addr: self.addr@,
            timeout_secs: self.timeout_secs,
            disable_dashboard: self.disable_dashboard,
        }
    }
}

impl HttpOptionsView {
    /// `127.0.0.1:4000`, a timeout of 30 seconds, dashboard on.
    pub open spec fn default_value() -> HttpOptionsView {
        HttpOptionsView { addr: "127.0.0.1:4000"@, timeout_secs: 30, disable_dashboard: false }
    }
}

impl Default for HttpOptions {
    fn default() -> (r: HttpOptions)
        ensures
            r@ == HttpOptionsView::default_value(),
    {
        HttpOptions {
            addr: String::from_str("127.0.0.1:4000"),
            timeout_secs: 30,
            disable_dashboard: false,
        }
    }
}

impl Clone for HttpOptions {
    fn clone(&self) -> (r: HttpOptions)
        ensures
            r@ == self@,
    {
        HttpOptions {
            addr: self.addr.clone(),
            timeout_secs: self.timeout_secs,
            disable_dashboard: self.disable_dashboard,
        }
    }
}

/// gRPC listener.
#[derive(Debug)]
pub struct GrpcOptions {
    pub addr: String,
    pub runtime_size: u64,
}

/// Mathematical model of [`GrpcOptions`].
pub struct GrpcOptionsView {
    pub addr: Seq<char>,
    pub runtime_size: u64,
}

impl View for GrpcOptions {
    type V = GrpcOptionsView;

    open spec fn view(&self) -> GrpcOptionsView {
        GrpcOptionsView { addr: self.addr@, runtime_size: self.runtime_size }
    }
}

impl GrpcOptionsView {
    /// `127.0.0.1:4001`, served by 8 runtime threads.
    pub open spec fn default_value() -> GrpcOptionsView {
        GrpcOptionsView { addr: "127.0.0.1:4001"@, runtime_size: 8 }
    }
}

impl Default for GrpcOptions {
    fn default() -> (r: GrpcOptions)
        ensures
            r@ == GrpcOptionsView::default_value(),
    {
        GrpcOptions { addr: String::from_str("127.0.0.1:4001"), runtime_size: 8 }
    }
}

impl Clone for GrpcOptions {
    fn clone(&self) -> (r: GrpcOptions)
        ensures
            r@ == self@,
    {
        GrpcOptions { addr: self.addr.clone(), runtime_size: self.runtime_size }
    }
}

/// MySQL wire-protocol listener.
#[derive(Debug)]
pub struct MysqlOptions {
    pub enable: bool,
    pub addr: String,
    pub runtime_size: u64,
    pub tls: TlsOption,
}

/// Mathematical model of [`MysqlOptions`].
pub struct MysqlOptionsView {
    pub enable: bool,
    pub addr: Seq<char>,
    pub runtime_size: u64,
    pub tls: TlsOptionView,
}

impl View for MysqlOptions {
    type V = MysqlOptionsView;

    open spec fn view(&self) -> MysqlOptionsView {
        MysqlOptionsView {
            enable: self.enable,
            addr: self.addr@,
            runtime_size: self.runtime_size,
            tls: self.tls@,
        }
    }
}

impl MysqlOptionsView {
    /// Enabled on `127.0.0.1:4002`, 2 runtime threads, TLS off.
    pub open spec fn default_value() -> MysqlOptionsView {
        MysqlOptionsView {
            enable: true,
            addr: "127.0.0.1:4002"@,
            runtime_size: 2,
            tls: TlsOptionView::default_value(),
        }
    }
}

impl Default for MysqlOptions {
    fn default() -> (r: MysqlOptions)
        ensures
            r@ == MysqlOptionsView::default_value(),
    {
        MysqlOptions {
            enable: true,
            addr: String::from_str("127.0.0.1:4002"),
            runtime_size: 2,
            tls: TlsOption::default(),
        }
    }
}

impl Clone for MysqlOptions {
    fn clone(&self) -> (r: MysqlOptions)
        ensures
            r@ == self@,
    {
        MysqlOptions {
            enable: self.enable,
            addr: self.addr.clone(),
            runtime_size: self.runtime_size,
            tls: self.tls.clone(),
        }
    }
}

/// PostgreSQL wire-protocol listener.
#[derive(Debug)]
pub struct PostgresOptions {
    pub enable: bool,
    pub addr: String,
    pub runtime_size: u64,
    pub tls: TlsOption,
}

/// Mathematical model of [`PostgresOptions`].
pub struct PostgresOptionsView {
    pub enable: bool,
    pub addr: Seq<char>,
    pub runtime_size: u64,
    pub tls: TlsOptionView,
}

impl View for PostgresOptions {
    type V = PostgresOptionsView;

    open spec fn view(&self) -> PostgresOptionsView {
        PostgresOptionsView {
            enable: self.enable,
            addr: self.addr@,
            runtime_size: self.runtime_size,
            tls: self.tls@,
        }
    }
}

impl PostgresOptionsView {
    /// Enabled on `127.0.0.1:4003`, 2 runtime threads, TLS off.
    pub open spec fn default_value() -> PostgresOptionsView {
        PostgresOptionsView {
            enable: true,
            addr: "127.0.0.1:4003"@,
            runtime_size: 2,
            tls: TlsOptionView::default_value(),
        }
    }
}

impl Default for PostgresOptions {
    fn default() -> (r: PostgresOptions)
        ensures
            r@ == PostgresOptionsView::default_value(),
    {
        PostgresOptions {
            enable: true,
            addr: String::from_str("127.0.0.1:4003"),
            runtime_size: 2,
            tls: TlsOption::default(),
        }
    }
}

impl Clone for PostgresOptions {
    fn clone(&self) -> (r: PostgresOptions)
        ensures
            r@ == self@,
    {
        PostgresOptions {
            enable: self.enable,
            addr: self.addr.clone(),
            runtime_size: self.runtime_size,
            tls: self.tls.clone(),
        }
    }
}

/// OpenTSDB ingestion listener.
#[derive(Debug)]
pub struct OpentsdbOptions {
    pub enable: bool,
    pub addr: String,
    pub runtime_size: u64,
}

/// Mathematical model of [`OpentsdbOptions`].
pub struct OpentsdbOptionsView {
    pub enable: bool,
    pub addr: Seq<char>,
    pub runtime_size: u64,
}

impl View for OpentsdbOptions {
    type V = OpentsdbOptionsView;

    open spec fn view(&self) -> OpentsdbOptionsView {
        OpentsdbOptionsView {
            enable: self.enable,
            addr: self.addr@,
            runtime_size: self.runtime_size,
        }
    }
}

impl OpentsdbOptionsView {
    /// Enabled on `127.0.0.1:4242`, 2 runtime threads.
    pub open spec fn default_value() -> OpentsdbOptionsView {
        OpentsdbOptionsView { enable: true, addr: "127.0.0.1:4242"@, runtime_size: 2 }
    }
}

impl Default for OpentsdbOptions {
    fn default() -> (r: OpentsdbOptions)
        ensures
            r@ == OpentsdbOptionsView::default_value(),
    {
        OpentsdbOptions { enable: true, addr: String::from_str("127.0.0.1:4242"), runtime_size: 2 }
    }
}

impl Clone for OpentsdbOptions {
    fn clone(&self) -> (r: OpentsdbOptions)
        ensures
            r@ == self@,
    {
        OpentsdbOptions {
            enable: self.enable,
            addr: self.addr.clone(),
            runtime_size: self.runtime_size,
        }
    }
}

/// InfluxDB line-protocol ingestion, served over HTTP. Off unless asked for.
#[derive(Clone, Copy, Debug, PartialEq, Eq, Structural)]
pub struct InfluxdbOptions {
    pub enable: bool,
}

impl InfluxdbOptions {
    /// Switched off.
    pub open spec fn default_value() -> InfluxdbOptions {
        InfluxdbOptions { enable: false }
    }
}

impl Default for InfluxdbOptions {
    fn default() -> (r: InfluxdbOptions)
        ensures
            r == InfluxdbOptions::default_value(),
    {
        InfluxdbOptions { enable: false }
    }
}

/// Prometheus remote write and read, served over HTTP.
#[derive(Clone, Copy, Debug, PartialEq, Eq, Structural)]
pub struct PromStoreOptions {
    pub enable: bool,
}

impl PromStoreOptions {
    /// Switched on.
    pub open spec fn default_value() -> PromStoreOptions {
        PromStoreOptions { enable: true }
    }
}

impl Default for PromStoreOptions {
    fn default() -> (r: PromStoreOptions)
        ensures
            r == PromStoreOptions::default_value(),
    {
        PromStoreOptions { enable: true }
    }
}

} // verus!
