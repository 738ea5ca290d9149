//! Start-up logic of a single-process database node: layered configuration,
//! projection of the merged configuration into per-tier options, the ordered
//! start-up sequence, and the crash-diagnostics hook.

pub mod commands;
pub mod error;
pub mod layer;
pub mod logging;
pub mod options;
pub mod panic_hook;
pub mod service_config;
pub mod startup;
pub mod storage_config;
pub mod subcmd;
pub mod text;
pub mod tls;
