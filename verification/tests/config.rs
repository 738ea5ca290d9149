use cmd::error::Error;
use cmd::layer::{env_prefix, resolve, ConfigLayer, LayerSource};
use cmd::options::{MixOptions, Mode, Options};
use cmd::subcmd::standalone::{Standalone, StandaloneOptions, ValidatedConfig};
use cmd::storage_config::{FileEngineConfig, MitoConfig, RegionEngineConfig};
use cmd::tls::{TlsMode, TlsOption};

fn bare_command_line() -> Standalone {
    Standalone {
        http_addr: None,
        rpc_addr: None,
        mysql_addr: None,
        postgres_addr: None,
        opentsdb_addr: None,
        influxdb_enable: false,
        config_file: None,
        enable_memory_catalog: false,
        tls_mode: None,
        tls_cert_path: None,
        tls_key_path: None,
        user_provider: None,
    }
}

fn text(s: &str) -> Option<String> {
    Some(s.to_string())
}

fn bundle(options: Options) -> MixOptions {
    match options {
        Options::Standalone(mix) => *mix,
        Options::Cli(_) => panic!("a standalone launch resolves to a bundle"),
    }
}

fn assert_defaults(opts: &StandaloneOptions) {
    assert_eq!(opts.mode, Mode::Standalone);
    assert!(opts.enable_telemetry);
    assert_eq!(opts.http.addr, "127.0.0.1:4000");
    assert_eq!(opts.http.timeout_secs, 30);
    assert!(!opts.http.disable_dashboard);
    assert_eq!(opts.grpc.addr, "127.0.0.1:4001");
    assert_eq!(opts.grpc.runtime_size, 8);
    assert!(opts.mysql.enable);
    assert_eq!(opts.mysql.addr, "127.0.0.1:4002");
    assert_eq!(opts.mysql.runtime_size, 2);
    assert_eq!(opts.mysql.tls.mode, TlsMode::Disable);
    assert_eq!(opts.mysql.tls.cert_path, "");
    assert_eq!(opts.mysql.tls.key_path, "");
    assert!(opts.postgres.enable);
    assert_eq!(opts.postgres.addr, "127.0.0.1:4003");
    assert_eq!(opts.postgres.runtime_size, 2);
    assert_eq!(opts.postgres.tls.mode, TlsMode::Disable);
    assert_eq!(opts.postgres.tls.cert_path, "");
    assert_eq!(opts.postgres.tls.key_path, "");
    assert!(opts.opentsdb.enable);
    assert_eq!(opts.opentsdb.addr, "127.0.0.1:4242");
    assert_eq!(opts.opentsdb.runtime_size, 2);
    assert!(!opts.influxdb.enable);
    assert!(opts.prom_store.enable);
    assert_eq!(opts.wal.dir, None);
    assert_eq!(opts.wal.file_size_bytes, 256 * 1024 * 1024);
    assert_eq!(opts.wal.purge_threshold_bytes, 4 * 1024 * 1024 * 1024);
    assert!(!opts.wal.sync_write);
    assert_eq!(opts.storage.data_home, "/tmp/engram/");
    assert_eq!(opts.storage.global_ttl_secs, None);
    assert_eq!(opts.metadata_store.file_size_bytes, 256 * 1024 * 1024);
    assert_eq!(opts.metadata_store.purge_threshold_bytes, 4 * 1024 * 1024 * 1024);
    assert_eq!(opts.procedure.max_retry_times, 3);
    assert_eq!(opts.procedure.retry_delay_millis, 500);
    assert_eq!(opts.logging.dir, "/tmp/engram/logs");
    assert_eq!(opts.logging.level, None);
    assert_eq!(opts.user_provider, None);
    assert_eq!(
        opts.region_engine,
        vec![
            RegionEngineConfig::Mito(MitoConfig { num_workers: 1, manifest_checkpoint_distance: 10 }),
            RegionEngineConfig::File(FileEngineConfig {}),
        ]
    );
}

#[test]
fn default_options_hold_the_documented_defaults() {
    assert_defaults(&StandaloneOptions::default());
}

#[test]
fn resolving_without_sources_gives_the_defaults() {
    let opts = resolve(&LayerSource::Absent, &LayerSource::Absent).unwrap();
    assert_defaults(&opts);
}

#[test]
fn blank_layers_change_nothing() {
    let file = LayerSource::Loaded(ConfigLayer::blank());
    let env = LayerSource::Loaded(ConfigLayer::blank());
    let opts = resolve(&file, &env).unwrap();
    assert_defaults(&opts);
}

#[test]
fn unconfigured_run_projects_the_defaults() {
    let cli = bare_command_line();
    let mix = bundle(cli.load_options(&LayerSource::Absent, &LayerSource::Absent).unwrap());
    assert_eq!(mix.data_home, "/tmp/engram/");
    assert_eq!(mix.procedure.max_retry_times, 3);
    assert_eq!(mix.procedure.retry_delay_millis, 500);
    assert_eq!(mix.metadata_store.file_size_bytes, 256 * 1024 * 1024);
    assert_eq!(mix.logging.dir, "/tmp/engram/logs");
    assert_eq!(mix.frontend.mode, Mode::Standalone);
    assert_eq!(mix.frontend.node_id, None);
    assert_eq!(mix.frontend.http.addr, "127.0.0.1:4000");
    assert_eq!(mix.frontend.grpc.addr, "127.0.0.1:4001");
    assert_eq!(mix.frontend.mysql.addr, "127.0.0.1:4002");
    assert_eq!(mix.frontend.postgres.addr, "127.0.0.1:4003");
    assert_eq!(mix.frontend.opentsdb.addr, "127.0.0.1:4242");
    assert!(!mix.frontend.influxdb.enable);
    assert!(mix.frontend.prom_store.enable);
    assert!(mix.frontend.meta_client.is_none());
    assert_eq!(mix.datanode.node_id, Some(0));
    assert_eq!(mix.datanode.rpc_addr, "127.0.0.1:3001");
    assert_eq!(mix.datanode.rpc_runtime_size, 8);
    assert_eq!(mix.datanode.storage.data_home, "/tmp/engram/");
    assert_eq!(mix.datanode.wal.file_size_bytes, 256 * 1024 * 1024);
}

#[test]
fn environment_overrides_the_file() {
    let mut file = ConfigLayer::blank();
    file.http_addr = text("0.0.0.0:5000");
    let mut env = ConfigLayer::blank();
    env.http_addr = text("0.0.0.0:5001");
    let opts = resolve(&LayerSource::Loaded(file), &LayerSource::Loaded(env)).unwrap();
    assert_eq!(opts.http.addr, "0.0.0.0:5001");
}

#[test]
fn environment_overrides_the_file_in_the_bundle() {
    let mut file = ConfigLayer::blank();
    file.http_addr = text("0.0.0.0:5000");
    let mut env = ConfigLayer::blank();
    env.http_addr = text("0.0.0.0:5001");
    let cli = bare_command_line();
    let mix =
        bundle(cli.load_options(&LayerSource::Loaded(file), &LayerSource::Loaded(env)).unwrap());
    assert_eq!(mix.frontend.http.addr, "0.0.0.0:5001");
}

#[test]
fn file_value_stays_where_the_environment_is_silent() {
    let mut file = ConfigLayer::blank();
    file.http_addr = text("0.0.0.0:5000");
    file.http_timeout_secs = Some(45);
    file.storage_data_home = text("/var/lib/engram/");
    file.wal_dir = text("/var/lib/engram/wal");
    file.storage_global_ttl_secs = Some(3600);
    let mut env = ConfigLayer::blank();
    env.http_timeout_secs = Some(60);
    env.logging_level = text("debug");
    let opts = resolve(&LayerSource::Loaded(file), &LayerSource::Loaded(env)).unwrap();
    assert_eq!(opts.http.addr, "0.0.0.0:5000");
    assert_eq!(opts.http.timeout_secs, 60);
    assert_eq!(opts.storage.data_home, "/var/lib/engram/");
    assert_eq!(opts.wal.dir, text("/var/lib/engram/wal"));
    assert_eq!(opts.storage.global_ttl_secs, Some(3600));
    assert_eq!(opts.logging.level, text("debug"));
    assert_eq!(opts.grpc.addr, "127.0.0.1:4001");
    assert!(!opts.http.disable_dashboard);
}

#[test]
fn a_layer_sets_every_setting_it_names() {
    let layer = ConfigLayer {
        mode: Some(Mode::Distributed),
        enable_telemetry: Some(false),
        http_addr: text("10.0.0.1:1"),
        http_timeout_secs: Some(1),
        http_disable_dashboard: Some(true),
        grpc_addr: text("10.0.0.1:2"),
        grpc_runtime_size: Some(3),
        mysql_enable: Some(false),
        mysql_addr: text("10.0.0.1:4"),
        mysql_runtime_size: Some(5),
        mysql_tls_mode: Some(TlsMode::Require),
        mysql_tls_cert_path: text("/m/cert"),
        mysql_tls_key_path: text("/m/key"),
        postgres_enable: Some(false),
        postgres_addr: text("10.0.0.1:6"),
        postgres_runtime_size: Some(7),
        postgres_tls_mode: Some(TlsMode::VerifyFull),
        postgres_tls_cert_path: text("/p/cert"),
        postgres_tls_key_path: text("/p/key"),
        opentsdb_enable: Some(false),
        opentsdb_addr: text("10.0.0.1:8"),
        opentsdb_runtime_size: Some(9),
        influxdb_enable: Some(true),
        prom_store_enable: Some(false),
        wal_dir: text("/wal"),
        wal_file_size_bytes: Some(10),
        wal_purge_threshold_bytes: Some(11),
        wal_sync_write: Some(true),
        storage_data_home: text("/data"),
        storage_global_ttl_secs: Some(12),
        metadata_store_file_size_bytes: Some(13),
        metadata_store_purge_threshold_bytes: Some(14),
        procedure_max_retry_times: Some(15),
        procedure_retry_delay_millis: Some(16),
        logging_dir: text("/logs"),
        logging_level: text("warn"),
        user_provider: text("static_user_provider:file:/users"),
        region_engine: Some(vec![RegionEngineConfig::File(FileEngineConfig {})]),
    };
    let opts = layer.apply(StandaloneOptions::default());
    assert_eq!(opts.mode, Mode::Distributed);
    assert!(!opts.enable_telemetry);
    assert_eq!(opts.http.addr, "10.0.0.1:1");
    assert_eq!(opts.http.timeout_secs, 1);
    assert!(opts.http.disable_dashboard);
    assert_eq!(opts.grpc.addr, "10.0.0.1:2");
    assert_eq!(opts.grpc.runtime_size, 3);
    assert!(!opts.mysql.enable);
    assert_eq!(opts.mysql.addr, "10.0.0.1:4");
    assert_eq!(opts.mysql.runtime_size, 5);
    assert_eq!(opts.mysql.tls.mode, TlsMode::Require);
    assert_eq!(opts.mysql.tls.cert_path, "/m/cert");
    assert_eq!(opts.mysql.tls.key_path, "/m/key");
    assert!(!opts.postgres.enable);
    assert_eq!(opts.postgres.addr, "10.0.0.1:6");
    assert_eq!(opts.postgres.runtime_size, 7);
    assert_eq!(opts.postgres.tls.mode, TlsMode::VerifyFull);
    assert_eq!(opts.postgres.tls.cert_path, "/p/cert");
    assert_eq!(opts.postgres.tls.key_path, "/p/key");
    assert!(!opts.opentsdb.enable);
    assert_eq!(opts.opentsdb.addr, "10.0.0.1:8");
    assert_eq!(opts.opentsdb.runtime_size, 9);
    assert!(opts.influxdb.enable);
    assert!(!opts.prom_store.enable);
    assert_eq!(opts.wal.dir, text("/wal"));
    assert_eq!(opts.wal.file_size_bytes, 10);
    assert_eq!(opts.wal.purge_threshold_bytes, 11);
    assert!(opts.wal.sync_write);
    assert_eq!(opts.storage.data_home, "/data");
    assert_eq!(opts.storage.global_ttl_secs, Some(12));
    assert_eq!(opts.metadata_store.file_size_bytes, 13);
    assert_eq!(opts.metadata_store.purge_threshold_bytes, 14);
    assert_eq!(opts.procedure.max_retry_times, 15);
    assert_eq!(opts.procedure.retry_delay_millis, 16);
    assert_eq!(opts.logging.dir, "/logs");
    assert_eq!(opts.logging.level, text("warn"));
    assert_eq!(opts.user_provider, text("static_user_provider:file:/users"));
    assert_eq!(opts.region_engine, vec![RegionEngineConfig::File(FileEngineConfig {})]);
}

#[test]
fn a_layer_may_change_one_part_of_the_tls_settings() {
    let mut file = ConfigLayer::blank();
    file.mysql_tls_mode = Some(TlsMode::Prefer);
    file.mysql_tls_cert_path = text("/etc/cert.pem");
    let mut env = ConfigLayer::blank();
    env.mysql_tls_mode = Some(TlsMode::Require);
    let opts = resolve(&LayerSource::Loaded(file), &LayerSource::Loaded(env)).unwrap();
    assert_eq!(opts.mysql.tls.mode, TlsMode::Require);
    assert_eq!(opts.mysql.tls.cert_path, "/etc/cert.pem");
    assert_eq!(opts.mysql.tls.key_path, "");
    assert_eq!(opts.postgres.tls.mode, TlsMode::Disable);
}

#[test]
fn unparsable_file_is_a_load_error() {
    let file = LayerSource::Unparsable { cause: "expected `=` at line 3".to_string() };
    match resolve(&file, &LayerSource::Absent) {
        Err(Error::ConfigLoad { cause }) => assert_eq!(cause, "expected `=` at line 3"),
        other => panic!("unexpected outcome: {:?}", other),
    }
}

#[test]
fn mistyped_value_is_a_format_error() {
    let env = LayerSource::Mistyped { cause: "http.timeout_secs: not a number".to_string() };
    match resolve(&LayerSource::Absent, &env) {
        Err(Error::ConfigFormat { cause }) => assert_eq!(cause, "http.timeout_secs: not a number"),
        other => panic!("unexpected outcome: {:?}", other),
    }
    let file = LayerSource::Mistyped { cause: "mysql.enable: not a boolean".to_string() };
    match resolve(&file, &LayerSource::Absent) {
        Err(Error::ConfigFormat { cause }) => assert_eq!(cause, "mysql.enable: not a boolean"),
        other => panic!("unexpected outcome: {:?}", other),
    }
}

#[test]
fn fault_of_the_file_comes_before_that_of_the_environment() {
    let file = LayerSource::Unparsable { cause: "file".to_string() };
    let env = LayerSource::Mistyped { cause: "env".to_string() };
    match resolve(&file, &env) {
        Err(Error::ConfigLoad { cause }) => assert_eq!(cause, "file"),
        other => panic!("unexpected outcome: {:?}", other),
    }
    let env = LayerSource::Unparsable { cause: "env".to_string() };
    match resolve(&LayerSource::Loaded(ConfigLayer::blank()), &env) {
        Err(Error::ConfigLoad { cause }) => assert_eq!(cause, "env"),
        other => panic!("unexpected outcome: {:?}", other),
    }
}

#[test]
fn source_fault_stops_load_options() {
    let mut cli = bare_command_line();
    cli.http_addr = text("0.0.0.0:1");
    let file = LayerSource::Unparsable { cause: "broken".to_string() };
    match cli.load_options(&file, &LayerSource::Absent) {
        Err(Error::ConfigLoad { cause }) => assert_eq!(cause, "broken"),
        other => panic!("unexpected outcome: {:?}", other),
    }
}

#[test]
fn command_line_wins_over_file_and_environment() {
    let mut file = ConfigLayer::blank();
    file.http_addr = text("0.0.0.0:5000");
    file.grpc_addr = text("0.0.0.0:5010");
    file.mysql_addr = text("0.0.0.0:5020");
    file.postgres_addr = text("0.0.0.0:5030");
    file.opentsdb_addr = text("0.0.0.0:5040");
    file.user_provider = text("from_file");
    let mut env = ConfigLayer::blank();
    env.http_addr = text("0.0.0.0:5001");
    env.grpc_addr = text("0.0.0.0:5011");
    env.user_provider = text("from_env");
    let mut cli = bare_command_line();
    cli.http_addr = text("0.0.0.0:6000");
    cli.rpc_addr = text("0.0.0.0:6010");
    cli.mysql_addr = text("0.0.0.0:6020");
    cli.postgres_addr = text("0.0.0.0:6030");
    cli.opentsdb_addr = text("0.0.0.0:6040");
    cli.user_provider = text("from_cli");

    let merged = resolve(&LayerSource::Loaded(file), &LayerSource::Loaded(env)).unwrap();
    let overridden = cli.apply_overrides(merged.clone());
    assert_eq!(overridden.http.addr, "0.0.0.0:6000");
    assert_eq!(overridden.grpc.addr, "0.0.0.0:6010");
    assert_eq!(overridden.mysql.addr, "0.0.0.0:6020");
    assert_eq!(overridden.postgres.addr, "0.0.0.0:6030");
    assert_eq!(overridden.opentsdb.addr, "0.0.0.0:6040");
    assert_eq!(overridden.user_provider, text("from_cli"));

    let mix = cli.validate_and_project(merged).unwrap();
    assert_eq!(mix.frontend.http.addr, "0.0.0.0:6000");
    assert_eq!(mix.frontend.grpc.addr, "0.0.0.0:6010");
    assert_eq!(mix.frontend.mysql.addr, "0.0.0.0:6020");
    assert_eq!(mix.frontend.postgres.addr, "0.0.0.0:6030");
    assert_eq!(mix.frontend.opentsdb.addr, "0.0.0.0:6040");
}

#[test]
fn command_line_wins_without_an_environment() {
    let mut file = ConfigLayer::blank();
    file.http_addr = text("0.0.0.0:5000");
    let mut cli = bare_command_line();
    cli.http_addr = text("0.0.0.0:6000");
    let mix = bundle(cli.load_options(&LayerSource::Loaded(file), &LayerSource::Absent).unwrap());
    assert_eq!(mix.frontend.http.addr, "0.0.0.0:6000");
}

#[test]
fn absent_flags_leave_the_sources_alone() {
    let mut file = ConfigLayer::blank();
    file.http_addr = text("0.0.0.0:5000");
    file.user_provider = text("from_file");
    file.influxdb_enable = Some(true);
    let merged = resolve(&LayerSource::Loaded(file), &LayerSource::Absent).unwrap();
    let overridden = bare_command_line().apply_overrides(merged);
    assert_eq!(overridden.http.addr, "0.0.0.0:5000");
    assert_eq!(overridden.user_provider, text("from_file"));
    assert!(overridden.influxdb.enable);
    assert_eq!(overridden.grpc.addr, "127.0.0.1:4001");
}

#[test]
fn mode_is_standalone_whatever_the_sources_say() {
    let mut file = ConfigLayer::blank();
    file.mode = Some(Mode::Distributed);
    let merged = resolve(&LayerSource::Loaded(file), &LayerSource::Absent).unwrap();
    assert_eq!(merged.mode, Mode::Distributed);
    let mix = bare_command_line().validate_and_project(merged).unwrap();
    assert_eq!(mix.frontend.mode, Mode::Standalone);
}

#[test]
fn influxdb_switch_turns_the_protocol_on() {
    let mut cli = bare_command_line();
    let off = bundle(cli.load_options(&LayerSource::Absent, &LayerSource::Absent).unwrap());
    assert!(!off.frontend.influxdb.enable);
    cli.influxdb_enable = true;
    let on = bundle(cli.load_options(&LayerSource::Absent, &LayerSource::Absent).unwrap());
    assert!(on.frontend.influxdb.enable);
    assert_eq!(on.frontend.http.addr, off.frontend.http.addr);
    assert_eq!(on.frontend.prom_store.enable, off.frontend.prom_store.enable);
    assert_eq!(on.datanode.storage.data_home, off.datanode.storage.data_home);
}

#[test]
fn rpc_address_of_the_datanode_is_refused() {
    let mut cli = bare_command_line();
    cli.rpc_addr = text("127.0.0.1:3001");
    match cli.load_options(&LayerSource::Absent, &LayerSource::Absent) {
        Err(Error::AddressConflict { frontend_addr, storage_addr }) => {
            assert_eq!(frontend_addr, "127.0.0.1:3001");
            assert_eq!(storage_addr, "127.0.0.1:3001");
        },
        other => panic!("unexpected outcome: {:?}", other),
    }
}

#[test]
fn rpc_conflict_is_refused_before_projection() {
    let mut cli = bare_command_line();
    cli.rpc_addr = text("127.0.0.1:3001");
    cli.http_addr = text("0.0.0.0:6000");
    let result = cli.validate_and_project(StandaloneOptions::default());
    assert!(matches!(result, Err(Error::AddressConflict { .. })));
}

#[test]
fn rpc_conflict_from_a_source_is_refused_too() {
    let mut file = ConfigLayer::blank();
    file.grpc_addr = text("127.0.0.1:3001");
    let cli = bare_command_line();
    let result = cli.load_options(&LayerSource::Loaded(file), &LayerSource::Absent);
    assert!(matches!(result, Err(Error::AddressConflict { .. })));
}

#[test]
fn command_line_can_lift_a_conflict_of_the_file() {
    let mut file = ConfigLayer::blank();
    file.grpc_addr = text("127.0.0.1:3001");
    let mut cli = bare_command_line();
    cli.rpc_addr = text("127.0.0.1:4101");
    let mix = bundle(cli.load_options(&LayerSource::Loaded(file), &LayerSource::Absent).unwrap());
    assert_eq!(mix.frontend.grpc.addr, "127.0.0.1:4101");
}

#[test]
fn other_rpc_addresses_are_accepted() {
    let mut cli = bare_command_line();
    cli.rpc_addr = text("127.0.0.1:3002");
    let mix = bundle(cli.load_options(&LayerSource::Absent, &LayerSource::Absent).unwrap());
    assert_eq!(mix.frontend.grpc.addr, "127.0.0.1:3002");
    assert_eq!(mix.datanode.rpc_addr, "127.0.0.1:3001");
}

#[test]
fn validate_accepts_what_has_no_conflict() {
    let valid = ValidatedConfig::validate(StandaloneOptions::default()).unwrap();
    assert_defaults(valid.options());
    let mix = valid.project();
    assert_eq!(mix.frontend.grpc.addr, "127.0.0.1:4001");
}

#[test]
fn validate_refuses_the_reserved_address() {
    let mut opts = StandaloneOptions::default();
    opts.grpc.addr = "127.0.0.1:3001".to_string();
    match ValidatedConfig::validate(opts) {
        Err(Error::AddressConflict { frontend_addr, storage_addr }) => {
            assert_eq!(frontend_addr, "127.0.0.1:3001");
            assert_eq!(storage_addr, "127.0.0.1:3001");
        },
        other => panic!("unexpected outcome: {:?}", other),
    }
}

#[test]
fn tls_new_fills_absent_parts_with_defaults() {
    let none = TlsOption::new(None, None, None);
    assert_eq!(none.mode, TlsMode::Disable);
    assert_eq!(none.cert_path, "");
    assert_eq!(none.key_path, "");
    let some = TlsOption::new(Some(TlsMode::VerifyCa), text("/c"), None);
    assert_eq!(some.mode, TlsMode::VerifyCa);
    assert_eq!(some.cert_path, "/c");
    assert_eq!(some.key_path, "");
    let all = TlsOption::new(Some(TlsMode::Prefer), text("/c"), text("/k"));
    assert_eq!(all.mode, TlsMode::Prefer);
    assert_eq!(all.cert_path, "/c");
    assert_eq!(all.key_path, "/k");
}

#[test]
fn tls_flags_reach_both_sql_listeners() {
    let mut cli = bare_command_line();
    cli.tls_mode = Some(TlsMode::Require);
    cli.tls_cert_path = text("/etc/cert.pem");
    cli.tls_key_path = text("/etc/key.pem");
    let mix = bundle(cli.load_options(&LayerSource::Absent, &LayerSource::Absent).unwrap());
    assert_eq!(mix.frontend.mysql.tls.mode, TlsMode::Require);
    assert_eq!(mix.frontend.mysql.tls.cert_path, "/etc/cert.pem");
    assert_eq!(mix.frontend.mysql.tls.key_path, "/etc/key.pem");
    assert_eq!(mix.frontend.postgres.tls.mode, TlsMode::Require);
    assert_eq!(mix.frontend.postgres.tls.cert_path, "/etc/cert.pem");
    assert_eq!(mix.frontend.postgres.tls.key_path, "/etc/key.pem");
    assert_eq!(mix.frontend.mysql.addr, "127.0.0.1:4002");
    assert_eq!(mix.frontend.postgres.addr, "127.0.0.1:4003");
}

#[test]
fn tls_flags_win_over_the_sources() {
    let mut file = ConfigLayer::blank();
    file.mysql_tls_mode = Some(TlsMode::Prefer);
    file.mysql_tls_cert_path = text("/file/cert.pem");
    file.postgres_tls_mode = Some(TlsMode::VerifyCa);
    let mut env = ConfigLayer::blank();
    env.mysql_tls_mode = Some(TlsMode::VerifyFull);
    let mut cli = bare_command_line();
    cli.tls_mode = Some(TlsMode::Require);
    let mix =
        bundle(cli.load_options(&LayerSource::Loaded(file), &LayerSource::Loaded(env)).unwrap());
    assert_eq!(mix.frontend.mysql.tls.mode, TlsMode::Require);
    assert_eq!(mix.frontend.postgres.tls.mode, TlsMode::Require);
    assert_eq!(mix.frontend.mysql.tls.cert_path, "/file/cert.pem");
    assert_eq!(mix.frontend.postgres.tls.cert_path, "");
    assert_eq!(mix.frontend.mysql.tls.key_path, "");
}

#[test]
fn listeners_keep_their_tls_settings_without_tls_flags() {
    let mut cli = bare_command_line();
    cli.mysql_addr = text("0.0.0.0:6020");
    cli.postgres_addr = text("0.0.0.0:6030");
    let mut file = ConfigLayer::blank();
    file.postgres_tls_mode = Some(TlsMode::Require);
    file.postgres_tls_cert_path = text("/etc/cert.pem");
    file.mysql_tls_mode = Some(TlsMode::Prefer);
    let mix = bundle(cli.load_options(&LayerSource::Loaded(file), &LayerSource::Absent).unwrap());
    assert_eq!(mix.frontend.mysql.addr, "0.0.0.0:6020");
    assert_eq!(mix.frontend.postgres.addr, "0.0.0.0:6030");
    assert_eq!(mix.frontend.postgres.tls.mode, TlsMode::Require);
    assert_eq!(mix.frontend.postgres.tls.cert_path, "/etc/cert.pem");
    assert_eq!(mix.frontend.mysql.tls.mode, TlsMode::Prefer);
}

#[test]
fn tls_overlay_replaces_the_given_parts() {
    let base = TlsOption::new(Some(TlsMode::Prefer), text("/c"), text("/k"));
    let same = base.clone().overlay(&None, &None, &None);
    assert_eq!(same.mode, TlsMode::Prefer);
    assert_eq!(same.cert_path, "/c");
    assert_eq!(same.key_path, "/k");
    let changed = base.overlay(&Some(TlsMode::VerifyFull), &None, &text("/other"));
    assert_eq!(changed.mode, TlsMode::VerifyFull);
    assert_eq!(changed.cert_path, "/c");
    assert_eq!(changed.key_path, "/other");
}

#[test]
fn projection_splits_the_configuration() {
    let mut file = ConfigLayer::blank();
    file.storage_data_home = text("/var/lib/engram/");
    file.wal_dir = text("/var/lib/engram/wal");
    file.wal_sync_write = Some(true);
    file.procedure_max_retry_times = Some(7);
    file.metadata_store_purge_threshold_bytes = Some(1024);
    file.logging_dir = text("/var/log/engram");
    file.prom_store_enable = Some(false);
    let cli = bare_command_line();
    let mix = bundle(cli.load_options(&LayerSource::Loaded(file), &LayerSource::Absent).unwrap());
    assert_eq!(mix.data_home, "/var/lib/engram/");
    assert_eq!(mix.datanode.storage.data_home, "/var/lib/engram/");
    assert_eq!(mix.datanode.wal.dir, text("/var/lib/engram/wal"));
    assert!(mix.datanode.wal.sync_write);
    assert_eq!(mix.datanode.node_id, Some(0));
    assert_eq!(mix.datanode.rpc_addr, "127.0.0.1:3001");
    assert_eq!(mix.procedure.max_retry_times, 7);
    assert_eq!(mix.metadata_store.purge_threshold_bytes, 1024);
    assert_eq!(mix.logging.dir, "/var/log/engram");
    assert!(!mix.frontend.prom_store.enable);
    assert!(mix.frontend.meta_client.is_none());
}

#[test]
fn bundle_does_not_share_with_its_inputs() {
    let mut file = ConfigLayer::blank();
    file.http_addr = text("0.0.0.0:5000");
    let source = LayerSource::Loaded(file);
    let cli = bare_command_line();
    let mut first = bundle(cli.load_options(&source, &LayerSource::Absent).unwrap());
    first.frontend.http.addr.push_str("0");
    first.data_home.push_str("moved");
    let second = bundle(cli.load_options(&source, &LayerSource::Absent).unwrap());
    assert_eq!(second.frontend.http.addr, "0.0.0.0:5000");
    assert_eq!(second.data_home, "/tmp/engram/");
    assert_eq!(second.datanode.storage.data_home, "/tmp/engram/");
    assert_eq!(first.datanode.storage.data_home, "/tmp/engram/");
}

#[test]
fn clones_are_equal_and_independent() {
    let mut cli = bare_command_line();
    cli.http_addr = text("0.0.0.0:6000");
    cli.tls_mode = Some(TlsMode::Prefer);
    let copy = cli.clone();
    assert_eq!(copy.http_addr, cli.http_addr);
    assert_eq!(copy.tls_mode, cli.tls_mode);
    assert_eq!(copy.rpc_addr, None);

    let opts = StandaloneOptions::default();
    let mut other = opts.clone();
    assert_defaults(&other);
    other.http.addr.push_str("0");
    assert_defaults(&opts);

    let mix = bundle(cli.load_options(&LayerSource::Absent, &LayerSource::Absent).unwrap());
    let twin = mix.clone();
    assert_eq!(twin.frontend.http.addr, "0.0.0.0:6000");
    assert_eq!(twin.data_home, mix.data_home);
    assert_eq!(twin.datanode.rpc_addr, mix.datanode.rpc_addr);
    assert_eq!(twin.logging.dir, mix.logging.dir);
}

#[test]
fn environment_variables_share_one_prefix() {
    assert_eq!(env_prefix(), "ENGRAM_");
}

#[test]
fn layer_source_applies_to_any_base() {
    let mut base = StandaloneOptions::default();
    base.http.addr = "0.0.0.0:1".to_string();
    let kept = LayerSource::Absent.apply(base.clone()).unwrap();
    assert_eq!(kept.http.addr, "0.0.0.0:1");
    let mut layer = ConfigLayer::blank();
    layer.grpc_addr = text("0.0.0.0:2");
    let merged = LayerSource::Loaded(layer).apply(base.clone()).unwrap();
    assert_eq!(merged.http.addr, "0.0.0.0:1");
    assert_eq!(merged.grpc.addr, "0.0.0.0:2");
    let broken = LayerSource::Unparsable { cause: "x".to_string() };
    assert!(matches!(broken.apply(base), Err(Error::ConfigLoad { .. })));
}
