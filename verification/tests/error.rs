use cmd::error::Error;

fn cause() -> String {
    "disk full".to_string()
}

#[test]
fn conflict_message_names_both_addresses() {
    let error = Error::AddressConflict {
        frontend_addr: "127.0.0.1:3001".to_string(),
        storage_addr: "127.0.0.1:3001".to_string(),
    };
    assert_eq!(
        error.message(),
        "gRPC listen address 127.0.0.1:3001 conflicts with datanode reserved gRPC addr: 127.0.0.1:3001"
    );
}

#[test]
fn directory_message_names_the_directory() {
    let error = Error::StorageDir { dir: "/data".to_string(), cause: cause() };
    assert_eq!(error.message(), "failed to create directory /data: disk full");
}

#[test]
fn configuration_messages() {
    assert_eq!(
        Error::ConfigLoad { cause: cause() }.message(),
        "failed to load configuration: disk full"
    );
    assert_eq!(
        Error::ConfigFormat { cause: cause() }.message(),
        "invalid configuration value: disk full"
    );
}

#[test]
fn stage_messages() {
    assert_eq!(
        Error::MetadataInit { cause: cause() }.message(),
        "failed to set up the metadata store: disk full"
    );
    assert_eq!(
        Error::StorageBuild { cause: cause() }.message(),
        "failed to build the datanode: disk full"
    );
    assert_eq!(
        Error::CatalogInit { cause: cause() }.message(),
        "failed to set up the catalog: disk full"
    );
    assert_eq!(
        Error::FrontendBuild { cause: cause() }.message(),
        "failed to build the frontend: disk full"
    );
    assert_eq!(
        Error::ServerWire { cause: cause() }.message(),
        "failed to prepare the frontend servers: disk full"
    );
    assert_eq!(
        Error::StorageStart { cause: cause() }.message(),
        "failed to start the datanode: disk full"
    );
    assert_eq!(
        Error::ProcedureStart { cause: cause() }.message(),
        "failed to start the procedure manager: disk full"
    );
    assert_eq!(
        Error::FrontendStart { cause: cause() }.message(),
        "failed to start the frontend: disk full"
    );
}
