//! Everything that can end a launch: configuration faults and the failure of
//! one start-up stage.

use vstd::prelude::*;
use vstd::string::StringExecFns;

verus! {

/// Why a launch was given up. Each variant carries what is needed to log one
/// actionable message: the offending path or address and the underlying cause.
#[derive(Debug)]
pub enum Error {
    /// The configuration file exists but could not be parsed.
    ConfigLoad { cause: String },
    /// A configured value does not have the type its field declares.
    ConfigFormat { cause: String },
    /// The frontend would listen on the address reserved for the storage tier.
    AddressConflict { frontend_addr: String, storage_addr: String },
    /// The data directory could not be created.
    StorageDir { dir: String, cause: String },
    /// The metadata store or the procedure manager could not be set up.
    MetadataInit { cause: String },
    /// The storage tier could not be built.
    StorageBuild { cause: String },
    /// The catalog could not be set up over the metadata store.
    CatalogInit { cause: String },
    /// The frontend instance could not be built.
    FrontendBuild { cause: String },
    /// The frontend could not prepare its listeners.
    ServerWire { cause: String },
    /// The storage tier did not start.
    StorageStart { cause: String },
    /// The procedure manager did not start.
    ProcedureStart { cause: String },
    /// The frontend did not start.
    FrontendStart { cause: String },
}

/// Mathematical model of an [`Error`].
pub enum ErrorView {
    ConfigLoad { cause: Seq<char> },
    ConfigFormat { cause: Seq<char> },
    AddressConflict { frontend_addr: Seq<char>, storage_addr: Seq<char> },
    StorageDir { dir: Seq<char>, cause: Seq<char> },
    MetadataInit { cause: Seq<char> },
    StorageBuild { cause: Seq<char> },
    CatalogInit { cause: Seq<char> },
    FrontendBuild { cause: Seq<char> },
    ServerWire { cause: Seq<char> },
    StorageStart { cause: Seq<char> },
    ProcedureStart { cause: Seq<char> },
    FrontendStart { cause: Seq<char> },
}

impl View for Error {
    type V = ErrorView;

    open spec fn view(&self) -> ErrorView {
        match *self {
            Error::ConfigLoad { cause } => ErrorView::ConfigLoad { cause: cause@ },
            Error::ConfigFormat { cause } => ErrorView::ConfigFormat { cause: cause@ },
            Error::AddressConflict { frontend_addr, storage_addr } => ErrorView::AddressConflict {
                frontend_addr: frontend_addr@,
                storage_addr: storage_addr@,
            },
            Error::StorageDir { dir, cause } => ErrorView::StorageDir { dir: dir@, cause: cause@ },
            Error::MetadataInit { cause } => ErrorView::MetadataInit { cause: cause@ },
            Error::StorageBuild { cause } => ErrorView::StorageBuild { cause: cause@ },
            Error::CatalogInit { cause } => ErrorView::CatalogInit { cause: cause@ },
            Error::FrontendBuild { cause } => ErrorView::FrontendBuild { cause: cause@ },
            Error::ServerWire { cause } => ErrorView::ServerWire { cause: cause@ },
            Error::StorageStart { cause } => ErrorView::StorageStart { cause: cause@ },
            Error::ProcedureStart { cause } => ErrorView::ProcedureStart { cause: cause@ },
            Error::FrontendStart { cause } => ErrorView::FrontendStart { cause: cause@ },
        }
    }
}

impl ErrorView {
    /// The text that introduces the cause in the message of this error.
    pub open spec fn headline(self) -> Seq<char> {
        match self {
            ErrorView::ConfigLoad { .. } => "failed to load configuration: "@,
            ErrorView::ConfigFormat { .. } => "invalid configuration value: "@,
            ErrorView::AddressConflict { frontend_addr, .. } => "gRPC listen address "@
                + frontend_addr + " conflicts with datanode reserved gRPC addr: "@,
            ErrorView::StorageDir { dir, .. } => "failed to create directory "@ + dir + ": "@,
            ErrorView::MetadataInit { .. } => "failed to set up the metadata store: "@,
            ErrorView::StorageBuild { .. } => "failed to build the datanode: "@,
            ErrorView::CatalogInit { .. } => "failed to set up the catalog: "@,
            ErrorView::FrontendBuild { .. } => "failed to build the frontend: "@,
            ErrorView::ServerWire { .. } => "failed to prepare the frontend servers: "@,
            ErrorView::StorageStart { .. } => "failed to start the datanode: "@,
            ErrorView::ProcedureStart { .. } => "failed to start the procedure manager: "@,
            ErrorView::FrontendStart { .. } => "failed to start the frontend: "@,
        }
    }

    /// What the message ends with: the reserved address for a conflict, the
    /// cause otherwise.
    pub open spec fn detail(self) -> Seq<char> {
        match self {
            ErrorView::ConfigLoad { cause } => cause,
            ErrorView::ConfigFormat { cause } => cause,
            ErrorView::AddressConflict { storage_addr, .. } => storage_addr,
            ErrorView::StorageDir { cause, .. } => cause,
            ErrorView::MetadataInit { cause } => cause,
            ErrorView::StorageBuild { cause } => cause,
            ErrorView::CatalogInit { cause } => cause,
            ErrorView::FrontendBuild { cause } => cause,
            ErrorView::ServerWire { cause } => cause,
            ErrorView::StorageStart { cause } => cause,
            ErrorView::ProcedureStart { cause } => cause,
            ErrorView::FrontendStart { cause } => cause,
        }
    }

    /// The whole message: headline, then detail.
    pub open spec fn message(self) -> Seq<char> {
        self.headline() + self.detail()
    }
}

/// `head` followed by `tail`.
fn joined(head: &str, tail: &String) -> (r: String)
    ensures
        r@ == head@ + tail@,
{
    let mut text = String::from_str(head);
    text.append(tail.as_str());
    text
}

impl Error {
    /// One line that says what failed and why.
    pub fn message(&self) -> (r: String)
        ensures
            r@ == self@.message(),
    {
        match self {
            Error::ConfigLoad { cause } => joined("failed to load configuration: ", cause),
            Error::ConfigFormat { cause } => joined("invalid configuration value: ", cause),
            Error::AddressConflict { frontend_addr, storage_addr } => {
                let mut text = joined("gRPC listen address ", frontend_addr);
                text.append(" conflicts with datanode reserved gRPC addr: ");
                text.append(storage_addr.as_str());
                text
            },
            Error::StorageDir { dir, cause } => {
                let mut text = joined("failed to create directory ", dir);
                text.append(": ");
                text.append(cause.as_str());
                text
            },
            Error::MetadataInit { cause } => joined("failed to set up the metadata store: ", cause),
            Error::StorageBuild { cause } => joined("failed to build the datanode: ", cause),
            Error::CatalogInit { cause } => joined("failed to set up the catalog: ", cause),
            Error::FrontendBuild { cause } => joined("failed to build the frontend: ", cause),
            Error::ServerWire { cause } => joined("failed to prepare the frontend servers: ", cause),
            Error::StorageStart { cause } => joined("failed to start the datanode: ", cause),
            Error::ProcedureStart { cause } => joined(
                "failed to start the procedure manager: ",
                cause,
            ),
            Error::FrontendStart { cause } => joined("failed to start the frontend: ", cause),
        }
    }
}

} // verus!
