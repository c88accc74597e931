//! The platform services that a runtime offers to its blocks.
//!
//! Each service is a trait for platforms to implement. What a service answers
//! is up to the platform, so every trait has a relation `may_answer` between
//! a call and an outcome: its methods promise no more than that what they
//! return is related to what they were asked. A platform can narrow the relation
//! down; one that does not may answer anything.
pub mod config;
pub mod crypto;
pub mod database;
pub mod logger;
pub mod network;
pub mod storage;

use std::sync::Arc;
use vstd::prelude::*;

use crate::services::config::{ConfigCall, ConfigRequest, ConfigService};
use crate::services::crypto::{CryptoCall, CryptoRequest, CryptoService};
use crate::services::database::{DatabaseCall, DatabaseRequest, DatabaseService};
use crate::services::logger::LoggerService;
use crate::services::network::{NetworkService, Request, RequestView};
use crate::services::storage::{StorageCall, StorageRequest, StorageService};

verus! {

/// The services that a platform has configured.
pub struct Services {
    pub database: Option<Arc<dyn DatabaseService>>,
    pub storage: Option<Arc<dyn StorageService>>,
    pub logger: Option<Arc<dyn LoggerService>>,
    pub crypto: Option<Arc<dyn CryptoService>>,
    pub config: Option<Arc<dyn ConfigService>>,
    pub network: Option<Arc<dyn NetworkService>>,
}

impl Default for Services {
    /// No service is configured.
    fn default() -> (r: Self)
        ensures
            r.database is None,
            r.storage is None,
            r.logger is None,
            r.crypto is None,
            r.config is None,
            r.network is None,
    {
        Services {
            database: None,
            storage: None,
            logger: None,
            crypto: None,
            config: None,
            network: None,
        }
    }
}

/// Which of the services that take commands are configured.
#[derive(Debug, Clone, Copy, PartialEq, Eq, Structural)]
pub struct Configured {
    pub database: bool,
    pub storage: bool,
    pub crypto: bool,
    pub config: bool,
    pub network: bool,
}

/// Which of the services that take commands are configured.
pub open spec fn configured(services: Services) -> Configured {
    Configured {
        database: services.database is Some,
        storage: services.storage is Some,
        crypto: services.crypto is Some,
        config: services.config is Some,
        network: services.network is Some,
    }
}

impl Services {
    /// Which of the services that take commands are configured.
    pub fn configured(&self) -> (r: Configured)
        ensures
            r == configured(*self),
    {
        Configured {
            database: self.database.is_some(),
            storage: self.storage.is_some(),
            crypto: self.crypto.is_some(),
            config: self.config.is_some(),
            network: self.network.is_some(),
        }
    }
}

/// A call of one of the services.
#[derive(Debug)]
pub enum ServiceCall {
    Database(DatabaseRequest),
    Storage(StorageRequest),
    Crypto(CryptoRequest),
    Network(Request),
    Config(ConfigRequest),
}

/// A call of one of the services, by what it is asked.
pub ghost enum ServiceCallView {
    Database(DatabaseCall),
    Storage(StorageCall),
    Crypto(CryptoCall),
    Network(RequestView),
    Config(ConfigCall),
}

impl View for ServiceCall {
    type V = ServiceCallView;

    open spec fn view(&self) -> ServiceCallView {
        match *self {
            ServiceCall::Database(request) => ServiceCallView::Database(request@),
            ServiceCall::Storage(request) => ServiceCallView::Storage(request@),
            ServiceCall::Crypto(request) => ServiceCallView::Crypto(request@),
            ServiceCall::Network(request) => ServiceCallView::Network(request@),
            ServiceCall::Config(request) => ServiceCallView::Config(request@),
        }
    }
}

} // verus!
