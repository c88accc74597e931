//! The commands that a guest can give to the platform services.
use vstd::prelude::*;

use crate::text::{after_prefix, strip_prefix, text_eq};

verus! {

/// A command for the database.
#[derive(Debug, Clone, Copy, PartialEq, Eq, Structural)]
pub enum DatabaseCommand {
    Get,
    List,
    Create,
    Update,
    Delete,
    Count,
    QueryRaw,
    ExecRaw,
}

/// A command for the storage.
#[derive(Debug, Clone, Copy, PartialEq, Eq, Structural)]
pub enum StorageCommand {
    Put,
    Get,
    Delete,
    List,
}

/// A command for the cryptography.
#[derive(Debug, Clone, Copy, PartialEq, Eq, Structural)]
pub enum CryptoCommand {
    Hash,
    CompareHash,
    Sign,
    Verify,
    RandomBytes,
}

/// A command for a platform service.
#[derive(Debug, Clone, Copy, PartialEq, Eq, Structural)]
pub enum Command {
    Database(DatabaseCommand),
    Storage(StorageCommand),
    Crypto(CryptoCommand),
    NetworkDo,
    Logger,
    ConfigGet,
    ConfigSet,
    Unknown,
}

impl DatabaseCommand {
    /// The command of a name.
    pub open spec fn named(name: Seq<char>) -> Option<Self> {
        if name == "database.get"@ {
            Some(DatabaseCommand::Get)
        } else if name == "database.list"@ {
            Some(DatabaseCommand::List)
        } else if name == "database.create"@ {
            Some(DatabaseCommand::Create)
        } else if name == "database.update"@ {
            Some(DatabaseCommand::Update)
        } else if name == "database.delete"@ {
            Some(DatabaseCommand::Delete)
        } else if name == "database.count"@ {
            Some(DatabaseCommand::Count)
        } else if name == "database.query_raw"@ {
            Some(DatabaseCommand::QueryRaw)
        } else if name == "database.exec_raw"@ {
            Some(DatabaseCommand::ExecRaw)
        } else {
            None
        }
    }

    /// The command of a name.
    pub fn parse(name: &str) -> (r: Option<Self>)
        ensures
            r == DatabaseCommand::named(name@),
    {
        if text_eq(name, "database.get") {
            Some(DatabaseCommand::Get)
        } else if text_eq(name, "database.list") {
            Some(DatabaseCommand::List)
        } else if text_eq(name, "database.create") {
            Some(DatabaseCommand::Create)
        } else if text_eq(name, "database.update") {
            Some(DatabaseCommand::Update)
        } else if text_eq(name, "database.delete") {
            Some(DatabaseCommand::Delete)
        } else if text_eq(name, "database.count") {
            Some(DatabaseCommand::Count)
        } else if text_eq(name, "database.query_raw") {
            Some(DatabaseCommand::QueryRaw)
        } else if text_eq(name, "database.exec_raw") {
            Some(DatabaseCommand::ExecRaw)
        } else {
            None
        }
    }
}

impl StorageCommand {
    /// The command of a name.
    pub open spec fn named(name: Seq<char>) -> Option<Self> {
        if name == "storage.put"@ {
            Some(StorageCommand::Put)
        } else if name == "storage.get"@ {
            Some(StorageCommand::Get)
        } else if name == "storage.delete"@ {
            Some(StorageCommand::Delete)
        } else if name == "storage.list"@ {
            Some(StorageCommand::List)
        } else {
            None
        }
    }

    /// The command of a name.
    pub fn parse(name: &str) -> (r: Option<Self>)
        ensures
            r == StorageCommand::named(name@),
    {
        if text_eq(name, "storage.put") {
            Some(StorageCommand::Put)
        } else if text_eq(name, "storage.get") {
            Some(StorageCommand::Get)
        } else if text_eq(name, "storage.delete") {
            Some(StorageCommand::Delete)
        } else if text_eq(name, "storage.list") {
            Some(StorageCommand::List)
        } else {
            None
        }
    }
}

impl CryptoCommand {
    /// The command of a name.
    pub open spec fn named(name: Seq<char>) -> Option<Self> {
        if name == "crypto.hash"@ {
            Some(CryptoCommand::Hash)
        } else if name == "crypto.compare_hash"@ {
            Some(CryptoCommand::CompareHash)
        } else if name == "crypto.sign"@ {
            Some(CryptoCommand::Sign)
        } else if name == "crypto.verify"@ {
            Some(CryptoCommand::Verify)
        } else if name == "crypto.random_bytes"@ {
            Some(CryptoCommand::RandomBytes)
        } else {
            None
        }
    }

    /// The command of a name.
    pub fn parse(name: &str) -> (r: Option<Self>)
        ensures
            r == CryptoCommand::named(name@),
    {
        if text_eq(name, "crypto.hash") {
            Some(CryptoCommand::Hash)
        } else if text_eq(name, "crypto.compare_hash") {
            Some(CryptoCommand::CompareHash)
        } else if text_eq(name, "crypto.sign") {
            Some(CryptoCommand::Sign)
        } else if text_eq(name, "crypto.verify") {
            Some(CryptoCommand::Verify)
        } else if text_eq(name, "crypto.random_bytes") {
            Some(CryptoCommand::RandomBytes)
        } else {
            None
        }
    }
}

impl Command {
    /// The command of a name. Every name with the prefix `logger.` is a log
    /// command.
    pub open spec fn named(name: Seq<char>) -> Self {
        if DatabaseCommand::named(name) is Some {
            Command::Database(DatabaseCommand::named(name)->0)
        } else if StorageCommand::named(name) is Some {
            Command::Storage(StorageCommand::named(name)->0)
        } else if CryptoCommand::named(name) is Some {
            Command::Crypto(CryptoCommand::named(name)->0)
        } else if name == "network.do"@ {
            Command::NetworkDo
        } else if after_prefix(name, "logger."@) is Some {
            Command::Logger
        } else if name == "config.get"@ {
            Command::ConfigGet
        } else if name == "config.set"@ {
            Command::ConfigSet
        } else {
            Command::Unknown
        }
    }

    /// The command of a name.
    pub fn parse(name: &str) -> (r: Self)
        ensures
            r == Command::named(name@),
    {
        if let Some(command) = DatabaseCommand::parse(name) {
            Command::Database(command)
        } else if let Some(command) = StorageCommand::parse(name) {
            Command::Storage(command)
        } else if let Some(command) = CryptoCommand::parse(name) {
            Command::Crypto(command)
        } else if text_eq(name, "network.do") {
            Command::NetworkDo
        } else if strip_prefix(name, "logger.").is_some() {
            Command::Logger
        } else if text_eq(name, "config.get") {
            Command::ConfigGet
        } else if text_eq(name, "config.set") {
            Command::ConfigSet
        } else {
            Command::Unknown
        }
    }
}

} // verus!
