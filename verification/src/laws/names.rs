//! The names of the commands.
use vstd::prelude::*;

use crate::command::{Command, CryptoCommand, DatabaseCommand, StorageCommand};
use crate::text::after_prefix;

verus! {

/// The kind of a service message is `svc.` and the name of its command.
pub proof fn kind_is_prefix_and_name(kind: Seq<char>, name: Seq<char>)
    ensures
        after_prefix(kind, "svc."@) == Some(name) <==> kind == "svc."@ + name,
{
    let prefix = "svc."@;
    if kind == prefix + name {
        assert(prefix.is_prefix_of(kind));
        assert(kind.skip(prefix.len() as int) =~= name);
    }
    if after_prefix(kind, prefix) == Some(name) {
        assert(kind =~= prefix + name);
    }
}

/// The names of the commands for the database.
pub proof fn database_names()
    ensures
        Command::named("database.get"@) == Command::Database(DatabaseCommand::Get),
        Command::named("database.list"@) == Command::Database(DatabaseCommand::List),
        Command::named("database.create"@) == Command::Database(DatabaseCommand::Create),
        Command::named("database.update"@) == Command::Database(DatabaseCommand::Update),
        Command::named("database.delete"@) == Command::Database(DatabaseCommand::Delete),
        Command::named("database.count"@) == Command::Database(DatabaseCommand::Count),
        Command::named("database.query_raw"@) == Command::Database(DatabaseCommand::QueryRaw),
        Command::named("database.exec_raw"@) == Command::Database(DatabaseCommand::ExecRaw),
{
    reveal_strlit("database.get");
    reveal_strlit("database.list");
    reveal_strlit("database.create");
    reveal_strlit("database.update");
    reveal_strlit("database.delete");
    reveal_strlit("database.count");
    reveal_strlit("database.query_raw");
    reveal_strlit("database.exec_raw");
    reveal_strlit("storage.put");
    reveal_strlit("storage.get");
    reveal_strlit("storage.delete");
    reveal_strlit("storage.list");
    reveal_strlit("crypto.hash");
    reveal_strlit("crypto.compare_hash");
    reveal_strlit("crypto.sign");
    reveal_strlit("crypto.verify");
    reveal_strlit("crypto.random_bytes");
    reveal_strlit("network.do");
    reveal_strlit("config.get");
    reveal_strlit("config.set");
    reveal_strlit("logger.");
    assert("database.update"@[9] != "database.create"@[9]);
    assert("database.delete"@[9] != "database.create"@[9]);
    assert("database.delete"@[9] != "database.update"@[9]);
}

/// The names of the commands for the storage.
pub proof fn storage_names()
    ensures
        Command::named("storage.put"@) == Command::Storage(StorageCommand::Put),
        Command::named("storage.get"@) == Command::Storage(StorageCommand::Get),
        Command::named("storage.delete"@) == Command::Storage(StorageCommand::Delete),
        Command::named("storage.list"@) == Command::Storage(StorageCommand::List),
{
    reveal_strlit("database.get");
    reveal_strlit("database.list");
    reveal_strlit("database.create");
    reveal_strlit("database.update");
    reveal_strlit("database.delete");
    reveal_strlit("database.count");
    reveal_strlit("database.query_raw");
    reveal_strlit("database.exec_raw");
    reveal_strlit("storage.put");
    reveal_strlit("storage.get");
    reveal_strlit("storage.delete");
    reveal_strlit("storage.list");
    reveal_strlit("crypto.hash");
    reveal_strlit("crypto.compare_hash");
    reveal_strlit("crypto.sign");
    reveal_strlit("crypto.verify");
    reveal_strlit("crypto.random_bytes");
    reveal_strlit("network.do");
    reveal_strlit("config.get");
    reveal_strlit("config.set");
    reveal_strlit("logger.");
    assert("storage.get"@[8] != "storage.put"@[8]);
    assert("storage.delete"@[0] != "database.count"@[0]);
    assert("storage.list"@[0] != "database.get"@[0]);
}

/// The names of the commands for the cryptography.
pub proof fn crypto_names()
    ensures
        Command::named("crypto.hash"@) == Command::Crypto(CryptoCommand::Hash),
        Command::named("crypto.compare_hash"@) == Command::Crypto(CryptoCommand::CompareHash),
        Command::named("crypto.sign"@) == Command::Crypto(CryptoCommand::Sign),
        Command::named("crypto.verify"@) == Command::Crypto(CryptoCommand::Verify),
        Command::named("crypto.random_bytes"@) == Command::Crypto(CryptoCommand::RandomBytes),
{
    reveal_strlit("database.get");
    reveal_strlit("database.list");
    reveal_strlit("database.create");
    reveal_strlit("database.update");
    reveal_strlit("database.delete");
    reveal_strlit("database.count");
    reveal_strlit("database.query_raw");
    reveal_strlit("database.exec_raw");
    reveal_strlit("storage.put");
    reveal_strlit("storage.get");
    reveal_strlit("storage.delete");
    reveal_strlit("storage.list");
    reveal_strlit("crypto.hash");
    reveal_strlit("crypto.compare_hash");
    reveal_strlit("crypto.sign");
    reveal_strlit("crypto.verify");
    reveal_strlit("crypto.random_bytes");
    reveal_strlit("network.do");
    reveal_strlit("config.get");
    reveal_strlit("config.set");
    reveal_strlit("logger.");
    assert("crypto.hash"@[0] != "storage.put"@[0]);
    assert("crypto.hash"@[0] != "storage.get"@[0]);
    assert("crypto.sign"@[0] != "storage.put"@[0]);
    assert("crypto.sign"@[0] != "storage.get"@[0]);
    assert("crypto.sign"@[7] != "crypto.hash"@[7]);
    assert("crypto.verify"@[0] != "database.list"@[0]);
    assert("crypto.random_bytes"@[7] != "crypto.compare_hash"@[7]);
}

/// The names of the commands for the network and the configuration.
pub proof fn other_names()
    ensures
        Command::named("network.do"@) == Command::NetworkDo,
        Command::named("config.get"@) == Command::ConfigGet,
        Command::named("config.set"@) == Command::ConfigSet,
{
    reveal_strlit("database.get");
    reveal_strlit("database.list");
    reveal_strlit("database.create");
    reveal_strlit("database.update");
    reveal_strlit("database.delete");
    reveal_strlit("database.count");
    reveal_strlit("database.query_raw");
    reveal_strlit("database.exec_raw");
    reveal_strlit("storage.put");
    reveal_strlit("storage.get");
    reveal_strlit("storage.delete");
    reveal_strlit("storage.list");
    reveal_strlit("crypto.hash");
    reveal_strlit("crypto.compare_hash");
    reveal_strlit("crypto.sign");
    reveal_strlit("crypto.verify");
    reveal_strlit("crypto.random_bytes");
    reveal_strlit("network.do");
    reveal_strlit("config.get");
    reveal_strlit("config.set");
    reveal_strlit("logger.");
    assert("config.get"@[0] != "network.do"@[0]);
    assert("config.get"@[0] != "logger."@[0]);
    assert("config.set"@[0] != "network.do"@[0]);
    assert("config.set"@[7] != "config.get"@[7]);
    assert("config.set"@[0] != "logger."@[0]);
}

/// Every other name is that of no command, unless it begins with `logger.`.
pub proof fn no_other_names(name: Seq<char>)
    requires
        name != "database.get"@,
        name != "database.list"@,
        name != "database.create"@,
        name != "database.update"@,
        name != "database.delete"@,
        name != "database.count"@,
        name != "database.query_raw"@,
        name != "database.exec_raw"@,
        name != "storage.put"@,
        name != "storage.get"@,
        name != "storage.delete"@,
        name != "storage.list"@,
        name != "crypto.hash"@,
        name != "crypto.compare_hash"@,
        name != "crypto.sign"@,
        name != "crypto.verify"@,
        name != "crypto.random_bytes"@,
        name != "network.do"@,
        name != "config.get"@,
        name != "config.set"@,
        !"logger."@.is_prefix_of(name),
    ensures
        Command::named(name) is Unknown,
{
}

/// Every name that begins with `logger.` is that of a log command.
pub proof fn logger_names(level: Seq<char>)
    ensures
        Command::named("logger."@ + level) is Logger,
        after_prefix("logger."@ + level, "logger."@) == Some(level),
{
    let name = "logger."@ + level;
    reveal_strlit("logger.");
    assert("logger."@.is_prefix_of(name));
    assert(name.skip(7) =~= level);
    assert(name[0] == 'l');
    reveal_strlit("database.get");
    assert("database.get"@[0] != 'l');
    reveal_strlit("database.list");
    assert("database.list"@[0] != 'l');
    reveal_strlit("database.create");
    assert("database.create"@[0] != 'l');
    reveal_strlit("database.update");
    assert("database.update"@[0] != 'l');
    reveal_strlit("database.delete");
    assert("database.delete"@[0] != 'l');
    reveal_strlit("database.count");
    assert("database.count"@[0] != 'l');
    reveal_strlit("database.query_raw");
    assert("database.query_raw"@[0] != 'l');
    reveal_strlit("database.exec_raw");
    assert("database.exec_raw"@[0] != 'l');
    reveal_strlit("storage.put");
    assert("storage.put"@[0] != 'l');
    reveal_strlit("storage.get");
    assert("storage.get"@[0] != 'l');
    reveal_strlit("storage.delete");
    assert("storage.delete"@[0] != 'l');
    reveal_strlit("storage.list");
    assert("storage.list"@[0] != 'l');
    reveal_strlit("crypto.hash");
    assert("crypto.hash"@[0] != 'l');
    reveal_strlit("crypto.compare_hash");
    assert("crypto.compare_hash"@[0] != 'l');
    reveal_strlit("crypto.sign");
    assert("crypto.sign"@[0] != 'l');
    reveal_strlit("crypto.verify");
    assert("crypto.verify"@[0] != 'l');
    reveal_strlit("crypto.random_bytes");
    assert("crypto.random_bytes"@[0] != 'l');
    reveal_strlit("network.do");
    assert("network.do"@[0] != 'l');
}

/// The kind of a service message, written out.
pub proof fn kinds_are_prefix_and_name()
    ensures
        "svc.database.get"@ == "svc."@ + "database.get"@,
        "svc.database.list"@ == "svc."@ + "database.list"@,
        "svc.database.create"@ == "svc."@ + "database.create"@,
        "svc.database.update"@ == "svc."@ + "database.update"@,
        "svc.database.delete"@ == "svc."@ + "database.delete"@,
        "svc.database.count"@ == "svc."@ + "database.count"@,
        "svc.database.query_raw"@ == "svc."@ + "database.query_raw"@,
        "svc.database.exec_raw"@ == "svc."@ + "database.exec_raw"@,
        "svc.storage.put"@ == "svc."@ + "storage.put"@,
        "svc.storage.get"@ == "svc."@ + "storage.get"@,
        "svc.storage.delete"@ == "svc."@ + "storage.delete"@,
        "svc.storage.list"@ == "svc."@ + "storage.list"@,
        "svc.crypto.hash"@ == "svc."@ + "crypto.hash"@,
        "svc.crypto.compare_hash"@ == "svc."@ + "crypto.compare_hash"@,
        "svc.crypto.sign"@ == "svc."@ + "crypto.sign"@,
        "svc.crypto.verify"@ == "svc."@ + "crypto.verify"@,
        "svc.crypto.random_bytes"@ == "svc."@ + "crypto.random_bytes"@,
        "svc.network.do"@ == "svc."@ + "network.do"@,
        "svc.config.get"@ == "svc."@ + "config.get"@,
        "svc.config.set"@ == "svc."@ + "config.set"@,
{
    reveal_strlit("svc.");
    reveal_strlit("svc.database.get");
    reveal_strlit("database.get");
    assert("svc.database.get"@ =~= "svc."@ + "database.get"@);
    reveal_strlit("svc.database.list");
    reveal_strlit("database.list");
    assert("svc.database.list"@ =~= "svc."@ + "database.list"@);
    reveal_strlit("svc.database.create");
    reveal_strlit("database.create");
    assert("svc.database.create"@ =~= "svc."@ + "database.create"@);
    reveal_strlit("svc.database.update");
    reveal_strlit("database.update");
    assert("svc.database.update"@ =~= "svc."@ + "database.update"@);
    reveal_strlit("svc.database.delete");
    reveal_strlit("database.delete");
    assert("svc.database.delete"@ =~= "svc."@ + "database.delete"@);
    reveal_strlit("svc.database.count");
    reveal_strlit("database.count");
    assert("svc.database.count"@ =~= "svc."@ + "database.count"@);
    reveal_strlit("svc.database.query_raw");
    reveal_strlit("database.query_raw");
    assert("svc.database.query_raw"@ =~= "svc."@ + "database.query_raw"@);
    reveal_strlit("svc.database.exec_raw");
    reveal_strlit("database.exec_raw");
    assert("svc.database.exec_raw"@ =~= "svc."@ + "database.exec_raw"@);
    reveal_strlit("svc.storage.put");
    reveal_strlit("storage.put");
    assert("svc.storage.put"@ =~= "svc."@ + "storage.put"@);
    reveal_strlit("svc.storage.get");
    reveal_strlit("storage.get");
    assert("svc.storage.get"@ =~= "svc."@ + "storage.get"@);
    reveal_strlit("svc.storage.delete");
    reveal_strlit("storage.delete");
    assert("svc.storage.delete"@ =~= "svc."@ + "storage.delete"@);
    reveal_strlit("svc.storage.list");
    reveal_strlit("storage.list");
    assert("svc.storage.list"@ =~= "svc."@ + "storage.list"@);
    reveal_strlit("svc.crypto.hash");
    reveal_strlit("crypto.hash");
    assert("svc.crypto.hash"@ =~= "svc."@ + "crypto.hash"@);
    reveal_strlit("svc.crypto.compare_hash");
    reveal_strlit("crypto.compare_hash");
    assert("svc.crypto.compare_hash"@ =~= "svc."@ + "crypto.compare_hash"@);
    reveal_strlit("svc.crypto.sign");
    reveal_strlit("crypto.sign");
    assert("svc.crypto.sign"@ =~= "svc."@ + "crypto.sign"@);
    reveal_strlit("svc.crypto.verify");
    reveal_strlit("crypto.verify");
    assert("svc.crypto.verify"@ =~= "svc."@ + "crypto.verify"@);
    reveal_strlit("svc.crypto.random_bytes");
    reveal_strlit("crypto.random_bytes");
    assert("svc.crypto.random_bytes"@ =~= "svc."@ + "crypto.random_bytes"@);
    reveal_strlit("svc.network.do");
    reveal_strlit("network.do");
    assert("svc.network.do"@ =~= "svc."@ + "network.do"@);
    reveal_strlit("svc.config.get");
    reveal_strlit("config.get");
    assert("svc.config.get"@ =~= "svc."@ + "config.get"@);
    reveal_strlit("svc.config.set");
    reveal_strlit("config.set");
    assert("svc.config.set"@ =~= "svc."@ + "config.set"@);
}

} // verus!
