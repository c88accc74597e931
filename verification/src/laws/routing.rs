//! Where a message goes, and what is refused.
use vstd::prelude::*;
use vstd::utf8::encode_utf8;

use crate::context::{sent, RuntimeContext};
use crate::laws::names::{
    crypto_names, database_names, kind_is_prefix_and_name, kinds_are_prefix_and_name,
    logger_names, no_other_names, other_names, storage_names,
};
use crate::laws::terms::{
    has_config, has_crypto, has_database, has_network, has_storage, is_error, is_response,
    stands_under,
};
use crate::services::config::ConfigCall;
use crate::services::ServiceCallView;
use crate::step::{Severity, StepView};
use crate::text::{after_prefix, utf8_lossy};
use crate::types::MessageView;

verus! {

/// A log message is logged as information, with the level that it names and the
/// text of its bytes, whatever the platform has.
pub proof fn log_messages_are_logged(context: RuntimeContext, msg: MessageView)
    requires
        msg.kind == "log"@,
    ensures
        sent(context, msg) matches StepView::Log(line) && line.severity == Severity::Info
            && line.level is Some && stands_under(msg, "level"@, line.level->0) && line.message
            == utf8_lossy(msg.data),
{
    reveal_strlit("log");
    reveal_strlit("svc.");
    assert("svc."@.len() > "log"@.len());
    assert(after_prefix(msg.kind, "svc."@) is None);
}

/// A key is looked up in the node configuration: the value is answered with, and
/// a key that has none is not found.
pub proof fn keys_are_looked_up_in_the_node_configuration(
    context: RuntimeContext,
    msg: MessageView,
    key: Seq<char>,
)
    requires
        msg.kind == "config.get"@ || (msg.kind == "svc.config.get"@ && context.platform_services
            is Some && !has_config(context)),
        stands_under(msg, "key"@, key),
    ensures
        context.config@.contains_key(key) ==> is_response(
            sent(context, msg),
            encode_utf8(context.config@[key]),
        ),
        !context.config@.contains_key(key) ==> is_error(
            sent(context, msg),
            "not_found"@,
            "config key not found: "@ + key,
        ),
{
    reveal_strlit("config.get");
    reveal_strlit("svc.");
    reveal_strlit("log");
    kinds_are_prefix_and_name();
    other_names();
    assert(msg.get_meta("key"@) =~= key);
    if msg.kind == "config.get"@ {
        assert("config.get"@[0] != "svc."@[0]);
        assert(!"svc."@.is_prefix_of("config.get"@));
        assert("config.get"@.len() != "log"@.len());
    } else {
        kind_is_prefix_and_name(msg.kind, "config.get"@);
    }
}

/// With a configuration service a key is read there, and written there with the
/// text of the message's bytes.
pub proof fn keys_are_read_and_written_at_the_service(
    context: RuntimeContext,
    msg: MessageView,
    key: Seq<char>,
)
    requires
        has_config(context),
        stands_under(msg, "key"@, key),
    ensures
        msg.kind == "svc.config.get"@ ==> sent(context, msg) == StepView::Call(
            ServiceCallView::Config(ConfigCall::Read { key }),
        ),
        msg.kind == "svc.config.set"@ ==> sent(context, msg) == StepView::Call(
            ServiceCallView::Config(ConfigCall::Write { key, value: utf8_lossy(msg.data) }),
        ),
{
    kinds_are_prefix_and_name();
    other_names();
    assert(msg.get_meta("key"@) =~= key);
    if msg.kind == "svc.config.get"@ {
        kind_is_prefix_and_name(msg.kind, "config.get"@);
    }
    if msg.kind == "svc.config.set"@ {
        kind_is_prefix_and_name(msg.kind, "config.set"@);
    }
}

/// Log commands are logged with the text of the message's bytes. The four levels
/// give the severity; any other is shown beside information.
pub proof fn log_commands_have_four_levels(
    context: RuntimeContext,
    msg: MessageView,
    level: Seq<char>,
)
    requires
        context.platform_services is Some,
        msg.kind == "svc."@ + ("logger."@ + level),
    ensures
        sent(context, msg) matches StepView::Log(line) && {
            &&& line.message == utf8_lossy(msg.data)
            &&& level == "debug"@ ==> line.severity == Severity::Debug && line.level is None
            &&& level == "info"@ ==> line.severity == Severity::Info && line.level is None
            &&& level == "warn"@ ==> line.severity == Severity::Warn && line.level is None
            &&& level == "error"@ ==> line.severity == Severity::Error && line.level is None
            &&& level != "debug"@ && level != "info"@ && level != "warn"@ && level != "error"@
                ==> line.severity == Severity::Info && line.level == Some(level)
        },
{
    kind_is_prefix_and_name(msg.kind, "logger."@ + level);
    logger_names(level);
    reveal_strlit("debug");
    reveal_strlit("info");
    reveal_strlit("warn");
    reveal_strlit("error");
    assert("debug"@[0] != "error"@[0]);
    assert("info"@[0] != "warn"@[0]);
    assert("debug"@.len() != "info"@.len());
    assert("error"@.len() != "info"@.len());
}

/// A kind that is none of the runtime's own and no service message is refused by
/// its name.
pub proof fn other_kinds_are_refused(context: RuntimeContext, msg: MessageView)
    requires
        !"svc."@.is_prefix_of(msg.kind),
        msg.kind != "log"@,
        msg.kind != "config.get"@,
    ensures
        is_error(sent(context, msg), "unavailable"@, "unknown capability: "@ + msg.kind),
{
}

/// Without a platform every service message is refused.
pub proof fn services_need_a_platform(context: RuntimeContext, msg: MessageView)
    requires
        "svc."@.is_prefix_of(msg.kind),
        context.platform_services is None,
    ensures
        is_error(sent(context, msg), "unavailable"@, "platform services not configured"@),
{
}

/// A service message that names no command is refused by its kind.
pub proof fn other_commands_are_refused(
    context: RuntimeContext,
    msg: MessageView,
    name: Seq<char>,
)
    requires
        context.platform_services is Some,
        msg.kind == "svc."@ + name,
        name != "database.get"@,
        name != "database.list"@,
        name != "database.create"@,
        name != "database.update"@,
        name != "database.delete"@,
        name != "database.count"@,
        name != "database.query_raw"@,
        name != "database.exec_raw"@,
        name != "storage.put"@,
        name != "storage.get"@,
        name != "storage.delete"@,
        name != "storage.list"@,
        name != "crypto.hash"@,
        name != "crypto.compare_hash"@,
        name != "crypto.sign"@,
        name != "crypto.verify"@,
        name != "crypto.random_bytes"@,
        name != "network.do"@,
        name != "config.get"@,
        name != "config.set"@,
        !"logger."@.is_prefix_of(name),
    ensures
        is_error(
            sent(context, msg),
            "unavailable"@,
            "unknown service capability: "@ + msg.kind,
        ),
{
    kind_is_prefix_and_name(msg.kind, name);
    no_other_names(name);
    reveal_strlit("unknown service capability: svc.");
    reveal_strlit("unknown service capability: ");
    reveal_strlit("svc.");
    assert("unknown service capability: svc."@ =~= "unknown service capability: "@ + "svc."@);
    assert("unknown service capability: svc."@ + name =~= "unknown service capability: "@
        + msg.kind);
}

/// Whether a message is a command for the database.
pub open spec fn is_for_database(msg: MessageView) -> bool {
    ||| msg.kind == "svc.database.get"@
    ||| msg.kind == "svc.database.list"@
    ||| msg.kind == "svc.database.create"@
    ||| msg.kind == "svc.database.update"@
    ||| msg.kind == "svc.database.delete"@
    ||| msg.kind == "svc.database.count"@
    ||| msg.kind == "svc.database.query_raw"@
    ||| msg.kind == "svc.database.exec_raw"@
}

/// Whether a message is a command for the storage.
pub open spec fn is_for_storage(msg: MessageView) -> bool {
    ||| msg.kind == "svc.storage.put"@
    ||| msg.kind == "svc.storage.get"@
    ||| msg.kind == "svc.storage.delete"@
    ||| msg.kind == "svc.storage.list"@
}

/// Whether a message is a command for the cryptography.
pub open spec fn is_for_crypto(msg: MessageView) -> bool {
    ||| msg.kind == "svc.crypto.hash"@
    ||| msg.kind == "svc.crypto.compare_hash"@
    ||| msg.kind == "svc.crypto.sign"@
    ||| msg.kind == "svc.crypto.verify"@
    ||| msg.kind == "svc.crypto.random_bytes"@
}

/// A command for a service that the platform does not have is refused, whatever
/// the message holds, and the refusal names the service.
pub proof fn missing_services_are_named(context: RuntimeContext, msg: MessageView)
    requires
        context.platform_services is Some,
    ensures
        is_for_database(msg) && !has_database(context) ==> is_error(
            sent(context, msg),
            "unavailable"@,
            "database service not configured"@,
        ),
        is_for_storage(msg) && !has_storage(context) ==> is_error(
            sent(context, msg),
            "unavailable"@,
            "storage service not configured"@,
        ),
        is_for_crypto(msg) && !has_crypto(context) ==> is_error(
            sent(context, msg),
            "unavailable"@,
            "crypto service not configured"@,
        ),
        msg.kind == "svc.network.do"@ && !has_network(context) ==> is_error(
            sent(context, msg),
            "unavailable"@,
            "network service not configured"@,
        ),
        msg.kind == "svc.config.set"@ && !has_config(context) ==> is_error(
            sent(context, msg),
            "unavailable"@,
            "config service not configured"@,
        ),
{
    kinds_are_prefix_and_name();
    database_names();
    storage_names();
    crypto_names();
    other_names();
    kind_is_prefix_and_name(msg.kind, "database.get"@);
    kind_is_prefix_and_name(msg.kind, "database.list"@);
    kind_is_prefix_and_name(msg.kind, "database.create"@);
    kind_is_prefix_and_name(msg.kind, "database.update"@);
    kind_is_prefix_and_name(msg.kind, "database.delete"@);
    kind_is_prefix_and_name(msg.kind, "database.count"@);
    kind_is_prefix_and_name(msg.kind, "database.query_raw"@);
    kind_is_prefix_and_name(msg.kind, "database.exec_raw"@);
    kind_is_prefix_and_name(msg.kind, "storage.put"@);
    kind_is_prefix_and_name(msg.kind, "storage.get"@);
    kind_is_prefix_and_name(msg.kind, "storage.delete"@);
    kind_is_prefix_and_name(msg.kind, "storage.list"@);
    kind_is_prefix_and_name(msg.kind, "crypto.hash"@);
    kind_is_prefix_and_name(msg.kind, "crypto.compare_hash"@);
    kind_is_prefix_and_name(msg.kind, "crypto.sign"@);
    kind_is_prefix_and_name(msg.kind, "crypto.verify"@);
    kind_is_prefix_and_name(msg.kind, "crypto.random_bytes"@);
    kind_is_prefix_and_name(msg.kind, "network.do"@);
    kind_is_prefix_and_name(msg.kind, "config.set"@);
}

} // verus!
