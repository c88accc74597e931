//! What holds of every message that is sent to the runtime.
pub mod base64;
pub mod blocks;
pub mod boundary;
pub mod calls;
pub mod conversions;
pub mod crypto;
pub mod database;
pub mod exchanges;
pub mod host;
pub mod memory;
pub mod metadata;
pub mod names;
pub mod network;
pub mod numbers;
pub mod operations;
pub mod replies;
pub mod routing;
pub mod storage;
pub mod terms;
pub mod values;

use std::time::Instant;
use vstd::prelude::*;

use crate::command::{Command, CryptoCommand, DatabaseCommand};
use crate::context::{
    cancellation, clock_may_read, deadline_reached, flag_may_read, flag_was_raised,
    found_cancelled, instant_rank, sent, RuntimeContext,
};
use crate::dispatch::{
    dispatched, invalid, logger_line, performed, planned, resumed_database, resumed_network,
    unavailable,
};
use crate::json::parsed_object;
use crate::services::crypto::{CryptoError, CryptoOutcome};
use crate::services::database::DatabaseCall;
use crate::services::network::RequestView;
use crate::services::{Configured, ServiceCallView};
use crate::step::{crypto_reply, StepView};
use crate::text::{after_prefix, utf8_lossy};
use crate::types::{MessageView, ResultView};

verus! {

/// A kind that begins with `svc.` is `svc.` and the name of its command.
proof fn kind_is_prefix_and_name(kind: Seq<char>)
    requires
        after_prefix(kind, "svc."@) is Some,
    ensures
        kind == "svc."@ + after_prefix(kind, "svc."@)->0,
{
    let name = after_prefix(kind, "svc."@)->0;
    assert(kind =~= "svc."@ + name);
}

/// Without platform services every service message is refused.
pub proof fn service_messages_need_services(context: RuntimeContext, msg: MessageView)
    requires
        context.platform_services is None,
        after_prefix(msg.kind, "svc."@) is Some,
    ensures
        sent(context, msg) == unavailable("platform services not configured"@),
{
}

/// A command for a service that is not configured is refused, whatever the
/// message holds, and the refusal names the service.
pub proof fn unconfigured_services_refuse(
    configured: Configured,
    node_config: Map<Seq<char>, Seq<char>>,
    svc_kind: Seq<char>,
    msg: MessageView,
)
    ensures
        Command::named(svc_kind) is Database && !configured.database ==> planned(
            configured,
            node_config,
            svc_kind,
            msg,
        ) == unavailable("database service not configured"@),
        Command::named(svc_kind) is Storage && !configured.storage ==> planned(
            configured,
            node_config,
            svc_kind,
            msg,
        ) == unavailable("storage service not configured"@),
        Command::named(svc_kind) is Crypto && !configured.crypto ==> planned(
            configured,
            node_config,
            svc_kind,
            msg,
        ) == unavailable("crypto service not configured"@),
        Command::named(svc_kind) is NetworkDo && !configured.network ==> planned(
            configured,
            node_config,
            svc_kind,
            msg,
        ) == unavailable("network service not configured"@),
        Command::named(svc_kind) is ConfigSet && !configured.config ==> planned(
            configured,
            node_config,
            svc_kind,
            msg,
        ) == unavailable("config service not configured"@),
{
}

/// A command that leads to a call leads to one of its own service, and of one
/// that is configured.
pub proof fn commands_call_their_own_service(
    configured: Configured,
    node_config: Map<Seq<char>, Seq<char>>,
    svc_kind: Seq<char>,
    msg: MessageView,
)
    requires
        planned(configured, node_config, svc_kind, msg) is Call,
    ensures
        match planned(configured, node_config, svc_kind, msg)->Call_0 {
            ServiceCallView::Database(_) => configured.database && Command::named(svc_kind)
                is Database,
            ServiceCallView::Storage(_) => configured.storage && Command::named(svc_kind)
                is Storage,
            ServiceCallView::Crypto(_) => configured.crypto && Command::named(svc_kind) is Crypto,
            ServiceCallView::Network(_) => false,
            ServiceCallView::Config(_) => configured.config && (Command::named(svc_kind)
                is ConfigGet || Command::named(svc_kind) is ConfigSet),
        },
{
}

/// A service message with a command that is none is refused, and the refusal
/// names the kind of the message.
pub proof fn unknown_commands_are_refused(context: RuntimeContext, msg: MessageView)
    requires
        context.platform_services is Some,
        after_prefix(msg.kind, "svc."@) is Some,
        Command::named(after_prefix(msg.kind, "svc."@)->0) is Unknown,
    ensures
        sent(context, msg) == unavailable("unknown service capability: "@ + msg.kind),
{
    kind_is_prefix_and_name(msg.kind);
    let name = after_prefix(msg.kind, "svc."@)->0;
    reveal_strlit("unknown service capability: svc.");
    reveal_strlit("unknown service capability: ");
    reveal_strlit("svc.");
    assert("unknown service capability: svc."@ =~= "unknown service capability: "@ + "svc."@);
    assert("unknown service capability: svc."@ + name =~= "unknown service capability: "@
        + msg.kind);
}

/// Without a configuration service, looking up a key through the services gives
/// what looking it up in the node configuration gives.
pub proof fn node_configuration_stands_in(context: RuntimeContext, msg: MessageView)
    requires
        context.platform_services is Some,
        context.platform_services->0.config is None,
    ensures
        sent(context, (MessageView { kind: "svc.config.get"@, ..msg })) == sent(
            context,
            (MessageView { kind: "config.get"@, ..msg }),
        ),
{
    let kind = "svc.config.get"@;
    reveal_strlit("svc.config.get");
    reveal_strlit("svc.");
    reveal_strlit("config.get");
    reveal_strlit("log");
    assert(kind.take(4) =~= "svc."@);
    assert(kind.skip(4) =~= "config.get"@);
    assert(after_prefix(kind, "svc."@) == Some("config.get"@));
    assert("config.get"@[0] != "svc."@[0]);
    assert("config.get"@.take(4)[0] != "svc."@[0]);
    assert(after_prefix("config.get"@, "svc."@) is None);
    assert("config.get"@.len() != "log"@.len());
    config_get_is_its_own_command();
}

/// `config.get` names the look-up of a key.
proof fn config_get_is_its_own_command()
    ensures
        Command::named("config.get"@) is ConfigGet,
{
    let name = "config.get"@;
    reveal_strlit("config.get");
    reveal_strlit("database.get");
    reveal_strlit("database.list");
    reveal_strlit("database.create");
    reveal_strlit("database.update");
    reveal_strlit("database.delete");
    reveal_strlit("database.count");
    reveal_strlit("database.query_raw");
    reveal_strlit("database.exec_raw");
    reveal_strlit("storage.put");
    reveal_strlit("storage.get");
    reveal_strlit("storage.delete");
    reveal_strlit("storage.list");
    reveal_strlit("crypto.hash");
    reveal_strlit("crypto.compare_hash");
    reveal_strlit("crypto.sign");
    reveal_strlit("crypto.verify");
    reveal_strlit("crypto.random_bytes");
    reveal_strlit("network.do");
    reveal_strlit("logger.");
    assert(name.len() == 10);
    assert("crypto.sign"@.len() == 11);
    assert("network.do"@[0] == 'n');
    assert("logger."@[0] == 'l');
    assert(name[0] == 'c');
    assert(name.take(7)[0] == 'c');
}

/// Whatever level a log command names, it is logged and the chain goes on.
pub proof fn log_commands_are_logged(
    context: RuntimeContext,
    level: Seq<char>,
    msg: MessageView,
)
    requires
        context.platform_services is Some,
    ensures
        dispatched(context, "logger."@ + level, msg) == StepView::Log(
            logger_line(level, utf8_lossy(msg.data)),
        ),
{
    let name = "logger."@ + level;
    reveal_strlit("logger.");
    assert(name.take(7) =~= "logger."@);
    assert(name.skip(7) =~= level);
    assert(name[0] == 'l');
    no_other_command_begins_with_l(name);
}

/// No command for the database, the storage, the cryptography or the network
/// begins with the letter of the log commands.
proof fn no_other_command_begins_with_l(name: Seq<char>)
    requires
        name.len() > 0,
        name[0] == 'l',
        after_prefix(name, "logger."@) is Some,
    ensures
        Command::named(name) is Logger,
{
    reveal_strlit("database.get");
    reveal_strlit("database.list");
    reveal_strlit("database.create");
    reveal_strlit("database.update");
    reveal_strlit("database.delete");
    reveal_strlit("database.count");
    reveal_strlit("database.query_raw");
    reveal_strlit("database.exec_raw");
    reveal_strlit("storage.put");
    reveal_strlit("storage.get");
    reveal_strlit("storage.delete");
    reveal_strlit("storage.list");
    reveal_strlit("crypto.hash");
    reveal_strlit("crypto.compare_hash");
    reveal_strlit("crypto.sign");
    reveal_strlit("crypto.verify");
    reveal_strlit("crypto.random_bytes");
    reveal_strlit("network.do");
    assert("database.get"@[0] == 'd');
    assert("database.list"@[0] == 'd');
    assert("database.create"@[0] == 'd');
    assert("database.update"@[0] == 'd');
    assert("database.delete"@[0] == 'd');
    assert("database.count"@[0] == 'd');
    assert("database.query_raw"@[0] == 'd');
    assert("database.exec_raw"@[0] == 'd');
    assert("storage.put"@[0] == 's');
    assert("storage.get"@[0] == 's');
    assert("storage.delete"@[0] == 's');
    assert("storage.list"@[0] == 's');
    assert("crypto.hash"@[0] == 'c');
    assert("crypto.compare_hash"@[0] == 'c');
    assert("crypto.sign"@[0] == 'c');
    assert("crypto.verify"@[0] == 'c');
    assert("crypto.random_bytes"@[0] == 'c');
    assert("network.do"@[0] == 'n');
}

/// A record or claims that cannot be read are refused as an invalid argument,
/// and the refusal says why: no service is called.
pub proof fn unreadable_objects_are_refused(
    configured: Configured,
    node_config: Map<Seq<char>, Seq<char>>,
    svc_kind: Seq<char>,
    msg: MessageView,
)
    requires
        parsed_object(msg.data) is Err,
    ensures
        configured.database && (Command::named(svc_kind) == Command::Database(
            DatabaseCommand::Create,
        ) || Command::named(svc_kind) == Command::Database(DatabaseCommand::Update)) ==> planned(
            configured,
            node_config,
            svc_kind,
            msg,
        ) == invalid("invalid record data: "@, parsed_object(msg.data)->Err_0),
        configured.crypto && Command::named(svc_kind) == Command::Crypto(CryptoCommand::Sign)
            ==> planned(configured, node_config, svc_kind, msg) == invalid(
            "invalid claims JSON: "@,
            parsed_object(msg.data)->Err_0,
        ),
{
}

/// Bytes that were to be read before the database or the network could be called
/// and that cannot be read are refused as an invalid argument: no service is
/// called.
pub proof fn unreadable_bytes_are_refused(
    context: RuntimeContext,
    text: Seq<char>,
    complaint: Seq<char>,
)
    requires
        context.platform_services is Some,
    ensures
        context.platform_services->0.database is Some ==> resumed_database(
            context,
            Err(text),
            complaint,
        ) == invalid(complaint, text),
        context.platform_services->0.network is Some ==> resumed_network(context, Err(text))
            == invalid("invalid network request: "@, text),
{
}

/// A message has bytes to be read at most once: what follows is a result or a
/// call.
pub proof fn reading_is_asked_for_once(
    context: RuntimeContext,
    call: Result<DatabaseCall, Seq<char>>,
    request: Result<RequestView, Seq<char>>,
    complaint: Seq<char>,
)
    ensures
        resumed_database(context, call, complaint) is Done || resumed_database(
            context,
            call,
            complaint,
        ) is Call,
        resumed_network(context, request) is Done || resumed_network(context, request) is Call,
{
}

/// A message leads to at most one call: what follows it is a result, or a value
/// to answer with.
pub proof fn one_call_answers(context: RuntimeContext, call: ServiceCallView, step: StepView)
    requires
        performed(context, call, step),
    ensures
        step is Done || step is Encode,
{
}

/// A password that does not match its hash is no error: the chain goes on. Any
/// other failure of a comparison is one.
pub proof fn mismatch_is_no_error(error: CryptoError)
    ensures
        crypto_reply(CryptoOutcome::Nothing(Err(error))) == (if error is PasswordMismatch {
            StepView::Done(ResultView::go_on())
        } else {
            StepView::failed("internal"@, error.text())
        }),
{
}

/// A context is cancelled exactly if its flag is raised or its deadline is
/// reached. The flag is raised where the deadline alone is the reason, and never
/// without a deadline, so afterwards it stands as the answer says.
pub proof fn flag_or_deadline_cancels(flag: bool, deadline: Option<Instant>, now: Instant)
    ensures
        cancellation(flag, deadline_reached(deadline, now)).0 <==> flag || (deadline is Some
            && instant_rank(now) >= instant_rank(deadline->0)),
        cancellation(flag, deadline_reached(deadline, now)).1 ==> deadline is Some && !flag,
        (flag || cancellation(flag, deadline_reached(deadline, now)).1) == cancellation(
            flag,
            deadline_reached(deadline, now),
        ).0,
{
}

/// A context that is asked reads its own flag and the clock, and says that it is
/// cancelled exactly if the flag was raised or its deadline was reached by then.
/// Where the deadline alone was the reason it raised its flag.
pub proof fn contexts_read_their_flag_and_the_clock(context: RuntimeContext, r: bool)
    requires
        found_cancelled(context, r),
    ensures
        exists|flag: bool, now: Instant| #[trigger]
            flag_may_read(*context.cancelled, flag) && #[trigger] clock_may_read(now) && {
                &&& r <==> flag || (context.deadline is Some && instant_rank(now) >= instant_rank(
                    context.deadline->0,
                ))
                &&& r && !flag ==> exists|was: bool| #[trigger]
                    flag_was_raised(*context.cancelled, was)
            },
{
    let (flag, now) = choose|flag: bool, now: Instant|
        flag_may_read(*context.cancelled, flag) && clock_may_read(now) && r == (
        #[trigger] cancellation(flag, deadline_reached(context.deadline, now))).0 && (cancellation(
            flag,
            deadline_reached(context.deadline, now),
        ).1 ==> exists|was: bool| #[trigger] flag_was_raised(*context.cancelled, was));
    flag_or_deadline_cancels(flag, context.deadline, now);
    assert(flag_may_read(*context.cancelled, flag) && clock_may_read(now));
}

/// A context that was found to be cancelled stays so: its flag is raised from
/// then on, and a raised flag is enough, whatever the clock says.
pub proof fn cancellation_lasts(flag: bool, reached: Option<bool>, later: Option<bool>)
    requires
        cancellation(flag, reached).0,
    ensures
        flag || cancellation(flag, reached).1,
        cancellation(flag || cancellation(flag, reached).1, later).0,
{
}

} // verus!
