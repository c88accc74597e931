//! What the commands for the database do.
use vstd::prelude::*;

use crate::context::{sent, RuntimeContext};
use crate::dispatch::resumed_database;
use crate::json::parsed_object;
use crate::laws::names::{database_names, kind_is_prefix_and_name, kinds_are_prefix_and_name};
use crate::laws::terms::{has_database, is_error, stands_under};
use crate::services::database::{DatabaseCall, FilterOp};
use crate::services::ServiceCallView;
use crate::step::{DecodeView, StepView};
use crate::types::MessageView;
use crate::wire::{filter_op, filters_meaning, WireFilter, WireListOptions};

verus! {

/// What the kind of a database message is the name of.
proof fn routes(msg: MessageView, name: Seq<char>)
    requires
        msg.kind == "svc."@ + name,
    ensures
        crate::text::after_prefix(msg.kind, "svc."@) == Some(name),
{
    kind_is_prefix_and_name(msg.kind, name);
}

/// Getting and deleting a record hand over the collection and the id of the
/// message.
pub proof fn records_are_named_by_collection_and_id(context: RuntimeContext, msg: MessageView)
    requires
        has_database(context),
    ensures
        msg.kind == "svc.database.get"@ ==> (sent(context, msg) matches StepView::Call(
            ServiceCallView::Database(DatabaseCall::Get { collection, id }),
        ) && stands_under(msg, "collection"@, collection) && stands_under(msg, "id"@, id)),
        msg.kind == "svc.database.delete"@ ==> (sent(context, msg) matches StepView::Call(
            ServiceCallView::Database(DatabaseCall::Delete { collection, id }),
        ) && stands_under(msg, "collection"@, collection) && stands_under(msg, "id"@, id)),
{
    kinds_are_prefix_and_name();
    database_names();
    if msg.kind == "svc.database.get"@ {
        routes(msg, "database.get"@);
    }
    if msg.kind == "svc.database.delete"@ {
        routes(msg, "database.delete"@);
    }
}

/// Creating and updating a record hand over the fields that the bytes of the
/// message hold, all of them and unchanged, with its collection and its id.
/// Bytes that hold no object are refused, with the reason.
pub proof fn records_are_written_as_given(context: RuntimeContext, msg: MessageView)
    requires
        has_database(context),
    ensures
        msg.kind == "svc.database.create"@ && parsed_object(msg.data) is Ok ==> (sent(
            context,
            msg,
        ) matches StepView::Call(
            ServiceCallView::Database(DatabaseCall::Create { collection, data }),
        ) && stands_under(msg, "collection"@, collection) && data == parsed_object(
            msg.data,
        )->Ok_0),
        msg.kind == "svc.database.update"@ && parsed_object(msg.data) is Ok ==> (sent(
            context,
            msg,
        ) matches StepView::Call(
            ServiceCallView::Database(DatabaseCall::Update { collection, id, data }),
        ) && stands_under(msg, "collection"@, collection) && stands_under(msg, "id"@, id) && data
            == parsed_object(msg.data)->Ok_0),
        (msg.kind == "svc.database.create"@ || msg.kind == "svc.database.update"@)
            && parsed_object(msg.data) is Err ==> is_error(
            sent(context, msg),
            "invalid_argument"@,
            "invalid record data: "@ + parsed_object(msg.data)->Err_0,
        ),
{
    kinds_are_prefix_and_name();
    database_names();
    if msg.kind == "svc.database.create"@ {
        routes(msg, "database.create"@);
    }
    if msg.kind == "svc.database.update"@ {
        routes(msg, "database.update"@);
    }
}

/// Without any bytes a collection is listed and counted whole: no filter, no
/// order, no bounds. Bytes are read first, for the collection of the message.
pub proof fn listing_without_bytes_is_unbounded(context: RuntimeContext, msg: MessageView)
    requires
        has_database(context),
    ensures
        msg.kind == "svc.database.list"@ && msg.data.len() == 0 ==> (sent(
            context,
            msg,
        ) matches StepView::Call(
            ServiceCallView::Database(DatabaseCall::List { collection, options }),
        ) && stands_under(msg, "collection"@, collection) && options.filters.len() == 0
            && options.sort.len() == 0 && options.limit == 0 && options.offset == 0),
        msg.kind == "svc.database.list"@ && msg.data.len() > 0 ==> (sent(
            context,
            msg,
        ) matches StepView::Decode(DecodeView::ListOptions { collection }) && stands_under(
            msg,
            "collection"@,
            collection,
        )),
        msg.kind == "svc.database.count"@ && msg.data.len() == 0 ==> (sent(
            context,
            msg,
        ) matches StepView::Call(
            ServiceCallView::Database(DatabaseCall::Count { collection, filters }),
        ) && stands_under(msg, "collection"@, collection) && filters.len() == 0),
        msg.kind == "svc.database.count"@ && msg.data.len() > 0 ==> (sent(
            context,
            msg,
        ) matches StepView::Decode(DecodeView::Filters { collection }) && stands_under(
            msg,
            "collection"@,
            collection,
        )),
{
    kinds_are_prefix_and_name();
    database_names();
    if msg.kind == "svc.database.list"@ {
        routes(msg, "database.list"@);
    }
    if msg.kind == "svc.database.count"@ {
        routes(msg, "database.count"@);
    }
}

/// A raw query and a raw statement are read from the bytes of the message, a
/// query as a query and a statement as a statement.
pub proof fn raw_commands_are_read_first(context: RuntimeContext, msg: MessageView)
    requires
        has_database(context),
    ensures
        msg.kind == "svc.database.query_raw"@ ==> sent(context, msg) == StepView::Decode(
            DecodeView::Query,
        ),
        msg.kind == "svc.database.exec_raw"@ ==> sent(context, msg) == StepView::Decode(
            DecodeView::Statement,
        ),
{
    kinds_are_prefix_and_name();
    database_names();
    if msg.kind == "svc.database.query_raw"@ {
        routes(msg, "database.query_raw"@);
    }
    if msg.kind == "svc.database.exec_raw"@ {
        routes(msg, "database.exec_raw"@);
    }
}

/// What was read is what the database is asked, to the last argument: the call
/// is handed out as it is. What could not be read is refused, with the reason.
pub proof fn what_was_read_is_asked(
    context: RuntimeContext,
    call: DatabaseCall,
    complaint: Seq<char>,
    text: Seq<char>,
)
    requires
        has_database(context),
    ensures
        resumed_database(context, Ok(call), complaint) == StepView::Call(
            ServiceCallView::Database(call),
        ),
        is_error(
            resumed_database(context, Err(text), complaint),
            "invalid_argument"@,
            complaint + text,
        ),
{
}

/// A query and a statement reach the database with their own text, and with their
/// arguments one by one in the order in which they were written.
pub proof fn arguments_keep_their_order(
    context: RuntimeContext,
    query: Seq<char>,
    args: Seq<serde_json::Value>,
    complaint: Seq<char>,
    i: int,
)
    requires
        has_database(context),
        0 <= i < args.len(),
    ensures
        resumed_database(
            context,
            Ok(DatabaseCall::QueryRaw { query, args }),
            complaint,
        ) matches StepView::Call(
            ServiceCallView::Database(DatabaseCall::QueryRaw { query: q, args: a }),
        ) && q == query && a.len() == args.len() && a[i] == args[i],
        resumed_database(
            context,
            Ok(DatabaseCall::ExecRaw { query, args }),
            complaint,
        ) matches StepView::Call(
            ServiceCallView::Database(DatabaseCall::ExecRaw { query: q, args: a }),
        ) && q == query && a.len() == args.len() && a[i] == args[i],
{
}

/// Without a database, or without any platform, what was read is refused.
pub proof fn reading_is_no_use_without_a_database(
    context: RuntimeContext,
    call: Result<DatabaseCall, Seq<char>>,
    complaint: Seq<char>,
)
    ensures
        context.platform_services is None ==> is_error(
            resumed_database(context, call, complaint),
            "unavailable"@,
            "platform services not configured"@,
        ),
        context.platform_services is Some && !has_database(context) ==> is_error(
            resumed_database(context, call, complaint),
            "unavailable"@,
            "database service not configured"@,
        ),
{
}

/// The operators by their names. Any other name compares for equality.
pub proof fn operators_have_names(name: Seq<char>)
    ensures
        filter_op("eq"@) == FilterOp::Equal,
        filter_op("neq"@) == FilterOp::NotEqual,
        filter_op("gt"@) == FilterOp::GreaterThan,
        filter_op("gte"@) == FilterOp::GreaterEqual,
        filter_op("lt"@) == FilterOp::LessThan,
        filter_op("lte"@) == FilterOp::LessEqual,
        filter_op("like"@) == FilterOp::Like,
        filter_op("in"@) == FilterOp::In,
        name != "neq"@ && name != "gt"@ && name != "gte"@ && name != "lt"@ && name != "lte"@
            && name != "like"@ && name != "in"@ ==> filter_op(name) == FilterOp::Equal,
{
    reveal_strlit("eq");
    reveal_strlit("neq");
    reveal_strlit("gt");
    reveal_strlit("gte");
    reveal_strlit("lt");
    reveal_strlit("lte");
    reveal_strlit("like");
    reveal_strlit("in");
    assert("eq"@[0] == 'e' && "gt"@[0] == 'g' && "lt"@[0] == 'l' && "in"@[0] == 'i');
    assert("neq"@[0] == 'n' && "gte"@[0] == 'g' && "lte"@[0] == 'l');
    assert("eq"@.len() == 2 && "gt"@.len() == 2 && "lt"@.len() == 2 && "in"@.len() == 2);
    assert("neq"@.len() == 3 && "gte"@.len() == 3 && "lte"@.len() == 3 && "like"@.len() == 4);
}

/// List options are read one for one: each filter keeps its place, its field and
/// its value, and takes the operator of the name that it came with; each sort
/// field keeps its place and its direction; the bounds stay.
pub proof fn list_options_are_read_one_for_one(wire: WireListOptions, i: int)
    ensures
        wire.meaning().filters.len() == wire.filters@.len(),
        0 <= i < wire.filters@.len() ==> wire.meaning().filters[i].field
            == wire.filters@[i].field@ && wire.meaning().filters[i].operator == filter_op(
            wire.filters@[i].operator@,
        ) && wire.meaning().filters[i].value == wire.filters@[i].value,
        wire.meaning().sort.len() == wire.sort@.len(),
        0 <= i < wire.sort@.len() ==> wire.meaning().sort[i].field == wire.sort@[i].field@
            && wire.meaning().sort[i].desc == wire.sort@[i].desc,
        wire.meaning().limit == wire.limit,
        wire.meaning().offset == wire.offset,
{
}

/// Filters of a count are read one for one, as those of a listing are.
pub proof fn filters_are_read_one_for_one(filters: Seq<WireFilter>, i: int)
    ensures
        filters_meaning(filters).len() == filters.len(),
        0 <= i < filters.len() ==> filters_meaning(filters)[i].field == filters[i].field@
            && filters_meaning(filters)[i].operator == filter_op(filters[i].operator@)
            && filters_meaning(filters)[i].value == filters[i].value,
{
}

} // verus!
