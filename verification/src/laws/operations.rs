//! What the operations of a context do, from what they are given to what they
//! return.
use vstd::prelude::*;
use vstd::utf8::encode_utf8;

use crate::context::{
    decide_cancelled, found_cancelled, sent, CapabilityInfo, RuntimeContext,
};
use crate::dispatch::{into_request, performed, plan_command};
use crate::json::{value_bytes, value_kind, KindView};
use crate::laws::database::{filters_are_read_one_for_one, list_options_are_read_one_for_one};
use crate::laws::names::kind_is_prefix_and_name;
use crate::laws::terms::{has_database, has_network, is_error};
use crate::meta::Meta;
use crate::services::database::DatabaseCall;
use crate::services::network::Request;
use crate::services::{configured, Configured, ServiceCall, ServiceCallView, Services};
use crate::step::{Step, StepView};
use crate::types::{Message, MessageView};
use crate::wire::{filter_op, RawQuery, WireFilter, WireListOptions, WireNetworkRequest};

verus! {

/// Sending a message leads to the step that is said of the message.
pub proof fn sending_leads_to_the_step(context: &RuntimeContext, msg: &Message, r: Step)
    requires
        call_ensures(RuntimeContext::send, (context, msg), r),
    ensures
        r@ == sent(*context, msg@),
{
}

/// Dispatching a command leads to what sending a message of its kind leads to.
pub proof fn dispatching_is_sending(
    context: &RuntimeContext,
    svc_kind: &str,
    msg: &Message,
    r: Step,
)
    requires
        call_ensures(RuntimeContext::dispatch_service, (context, svc_kind, msg), r),
    ensures
        r@ == sent(*context, (MessageView { kind: "svc."@ + svc_kind@, ..msg@ })),
{
    let whole = MessageView { kind: "svc."@ + svc_kind@, ..msg@ };
    kind_is_prefix_and_name(whole.kind, svc_kind@);
    assert forall|key: Seq<char>| #[trigger] whole.get_meta(key) == msg@.get_meta(key) by {}
}

/// Planning a command leads to what sending a message of its kind leads to in any
/// context that has these services and this configuration.
pub proof fn planning_is_sending(
    context: RuntimeContext,
    given: Configured,
    node_config: &Meta,
    svc_kind: &str,
    msg: &Message,
    r: Step,
)
    requires
        call_ensures(plan_command, (given, node_config, svc_kind, msg), r),
        context.platform_services is Some,
        given == configured(*context.platform_services->0),
        node_config@ == context.config@,
    ensures
        r@ == sent(context, (MessageView { kind: "svc."@ + svc_kind@, ..msg@ })),
{
    let whole = MessageView { kind: "svc."@ + svc_kind@, ..msg@ };
    kind_is_prefix_and_name(whole.kind, svc_kind@);
    assert forall|key: Seq<char>| #[trigger] whole.get_meta(key) == msg@.get_meta(key) by {}
}

/// Performing a call asks the service just this.
pub proof fn performing_asks_the_service(context: &RuntimeContext, call: ServiceCall, r: Step)
    requires
        call_ensures(RuntimeContext::perform, (context, call), r),
    ensures
        performed(*context, call@, r@),
{
}

/// A query that was read leads to a call of the database with its own text and
/// with its arguments, each at its place.
pub proof fn queries_are_run_as_they_were_read(
    context: &RuntimeContext,
    query: Result<RawQuery, String>,
    r: Step,
    i: int,
)
    requires
        has_database(*context),
        call_ensures(RuntimeContext::query_raw, (context, query), r),
    ensures
        query matches Ok(raw) ==> (r@ matches StepView::Call(
            ServiceCallView::Database(DatabaseCall::QueryRaw { query: text, args }),
        ) && text == raw.query@ && args.len() == raw.args@.len() && (0 <= i < args.len() ==> args[i]
            == raw.args@[i])),
        query matches Err(text) ==> is_error(
            r@,
            "invalid_argument"@,
            "invalid query: "@ + text@,
        ),
{
}

/// A statement that was read leads to a call of the database with its own text
/// and with its arguments, each at its place.
pub proof fn statements_are_run_as_they_were_read(
    context: &RuntimeContext,
    statement: Result<RawQuery, String>,
    r: Step,
    i: int,
)
    requires
        has_database(*context),
        call_ensures(RuntimeContext::exec_raw, (context, statement), r),
    ensures
        statement matches Ok(raw) ==> (r@ matches StepView::Call(
            ServiceCallView::Database(DatabaseCall::ExecRaw { query: text, args }),
        ) && text == raw.query@ && args.len() == raw.args@.len() && (0 <= i < args.len() ==> args[i]
            == raw.args@[i])),
        statement matches Err(text) ==> is_error(
            r@,
            "invalid_argument"@,
            "invalid query: "@ + text@,
        ),
{
}

/// A listing whose options were read leads to a call of the database for the
/// collection, with each filter and each sort field at its place and with the
/// bounds.
pub proof fn listings_are_asked_for_as_they_were_read(
    context: &RuntimeContext,
    collection: &str,
    options: Result<WireListOptions, String>,
    r: Step,
    i: int,
)
    requires
        has_database(*context),
        call_ensures(RuntimeContext::list_records, (context, collection, options), r),
    ensures
        options matches Ok(wire) ==> (r@ matches StepView::Call(
            ServiceCallView::Database(DatabaseCall::List { collection: c, options: o }),
        ) && c == collection@ && o.filters.len() == wire.filters@.len() && (0 <= i
            < o.filters.len() ==> o.filters[i].field == wire.filters@[i].field@
            && o.filters[i].operator == filter_op(wire.filters@[i].operator@)
            && o.filters[i].value == wire.filters@[i].value) && o.sort.len() == wire.sort@.len()
            && (0 <= i < o.sort.len() ==> o.sort[i].field == wire.sort@[i].field@
            && o.sort[i].desc == wire.sort@[i].desc) && o.limit == wire.limit && o.offset
            == wire.offset),
        options matches Err(text) ==> is_error(
            r@,
            "invalid_argument"@,
            "invalid list options: "@ + text@,
        ),
{
    if options is Ok {
        list_options_are_read_one_for_one(options->Ok_0, i);
    }
}

/// A count whose filters were read leads to a call of the database for the
/// collection, with each filter at its place.
pub proof fn counts_are_asked_for_as_they_were_read(
    context: &RuntimeContext,
    collection: &str,
    filters: Result<Vec<WireFilter>, String>,
    r: Step,
    i: int,
)
    requires
        has_database(*context),
        call_ensures(RuntimeContext::count_records, (context, collection, filters), r),
    ensures
        filters matches Ok(wire) ==> (r@ matches StepView::Call(
            ServiceCallView::Database(DatabaseCall::Count { collection: c, filters: f }),
        ) && c == collection@ && f.len() == wire@.len() && (0 <= i < f.len() ==> f[i].field
            == wire@[i].field@ && f[i].operator == filter_op(wire@[i].operator@) && f[i].value
            == wire@[i].value)),
        filters matches Err(text) ==> is_error(
            r@,
            "invalid_argument"@,
            "invalid filters: "@ + text@,
        ),
{
    if filters is Ok {
        filters_are_read_one_for_one(filters->Ok_0@, i);
    }
}

/// A request that was read leads to a call of the network with its own method,
/// address and headers, and with the body that was written.
pub proof fn requests_are_made_as_they_were_read(
    context: &RuntimeContext,
    request: Result<WireNetworkRequest, String>,
    r: Step,
    text: Seq<char>,
)
    requires
        has_network(*context),
        call_ensures(RuntimeContext::network_do, (context, request), r),
    ensures
        request matches Ok(wire) ==> (r@ matches StepView::Call(ServiceCallView::Network(sent_out))
            && sent_out.method == wire.method@ && sent_out.url == wire.url@ && sent_out.headers
            == wire.headers@ && {
            &&& wire.body is None ==> sent_out.body is None
            &&& wire.body is Some && value_kind(wire.body->0) == KindView::Text(text)
                ==> sent_out.body == Some(encode_utf8(text))
            &&& wire.body is Some && (value_kind(wire.body->0) is Array || value_kind(wire.body->0)
                is Object) ==> sent_out.body == Some(value_bytes(wire.body->0))
            &&& wire.body is Some && (value_kind(wire.body->0) is Null || value_kind(wire.body->0)
                is Bool || value_kind(wire.body->0) is Number) ==> sent_out.body is None
        }),
        request matches Err(why) ==> is_error(
            r@,
            "invalid_argument"@,
            "invalid network request: "@ + why@,
        ),
{
}

/// The request that a guest wrote is read with its own method, address and
/// headers, and with a body exactly where it carries one.
pub proof fn requests_are_read_as_they_were_written(wire: WireNetworkRequest, r: Request)
    requires
        call_ensures(into_request, (wire,), r),
    ensures
        r.method@ == wire.method@,
        r.url@ == wire.url@,
        r.headers@ == wire.headers@,
        r.body is Some <==> wire.body is Some && (value_kind(wire.body->0) is Text || value_kind(
            wire.body->0,
        ) is Array || value_kind(wire.body->0) is Object),
        r.body is Some && value_kind(wire.body->0) is Text ==> r.body->0@ == encode_utf8(
            value_kind(wire.body->0)->Text_0,
        ),
        r.body is Some && !(value_kind(wire.body->0) is Text) ==> r.body->0@ == value_bytes(
            wire.body->0,
        ),
{
    assert(r@.method == r.method@);
    assert(r@.body is Some <==> r.body is Some);
}

/// A context says that it is cancelled as its flag and the clock have it.
pub proof fn contexts_say_whether_they_are_cancelled(context: &RuntimeContext, r: bool)
    requires
        call_ensures(RuntimeContext::is_cancelled, (context,), r),
    ensures
        found_cancelled(*context, r),
{
}

/// A raised flag cancels, and so does a deadline that is reached; the flag is to
/// be raised where it is not and the deadline is reached.
pub proof fn flags_and_deadlines_decide(flag: bool, reached: Option<bool>, r: (bool, bool))
    requires
        call_ensures(decide_cancelled, (flag, reached), r),
    ensures
        r.0 <==> flag || reached == Some(true),
        r.1 <==> !flag && reached == Some(true),
{
}

/// A context gives the values of its node configuration, and those alone.
pub proof fn contexts_give_their_configuration(
    context: &RuntimeContext,
    key: &str,
    r: Option<&str>,
)
    requires
        call_ensures(RuntimeContext::config_get, (context, key), r),
    ensures
        r is Some <==> context.config@.contains_key(key@),
        r is Some ==> r->0@ == context.config@[key@],
{
}

/// A context gives the services of its platform, where it has one.
pub proof fn contexts_give_their_services(context: &RuntimeContext, r: Option<&Services>)
    requires
        call_ensures(RuntimeContext::services, (context,), r),
    ensures
        r is Some <==> context.platform_services is Some,
        r is Some ==> *r->0 == *context.platform_services->0,
{
}

/// A context lists logging and the look-up of a key as its own capabilities.
pub proof fn contexts_list_their_capabilities(context: &RuntimeContext, r: Vec<CapabilityInfo>)
    requires
        call_ensures(RuntimeContext::capabilities, (context,), r),
    ensures
        r@.len() == 2,
        r@[0].kind@ == "log"@,
        r@[0].summary@ == "Write log message"@,
        r@[1].kind@ == "config.get"@,
        r@[1].summary@ == "Get configuration value"@,
        forall|i: int|
            0 <= i < 2 ==> (#[trigger] r@[i]).input is None && r@[i].output is None,
{
    let views = r@.map_values(|c: CapabilityInfo| c@);
    assert(views.len() == 2);
    assert(views[0] == r@[0]@);
    assert(views[1] == r@[1]@);
}

/// Which services a platform has is what it holds.
pub proof fn platforms_say_what_they_hold(services: &Services, r: Configured)
    requires
        call_ensures(Services::configured, (services,), r),
    ensures
        r.database <==> services.database is Some,
        r.storage <==> services.storage is Some,
        r.crypto <==> services.crypto is Some,
        r.config <==> services.config is Some,
        r.network <==> services.network is Some,
{
}

} // verus!
