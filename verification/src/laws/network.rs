//! What the command for the network does, and how its outcome is told.
use vstd::prelude::*;
use vstd::utf8::encode_utf8;

use crate::base64::{decode_inverts_encode, decoded};
use crate::context::{sent, RuntimeContext};
use crate::dispatch::{request_meaning, resumed_network};
use crate::json::{
    value_bytes, value_kind, value_of_number, value_of_object, value_of_text, KindView,
};
use crate::laws::names::{kind_is_prefix_and_name, kinds_are_prefix_and_name, other_names};
use crate::laws::terms::{has_network, is_error, is_response};
use crate::meta::{pairs_map, pairs_map_domain};
use crate::services::network::{Header, NetworkError, RequestView, Response};
use crate::services::ServiceCallView;
use crate::step::{first_values, network_reply_step, DecodeView, StepView};
use crate::types::MessageView;
use crate::wire::WireNetworkRequest;

verus! {

/// A request is read from the bytes of the message.
pub proof fn requests_are_read_first(context: RuntimeContext, msg: MessageView)
    requires
        has_network(context),
        msg.kind == "svc.network.do"@,
    ensures
        sent(context, msg) == StepView::Decode(DecodeView::NetworkRequest),
{
    kinds_are_prefix_and_name();
    other_names();
    kind_is_prefix_and_name(msg.kind, "network.do"@);
}

/// The network is sent the request that was read, and no other. What could not
/// be read is refused, with the reason; so is everything without a network.
pub proof fn the_request_that_was_read_is_sent(
    context: RuntimeContext,
    request: RequestView,
    text: Seq<char>,
    read: Result<RequestView, Seq<char>>,
)
    ensures
        has_network(context) ==> resumed_network(context, Ok(request)) == StepView::Call(
            ServiceCallView::Network(request),
        ),
        has_network(context) ==> is_error(
            resumed_network(context, Err(text)),
            "invalid_argument"@,
            "invalid network request: "@ + text,
        ),
        context.platform_services is None ==> is_error(
            resumed_network(context, read),
            "unavailable"@,
            "platform services not configured"@,
        ),
        context.platform_services is Some && !has_network(context) ==> is_error(
            resumed_network(context, read),
            "unavailable"@,
            "network service not configured"@,
        ),
{
}

/// A request goes out with the method, the address and the headers that the
/// guest wrote, whatever they are.
pub proof fn requests_keep_method_address_and_headers(wire: WireNetworkRequest)
    ensures
        request_meaning(wire).method == wire.method@,
        request_meaning(wire).url == wire.url@,
        request_meaning(wire).headers == wire.headers@,
{
}

/// A request carries the bytes of a text that the guest wrote as its body, or the
/// document of an array or an object. It carries nothing where the guest wrote no
/// body or some other value.
pub proof fn requests_carry_texts_and_documents(wire: WireNetworkRequest, text: Seq<char>)
    ensures
        wire.body is None ==> request_meaning(wire).body is None,
        wire.body is Some && value_kind(wire.body->0) == KindView::Text(text) ==> request_meaning(
            wire,
        ).body == Some(encode_utf8(text)),
        wire.body is Some && (value_kind(wire.body->0) is Array || value_kind(wire.body->0)
            is Object) ==> request_meaning(wire).body == Some(value_bytes(wire.body->0)),
        wire.body is Some && (value_kind(wire.body->0) is Null || value_kind(wire.body->0) is Bool
            || value_kind(wire.body->0) is Number) ==> request_meaning(wire).body is None,
{
}

/// A failed request is told with its text.
pub proof fn failed_requests_are_told(error: NetworkError)
    ensures
        is_error(network_reply_step(Err(error)), "internal"@, error.text@),
{
}

/// What a guest is told of a response is an object of three fields: the status,
/// the headers, and a text from which the body is decoded.
pub proof fn responses_are_told_whole(response: Response)
    ensures
        exists|fields: Map<Seq<char>, serde_json::Value>, body: Seq<char>|
            {
                &&& #[trigger] is_response(
                    network_reply_step(Ok(response)),
                    value_bytes(value_of_object(fields)),
                )
                &&& fields.dom() =~= set!["status_code"@, "headers"@, "body"@]
                &&& fields["status_code"@] == value_of_number(response.status_code as int)
                &&& fields["body"@] == #[trigger] value_of_text(body)
                &&& decoded(body) == Some(response.body@)
                &&& exists|headers: Map<Seq<char>, Seq<char>>|
                    fields["headers"@] == value_of_object(
                        headers.map_values(|t: Seq<char>| value_of_text(t)),
                    ) && #[trigger] tells_first_values(response.headers@, headers)
            },
{
    let fields = crate::step::response_fields(response);
    let body = crate::base64::encoded(response.body@);
    decode_inverts_encode(response.body@);
    reveal_strlit("status_code");
    reveal_strlit("headers");
    reveal_strlit("body");
    assert("status_code"@.len() == 11 && "headers"@.len() == 7 && "body"@.len() == 4);
    let headers = pairs_map(first_values(response.headers@));
    headers_are_told_by_their_first_value(response.headers@);
    assert(tells_first_values(response.headers@, headers));
    assert(is_response(network_reply_step(Ok(response)), value_bytes(value_of_object(fields))));
    assert(fields["body"@] == value_of_text(body));
    assert(fields["headers"@] == value_of_object(
        headers.map_values(|t: Seq<char>| value_of_text(t)),
    ));
}

/// The first value of a header, or no text where it has none.
pub open spec fn is_first_value(header: Header, text: Seq<char>) -> bool {
    if header.values@.len() > 0 {
        text == header.values@[0]@
    } else {
        text.len() == 0
    }
}

/// Whether a map has each header under its name, with its first value, and
/// nothing else. Of headers of one name the last counts.
pub open spec fn tells_first_values(
    headers: Seq<Header>,
    told: Map<Seq<char>, Seq<char>>,
) -> bool {
    &&& forall|name: Seq<char>| #[trigger]
        told.contains_key(name) ==> exists|i: int|
            0 <= i < headers.len() && #[trigger] headers[i].name@ == name
    &&& forall|i: int|
        0 <= i < headers.len() && (forall|j: int|
            i < j < headers.len() ==> #[trigger] headers[j].name@ != headers[i].name@)
            ==> told.contains_key(#[trigger] headers[i].name@) && is_first_value(
            headers[i],
            told[headers[i].name@],
        )
}

/// The headers of a response are told by their first values.
proof fn headers_are_told_by_their_first_value(headers: Seq<Header>)
    ensures
        tells_first_values(headers, pairs_map(first_values(headers))),
{
    let pairs = first_values(headers);
    let told = pairs_map(pairs);
    assert forall|name: Seq<char>| #[trigger] told.contains_key(name) implies exists|i: int|
        0 <= i < headers.len() && #[trigger] headers[i].name@ == name by {
        pairs_map_domain(pairs, name);
        let i = choose|i: int| 0 <= i < pairs.len() && #[trigger] pairs[i].0 == name;
        assert(headers[i].name@ == name);
    }
    assert forall|i: int|
        0 <= i < headers.len() && (forall|j: int|
            i < j < headers.len() ==> #[trigger] headers[j].name@
                != headers[i].name@) implies told.contains_key(#[trigger] headers[i].name@)
        && is_first_value(headers[i], told[headers[i].name@]) by {
        assert forall|j: int| i < j < pairs.len() implies #[trigger] pairs[j].0 != pairs[i].0 by {
            assert(headers[j].name@ != headers[i].name@);
        }
        crate::laws::metadata::the_last_pair_of_a_key_counts(pairs, i);
    }
}

} // verus!
