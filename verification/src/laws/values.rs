//! What the values of the library hold: each is its fields, none left out.
use vstd::prelude::*;

use crate::block::BlockInfo;
use crate::context::CapabilityInfo;
use crate::json::{object_content, Kind, KindView};
use crate::laws::terms::stands_under;
use crate::services::config::{ConfigCall, ConfigRequest};
use crate::services::crypto::{CryptoCall, CryptoError, CryptoRequest};
use crate::services::database::{DatabaseCall, DatabaseRequest, Filter, ListOptions, SortField};
use crate::services::network::Request;
use crate::services::storage::{
    ListOptions as StorageListOptions, StorageCall, StorageRequest,
};
use crate::services::{configured, ServiceCall, ServiceCallView, Services};
use crate::step::{Decode, DecodeView, LogLine, Step, StepView};
use crate::types::{Message, MessageView, Response, Result_, WaferError};
use crate::wasm::host::Refusal;
use crate::wasm::info::{InfoStep, InfoStepView};

verus! {

/// What a message has under a key is the value there, or no text at all.
pub proof fn metadata_is_looked_up_by_key(msg: MessageView, key: Seq<char>)
    ensures
        stands_under(msg, key, msg.get_meta(key)),
{
}

/// Messages, responses, errors and results are their fields.
pub proof fn messages_and_results_are_their_fields(
    msg: Message,
    response: Response,
    error: WaferError,
    result: Result_,
)
    ensures
        msg@.kind == msg.kind@,
        msg@.data == msg.data@,
        msg@.meta == msg.meta@,
        response@.data == response.data@,
        response@.meta == response.meta@,
        error@.code == error.code@,
        error@.message == error.message@,
        error@.meta == error.meta@,
        result@.action == result.action,
        result@.response is Some <==> result.response is Some,
        result.response is Some ==> result@.response->0 == result.response->0@,
        result@.error is Some <==> result.error is Some,
        result.error is Some ==> result@.error->0 == result.error->0@,
        result@.message is Some <==> result.message is Some,
        result.message is Some ==> result@.message->0 == result.message->0@,
{
}

/// A network request is its fields.
pub proof fn requests_are_their_fields(request: Request)
    ensures
        request@.method == request.method@,
        request@.url == request.url@,
        request@.headers == request.headers@,
        request@.body is Some <==> request.body is Some,
        request.body is Some ==> request@.body->0 == request.body->0@,
{
}

/// Options of listings are their fields, filters and sort fields one for one.
pub proof fn options_are_their_fields(
    options: ListOptions,
    filter: Filter,
    sort: SortField,
    objects: StorageListOptions,
    i: int,
)
    ensures
        options@.filters.len() == options.filters@.len(),
        0 <= i < options.filters@.len() ==> options@.filters[i] == options.filters@[i]@,
        options@.sort.len() == options.sort@.len(),
        0 <= i < options.sort@.len() ==> options@.sort[i] == options.sort@[i]@,
        options@.limit == options.limit,
        options@.offset == options.offset,
        filter@.field == filter.field@,
        filter@.operator == filter.operator,
        filter@.value == filter.value,
        sort@.field == sort.field@,
        sort@.desc == sort.desc,
        objects@.prefix == objects.prefix@,
        objects@.limit == objects.limit,
        objects@.offset == objects.offset,
{
}

/// Calls of the services are their fields.
pub proof fn calls_are_their_fields(
    database: DatabaseRequest,
    storage: StorageRequest,
    crypto: CryptoRequest,
    config: ConfigRequest,
    i: int,
)
    ensures
        database matches DatabaseRequest::Create { collection, data } ==> database@ == (
        DatabaseCall::Create { collection: collection@, data: object_content(data) }),
        database matches DatabaseRequest::Update { collection, id, data } ==> database@ == (
        DatabaseCall::Update { collection: collection@, id: id@, data: object_content(data) }),
        database matches DatabaseRequest::Count { collection, filters } ==> (
        database@ matches DatabaseCall::Count { collection: c, filters: f } && c == collection@
            && f.len() == filters@.len() && (0 <= i < f.len() ==> f[i] == filters@[i]@)),
        crypto matches CryptoRequest::Hash { password } ==> crypto@ == (CryptoCall::Hash {
            password: password@,
        }),
        crypto matches CryptoRequest::CompareHash { password, hash } ==> crypto@ == (
        CryptoCall::CompareHash { password: password@, hash: hash@ }),
        crypto matches CryptoRequest::Sign { claims, expiry_secs } ==> crypto@ == (
        CryptoCall::Sign { claims: object_content(claims), expiry_secs: expiry_secs as int }),
        crypto matches CryptoRequest::Verify { token } ==> crypto@ == (CryptoCall::Verify {
            token: token@,
        }),
        crypto matches CryptoRequest::RandomBytes { length } ==> crypto@ == (
        CryptoCall::RandomBytes { length: length as int }),
        database matches DatabaseRequest::Get { collection, id } ==> database@ == (
        DatabaseCall::Get { collection: collection@, id: id@ }),
        database matches DatabaseRequest::List { collection, options } ==> database@ == (
        DatabaseCall::List { collection: collection@, options: options@ }),
        database matches DatabaseRequest::Delete { collection, id } ==> database@ == (
        DatabaseCall::Delete { collection: collection@, id: id@ }),
        database matches DatabaseRequest::QueryRaw { query, args } ==> database@ == (
        DatabaseCall::QueryRaw { query: query@, args: args@ }),
        database matches DatabaseRequest::ExecRaw { query, args } ==> database@ == (
        DatabaseCall::ExecRaw { query: query@, args: args@ }),
        storage matches StorageRequest::Put { bucket, key, data, content_type } ==> storage@ == (
        StorageCall::Put {
            bucket: bucket@,
            key: key@,
            data: data@,
            content_type: content_type@,
        }),
        storage matches StorageRequest::Get { bucket, key } ==> storage@ == (StorageCall::Get {
            bucket: bucket@,
            key: key@,
        }),
        storage matches StorageRequest::Delete { bucket, key } ==> storage@ == (
        StorageCall::Delete { bucket: bucket@, key: key@ }),
        storage matches StorageRequest::List { bucket, options } ==> storage@ == (
        StorageCall::List { bucket: bucket@, options: options@ }),
        config matches ConfigRequest::Read { key } ==> config@ == (ConfigCall::Read { key: key@ }),
        config matches ConfigRequest::Write { key, value } ==> config@ == (ConfigCall::Write {
            key: key@,
            value: value@,
        }),
{
}

/// A step holds what it was made of.
pub proof fn steps_hold_what_they_are_made_of(step: Step, call: ServiceCall, line: LogLine)
    ensures
        step matches Step::Done(result) ==> step@ == StepView::Done(result@),
        step matches Step::Log(line) ==> step@ == StepView::Log(line@),
        step matches Step::Decode(decode) ==> step@ == StepView::Decode(decode@),
        step matches Step::Call(call) ==> step@ == StepView::Call(call@),
        step matches Step::Encode(payload) ==> step@ == StepView::Encode(payload),
        call matches ServiceCall::Database(request) ==> call@ == ServiceCallView::Database(
            request@,
        ),
        call matches ServiceCall::Storage(request) ==> call@ == ServiceCallView::Storage(request@),
        call matches ServiceCall::Crypto(request) ==> call@ == ServiceCallView::Crypto(request@),
        call matches ServiceCall::Network(request) ==> call@ == ServiceCallView::Network(request@),
        call matches ServiceCall::Config(request) ==> call@ == ServiceCallView::Config(request@),
        line@.severity == line.severity,
        line@.message == line.message@,
        line@.level is Some <==> line.level is Some,
        line.level is Some ==> line@.level->0 == line.level->0@,
{
}

/// A reading task names what is to be read and for which collection; the kind of
/// a JSON value is the one that it is.
pub proof fn tasks_and_kinds_are_what_they_name(decode: Decode, kind: Kind)
    ensures
        decode matches Decode::ListOptions { collection } ==> decode@ == (
        DecodeView::ListOptions { collection: collection@ }),
        decode matches Decode::Filters { collection } ==> decode@ == (DecodeView::Filters {
            collection: collection@,
        }),
        decode is Query ==> decode@ == DecodeView::Query,
        decode is Statement ==> decode@ == DecodeView::Statement,
        decode is NetworkRequest ==> decode@ == DecodeView::NetworkRequest,
        kind matches Kind::Text(text) ==> kind@ == KindView::Text(text@),
        kind is Null ==> kind@ == KindView::Null,
        kind is Bool ==> kind@ == KindView::Bool,
        kind is Number ==> kind@ == KindView::Number,
        kind is Array ==> kind@ == KindView::Array,
        kind is Object ==> kind@ == KindView::Object,
{
}

/// Self-descriptions, capabilities and refusals are their fields.
pub proof fn descriptions_are_their_fields(
    info: BlockInfo,
    capability: CapabilityInfo,
    refusal: Refusal,
    step: InfoStep,
)
    ensures
        info@.name == info.name@,
        info@.version == info.version@,
        info@.interface == info.interface@,
        info@.summary == info.summary@,
        info@.instance_mode == info.instance_mode,
        info@.allowed_modes == info.allowed_modes@,
        info@.admin_ui is Some <==> info.admin_ui is Some,
        info.admin_ui is Some ==> info@.admin_ui->0 == info.admin_ui->0@,
        capability@.kind == capability.kind@,
        capability@.summary == capability.summary@,
        capability@.input == capability.input,
        capability@.output == capability.output,
        refusal@.code == refusal.code@,
        refusal@.message == refusal.message@,
        step matches InfoStep::Known(known) ==> step@ == InfoStepView::Known(known@),
        step is Ask ==> step@ == InfoStepView::Ask,
{
}

/// A platform has the services that it holds.
pub proof fn platforms_have_what_they_hold(services: Services)
    ensures
        configured(services).database <==> services.database is Some,
        configured(services).storage <==> services.storage is Some,
        configured(services).crypto <==> services.crypto is Some,
        configured(services).config <==> services.config is Some,
        configured(services).network <==> services.network is Some,
{
}

/// The text of a cryptographic failure is the one that it came with.
pub proof fn failures_have_their_text(text: String)
    ensures
        CryptoError::PasswordMismatch(text).text() == text@,
        CryptoError::Other(text).text() == text@,
{
}

} // verus!
